//! A builder over the default workload: each setter overrides one field,
//! unset fields keep their canonical default values, and finishing never
//! fails.
use vstd::prelude::*;

use crate::model::Distribution;
use crate::model::HistogramConfig;
use crate::model::InsertOrder;
use crate::model::MeasurementType;
use crate::model::Proportion;
use crate::model::TimeseriesConfig;
use crate::model::Workload;
use crate::model::WorkloadView;
use crate::model::spec_default;

verus! {

/// Accumulates field overrides atop the default workload.
pub struct WorkloadBuilder {
    w: Workload,
}

impl View for WorkloadBuilder {
    type V = WorkloadView;

    closed spec fn view(&self) -> WorkloadView {
        self.w@
    }
}

impl Default for WorkloadBuilder {
    /// A builder with no overrides: it builds the default workload.
    fn default() -> (r: WorkloadBuilder)
        ensures
            r@ == spec_default(),
    {
        WorkloadBuilder { w: Workload::default() }
    }
}

impl WorkloadBuilder {
    /// Finishes the build; every field not overridden holds its default.
    pub fn build(self) -> (r: Workload)
        ensures
            r@ == self@,
    {
        self.w
    }

    /// Overrides the workload class name.
    pub fn workload(self, value: &str) -> (r: WorkloadBuilder)
        ensures
            r@ == (WorkloadView { workload: value@, ..self@ }),
    {
        let mut w = self.w;
        w.workload = value.to_owned();
        WorkloadBuilder { w }
    }

    /// Overrides the record count.
    pub fn record_count(self, value: u64) -> (r: WorkloadBuilder)
        ensures
            r@ == (WorkloadView { record_count: value, ..self@ }),
    {
        let mut w = self.w;
        w.record_count = value;
        WorkloadBuilder { w }
    }

    /// Overrides the operation count.
    pub fn operation_count(self, value: u64) -> (r: WorkloadBuilder)
        ensures
            r@ == (WorkloadView { operation_count: value, ..self@ }),
    {
        let mut w = self.w;
        w.operation_count = value;
        WorkloadBuilder { w }
    }

    /// Overrides the thread count.
    pub fn thread_count(self, value: u64) -> (r: WorkloadBuilder)
        ensures
            r@ == (WorkloadView { thread_count: value, ..self@ }),
    {
        let mut w = self.w;
        w.thread_count = value;
        WorkloadBuilder { w }
    }

    /// Overrides the insert count.
    pub fn insert_count(self, value: u64) -> (r: WorkloadBuilder)
        ensures
            r@ == (WorkloadView { insert_count: value, ..self@ }),
    {
        let mut w = self.w;
        w.insert_count = value;
        WorkloadBuilder { w }
    }

    /// Overrides the insert offset.
    pub fn insert_start(self, value: u64) -> (r: WorkloadBuilder)
        ensures
            r@ == (WorkloadView { insert_start: value, ..self@ }),
    {
        let mut w = self.w;
        w.insert_start = value;
        WorkloadBuilder { w }
    }

    /// Overrides the field count.
    pub fn field_count(self, value: u64) -> (r: WorkloadBuilder)
        ensures
            r@ == (WorkloadView { field_count: value, ..self@ }),
    {
        let mut w = self.w;
        w.field_count = value;
        WorkloadBuilder { w }
    }

    /// Overrides the field length.
    pub fn field_length(self, value: u64) -> (r: WorkloadBuilder)
        ensures
            r@ == (WorkloadView { field_length: value, ..self@ }),
    {
        let mut w = self.w;
        w.field_length = value;
        WorkloadBuilder { w }
    }

    /// Overrides whether reads return all fields.
    pub fn read_all_fields(self, value: bool) -> (r: WorkloadBuilder)
        ensures
            r@ == (WorkloadView { read_all_fields: value, ..self@ }),
    {
        let mut w = self.w;
        w.read_all_fields = value;
        WorkloadBuilder { w }
    }

    /// Overrides whether updates write all fields.
    pub fn write_all_fields(self, value: bool) -> (r: WorkloadBuilder)
        ensures
            r@ == (WorkloadView { write_all_fields: value, ..self@ }),
    {
        let mut w = self.w;
        w.write_all_fields = value;
        WorkloadBuilder { w }
    }

    /// Overrides the field-length distribution.
    pub fn field_length_distribution(self, value: Distribution) -> (r: WorkloadBuilder)
        ensures
            r@ == (WorkloadView { field_length_distribution: value, ..self@ }),
    {
        let mut w = self.w;
        w.field_length_distribution = value;
        WorkloadBuilder { w }
    }

    /// Overrides the read proportion.
    pub fn read_proportion(self, value: Proportion) -> (r: WorkloadBuilder)
        ensures
            r@ == (WorkloadView { read_proportion: value, ..self@ }),
    {
        let mut w = self.w;
        w.read_proportion = value;
        WorkloadBuilder { w }
    }

    /// Overrides the update proportion.
    pub fn update_proportion(self, value: Proportion) -> (r: WorkloadBuilder)
        ensures
            r@ == (WorkloadView { update_proportion: value, ..self@ }),
    {
        let mut w = self.w;
        w.update_proportion = value;
        WorkloadBuilder { w }
    }

    /// Overrides the insert proportion.
    pub fn insert_proportion(self, value: Proportion) -> (r: WorkloadBuilder)
        ensures
            r@ == (WorkloadView { insert_proportion: value, ..self@ }),
    {
        let mut w = self.w;
        w.insert_proportion = value;
        WorkloadBuilder { w }
    }

    /// Overrides the read-modify-write proportion.
    pub fn read_modify_write_proportion(self, value: Proportion) -> (r: WorkloadBuilder)
        ensures
            r@ == (WorkloadView { read_modify_write_proportion: value, ..self@ }),
    {
        let mut w = self.w;
        w.read_modify_write_proportion = value;
        WorkloadBuilder { w }
    }

    /// Overrides the scan proportion.
    pub fn scan_proportion(self, value: Proportion) -> (r: WorkloadBuilder)
        ensures
            r@ == (WorkloadView { scan_proportion: value, ..self@ }),
    {
        let mut w = self.w;
        w.scan_proportion = value;
        WorkloadBuilder { w }
    }

    /// Overrides the maximum scan length.
    pub fn max_scan_length(self, value: u64) -> (r: WorkloadBuilder)
        ensures
            r@ == (WorkloadView { max_scan_length: value, ..self@ }),
    {
        let mut w = self.w;
        w.max_scan_length = value;
        WorkloadBuilder { w }
    }

    /// Overrides the scan-length distribution.
    pub fn scan_length_distribution(self, value: Distribution) -> (r: WorkloadBuilder)
        ensures
            r@ == (WorkloadView { scan_length_distribution: value, ..self@ }),
    {
        let mut w = self.w;
        w.scan_length_distribution = value;
        WorkloadBuilder { w }
    }

    /// Overrides the insert order.
    pub fn insert_order(self, value: InsertOrder) -> (r: WorkloadBuilder)
        ensures
            r@ == (WorkloadView { insert_order: value, ..self@ }),
    {
        let mut w = self.w;
        w.insert_order = value;
        WorkloadBuilder { w }
    }

    /// Overrides the request distribution.
    pub fn request_distribution(self, value: Distribution) -> (r: WorkloadBuilder)
        ensures
            r@ == (WorkloadView { request_distribution: value, ..self@ }),
    {
        let mut w = self.w;
        w.request_distribution = value;
        WorkloadBuilder { w }
    }

    /// Overrides the hot-set data fraction.
    pub fn hotspot_data_fraction(self, value: Proportion) -> (r: WorkloadBuilder)
        ensures
            r@ == (WorkloadView { hotspot_data_fraction: value, ..self@ }),
    {
        let mut w = self.w;
        w.hotspot_data_fraction = value;
        WorkloadBuilder { w }
    }

    /// Overrides the hot-set operation fraction.
    pub fn hotspot_operation_fraction(self, value: Proportion) -> (r: WorkloadBuilder)
        ensures
            r@ == (WorkloadView { hotspot_operation_fraction: value, ..self@ }),
    {
        let mut w = self.w;
        w.hotspot_operation_fraction = value;
        WorkloadBuilder { w }
    }

    /// Overrides the maximum execution time, in whole seconds.
    pub fn max_execution_time(self, value: u64) -> (r: WorkloadBuilder)
        ensures
            r@ == (WorkloadView { max_execution_time: value, ..self@ }),
    {
        let mut w = self.w;
        w.max_execution_time = value;
        WorkloadBuilder { w }
    }

    /// Overrides the table name.
    pub fn table(self, value: &str) -> (r: WorkloadBuilder)
        ensures
            r@ == (WorkloadView { table: value@, ..self@ }),
    {
        let mut w = self.w;
        w.table = value.to_owned();
        WorkloadBuilder { w }
    }

    /// Overrides the column family.
    pub fn column_family(self, value: &str) -> (r: WorkloadBuilder)
        ensures
            r@ == (WorkloadView { column_family: value@, ..self@ }),
    {
        let mut w = self.w;
        w.column_family = value.to_owned();
        WorkloadBuilder { w }
    }

    /// Overrides the measurement type.
    pub fn measurement_type(self, value: MeasurementType) -> (r: WorkloadBuilder)
        ensures
            r@ == (WorkloadView { measurement_type: value, ..self@ }),
    {
        let mut w = self.w;
        w.measurement_type = value;
        WorkloadBuilder { w }
    }

    /// Overrides the histogram configuration.
    pub fn histogram(self, value: HistogramConfig) -> (r: WorkloadBuilder)
        ensures
            r@ == (WorkloadView { histogram: value, ..self@ }),
    {
        let mut w = self.w;
        w.histogram = value;
        WorkloadBuilder { w }
    }

    /// Overrides the time-series configuration.
    pub fn timeseries(self, value: TimeseriesConfig) -> (r: WorkloadBuilder)
        ensures
            r@ == (WorkloadView { timeseries: value, ..self@ }),
    {
        let mut w = self.w;
        w.timeseries = value;
        WorkloadBuilder { w }
    }
}

} // verus!
