//! The six published preset profiles: each takes the default workload and
//! overrides only the fields its reference definition specifies.
use vstd::prelude::*;

use crate::builder::WorkloadBuilder;
use crate::model::Distribution;
use crate::model::Proportion;
use crate::model::Workload;
use crate::model::WorkloadView;
use crate::model::spec_default;

verus! {

impl Workload {
    /// Preset A, update heavy: half reads and half updates over a uniform
    /// request distribution.
    pub fn a(record_count: u64, operation_count: u64) -> (r: Workload)
        ensures
            r@ == (WorkloadView {
                record_count,
                operation_count,
                read_all_fields: true,
                read_proportion: Proportion { micros: 500000 },
                update_proportion: Proportion { micros: 500000 },
                insert_proportion: Proportion { micros: 0 },
                scan_proportion: Proportion { micros: 0 },
                request_distribution: Distribution::Uniform,
                ..spec_default()
            }),
    {
        WorkloadBuilder::default()
            .record_count(record_count)
            .operation_count(operation_count)
            .read_all_fields(true)
            .insert_proportion(Proportion::zero())
            .read_proportion(Proportion::from_micros(500000))
            .scan_proportion(Proportion::zero())
            .update_proportion(Proportion::from_micros(500000))
            .request_distribution(Distribution::Uniform)
            .build()
    }

    /// Preset B, read mostly: ninety-five percent reads and five percent
    /// updates over a uniform request distribution.
    pub fn b(record_count: u64, operation_count: u64) -> (r: Workload)
        ensures
            r@ == (WorkloadView {
                record_count,
                operation_count,
                read_all_fields: true,
                read_proportion: Proportion { micros: 950000 },
                update_proportion: Proportion { micros: 50000 },
                insert_proportion: Proportion { micros: 0 },
                scan_proportion: Proportion { micros: 0 },
                request_distribution: Distribution::Uniform,
                ..spec_default()
            }),
    {
        WorkloadBuilder::default()
            .record_count(record_count)
            .operation_count(operation_count)
            .read_all_fields(true)
            .insert_proportion(Proportion::zero())
            .read_proportion(Proportion::from_micros(950000))
            .scan_proportion(Proportion::zero())
            .update_proportion(Proportion::from_micros(50000))
            .request_distribution(Distribution::Uniform)
            .build()
    }

    /// Preset C, read only, over a uniform request distribution.
    pub fn c(record_count: u64, operation_count: u64) -> (r: Workload)
        ensures
            r@ == (WorkloadView {
                record_count,
                operation_count,
                read_all_fields: true,
                read_proportion: Proportion { micros: 1000000 },
                update_proportion: Proportion { micros: 0 },
                insert_proportion: Proportion { micros: 0 },
                scan_proportion: Proportion { micros: 0 },
                request_distribution: Distribution::Uniform,
                ..spec_default()
            }),
    {
        WorkloadBuilder::default()
            .record_count(record_count)
            .operation_count(operation_count)
            .read_all_fields(true)
            .insert_proportion(Proportion::zero())
            .read_proportion(Proportion::one())
            .scan_proportion(Proportion::zero())
            .update_proportion(Proportion::zero())
            .request_distribution(Distribution::Uniform)
            .build()
    }

    /// Preset D, read latest: ninety-five percent reads and five percent
    /// inserts, biased towards recently inserted records.
    pub fn d(record_count: u64, operation_count: u64) -> (r: Workload)
        ensures
            r@ == (WorkloadView {
                record_count,
                operation_count,
                read_all_fields: true,
                read_proportion: Proportion { micros: 950000 },
                update_proportion: Proportion { micros: 0 },
                insert_proportion: Proportion { micros: 50000 },
                scan_proportion: Proportion { micros: 0 },
                request_distribution: Distribution::Latest,
                ..spec_default()
            }),
    {
        WorkloadBuilder::default()
            .record_count(record_count)
            .operation_count(operation_count)
            .read_all_fields(true)
            .insert_proportion(Proportion::from_micros(50000))
            .read_proportion(Proportion::from_micros(950000))
            .scan_proportion(Proportion::zero())
            .update_proportion(Proportion::zero())
            .request_distribution(Distribution::Latest)
            .build()
    }

    /// Preset E, short ranges: ninety-five percent scans and five percent
    /// inserts, with single-record scans over a uniform distribution.
    pub fn e(record_count: u64, operation_count: u64) -> (r: Workload)
        ensures
            r@ == (WorkloadView {
                record_count,
                operation_count,
                read_all_fields: true,
                read_proportion: Proportion { micros: 0 },
                update_proportion: Proportion { micros: 0 },
                insert_proportion: Proportion { micros: 50000 },
                scan_proportion: Proportion { micros: 950000 },
                request_distribution: Distribution::Uniform,
                max_scan_length: 1,
                scan_length_distribution: Distribution::Uniform,
                ..spec_default()
            }),
    {
        WorkloadBuilder::default()
            .record_count(record_count)
            .operation_count(operation_count)
            .read_all_fields(true)
            .insert_proportion(Proportion::from_micros(50000))
            .read_proportion(Proportion::zero())
            .scan_proportion(Proportion::from_micros(950000))
            .update_proportion(Proportion::zero())
            .request_distribution(Distribution::Uniform)
            .max_scan_length(1)
            .scan_length_distribution(Distribution::Uniform)
            .build()
    }

    /// Preset F, read-modify-write: half reads and half read-modify-write
    /// cycles over a uniform request distribution.
    pub fn f(record_count: u64, operation_count: u64) -> (r: Workload)
        ensures
            r@ == (WorkloadView {
                record_count,
                operation_count,
                read_all_fields: true,
                read_proportion: Proportion { micros: 500000 },
                update_proportion: Proportion { micros: 0 },
                insert_proportion: Proportion { micros: 0 },
                read_modify_write_proportion: Proportion { micros: 500000 },
                scan_proportion: Proportion { micros: 0 },
                request_distribution: Distribution::Uniform,
                ..spec_default()
            }),
    {
        WorkloadBuilder::default()
            .record_count(record_count)
            .operation_count(operation_count)
            .read_all_fields(true)
            .insert_proportion(Proportion::zero())
            .read_modify_write_proportion(Proportion::from_micros(500000))
            .read_proportion(Proportion::from_micros(500000))
            .scan_proportion(Proportion::zero())
            .update_proportion(Proportion::zero())
            .request_distribution(Distribution::Uniform)
            .build()
    }
}

} // verus!
