//! The workload configuration model: enumerations, fixed-point proportions,
//! measurement sub-configurations, and the aggregate `Workload` value.
use vstd::prelude::*;

verus! {

/// Statistical pattern used by an external sampler to choose keys,
/// field lengths, or scan lengths.
#[derive(Clone, Copy, Debug, PartialEq, Eq, Structural, PartialOrd, Ord)]
pub enum Distribution {
    Constant,
    Uniform,
    Zipfian,
    Latest,
}

/// Whether record insertion keys are assigned sequentially or pseudo-randomly.
#[derive(Clone, Copy, Debug, PartialEq, Eq, Structural, PartialOrd, Ord)]
pub enum InsertOrder {
    Hashed,
    Ordered,
}

/// How the external engine reports latency measurements.
#[derive(Clone, Copy, Debug, PartialEq, Eq, Structural, PartialOrd, Ord)]
pub enum MeasurementType {
    Histogram,
    Timeseries,
    Raw,
}

/// One millionth, the resolution of a `Proportion`.
pub const PROPORTION_UNIT: u32 = 1000000;

/// A probability in `[0, 1]`, held as a fixed-point count of millionths.
///
/// `micros == 950000` stands for `0.95`; `micros == PROPORTION_UNIT` is `1.0`.
#[derive(Clone, Copy, Debug, PartialEq, Eq, Structural, PartialOrd, Ord)]
pub struct Proportion {
    pub micros: u32,
}

impl Proportion {
    /// A proportion is well formed when it does not exceed `1.0`.
    pub open spec fn wf(self) -> bool {
        self.micros <= PROPORTION_UNIT
    }

    /// The proportion `micros / 1000000`.
    pub fn from_micros(micros: u32) -> (r: Proportion)
        requires
            micros <= PROPORTION_UNIT,
        ensures
            r.micros == micros,
            r.wf(),
    {
        Proportion { micros }
    }

    /// The proportion `0.0`.
    pub fn zero() -> (r: Proportion)
        ensures
            r.micros == 0,
            r.wf(),
    {
        Proportion { micros: 0 }
    }

    /// The proportion `1.0`.
    pub fn one() -> (r: Proportion)
        ensures
            r.micros == PROPORTION_UNIT,
            r.wf(),
    {
        Proportion { micros: PROPORTION_UNIT }
    }
}

/// Latency histogram reporting: the width of the tracked range, in whole
/// milliseconds.
#[derive(Clone, Copy, Debug, PartialEq, Eq, Structural, PartialOrd, Ord)]
pub struct HistogramConfig {
    /// The range of latencies to track in the histogram (milliseconds).
    pub buckets: u64,
}

impl HistogramConfig {
    /// A histogram configuration tracking `buckets` milliseconds.
    pub fn new(buckets: u64) -> (r: HistogramConfig)
        ensures
            r.buckets == buckets,
    {
        HistogramConfig { buckets }
    }
}

/// Time-series latency reporting: the sampling interval, in whole
/// milliseconds.
#[derive(Clone, Copy, Debug, PartialEq, Eq, Structural, PartialOrd, Ord)]
pub struct TimeseriesConfig {
    /// Granularity for time series (milliseconds).
    pub granularity: u64,
}

impl TimeseriesConfig {
    /// A time-series configuration sampling every `granularity` milliseconds.
    pub fn new(granularity: u64) -> (r: TimeseriesConfig)
        ensures
            r.granularity == granularity,
    {
        TimeseriesConfig { granularity }
    }
}

/// The complete set of parameters describing a benchmark run: data size,
/// operation mix, and key/field access patterns.  Immutable once constructed.
#[derive(Clone, Debug)]
pub struct Workload {
    /// The name of the workload class to use.
    pub workload: String,
    /// The number of records inserted during the load phase, or already in
    /// the table before the run phase.
    pub record_count: u64,
    /// The number of operations to use during the run phase.
    pub operation_count: u64,
    /// The number of threads.
    pub thread_count: u64,
    /// The number of insertions to do, if different from `record_count`.
    /// Used with `insert_start` to grow an existing table; zero means
    /// "use `record_count`".
    pub insert_count: u64,
    /// The offset of the first insertion.
    pub insert_start: u64,
    /// The number of fields in a record.
    pub field_count: u64,
    /// The size of each field, in bytes.
    pub field_length: u64,
    /// Whether a read returns all fields.
    pub read_all_fields: bool,
    /// Whether an update writes all fields.
    pub write_all_fields: bool,
    /// The distribution used to choose the length of a field.
    pub field_length_distribution: Distribution,
    /// What proportion of operations are reads.
    pub read_proportion: Proportion,
    /// What proportion of operations are updates.
    pub update_proportion: Proportion,
    /// What proportion of operations are inserts.
    pub insert_proportion: Proportion,
    /// What proportion of operations read then modify a record.
    pub read_modify_write_proportion: Proportion,
    /// What proportion of operations are scans.
    pub scan_proportion: Proportion,
    /// On a single scan, the maximum number of records to access.
    pub max_scan_length: u64,
    /// The distribution used to choose the number of records a scan accesses.
    pub scan_length_distribution: Distribution,
    /// Whether records are inserted in order or pseudo-randomly.
    pub insert_order: InsertOrder,
    /// The distribution of requests across the keyspace.
    pub request_distribution: Distribution,
    /// Fraction of data items that constitute the hot set.  Serialized under
    /// the historical wire key `readcount`.
    pub hotspot_data_fraction: Proportion,
    /// Fraction of operations that access the hot set.
    pub hotspot_operation_fraction: Proportion,
    /// Maximum execution time, in whole seconds; zero means "run until
    /// `operation_count` is exhausted".
    pub max_execution_time: u64,
    /// The name of the database table to run queries against.
    pub table: String,
    /// The column family of fields (required by some databases).
    pub column_family: String,
    /// How latency measurements are presented.
    pub measurement_type: MeasurementType,
    /// Histogram reporting parameters.
    pub histogram: HistogramConfig,
    /// Time-series reporting parameters.
    pub timeseries: TimeseriesConfig,
}

/// The mathematical value of a `Workload`: every text field is a character
/// sequence, every other field plain data.
#[verifier::ext_equal]
pub struct WorkloadView {
    pub workload: Seq<char>,
    pub record_count: u64,
    pub operation_count: u64,
    pub thread_count: u64,
    pub insert_count: u64,
    pub insert_start: u64,
    pub field_count: u64,
    pub field_length: u64,
    pub read_all_fields: bool,
    pub write_all_fields: bool,
    pub field_length_distribution: Distribution,
    pub read_proportion: Proportion,
    pub update_proportion: Proportion,
    pub insert_proportion: Proportion,
    pub read_modify_write_proportion: Proportion,
    pub scan_proportion: Proportion,
    pub max_scan_length: u64,
    pub scan_length_distribution: Distribution,
    pub insert_order: InsertOrder,
    pub request_distribution: Distribution,
    pub hotspot_data_fraction: Proportion,
    pub hotspot_operation_fraction: Proportion,
    pub max_execution_time: u64,
    pub table: Seq<char>,
    pub column_family: Seq<char>,
    pub measurement_type: MeasurementType,
    pub histogram: HistogramConfig,
    pub timeseries: TimeseriesConfig,
}

impl View for Workload {
    type V = WorkloadView;

    open spec fn view(&self) -> WorkloadView {
        WorkloadView {
            workload: self.workload@,
            record_count: self.record_count,
            operation_count: self.operation_count,
            thread_count: self.thread_count,
            insert_count: self.insert_count,
            insert_start: self.insert_start,
            field_count: self.field_count,
            field_length: self.field_length,
            read_all_fields: self.read_all_fields,
            write_all_fields: self.write_all_fields,
            field_length_distribution: self.field_length_distribution,
            read_proportion: self.read_proportion,
            update_proportion: self.update_proportion,
            insert_proportion: self.insert_proportion,
            read_modify_write_proportion: self.read_modify_write_proportion,
            scan_proportion: self.scan_proportion,
            max_scan_length: self.max_scan_length,
            scan_length_distribution: self.scan_length_distribution,
            insert_order: self.insert_order,
            request_distribution: self.request_distribution,
            hotspot_data_fraction: self.hotspot_data_fraction,
            hotspot_operation_fraction: self.hotspot_operation_fraction,
            max_execution_time: self.max_execution_time,
            table: self.table@,
            column_family: self.column_family@,
            measurement_type: self.measurement_type,
            histogram: self.histogram,
            timeseries: self.timeseries,
        }
    }
}

/// A character sequence that can stand verbatim inside a quoted value of the
/// canonical text format: it holds neither a quotation mark nor a line break.
pub open spec fn text_wf(s: Seq<char>) -> bool {
    forall|i: int| 0 <= i < s.len() ==> s[i] != '"' && s[i] != '\n'
}

impl WorkloadView {
    /// A workload value is well formed when each of its seven proportions is
    /// at most `1.0` and each of its text fields can stand verbatim inside a
    /// quoted value.
    pub open spec fn wf(self) -> bool {
        &&& self.read_proportion.wf()
        &&& self.update_proportion.wf()
        &&& self.insert_proportion.wf()
        &&& self.read_modify_write_proportion.wf()
        &&& self.scan_proportion.wf()
        &&& self.hotspot_data_fraction.wf()
        &&& self.hotspot_operation_fraction.wf()
        &&& text_wf(self.workload)
        &&& text_wf(self.table)
        &&& text_wf(self.column_family)
    }
}

/// The canonical default workload: the standard core benchmark profile.
pub open spec fn spec_default() -> WorkloadView {
    WorkloadView {
        workload: ("core")@,
        record_count: 1000000,
        operation_count: 3000000,
        thread_count: 500,
        insert_count: 0,
        insert_start: 0,
        field_count: 10,
        field_length: 100,
        read_all_fields: true,
        write_all_fields: false,
        field_length_distribution: Distribution::Constant,
        read_proportion: Proportion { micros: 950000 },
        update_proportion: Proportion { micros: 50000 },
        insert_proportion: Proportion { micros: 0 },
        read_modify_write_proportion: Proportion { micros: 0 },
        scan_proportion: Proportion { micros: 0 },
        max_scan_length: 1000,
        scan_length_distribution: Distribution::Uniform,
        insert_order: InsertOrder::Hashed,
        request_distribution: Distribution::Zipfian,
        hotspot_data_fraction: Proportion { micros: 200000 },
        hotspot_operation_fraction: Proportion { micros: 800000 },
        max_execution_time: 0,
        table: ("usertable")@,
        column_family: ("")@,
        measurement_type: MeasurementType::Histogram,
        histogram: HistogramConfig { buckets: 1000 },
        timeseries: TimeseriesConfig { granularity: 1000 },
    }
}

/// The default workload is well formed.
pub proof fn lemma_default_wf()
    ensures
        spec_default().wf(),
{
    reveal_strlit("core");
    reveal_strlit("usertable");
    reveal_strlit("");
    assert(text_wf(("core")@));
    assert(text_wf(("usertable")@));
    assert(text_wf(("")@));
}

impl Default for Workload {
    /// The all-defaults instance: the standard core workload of §4.1.
    fn default() -> (r: Workload)
        ensures
            r@ == spec_default(),
            r@.wf(),
    {
        let r = Workload {
            workload: "core".to_owned(),
            record_count: 1000000,
            operation_count: 3000000,
            thread_count: 500,
            insert_count: 0,
            insert_start: 0,
            field_count: 10,
            field_length: 100,
            read_all_fields: true,
            write_all_fields: false,
            field_length_distribution: Distribution::Constant,
            read_proportion: Proportion { micros: 950000 },
            update_proportion: Proportion { micros: 50000 },
            insert_proportion: Proportion { micros: 0 },
            read_modify_write_proportion: Proportion { micros: 0 },
            scan_proportion: Proportion { micros: 0 },
            max_scan_length: 1000,
            scan_length_distribution: Distribution::Uniform,
            insert_order: InsertOrder::Hashed,
            request_distribution: Distribution::Zipfian,
            hotspot_data_fraction: Proportion { micros: 200000 },
            hotspot_operation_fraction: Proportion { micros: 800000 },
            max_execution_time: 0,
            table: "usertable".to_owned(),
            column_family: "".to_owned(),
            measurement_type: MeasurementType::Histogram,
            histogram: HistogramConfig { buckets: 1000 },
            timeseries: TimeseriesConfig { granularity: 1000 },
        };
        proof {
            lemma_default_wf();
            assert(r@ =~= spec_default());
        }
        r
    }
}


impl PartialEq for Workload {
    /// Two workloads are equal when every field agrees.
    fn eq(&self, other: &Workload) -> (r: bool) {
        let same = self.workload == other.workload && self.record_count == other.record_count
            && self.operation_count == other.operation_count && self.thread_count
            == other.thread_count && self.insert_count == other.insert_count && self.insert_start
            == other.insert_start && self.field_count == other.field_count && self.field_length
            == other.field_length && self.read_all_fields == other.read_all_fields
            && self.write_all_fields == other.write_all_fields && self.field_length_distribution
            == other.field_length_distribution && self.read_proportion == other.read_proportion
            && self.update_proportion == other.update_proportion && self.insert_proportion
            == other.insert_proportion && self.read_modify_write_proportion
            == other.read_modify_write_proportion && self.scan_proportion == other.scan_proportion
            && self.max_scan_length == other.max_scan_length && self.scan_length_distribution
            == other.scan_length_distribution && self.insert_order == other.insert_order
            && self.request_distribution == other.request_distribution
            && self.hotspot_data_fraction == other.hotspot_data_fraction
            && self.hotspot_operation_fraction == other.hotspot_operation_fraction
            && self.max_execution_time == other.max_execution_time && self.table == other.table
            && self.column_family == other.column_family && self.measurement_type
            == other.measurement_type && self.histogram == other.histogram && self.timeseries
            == other.timeseries;
        proof {
            if same {
                assert(self@ =~= other@);
            }
        }
        same
    }
}

impl vstd::std_specs::cmp::PartialEqSpecImpl for Workload {
    open spec fn obeys_eq_spec() -> bool {
        true
    }

    open spec fn eq_spec(&self, other: &Workload) -> bool {
        self@ == other@
    }
}

} // verus!
