//! The canonical text serialization of a workload: one `key = value` line
//! per field in a fixed order, with the two measurement sub-configurations
//! in their own bracketed sections.
use vstd::prelude::*;

use crate::model::Distribution;
use crate::model::InsertOrder;
use crate::model::MeasurementType;
use crate::model::Proportion;
use crate::model::Workload;
use crate::model::WorkloadView;
use crate::numbers::dec;
use crate::numbers::prop_str;
use crate::numbers::push_dec;
use crate::numbers::push_prop;
use crate::text::chars_to_string;
use crate::text::push_chars;

verus! {

/// The canonical lowercase name of a distribution.
pub open spec fn dist_name(d: Distribution) -> Seq<char> {
    match d {
        Distribution::Constant => ("constant")@,
        Distribution::Uniform => ("uniform")@,
        Distribution::Zipfian => ("zipfian")@,
        Distribution::Latest => ("latest")@,
    }
}

/// The canonical lowercase name of an insert order.
pub open spec fn order_name(o: InsertOrder) -> Seq<char> {
    match o {
        InsertOrder::Hashed => ("hashed")@,
        InsertOrder::Ordered => ("ordered")@,
    }
}

/// The canonical lowercase name of a measurement type.
pub open spec fn meas_name(m: MeasurementType) -> Seq<char> {
    match m {
        MeasurementType::Histogram => ("histogram")@,
        MeasurementType::Timeseries => ("timeseries")@,
        MeasurementType::Raw => ("raw")@,
    }
}

/// The canonical text of a boolean.
pub open spec fn bool_str(b: bool) -> Seq<char> {
    if b {
        ("true")@
    } else {
        ("false")@
    }
}

/// One line assigning a bare value to a key.
pub open spec fn kv_raw(k: Seq<char>, v: Seq<char>) -> Seq<char> {
    k + (" = ")@ + v + seq!['\n']
}

/// One line assigning a quoted string value to a key.
pub open spec fn kv_quoted(k: Seq<char>, v: Seq<char>) -> Seq<char> {
    kv_raw(k, seq!['"'] + v + seq!['"'])
}

/// One line assigning a decimal integer to a key.
pub open spec fn kv_u64(k: Seq<char>, n: u64) -> Seq<char> {
    kv_raw(k, dec(n as nat))
}

/// One line assigning a boolean to a key.
pub open spec fn kv_bool(k: Seq<char>, b: bool) -> Seq<char> {
    kv_raw(k, bool_str(b))
}

/// One line assigning a proportion to a key.
pub open spec fn kv_prop(k: Seq<char>, p: Proportion) -> Seq<char> {
    kv_raw(k, prop_str(p))
}

/// A section header, set off by a blank line.
pub open spec fn header(name: Seq<char>) -> Seq<char> {
    seq!['\n', '['] + name + seq![']', '\n']
}

/// The first group of serialized lines: the workload name, the integer
/// counts and sizes, and the two field flags.
pub open spec fn ser_head(v: WorkloadView) -> Seq<char> {
    kv_quoted(("workload")@, v.workload) + kv_u64(("recordcount")@, v.record_count) + kv_u64(("operationcount")@, v.operation_count) + kv_u64(("threadcount")@, v.thread_count) + kv_u64(("insertcount")@, v.insert_count) + kv_u64(("insertstart")@, v.insert_start) + kv_u64(("fieldcount")@, v.field_count) + kv_u64(("fieldlength")@, v.field_length) + kv_bool(("readallfields")@, v.read_all_fields) + kv_bool(("writeallfields")@, v.write_all_fields)
}

/// The second group of serialized lines: the distributions and the five
/// operation-mix proportions.
pub open spec fn ser_mid(v: WorkloadView) -> Seq<char> {
    kv_quoted(("fieldlengthdistribution")@, dist_name(v.field_length_distribution)) + kv_prop(("readproportion")@, v.read_proportion) + kv_prop(("updateproportion")@, v.update_proportion) + kv_prop(("insertproportion")@, v.insert_proportion) + kv_prop(("readmodifywriteproportion")@, v.read_modify_write_proportion) + kv_prop(("scanproportion")@, v.scan_proportion) + kv_u64(("maxscanlength")@, v.max_scan_length) + kv_quoted(("scanlengthdistribution")@, dist_name(v.scan_length_distribution)) + kv_quoted(("insertorder")@, order_name(v.insert_order)) + kv_quoted(("requestdistribution")@, dist_name(v.request_distribution))
}

/// The last group of serialized lines: the hotspot fractions, the time
/// bound, the names, and the two measurement sections.
pub open spec fn ser_tail(v: WorkloadView) -> Seq<char> {
    kv_prop(("readcount")@, v.hotspot_data_fraction) + kv_prop(("hotspotopnfraction")@, v.hotspot_operation_fraction) + kv_u64(("maxexecutiontime")@, v.max_execution_time) + kv_quoted(("table")@, v.table) + kv_quoted(("columnfamily")@, v.column_family) + kv_quoted(("measurementtype")@, meas_name(v.measurement_type)) + header(("histogram")@) + kv_u64(("buckets")@, v.histogram.buckets) + header(("timeseries")@) + kv_u64(("granularity")@, v.timeseries.granularity)
}

/// The canonical serialization of a workload value: every field on its own
/// line under its canonical wire key, in the fixed field order, with
/// durations in whole seconds (`maxexecutiontime`) or whole milliseconds
/// (`buckets`, `granularity`), and the two sub-configurations last, each
/// under its own section header.
pub open spec fn spec_ser(v: WorkloadView) -> Seq<char> {
    ser_head(v) + ser_mid(v) + ser_tail(v)
}

/// The canonical lowercase name of a distribution, as a string slice.
pub fn dist_str(d: Distribution) -> (r: &'static str)
    ensures
        r@ == dist_name(d),
{
    match d {
        Distribution::Constant => "constant",
        Distribution::Uniform => "uniform",
        Distribution::Zipfian => "zipfian",
        Distribution::Latest => "latest",
    }
}

/// The canonical lowercase name of an insert order, as a string slice.
pub fn order_str(o: InsertOrder) -> (r: &'static str)
    ensures
        r@ == order_name(o),
{
    match o {
        InsertOrder::Hashed => "hashed",
        InsertOrder::Ordered => "ordered",
    }
}

/// The canonical lowercase name of a measurement type, as a string slice.
pub fn meas_str(m: MeasurementType) -> (r: &'static str)
    ensures
        r@ == meas_name(m),
{
    match m {
        MeasurementType::Histogram => "histogram",
        MeasurementType::Timeseries => "timeseries",
        MeasurementType::Raw => "raw",
    }
}

/// Appends one `key = "value"` line.
fn push_kv_quoted(out: &mut Vec<char>, key: &str, val: &str)
    ensures
        final(out)@ == old(out)@ + kv_quoted(key@, val@),
{
    push_chars(out, key);
    push_chars(out, " = ");
    out.push('"');
    push_chars(out, val);
    out.push('"');
    out.push('\n');
    proof {
        assert(final(out)@ =~= old(out)@ + kv_quoted(key@, val@));
    }
}

/// Appends one `key = integer` line.
fn push_kv_u64(out: &mut Vec<char>, key: &str, n: u64)
    ensures
        final(out)@ == old(out)@ + kv_u64(key@, n),
{
    push_chars(out, key);
    push_chars(out, " = ");
    push_dec(out, n);
    out.push('\n');
    proof {
        assert(final(out)@ =~= old(out)@ + kv_u64(key@, n));
    }
}

/// Appends one `key = boolean` line.
fn push_kv_bool(out: &mut Vec<char>, key: &str, b: bool)
    ensures
        final(out)@ == old(out)@ + kv_bool(key@, b),
{
    push_chars(out, key);
    push_chars(out, " = ");
    push_chars(out, if b {
        "true"
    } else {
        "false"
    });
    out.push('\n');
    proof {
        assert(final(out)@ =~= old(out)@ + kv_bool(key@, b));
    }
}

/// Appends one `key = proportion` line.
fn push_kv_prop(out: &mut Vec<char>, key: &str, p: Proportion)
    ensures
        final(out)@ == old(out)@ + kv_prop(key@, p),
{
    push_chars(out, key);
    push_chars(out, " = ");
    push_prop(out, p);
    out.push('\n');
    proof {
        assert(final(out)@ =~= old(out)@ + kv_prop(key@, p));
    }
}

/// Appends a section header set off by a blank line.
fn push_header(out: &mut Vec<char>, name: &str)
    ensures
        final(out)@ == old(out)@ + header(name@),
{
    out.push('\n');
    out.push('[');
    push_chars(out, name);
    out.push(']');
    out.push('\n');
    proof {
        assert(final(out)@ =~= old(out)@ + header(name@));
    }
}

impl Workload {
    /// Appends the first group of canonical lines.
    #[verifier::rlimit(60)]
    fn emit_head(&self, out: &mut Vec<char>)
        ensures
            final(out)@ == old(out)@ + ser_head(self@),
    {
        push_kv_quoted(out, "workload", self.workload.as_str());
        push_kv_u64(out, "recordcount", self.record_count);
        push_kv_u64(out, "operationcount", self.operation_count);
        push_kv_u64(out, "threadcount", self.thread_count);
        push_kv_u64(out, "insertcount", self.insert_count);
        push_kv_u64(out, "insertstart", self.insert_start);
        push_kv_u64(out, "fieldcount", self.field_count);
        push_kv_u64(out, "fieldlength", self.field_length);
        push_kv_bool(out, "readallfields", self.read_all_fields);
        push_kv_bool(out, "writeallfields", self.write_all_fields);
        proof {
            assert(final(out)@ =~= old(out)@ + ser_head(self@));
        }
    }

    /// Appends the second group of canonical lines.
    #[verifier::rlimit(60)]
    fn emit_mid(&self, out: &mut Vec<char>)
        ensures
            final(out)@ == old(out)@ + ser_mid(self@),
    {
        push_kv_quoted(out, "fieldlengthdistribution", dist_str(self.field_length_distribution));
        push_kv_prop(out, "readproportion", self.read_proportion);
        push_kv_prop(out, "updateproportion", self.update_proportion);
        push_kv_prop(out, "insertproportion", self.insert_proportion);
        push_kv_prop(out, "readmodifywriteproportion", self.read_modify_write_proportion);
        push_kv_prop(out, "scanproportion", self.scan_proportion);
        push_kv_u64(out, "maxscanlength", self.max_scan_length);
        push_kv_quoted(out, "scanlengthdistribution", dist_str(self.scan_length_distribution));
        push_kv_quoted(out, "insertorder", order_str(self.insert_order));
        push_kv_quoted(out, "requestdistribution", dist_str(self.request_distribution));
        proof {
            assert(final(out)@ =~= old(out)@ + ser_mid(self@));
        }
    }

    /// Appends the last group of canonical lines.
    #[verifier::rlimit(60)]
    fn emit_tail(&self, out: &mut Vec<char>)
        ensures
            final(out)@ == old(out)@ + ser_tail(self@),
    {
        push_kv_prop(out, "readcount", self.hotspot_data_fraction);
        push_kv_prop(out, "hotspotopnfraction", self.hotspot_operation_fraction);
        push_kv_u64(out, "maxexecutiontime", self.max_execution_time);
        push_kv_quoted(out, "table", self.table.as_str());
        push_kv_quoted(out, "columnfamily", self.column_family.as_str());
        push_kv_quoted(out, "measurementtype", meas_str(self.measurement_type));
        push_header(out, "histogram");
        push_kv_u64(out, "buckets", self.histogram.buckets);
        push_header(out, "timeseries");
        push_kv_u64(out, "granularity", self.timeseries.granularity);
        proof {
            assert(final(out)@ =~= old(out)@ + ser_tail(self@));
        }
    }

    /// The canonical serialization of this workload, as characters.
    pub fn to_toml_chars(&self) -> (r: Vec<char>)
        ensures
            r@ == spec_ser(self@),
    {
        let mut out: Vec<char> = Vec::new();
        self.emit_head(&mut out);
        self.emit_mid(&mut out);
        self.emit_tail(&mut out);
        proof {
            assert(out@ =~= spec_ser(self@));
        }
        out
    }

    /// The canonical serialization of this workload, as a string.
    pub fn to_toml_string(&self) -> (r: String)
        ensures
            r@ == spec_ser(self@),
    {
        let chars = self.to_toml_chars();
        chars_to_string(&chars)
    }
}

} // verus!
