//! Parsing of the canonical text format: a document is a sequence of lines,
//! each blank, a comment, a section header, or one `key = value` assignment;
//! the parsed assignments are merged field by field onto the default
//! workload.
use vstd::prelude::*;

use crate::model::Distribution;
use crate::model::InsertOrder;
use crate::model::MeasurementType;
use crate::model::Workload;
use crate::model::WorkloadView;
use crate::model::spec_default;
use crate::numbers::is_digit;
use crate::numbers::parse_prop_in;
use crate::numbers::parse_u64_in;
use crate::numbers::spec_parse_prop;
use crate::numbers::spec_parse_u64;
use crate::ser::dist_name;
use crate::ser::meas_name;
use crate::ser::order_name;
use crate::text::find_char;
use crate::text::find_in;
use crate::text::lemma_find_char;
use crate::text::str_to_chars;
use crate::text::trim;
use crate::text::trim_in;
use crate::text::trim_right;
use crate::text::window_eq;
use crate::text::window_to_string;

verus! {

/// Why a document was rejected: it is not well formed for the text format,
/// a present key's value cannot be coerced to its field's type, or an
/// enum-valued key names something outside its closed variant set.
#[derive(Clone, Copy, Debug, PartialEq, Eq, Structural)]
pub enum ParseError {
    DocumentSyntax,
    FieldType,
    UnknownVariant,
}

/// Which section the keys of the current line belong to.
#[derive(Clone, Copy, Debug, PartialEq, Eq, Structural)]
pub enum Section {
    Root,
    Histogram,
    Timeseries,
    Other,
}

/// A character allowed in a bare key or section name.
pub open spec fn is_bare_key_char(c: char) -> bool {
    ('a' <= c && c <= 'z') || ('A' <= c && c <= 'Z') || is_digit(c) || c == '_' || c == '-'
}

/// A bare key: nonempty, made of letters, digits, underscores and dashes.
pub open spec fn is_bare_key(s: Seq<char>) -> bool {
    s.len() > 0 && forall|i: int| 0 <= i < s.len() ==> is_bare_key_char(#[trigger] s[i])
}

/// The content of a quoted string value: `None` unless the text begins and
/// ends with a quotation mark and holds no further one.
pub open spec fn spec_parse_quoted(s: Seq<char>) -> Option<Seq<char>> {
    if s.len() >= 2 && s[0] == '"' && s.last() == '"' && (forall|i: int|
        1 <= i < s.len() - 1 ==> s[i] != '"') {
        Some(s.subrange(1, s.len() - 1))
    } else {
        None
    }
}

/// The boolean a bare value denotes.
pub open spec fn spec_parse_bool(s: Seq<char>) -> Option<bool> {
    if s == ("true")@ {
        Some(true)
    } else if s == ("false")@ {
        Some(false)
    } else {
        None
    }
}

/// The distribution a variant name denotes.
pub open spec fn spec_dist_of(s: Seq<char>) -> Option<Distribution> {
    if s == dist_name(Distribution::Constant) {
        Some(Distribution::Constant)
    } else if s == dist_name(Distribution::Uniform) {
        Some(Distribution::Uniform)
    } else if s == dist_name(Distribution::Zipfian) {
        Some(Distribution::Zipfian)
    } else if s == dist_name(Distribution::Latest) {
        Some(Distribution::Latest)
    } else {
        None
    }
}

/// The insert order a variant name denotes.
pub open spec fn spec_order_of(s: Seq<char>) -> Option<InsertOrder> {
    if s == order_name(InsertOrder::Hashed) {
        Some(InsertOrder::Hashed)
    } else if s == order_name(InsertOrder::Ordered) {
        Some(InsertOrder::Ordered)
    } else {
        None
    }
}

/// The measurement type a variant name denotes.
pub open spec fn spec_meas_of(s: Seq<char>) -> Option<MeasurementType> {
    if s == meas_name(MeasurementType::Histogram) {
        Some(MeasurementType::Histogram)
    } else if s == meas_name(MeasurementType::Timeseries) {
        Some(MeasurementType::Timeseries)
    } else if s == meas_name(MeasurementType::Raw) {
        Some(MeasurementType::Raw)
    } else {
        None
    }
}

/// The section a header name selects; an unrecognized name opens a section
/// whose keys are ignored.
pub open spec fn spec_section_of(s: Seq<char>) -> Section {
    if s == ("histogram")@ {
        Section::Histogram
    } else if s == ("timeseries")@ {
        Section::Timeseries
    } else {
        Section::Other
    }
}

/// Applies one top-level assignment to a workload value: a known key's
/// value is parsed by that field's type and replaces the field, a value of
/// the wrong shape is an error, and an unknown key changes nothing.
pub open spec fn spec_apply_root_kv(key: Seq<char>, val: Seq<char>, w: WorkloadView) -> Result<
    WorkloadView,
    ParseError,
> {
    if key == ("workload")@ {
        match spec_parse_quoted(val) {
            Some(c) => Ok(WorkloadView { workload: c, ..w }),
            None => Err(ParseError::FieldType),
        }
    } else if key == ("recordcount")@ {
        match spec_parse_u64(val) {
            Some(n) => Ok(WorkloadView { record_count: n, ..w }),
            None => Err(ParseError::FieldType),
        }
    } else if key == ("operationcount")@ {
        match spec_parse_u64(val) {
            Some(n) => Ok(WorkloadView { operation_count: n, ..w }),
            None => Err(ParseError::FieldType),
        }
    } else if key == ("threadcount")@ {
        match spec_parse_u64(val) {
            Some(n) => Ok(WorkloadView { thread_count: n, ..w }),
            None => Err(ParseError::FieldType),
        }
    } else if key == ("insertcount")@ {
        match spec_parse_u64(val) {
            Some(n) => Ok(WorkloadView { insert_count: n, ..w }),
            None => Err(ParseError::FieldType),
        }
    } else if key == ("insertstart")@ {
        match spec_parse_u64(val) {
            Some(n) => Ok(WorkloadView { insert_start: n, ..w }),
            None => Err(ParseError::FieldType),
        }
    } else if key == ("fieldcount")@ {
        match spec_parse_u64(val) {
            Some(n) => Ok(WorkloadView { field_count: n, ..w }),
            None => Err(ParseError::FieldType),
        }
    } else if key == ("fieldlength")@ {
        match spec_parse_u64(val) {
            Some(n) => Ok(WorkloadView { field_length: n, ..w }),
            None => Err(ParseError::FieldType),
        }
    } else if key == ("readallfields")@ {
        match spec_parse_bool(val) {
            Some(b) => Ok(WorkloadView { read_all_fields: b, ..w }),
            None => Err(ParseError::FieldType),
        }
    } else if key == ("writeallfields")@ {
        match spec_parse_bool(val) {
            Some(b) => Ok(WorkloadView { write_all_fields: b, ..w }),
            None => Err(ParseError::FieldType),
        }
    } else if key == ("fieldlengthdistribution")@ {
        match spec_parse_quoted(val) {
            Some(c) => match spec_dist_of(c) {
                Some(d) => Ok(WorkloadView { field_length_distribution: d, ..w }),
                None => Err(ParseError::UnknownVariant),
            },
            None => Err(ParseError::FieldType),
        }
    } else if key == ("readproportion")@ {
        match spec_parse_prop(val) {
            Some(p) => Ok(WorkloadView { read_proportion: p, ..w }),
            None => Err(ParseError::FieldType),
        }
    } else if key == ("updateproportion")@ {
        match spec_parse_prop(val) {
            Some(p) => Ok(WorkloadView { update_proportion: p, ..w }),
            None => Err(ParseError::FieldType),
        }
    } else if key == ("insertproportion")@ {
        match spec_parse_prop(val) {
            Some(p) => Ok(WorkloadView { insert_proportion: p, ..w }),
            None => Err(ParseError::FieldType),
        }
    } else if key == ("readmodifywriteproportion")@ {
        match spec_parse_prop(val) {
            Some(p) => Ok(WorkloadView { read_modify_write_proportion: p, ..w }),
            None => Err(ParseError::FieldType),
        }
    } else if key == ("scanproportion")@ {
        match spec_parse_prop(val) {
            Some(p) => Ok(WorkloadView { scan_proportion: p, ..w }),
            None => Err(ParseError::FieldType),
        }
    } else if key == ("maxscanlength")@ {
        match spec_parse_u64(val) {
            Some(n) => Ok(WorkloadView { max_scan_length: n, ..w }),
            None => Err(ParseError::FieldType),
        }
    } else if key == ("scanlengthdistribution")@ {
        match spec_parse_quoted(val) {
            Some(c) => match spec_dist_of(c) {
                Some(d) => Ok(WorkloadView { scan_length_distribution: d, ..w }),
                None => Err(ParseError::UnknownVariant),
            },
            None => Err(ParseError::FieldType),
        }
    } else if key == ("insertorder")@ {
        match spec_parse_quoted(val) {
            Some(c) => match spec_order_of(c) {
                Some(o) => Ok(WorkloadView { insert_order: o, ..w }),
                None => Err(ParseError::UnknownVariant),
            },
            None => Err(ParseError::FieldType),
        }
    } else if key == ("requestdistribution")@ {
        match spec_parse_quoted(val) {
            Some(c) => match spec_dist_of(c) {
                Some(d) => Ok(WorkloadView { request_distribution: d, ..w }),
                None => Err(ParseError::UnknownVariant),
            },
            None => Err(ParseError::FieldType),
        }
    } else if key == ("readcount")@ {
        match spec_parse_prop(val) {
            Some(p) => Ok(WorkloadView { hotspot_data_fraction: p, ..w }),
            None => Err(ParseError::FieldType),
        }
    } else if key == ("hotspotopnfraction")@ {
        match spec_parse_prop(val) {
            Some(p) => Ok(WorkloadView { hotspot_operation_fraction: p, ..w }),
            None => Err(ParseError::FieldType),
        }
    } else if key == ("maxexecutiontime")@ {
        match spec_parse_u64(val) {
            Some(n) => Ok(WorkloadView { max_execution_time: n, ..w }),
            None => Err(ParseError::FieldType),
        }
    } else if key == ("table")@ {
        match spec_parse_quoted(val) {
            Some(c) => Ok(WorkloadView { table: c, ..w }),
            None => Err(ParseError::FieldType),
        }
    } else if key == ("columnfamily")@ {
        match spec_parse_quoted(val) {
            Some(c) => Ok(WorkloadView { column_family: c, ..w }),
            None => Err(ParseError::FieldType),
        }
    } else if key == ("measurementtype")@ {
        match spec_parse_quoted(val) {
            Some(c) => match spec_meas_of(c) {
                Some(m) => Ok(WorkloadView { measurement_type: m, ..w }),
                None => Err(ParseError::UnknownVariant),
            },
            None => Err(ParseError::FieldType),
        }
    } else {
        Ok(w)
    }
}

/// Applies one assignment under the current section: top-level keys merge
/// into the workload, the two section keys set their sub-configuration, and
/// anything else is ignored.
pub open spec fn spec_apply_kv(
    sec: Section,
    key: Seq<char>,
    val: Seq<char>,
    w: WorkloadView,
) -> Result<WorkloadView, ParseError> {
    match sec {
        Section::Root => spec_apply_root_kv(key, val, w),
        Section::Histogram => if key == ("buckets")@ {
            match spec_parse_u64(val) {
                Some(n) => Ok(
                    WorkloadView {
                        histogram: crate::model::HistogramConfig { buckets: n },
                        ..w
                    },
                ),
                None => Err(ParseError::FieldType),
            }
        } else {
            Ok(w)
        },
        Section::Timeseries => if key == ("granularity")@ {
            match spec_parse_u64(val) {
                Some(n) => Ok(
                    WorkloadView {
                        timeseries: crate::model::TimeseriesConfig { granularity: n },
                        ..w
                    },
                ),
                None => Err(ParseError::FieldType),
            }
        } else {
            Ok(w)
        },
        Section::Other => Ok(w),
    }
}

/// Interprets one line: a blank line or comment changes nothing, a bracketed
/// header selects the section for the following keys, and anything else must
/// be a well-formed `key = value` assignment.
pub open spec fn spec_apply_line(line: Seq<char>, sec: Section, w: WorkloadView) -> Result<
    (Section, WorkloadView),
    ParseError,
> {
    let t = trim(line);
    if t.len() == 0 {
        Ok((sec, w))
    } else if t[0] == '#' {
        Ok((sec, w))
    } else if t[0] == '[' {
        if t.len() >= 2 && t.last() == ']' {
            let name = trim(t.subrange(1, t.len() - 1));
            if is_bare_key(name) {
                Ok((spec_section_of(name), w))
            } else {
                Err(ParseError::DocumentSyntax)
            }
        } else {
            Err(ParseError::DocumentSyntax)
        }
    } else {
        let eq = find_char(t, '=');
        if eq == t.len() {
            Err(ParseError::DocumentSyntax)
        } else {
            let key = trim_right(t.subrange(0, eq as int));
            let val = trim(t.subrange((eq + 1) as int, t.len() as int));
            if !is_bare_key(key) {
                Err(ParseError::DocumentSyntax)
            } else if val.len() == 0 {
                Err(ParseError::DocumentSyntax)
            } else {
                match spec_apply_kv(sec, key, val, w) {
                    Ok(w2) => Ok((sec, w2)),
                    Err(e) => Err(e),
                }
            }
        }
    }
}

/// Folds the lines of `s` over the state `(sec, w)`, stopping at the first
/// ill-formed line.
pub open spec fn spec_parse_rest(s: Seq<char>, sec: Section, w: WorkloadView) -> Result<
    WorkloadView,
    ParseError,
>
    decreases s.len(),
    via spec_parse_rest_decreases
{
    if s.len() == 0 {
        Ok(w)
    } else {
        let n = find_char(s, '\n');
        let line = s.subrange(0, n as int);
        let rest = if n == s.len() {
            Seq::<char>::empty()
        } else {
            s.subrange((n + 1) as int, s.len() as int)
        };
        match spec_apply_line(line, sec, w) {
            Ok((sec2, w2)) => spec_parse_rest(rest, sec2, w2),
            Err(e) => Err(e),
        }
    }
}

#[via_fn]
proof fn spec_parse_rest_decreases(s: Seq<char>, sec: Section, w: WorkloadView) {
    lemma_find_char(s, '\n');
}

/// The workload a document denotes: its assignments merged in order onto
/// the default instance, or the first error.  A key absent from the
/// document keeps its default; an unknown key or section is ignored.
pub open spec fn spec_parse(s: Seq<char>) -> Result<WorkloadView, ParseError> {
    spec_parse_rest(s, Section::Root, spec_default())
}

/// Whether `v[start..end]` is a bare key.
fn is_bare_key_in(v: &Vec<char>, start: usize, end: usize) -> (r: bool)
    requires
        start <= end <= v@.len(),
    ensures
        r == is_bare_key(v@.subrange(start as int, end as int)),
{
    let ghost s = v@.subrange(start as int, end as int);
    if start == end {
        return false;
    }
    let mut i: usize = start;
    while i < end
        invariant
            start <= i <= end <= v@.len(),
            s == v@.subrange(start as int, end as int),
            forall|j: int| 0 <= j < i - start ==> is_bare_key_char(#[trigger] s[j]),
        decreases end - i,
    {
        let c = v[i];
        let ok = ('a' <= c && c <= 'z') || ('A' <= c && c <= 'Z') || ('0' <= c && c <= '9') || c
            == '_' || c == '-';
        if !ok {
            proof {
                assert(!is_bare_key_char(s[i - start]));
            }
            return false;
        }
        i += 1;
    }
    true
}

/// Locates the content of a quoted value inside `v[start..end]`.
fn parse_quoted_range(v: &Vec<char>, start: usize, end: usize) -> (r: Option<(usize, usize)>)
    requires
        start <= end <= v@.len(),
    ensures
        (match r {
            Some(c) => start <= c.0 <= c.1 <= end && spec_parse_quoted(
                v@.subrange(start as int, end as int),
            ) == Some(v@.subrange(c.0 as int, c.1 as int)),
            None => spec_parse_quoted(v@.subrange(start as int, end as int)) is None,
        }),
{
    let ghost s = v@.subrange(start as int, end as int);
    if end - start < 2 {
        return None;
    }
    if v[start] != '"' {
        proof {
            assert(s[0] != '"');
        }
        return None;
    }
    if v[end - 1] != '"' {
        proof {
            assert(s.last() != '"');
        }
        return None;
    }
    let mut i: usize = start + 1;
    while i < end - 1
        invariant
            start + 1 <= i <= end - 1,
            end <= v@.len(),
            s == v@.subrange(start as int, end as int),
            forall|j: int| 1 <= j < i - start ==> s[j] != '"',
        decreases end - i,
    {
        if v[i] == '"' {
            proof {
                assert(s[i - start] == '"');
            }
            return None;
        }
        i += 1;
    }
    proof {
        assert(s.subrange(1, s.len() - 1) =~= v@.subrange(start + 1, end - 1));
    }
    Some((start + 1, end - 1))
}

/// Parses `v[start..end]` as a boolean.
fn parse_bool_in(v: &Vec<char>, start: usize, end: usize) -> (r: Option<bool>)
    requires
        start <= end <= v@.len(),
    ensures
        r == spec_parse_bool(v@.subrange(start as int, end as int)),
{
    if window_eq(v, start, end, "true") {
        Some(true)
    } else if window_eq(v, start, end, "false") {
        Some(false)
    } else {
        None
    }
}

/// Matches `v[start..end]` against the distribution names.
fn dist_of_in(v: &Vec<char>, start: usize, end: usize) -> (r: Option<Distribution>)
    requires
        start <= end <= v@.len(),
    ensures
        r == spec_dist_of(v@.subrange(start as int, end as int)),
{
    if window_eq(v, start, end, "constant") {
        Some(Distribution::Constant)
    } else if window_eq(v, start, end, "uniform") {
        Some(Distribution::Uniform)
    } else if window_eq(v, start, end, "zipfian") {
        Some(Distribution::Zipfian)
    } else if window_eq(v, start, end, "latest") {
        Some(Distribution::Latest)
    } else {
        None
    }
}

/// Matches `v[start..end]` against the insert-order names.
fn order_of_in(v: &Vec<char>, start: usize, end: usize) -> (r: Option<InsertOrder>)
    requires
        start <= end <= v@.len(),
    ensures
        r == spec_order_of(v@.subrange(start as int, end as int)),
{
    if window_eq(v, start, end, "hashed") {
        Some(InsertOrder::Hashed)
    } else if window_eq(v, start, end, "ordered") {
        Some(InsertOrder::Ordered)
    } else {
        None
    }
}

/// Matches `v[start..end]` against the measurement-type names.
fn meas_of_in(v: &Vec<char>, start: usize, end: usize) -> (r: Option<MeasurementType>)
    requires
        start <= end <= v@.len(),
    ensures
        r == spec_meas_of(v@.subrange(start as int, end as int)),
{
    if window_eq(v, start, end, "histogram") {
        Some(MeasurementType::Histogram)
    } else if window_eq(v, start, end, "timeseries") {
        Some(MeasurementType::Timeseries)
    } else if window_eq(v, start, end, "raw") {
        Some(MeasurementType::Raw)
    } else {
        None
    }
}

/// Applies one assignment whose key is `v[ks..ke]` and whose value text is
/// `v[vs..ve]` to the workload, under the current section.
#[verifier::rlimit(60)]
fn apply_kv_in(
    w: &mut Workload,
    sec: Section,
    v: &Vec<char>,
    ks: usize,
    ke: usize,
    vs: usize,
    ve: usize,
) -> (r: Result<(), ParseError>)
    requires
        ks <= ke <= v@.len(),
        vs <= ve <= v@.len(),
    ensures
        (match r {
            Ok(u) => spec_apply_kv(
                sec,
                v@.subrange(ks as int, ke as int),
                v@.subrange(vs as int, ve as int),
                old(w)@,
            ) == Ok::<WorkloadView, ParseError>(final(w)@),
            Err(e) => spec_apply_kv(
                sec,
                v@.subrange(ks as int, ke as int),
                v@.subrange(vs as int, ve as int),
                old(w)@,
            ) == Err::<WorkloadView, ParseError>(e),
        }),
{
    match sec {
        Section::Root => apply_root_kv_in(w, v, ks, ke, vs, ve),
        Section::Histogram => {
            if window_eq(v, ks, ke, "buckets") {
                match parse_u64_in(v, vs, ve) {
                    Some(n) => {
                        w.histogram = crate::model::HistogramConfig { buckets: n };
                        Ok(())
                    },
                    None => Err(ParseError::FieldType),
                }
            } else {
                Ok(())
            }
        },
        Section::Timeseries => {
            if window_eq(v, ks, ke, "granularity") {
                match parse_u64_in(v, vs, ve) {
                    Some(n) => {
                        w.timeseries = crate::model::TimeseriesConfig { granularity: n };
                        Ok(())
                    },
                    None => Err(ParseError::FieldType),
                }
            } else {
                Ok(())
            }
        },
        Section::Other => Ok(()),
    }
}

/// Applies one top-level assignment to the workload.
#[verifier::rlimit(100)]
fn apply_root_kv_in(
    w: &mut Workload,
    v: &Vec<char>,
    ks: usize,
    ke: usize,
    vs: usize,
    ve: usize,
) -> (r: Result<(), ParseError>)
    requires
        ks <= ke <= v@.len(),
        vs <= ve <= v@.len(),
    ensures
        (match r {
            Ok(u) => spec_apply_root_kv(
                v@.subrange(ks as int, ke as int),
                v@.subrange(vs as int, ve as int),
                old(w)@,
            ) == Ok::<WorkloadView, ParseError>(final(w)@),
            Err(e) => spec_apply_root_kv(
                v@.subrange(ks as int, ke as int),
                v@.subrange(vs as int, ve as int),
                old(w)@,
            ) == Err::<WorkloadView, ParseError>(e),
        }),
{
    if window_eq(v, ks, ke, "workload") {
        match parse_quoted_range(v, vs, ve) {
            Some((cs, ce)) => {
                w.workload = window_to_string(v, cs, ce);
                Ok(())
            },
            None => Err(ParseError::FieldType),
        }
    } else if window_eq(v, ks, ke, "recordcount") {
        match parse_u64_in(v, vs, ve) {
            Some(n) => {
                w.record_count = n;
                Ok(())
            },
            None => Err(ParseError::FieldType),
        }
    } else if window_eq(v, ks, ke, "operationcount") {
        match parse_u64_in(v, vs, ve) {
            Some(n) => {
                w.operation_count = n;
                Ok(())
            },
            None => Err(ParseError::FieldType),
        }
    } else if window_eq(v, ks, ke, "threadcount") {
        match parse_u64_in(v, vs, ve) {
            Some(n) => {
                w.thread_count = n;
                Ok(())
            },
            None => Err(ParseError::FieldType),
        }
    } else if window_eq(v, ks, ke, "insertcount") {
        match parse_u64_in(v, vs, ve) {
            Some(n) => {
                w.insert_count = n;
                Ok(())
            },
            None => Err(ParseError::FieldType),
        }
    } else if window_eq(v, ks, ke, "insertstart") {
        match parse_u64_in(v, vs, ve) {
            Some(n) => {
                w.insert_start = n;
                Ok(())
            },
            None => Err(ParseError::FieldType),
        }
    } else if window_eq(v, ks, ke, "fieldcount") {
        match parse_u64_in(v, vs, ve) {
            Some(n) => {
                w.field_count = n;
                Ok(())
            },
            None => Err(ParseError::FieldType),
        }
    } else if window_eq(v, ks, ke, "fieldlength") {
        match parse_u64_in(v, vs, ve) {
            Some(n) => {
                w.field_length = n;
                Ok(())
            },
            None => Err(ParseError::FieldType),
        }
    } else if window_eq(v, ks, ke, "readallfields") {
        match parse_bool_in(v, vs, ve) {
            Some(b) => {
                w.read_all_fields = b;
                Ok(())
            },
            None => Err(ParseError::FieldType),
        }
    } else if window_eq(v, ks, ke, "writeallfields") {
        match parse_bool_in(v, vs, ve) {
            Some(b) => {
                w.write_all_fields = b;
                Ok(())
            },
            None => Err(ParseError::FieldType),
        }
    } else if window_eq(v, ks, ke, "fieldlengthdistribution") {
        match parse_quoted_range(v, vs, ve) {
            Some((cs, ce)) => match dist_of_in(v, cs, ce) {
                Some(d) => {
                    w.field_length_distribution = d;
                    Ok(())
                },
                None => Err(ParseError::UnknownVariant),
            },
            None => Err(ParseError::FieldType),
        }
    } else if window_eq(v, ks, ke, "readproportion") {
        match parse_prop_in(v, vs, ve) {
            Some(p) => {
                w.read_proportion = p;
                Ok(())
            },
            None => Err(ParseError::FieldType),
        }
    } else if window_eq(v, ks, ke, "updateproportion") {
        match parse_prop_in(v, vs, ve) {
            Some(p) => {
                w.update_proportion = p;
                Ok(())
            },
            None => Err(ParseError::FieldType),
        }
    } else if window_eq(v, ks, ke, "insertproportion") {
        match parse_prop_in(v, vs, ve) {
            Some(p) => {
                w.insert_proportion = p;
                Ok(())
            },
            None => Err(ParseError::FieldType),
        }
    } else if window_eq(v, ks, ke, "readmodifywriteproportion") {
        match parse_prop_in(v, vs, ve) {
            Some(p) => {
                w.read_modify_write_proportion = p;
                Ok(())
            },
            None => Err(ParseError::FieldType),
        }
    } else if window_eq(v, ks, ke, "scanproportion") {
        match parse_prop_in(v, vs, ve) {
            Some(p) => {
                w.scan_proportion = p;
                Ok(())
            },
            None => Err(ParseError::FieldType),
        }
    } else if window_eq(v, ks, ke, "maxscanlength") {
        match parse_u64_in(v, vs, ve) {
            Some(n) => {
                w.max_scan_length = n;
                Ok(())
            },
            None => Err(ParseError::FieldType),
        }
    } else if window_eq(v, ks, ke, "scanlengthdistribution") {
        match parse_quoted_range(v, vs, ve) {
            Some((cs, ce)) => match dist_of_in(v, cs, ce) {
                Some(d) => {
                    w.scan_length_distribution = d;
                    Ok(())
                },
                None => Err(ParseError::UnknownVariant),
            },
            None => Err(ParseError::FieldType),
        }
    } else if window_eq(v, ks, ke, "insertorder") {
        match parse_quoted_range(v, vs, ve) {
            Some((cs, ce)) => match order_of_in(v, cs, ce) {
                Some(o) => {
                    w.insert_order = o;
                    Ok(())
                },
                None => Err(ParseError::UnknownVariant),
            },
            None => Err(ParseError::FieldType),
        }
    } else if window_eq(v, ks, ke, "requestdistribution") {
        match parse_quoted_range(v, vs, ve) {
            Some((cs, ce)) => match dist_of_in(v, cs, ce) {
                Some(d) => {
                    w.request_distribution = d;
                    Ok(())
                },
                None => Err(ParseError::UnknownVariant),
            },
            None => Err(ParseError::FieldType),
        }
    } else if window_eq(v, ks, ke, "readcount") {
        match parse_prop_in(v, vs, ve) {
            Some(p) => {
                w.hotspot_data_fraction = p;
                Ok(())
            },
            None => Err(ParseError::FieldType),
        }
    } else if window_eq(v, ks, ke, "hotspotopnfraction") {
        match parse_prop_in(v, vs, ve) {
            Some(p) => {
                w.hotspot_operation_fraction = p;
                Ok(())
            },
            None => Err(ParseError::FieldType),
        }
    } else if window_eq(v, ks, ke, "maxexecutiontime") {
        match parse_u64_in(v, vs, ve) {
            Some(n) => {
                w.max_execution_time = n;
                Ok(())
            },
            None => Err(ParseError::FieldType),
        }
    } else if window_eq(v, ks, ke, "table") {
        match parse_quoted_range(v, vs, ve) {
            Some((cs, ce)) => {
                w.table = window_to_string(v, cs, ce);
                Ok(())
            },
            None => Err(ParseError::FieldType),
        }
    } else if window_eq(v, ks, ke, "columnfamily") {
        match parse_quoted_range(v, vs, ve) {
            Some((cs, ce)) => {
                w.column_family = window_to_string(v, cs, ce);
                Ok(())
            },
            None => Err(ParseError::FieldType),
        }
    } else if window_eq(v, ks, ke, "measurementtype") {
        match parse_quoted_range(v, vs, ve) {
            Some((cs, ce)) => match meas_of_in(v, cs, ce) {
                Some(m) => {
                    w.measurement_type = m;
                    Ok(())
                },
                None => Err(ParseError::UnknownVariant),
            },
            None => Err(ParseError::FieldType),
        }
    } else {
        Ok(())
    }
}

/// Interprets the line `v[ls..le]`, returning the section for the lines
/// that follow.
fn apply_line_in(w: &mut Workload, sec: Section, v: &Vec<char>, ls: usize, le: usize) -> (r:
    Result<Section, ParseError>)
    requires
        ls <= le <= v@.len(),
    ensures
        (match r {
            Ok(sec2) => spec_apply_line(v@.subrange(ls as int, le as int), sec, old(w)@)
                == Ok::<(Section, WorkloadView), ParseError>((sec2, final(w)@)),
            Err(e) => spec_apply_line(v@.subrange(ls as int, le as int), sec, old(w)@)
                == Err::<(Section, WorkloadView), ParseError>(e),
        }),
{
    let ghost line = v@.subrange(ls as int, le as int);
    let (ts, te) = trim_in(v, ls, le);
    let ghost t = trim(line);
    proof {
        assert(t == v@.subrange(ts as int, te as int));
        crate::text::lemma_trim_props(line);
    }
    if ts == te {
        return Ok(sec);
    }
    let c0 = v[ts];
    proof {
        assert(t[0] == c0);
    }
    if c0 == '#' {
        return Ok(sec);
    }
    if c0 == '[' {
        if te - ts >= 2 && v[te - 1] == ']' {
            proof {
                assert(t.last() == ']');
            }
            let (ns, ne) = trim_in(v, ts + 1, te - 1);
            proof {
                assert(t.subrange(1, t.len() - 1) =~= v@.subrange(ts + 1, te - 1));
            }
            if is_bare_key_in(v, ns, ne) {
                let sec2 = if window_eq(v, ns, ne, "histogram") {
                    Section::Histogram
                } else if window_eq(v, ns, ne, "timeseries") {
                    Section::Timeseries
                } else {
                    Section::Other
                };
                return Ok(sec2);
            } else {
                return Err(ParseError::DocumentSyntax);
            }
        } else {
            proof {
                if t.len() >= 2 {
                    assert(t.last() != ']');
                }
            }
            return Err(ParseError::DocumentSyntax);
        }
    }
    let eqp = find_in(v, ts, te, '=');
    proof {
        assert(find_char(t, '=') == eqp - ts);
    }
    if eqp == te {
        return Err(ParseError::DocumentSyntax);
    }
    let (ks, ke) = trim_in(v, ts, eqp);
    proof {
        let keypart = t.subrange(0, (eqp - ts) as int);
        assert(keypart =~= v@.subrange(ts as int, eqp as int));
        if keypart.len() > 0 {
            assert(keypart[0] == t[0]);
            assert(crate::text::trim_left(keypart) == keypart);
        }
        assert(trim(keypart) == trim_right(keypart));
    }
    let (vs2, ve2) = trim_in(v, eqp + 1, te);
    proof {
        assert(t.subrange((eqp - ts + 1) as int, t.len() as int) =~= v@.subrange(
            eqp + 1,
            te as int,
        ));
    }
    if !is_bare_key_in(v, ks, ke) {
        return Err(ParseError::DocumentSyntax);
    }
    if vs2 == ve2 {
        return Err(ParseError::DocumentSyntax);
    }
    match apply_kv_in(w, sec, v, ks, ke, vs2, ve2) {
        Ok(u) => Ok(sec),
        Err(e) => Err(e),
    }
}

/// Parses a document given as characters, merging its assignments onto the
/// default workload.
pub fn from_toml_chars(v: &Vec<char>) -> (r: Result<Workload, ParseError>)
    ensures
        (match r {
            Ok(w) => spec_parse(v@) == Ok::<WorkloadView, ParseError>(w@),
            Err(e) => spec_parse(v@) == Err::<WorkloadView, ParseError>(e),
        }),
{
    let mut w = Workload::default();
    let mut sec = Section::Root;
    let mut pos: usize = 0;
    let n = v.len();
    proof {
        assert(v@.subrange(0, n as int) =~= v@);
    }
    while pos < n
        invariant
            pos <= n == v@.len(),
            spec_parse_rest(v@.subrange(pos as int, n as int), sec, w@) == spec_parse(v@),
        decreases n - pos,
    {
        let nl = find_in(v, pos, n, '\n');
        let ghost rem = v@.subrange(pos as int, n as int);
        let ghost secpre = sec;
        let ghost wpre = w@;
        proof {
            assert(find_char(rem, '\n') == nl - pos);
            assert(rem.subrange(0, (nl - pos) as int) =~= v@.subrange(pos as int, nl as int));
        }
        match apply_line_in(&mut w, sec, v, pos, nl) {
            Ok(sec2) => {
                sec = sec2;
            },
            Err(e) => {
                proof {
                    assert(spec_parse_rest(rem, secpre, wpre) == Err::<
                        WorkloadView,
                        ParseError,
                    >(e));
                }
                return Err(e);
            },
        }
        proof {
            let line = rem.subrange(0, (nl - pos) as int);
            assert(spec_apply_line(line, secpre, wpre) == Ok::<
                (Section, WorkloadView),
                ParseError,
            >((sec, w@)));
            let rest = if nl - pos == rem.len() {
                Seq::<char>::empty()
            } else {
                rem.subrange((nl - pos + 1) as int, rem.len() as int)
            };
            assert(spec_parse_rest(rem, secpre, wpre) == spec_parse_rest(rest, sec, w@));
            if nl == n {
                assert(rest =~= v@.subrange(n as int, n as int));
            } else {
                assert(rest =~= v@.subrange(nl + 1, n as int));
            }
        }
        pos = if nl == n {
            n
        } else {
            nl + 1
        };
    }
    proof {
        assert(v@.subrange(pos as int, n as int) =~= Seq::<char>::empty());
    }
    Ok(w)
}

impl Workload {
    /// Parses a canonical text document: assignments merge field by field
    /// onto the default instance, absent keys keep their defaults, unknown
    /// keys and sections are ignored, and an ill-formed document is
    /// reported as a typed error.
    pub fn from_toml_str(s: &str) -> (r: Result<Workload, ParseError>)
        ensures
            (match r {
                Ok(w) => spec_parse(s@) == Ok::<WorkloadView, ParseError>(w@),
                Err(e) => spec_parse(s@) == Err::<WorkloadView, ParseError>(e),
            }),
    {
        let v = str_to_chars(s);
        from_toml_chars(&v)
    }
}


} // verus!
