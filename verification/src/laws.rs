//! The laws that tie serialization and parsing together: the canonical
//! serialization of any well-formed workload parses back to exactly that
//! workload, every parsed workload is well formed, and the enumeration
//! names round-trip through their textual form.
use vstd::prelude::*;

use crate::model::Distribution;
use crate::model::InsertOrder;
use crate::model::MeasurementType;
use crate::model::Proportion;
use crate::model::WorkloadView;
use crate::model::spec_default;
use crate::model::text_wf;
use crate::numbers::all_digits;
use crate::numbers::dec;
use crate::numbers::is_digit;
use crate::numbers::lemma_dec;
use crate::numbers::lemma_prop_round_trip;
use crate::numbers::lemma_prop_str_chars;
use crate::numbers::prop_str;
use crate::numbers::spec_parse_u64;
use crate::parse::ParseError;
use crate::parse::Section;
use crate::parse::is_bare_key;
use crate::parse::is_bare_key_char;
use crate::parse::spec_apply_kv;
use crate::parse::spec_apply_line;
use crate::parse::spec_dist_of;
use crate::parse::spec_meas_of;
use crate::parse::spec_order_of;
use crate::parse::spec_parse;
use crate::parse::spec_parse_bool;
use crate::parse::spec_parse_quoted;
use crate::parse::spec_parse_rest;
use crate::ser::bool_str;
use crate::ser::dist_name;
use crate::ser::header;
use crate::ser::kv_bool;
use crate::ser::kv_prop;
use crate::ser::kv_quoted;
use crate::ser::kv_raw;
use crate::ser::kv_u64;
use crate::ser::meas_name;
use crate::ser::order_name;
use crate::ser::spec_ser;
use crate::ser::ser_head;
use crate::ser::ser_mid;
use crate::ser::ser_tail;
use crate::text::find_char;
use crate::text::is_space;
use crate::text::lemma_find_char;
use crate::text::lemma_find_char_concat;
use crate::text::lemma_trim_noop;
use crate::text::trim;
use crate::text::trim_left;
use crate::text::trim_right;

verus! {

/// What a serialized value text must look like for the line machinery:
/// nonempty, no line break, and no space at either edge.
pub open spec fn val_text_ok(v: Seq<char>) -> bool {
    &&& v.len() > 0
    &&& !is_space(v[0])
    &&& !is_space(v.last())
    &&& forall|i: int| 0 <= i < v.len() ==> v[i] != '\n'
}

/// A bare key holds no line break, no space, and none of the punctuation
/// that opens a comment, a header, or an assignment.
proof fn lemma_bare_key_chars(k: Seq<char>)
    requires
        is_bare_key(k),
    ensures
        forall|i: int|
            0 <= i < k.len() ==> k[i] != '\n' && k[i] != '=' && !is_space(#[trigger] k[i]),
        k[0] != '#',
        k[0] != '[',
{
    assert forall|i: int|
        0 <= i < k.len() implies k[i] != '\n' && k[i] != '=' && !is_space(#[trigger] k[i]) by {
        assert(is_bare_key_char(k[i]));
    }
    assert(is_bare_key_char(k[0]));
}

/// Folding one serialized line: parsing `body` followed by a line break and
/// the remainder applies the line and goes on with the remainder.
proof fn lemma_parse_step(body: Seq<char>, rest: Seq<char>, sec: Section, w: WorkloadView)
    requires
        forall|i: int| 0 <= i < body.len() ==> body[i] != '\n',
    ensures
        spec_parse_rest(body + seq!['\n'] + rest, sec, w) == (match spec_apply_line(
            body,
            sec,
            w,
        ) {
            Ok((sec2, w2)) => spec_parse_rest(rest, sec2, w2),
            Err(e) => Err(e),
        }),
{
    let s = body + seq!['\n'] + rest;
    assert(s =~= body + (seq!['\n'] + rest));
    lemma_find_char_concat(body, seq!['\n'] + rest, '\n');
    assert((seq!['\n'] + rest)[0] == '\n');
    assert(find_char(seq!['\n'] + rest, '\n') == 0);
    let n = find_char(s, '\n');
    assert(n == body.len());
    assert(s.len() > 0);
    assert(s.subrange(0, n as int) =~= body);
    assert(s.subrange((n + 1) as int, s.len() as int) =~= rest);
}

/// Interpreting one well-shaped assignment line applies its key and value.
proof fn lemma_assign_line(k: Seq<char>, v: Seq<char>, sec: Section, w: WorkloadView)
    requires
        is_bare_key(k),
        val_text_ok(v),
    ensures
        spec_apply_line(k + (" = ")@ + v, sec, w) == (match spec_apply_kv(sec, k, v, w) {
            Ok(w2) => Ok::<(Section, WorkloadView), ParseError>((sec, w2)),
            Err(e) => Err::<(Section, WorkloadView), ParseError>(e),
        }),
{
    reveal_strlit(" = ");
    let mid = (" = ")@;
    assert(mid.len() == 3 && mid[0] == ' ' && mid[1] == '=' && mid[2] == ' ');
    lemma_bare_key_chars(k);
    let body = k + mid + v;
    assert(body[0] == k[0]);
    assert(body.last() == v.last());
    assert(!is_space(body[0]) && !is_space(body.last()));
    lemma_trim_noop(body);
    let t = trim(body);
    assert(t == body);
    assert(t[0] != '#' && t[0] != '[');
    assert(body =~= k + (mid + v));
    lemma_find_char_concat(k, mid + v, '=');
    assert((mid + v)[0] == ' ');
    assert(((mid + v).drop_first())[0] == '=');
    assert(find_char((mid + v).drop_first(), '=') == 0);
    assert(find_char(mid + v, '=') == 1);
    let eq = find_char(t, '=');
    assert(eq == k.len() + 1);
    assert(eq < t.len());
    let keypart = t.subrange(0, eq as int);
    assert(keypart =~= k + seq![' ']);
    assert(keypart.last() == ' ');
    assert(keypart.drop_last() =~= k);
    assert(trim_right(keypart) == trim_right(k));
    assert(k.last() != ' ' && k.last() != '\t');
    assert(trim_right(k) == k);
    let valpart = t.subrange((eq + 1) as int, t.len() as int);
    assert(valpart =~= seq![' '] + v);
    assert(valpart[0] == ' ');
    assert(valpart.drop_first() =~= v);
    assert(trim_left(valpart) == trim_left(v));
    assert(trim_left(v) == v);
    assert(trim_right(v) == v);
    assert(trim(valpart) == v);
}

/// Parsing a section header line, preceded by its blank line, selects the
/// section and goes on with the remainder.
proof fn lemma_header_step(
    name: Seq<char>,
    sec2: Section,
    rest: Seq<char>,
    sec: Section,
    w: WorkloadView,
)
    requires
        is_bare_key(name),
        crate::parse::spec_section_of(name) == sec2,
    ensures
        spec_parse_rest(header(name) + rest, sec, w) == spec_parse_rest(rest, sec2, w),
{
    lemma_bare_key_chars(name);
    let hbody = seq!['['] + name + seq![']'];
    assert(header(name) + rest =~= Seq::<char>::empty() + seq!['\n'] + (hbody + seq!['\n']
        + rest));
    lemma_parse_step(Seq::<char>::empty(), hbody + seq!['\n'] + rest, sec, w);
    assert(trim(Seq::<char>::empty()) == Seq::<char>::empty());
    assert(spec_apply_line(Seq::<char>::empty(), sec, w) == Ok::<
        (Section, WorkloadView),
        ParseError,
    >((sec, w)));
    assert(forall|i: int| 0 <= i < hbody.len() ==> hbody[i] != '\n');
    lemma_parse_step(hbody, rest, sec, w);
    assert(hbody[0] == '[');
    assert(hbody.last() == ']');
    assert(!is_space(hbody[0]) && !is_space(hbody.last()));
    lemma_trim_noop(hbody);
    assert(hbody.subrange(1, hbody.len() - 1) =~= name);
    assert(!is_space(name[0]) && !is_space(name.last()));
    lemma_trim_noop(name);
    assert(spec_apply_line(hbody, sec, w) == Ok::<(Section, WorkloadView), ParseError>(
        (sec2, w),
    ));
}


/// The decimal text of an integer is a fit value text and parses back to it.
proof fn lemma_val_u64(n: u64)
    ensures
        val_text_ok(dec(n as nat)),
        spec_parse_u64(dec(n as nat)) == Some(n),
{
    lemma_dec(n as nat);
    assert forall|i: int| 0 <= i < dec(n as nat).len() implies dec(n as nat)[i] != '\n' by {
        assert(is_digit(dec(n as nat)[i]));
    }
    assert(is_digit(dec(n as nat)[0]));
    assert(is_digit(dec(n as nat).last()));
}

/// The decimal text of a well-formed proportion is a fit value text and
/// parses back to it.
proof fn lemma_val_prop(p: Proportion)
    requires
        p.wf(),
    ensures
        val_text_ok(prop_str(p)),
        crate::numbers::spec_parse_prop(prop_str(p)) == Some(p),
{
    lemma_prop_str_chars(p);
    lemma_prop_round_trip(p);
    assert forall|i: int| 0 <= i < prop_str(p).len() implies prop_str(p)[i] != '\n' by {
        assert(is_digit(prop_str(p)[i]) || prop_str(p)[i] == '.');
    }
}

/// The text of a boolean is a fit value text and parses back to it.
proof fn lemma_val_bool(b: bool)
    ensures
        val_text_ok(bool_str(b)),
        spec_parse_bool(bool_str(b)) == Some(b),
{
    reveal_strlit("true");
    reveal_strlit("false");
    if b {
        assert(forall|i: int| 0 <= i < ("true")@.len() ==> ("true")@[i] != '\n');
    } else {
        assert(forall|i: int| 0 <= i < ("false")@.len() ==> ("false")@[i] != '\n');
    }
}

/// Quoting a character sequence free of quotation marks and line breaks
/// gives a fit value text whose parsed content is the sequence itself.
proof fn lemma_val_quoted(c: Seq<char>)
    requires
        text_wf(c),
    ensures
        val_text_ok(seq!['"'] + c + seq!['"']),
        spec_parse_quoted(seq!['"'] + c + seq!['"']) == Some(c),
{
    let v = seq!['"'] + c + seq!['"'];
    assert(v[0] == '"');
    assert(v.last() == '"');
    assert forall|i: int| 0 <= i < v.len() implies v[i] != '\n' by {
        if 1 <= i < v.len() - 1 {
            assert(v[i] == c[i - 1]);
        }
    }
    assert forall|i: int| 1 <= i < v.len() - 1 implies v[i] != '"' by {
        assert(v[i] == c[i - 1]);
    }
    assert(v.subrange(1, v.len() - 1) =~= c);
}

/// Every distribution name is a quotable text that parses back to exactly
/// its variant: the textual form of `Distribution` is lossless.
pub proof fn lemma_dist_name_round_trip(d: Distribution)
    ensures
        text_wf(dist_name(d)),
        spec_dist_of(dist_name(d)) == Some(d),
{
    reveal_strlit("constant");
    reveal_strlit("uniform");
    reveal_strlit("zipfian");
    reveal_strlit("latest");
    assert(("constant")@.len() == 8);
    assert(("uniform")@.len() == 7);
    assert(("zipfian")@.len() == 7);
    assert(("latest")@.len() == 6);
    assert(("uniform")@[0] == 'u' && ("zipfian")@[0] == 'z');
    assert(("zipfian")@ != ("uniform")@);
}

/// Every insert-order name is a quotable text that parses back to exactly
/// its variant: the textual form of `InsertOrder` is lossless.
pub proof fn lemma_order_name_round_trip(o: InsertOrder)
    ensures
        text_wf(order_name(o)),
        spec_order_of(order_name(o)) == Some(o),
{
    reveal_strlit("hashed");
    reveal_strlit("ordered");
    assert(("hashed")@.len() == 6);
    assert(("ordered")@.len() == 7);
}

/// Every measurement-type name is a quotable text that parses back to
/// exactly its variant: the textual form of `MeasurementType` is lossless.
pub proof fn lemma_meas_name_round_trip(m: MeasurementType)
    ensures
        text_wf(meas_name(m)),
        spec_meas_of(meas_name(m)) == Some(m),
{
    reveal_strlit("histogram");
    reveal_strlit("timeseries");
    reveal_strlit("raw");
    assert(("histogram")@.len() == 9);
    assert(("timeseries")@.len() == 10);
    assert(("raw")@.len() == 3);
}


/// The canonical wire keys: each is a bare key, and no two of equal length
/// coincide.
#[verifier::rlimit(100)]
proof fn lemma_root_keys()
    ensures
        ("workload")@.len() == 8,
        ("recordcount")@.len() == 11,
        ("operationcount")@.len() == 14,
        ("threadcount")@.len() == 11,
        ("insertcount")@.len() == 11,
        ("insertstart")@.len() == 11,
        ("fieldcount")@.len() == 10,
        ("fieldlength")@.len() == 11,
        ("readallfields")@.len() == 13,
        ("writeallfields")@.len() == 14,
        ("fieldlengthdistribution")@.len() == 23,
        ("readproportion")@.len() == 14,
        ("updateproportion")@.len() == 16,
        ("insertproportion")@.len() == 16,
        ("readmodifywriteproportion")@.len() == 25,
        ("scanproportion")@.len() == 14,
        ("maxscanlength")@.len() == 13,
        ("scanlengthdistribution")@.len() == 22,
        ("insertorder")@.len() == 11,
        ("requestdistribution")@.len() == 19,
        ("readcount")@.len() == 9,
        ("hotspotopnfraction")@.len() == 18,
        ("maxexecutiontime")@.len() == 16,
        ("table")@.len() == 5,
        ("columnfamily")@.len() == 12,
        ("measurementtype")@.len() == 15,
        ("buckets")@.len() == 7,
        ("granularity")@.len() == 11,
        is_bare_key(("workload")@),
        is_bare_key(("recordcount")@),
        is_bare_key(("operationcount")@),
        is_bare_key(("threadcount")@),
        is_bare_key(("insertcount")@),
        is_bare_key(("insertstart")@),
        is_bare_key(("fieldcount")@),
        is_bare_key(("fieldlength")@),
        is_bare_key(("readallfields")@),
        is_bare_key(("writeallfields")@),
        is_bare_key(("fieldlengthdistribution")@),
        is_bare_key(("readproportion")@),
        is_bare_key(("updateproportion")@),
        is_bare_key(("insertproportion")@),
        is_bare_key(("readmodifywriteproportion")@),
        is_bare_key(("scanproportion")@),
        is_bare_key(("maxscanlength")@),
        is_bare_key(("scanlengthdistribution")@),
        is_bare_key(("insertorder")@),
        is_bare_key(("requestdistribution")@),
        is_bare_key(("readcount")@),
        is_bare_key(("hotspotopnfraction")@),
        is_bare_key(("maxexecutiontime")@),
        is_bare_key(("table")@),
        is_bare_key(("columnfamily")@),
        is_bare_key(("measurementtype")@),
        is_bare_key(("buckets")@),
        is_bare_key(("granularity")@),
        ("threadcount")@ != ("recordcount")@,
        ("insertcount")@ != ("recordcount")@,
        ("insertcount")@ != ("threadcount")@,
        ("insertstart")@ != ("recordcount")@,
        ("insertstart")@ != ("threadcount")@,
        ("insertstart")@ != ("insertcount")@,
        ("fieldlength")@ != ("recordcount")@,
        ("fieldlength")@ != ("threadcount")@,
        ("fieldlength")@ != ("insertcount")@,
        ("fieldlength")@ != ("insertstart")@,
        ("writeallfields")@ != ("operationcount")@,
        ("readproportion")@ != ("operationcount")@,
        ("readproportion")@ != ("writeallfields")@,
        ("insertproportion")@ != ("updateproportion")@,
        ("scanproportion")@ != ("operationcount")@,
        ("scanproportion")@ != ("writeallfields")@,
        ("scanproportion")@ != ("readproportion")@,
        ("maxscanlength")@ != ("readallfields")@,
        ("insertorder")@ != ("recordcount")@,
        ("insertorder")@ != ("threadcount")@,
        ("insertorder")@ != ("insertcount")@,
        ("insertorder")@ != ("insertstart")@,
        ("insertorder")@ != ("fieldlength")@,
        ("maxexecutiontime")@ != ("updateproportion")@,
        ("maxexecutiontime")@ != ("insertproportion")@,
{
    reveal_strlit("workload");
    reveal_strlit("recordcount");
    reveal_strlit("operationcount");
    reveal_strlit("threadcount");
    reveal_strlit("insertcount");
    reveal_strlit("insertstart");
    reveal_strlit("fieldcount");
    reveal_strlit("fieldlength");
    reveal_strlit("readallfields");
    reveal_strlit("writeallfields");
    reveal_strlit("fieldlengthdistribution");
    reveal_strlit("readproportion");
    reveal_strlit("updateproportion");
    reveal_strlit("insertproportion");
    reveal_strlit("readmodifywriteproportion");
    reveal_strlit("scanproportion");
    reveal_strlit("maxscanlength");
    reveal_strlit("scanlengthdistribution");
    reveal_strlit("insertorder");
    reveal_strlit("requestdistribution");
    reveal_strlit("readcount");
    reveal_strlit("hotspotopnfraction");
    reveal_strlit("maxexecutiontime");
    reveal_strlit("table");
    reveal_strlit("columnfamily");
    reveal_strlit("measurementtype");
    reveal_strlit("buckets");
    reveal_strlit("granularity");
    assert(("threadcount")@[0] == 't' && ("recordcount")@[0] == 'r');
    assert(("insertcount")@[0] == 'i' && ("recordcount")@[0] == 'r');
    assert(("insertcount")@[0] == 'i' && ("threadcount")@[0] == 't');
    assert(("insertstart")@[0] == 'i' && ("recordcount")@[0] == 'r');
    assert(("insertstart")@[0] == 'i' && ("threadcount")@[0] == 't');
    assert(("insertstart")@[6] == 's' && ("insertcount")@[6] == 'c');
    assert(("fieldlength")@[0] == 'f' && ("recordcount")@[0] == 'r');
    assert(("fieldlength")@[0] == 'f' && ("threadcount")@[0] == 't');
    assert(("fieldlength")@[0] == 'f' && ("insertcount")@[0] == 'i');
    assert(("fieldlength")@[0] == 'f' && ("insertstart")@[0] == 'i');
    assert(("writeallfields")@[0] == 'w' && ("operationcount")@[0] == 'o');
    assert(("readproportion")@[0] == 'r' && ("operationcount")@[0] == 'o');
    assert(("readproportion")@[0] == 'r' && ("writeallfields")@[0] == 'w');
    assert(("insertproportion")@[0] == 'i' && ("updateproportion")@[0] == 'u');
    assert(("scanproportion")@[0] == 's' && ("operationcount")@[0] == 'o');
    assert(("scanproportion")@[0] == 's' && ("writeallfields")@[0] == 'w');
    assert(("scanproportion")@[0] == 's' && ("readproportion")@[0] == 'r');
    assert(("maxscanlength")@[0] == 'm' && ("readallfields")@[0] == 'r');
    assert(("insertorder")@[0] == 'i' && ("recordcount")@[0] == 'r');
    assert(("insertorder")@[0] == 'i' && ("threadcount")@[0] == 't');
    assert(("insertorder")@[6] == 'o' && ("insertcount")@[6] == 'c');
    assert(("insertorder")@[6] == 'o' && ("insertstart")@[6] == 's');
    assert(("insertorder")@[0] == 'i' && ("fieldlength")@[0] == 'f');
    assert(("maxexecutiontime")@[0] == 'm' && ("updateproportion")@[0] == 'u');
    assert(("maxexecutiontime")@[0] == 'm' && ("insertproportion")@[0] == 'i');
}

/// Folding one well-shaped assignment line into the document fold.
proof fn lemma_assign_step(
    k: Seq<char>,
    v: Seq<char>,
    rest: Seq<char>,
    sec: Section,
    w: WorkloadView,
)
    requires
        is_bare_key(k),
        val_text_ok(v),
    ensures
        spec_parse_rest(kv_raw(k, v) + rest, sec, w) == (match spec_apply_kv(sec, k, v, w) {
            Ok(w2) => spec_parse_rest(rest, sec, w2),
            Err(e) => Err(e),
        }),
{
    reveal_strlit(" = ");
    lemma_bare_key_chars(k);
    let mid = (" = ")@;
    let body = k + mid + v;
    assert forall|i: int| 0 <= i < body.len() implies body[i] != '\n' by {
        if i < k.len() {
            assert(body[i] == k[i]);
        } else if i < k.len() + 3 {
            assert(body[i] == mid[i - k.len()]);
        } else {
            assert(body[i] == v[i - k.len() - 3]);
        }
    }
    assert(kv_raw(k, v) + rest =~= body + seq!['\n'] + rest);
    lemma_parse_step(body, rest, sec, w);
    lemma_assign_line(k, v, sec, w);
}

/// Folding one `workload` line replaces that field.
proof fn lemma_line_workload(c: Seq<char>, rest: Seq<char>, w: WorkloadView)
    requires
        text_wf(c),
    ensures
        spec_parse_rest(kv_quoted(("workload")@, c) + rest, Section::Root, w) == spec_parse_rest(
            rest,
            Section::Root,
            WorkloadView { workload: c, ..w },
        ),
{
    lemma_root_keys();
    lemma_val_quoted(c);
    lemma_assign_step(("workload")@, seq!['"'] + c + seq!['"'], rest, Section::Root, w);
    assert(spec_apply_kv(Section::Root, ("workload")@, seq!['"'] + c + seq!['"'], w) == Ok::<WorkloadView, ParseError>(
        WorkloadView { workload: c, ..w },
    ));
}

/// Folding one `recordcount` line replaces that field.
proof fn lemma_line_recordcount(n: u64, rest: Seq<char>, w: WorkloadView)
    ensures
        spec_parse_rest(kv_u64(("recordcount")@, n) + rest, Section::Root, w) == spec_parse_rest(
            rest,
            Section::Root,
            WorkloadView { record_count: n, ..w },
        ),
{
    lemma_root_keys();
    lemma_val_u64(n);
    lemma_assign_step(("recordcount")@, dec(n as nat), rest, Section::Root, w);
    assert(spec_apply_kv(Section::Root, ("recordcount")@, dec(n as nat), w) == Ok::<WorkloadView, ParseError>(
        WorkloadView { record_count: n, ..w },
    ));
}

/// Folding one `operationcount` line replaces that field.
proof fn lemma_line_operationcount(n: u64, rest: Seq<char>, w: WorkloadView)
    ensures
        spec_parse_rest(kv_u64(("operationcount")@, n) + rest, Section::Root, w) == spec_parse_rest(
            rest,
            Section::Root,
            WorkloadView { operation_count: n, ..w },
        ),
{
    lemma_root_keys();
    lemma_val_u64(n);
    lemma_assign_step(("operationcount")@, dec(n as nat), rest, Section::Root, w);
    assert(spec_apply_kv(Section::Root, ("operationcount")@, dec(n as nat), w) == Ok::<WorkloadView, ParseError>(
        WorkloadView { operation_count: n, ..w },
    ));
}

/// Folding one `threadcount` line replaces that field.
proof fn lemma_line_threadcount(n: u64, rest: Seq<char>, w: WorkloadView)
    ensures
        spec_parse_rest(kv_u64(("threadcount")@, n) + rest, Section::Root, w) == spec_parse_rest(
            rest,
            Section::Root,
            WorkloadView { thread_count: n, ..w },
        ),
{
    lemma_root_keys();
    lemma_val_u64(n);
    lemma_assign_step(("threadcount")@, dec(n as nat), rest, Section::Root, w);
    assert(spec_apply_kv(Section::Root, ("threadcount")@, dec(n as nat), w) == Ok::<WorkloadView, ParseError>(
        WorkloadView { thread_count: n, ..w },
    ));
}

/// Folding one `insertcount` line replaces that field.
proof fn lemma_line_insertcount(n: u64, rest: Seq<char>, w: WorkloadView)
    ensures
        spec_parse_rest(kv_u64(("insertcount")@, n) + rest, Section::Root, w) == spec_parse_rest(
            rest,
            Section::Root,
            WorkloadView { insert_count: n, ..w },
        ),
{
    lemma_root_keys();
    lemma_val_u64(n);
    lemma_assign_step(("insertcount")@, dec(n as nat), rest, Section::Root, w);
    assert(spec_apply_kv(Section::Root, ("insertcount")@, dec(n as nat), w) == Ok::<WorkloadView, ParseError>(
        WorkloadView { insert_count: n, ..w },
    ));
}

/// Folding one `insertstart` line replaces that field.
proof fn lemma_line_insertstart(n: u64, rest: Seq<char>, w: WorkloadView)
    ensures
        spec_parse_rest(kv_u64(("insertstart")@, n) + rest, Section::Root, w) == spec_parse_rest(
            rest,
            Section::Root,
            WorkloadView { insert_start: n, ..w },
        ),
{
    lemma_root_keys();
    lemma_val_u64(n);
    lemma_assign_step(("insertstart")@, dec(n as nat), rest, Section::Root, w);
    assert(spec_apply_kv(Section::Root, ("insertstart")@, dec(n as nat), w) == Ok::<WorkloadView, ParseError>(
        WorkloadView { insert_start: n, ..w },
    ));
}

/// Folding one `fieldcount` line replaces that field.
proof fn lemma_line_fieldcount(n: u64, rest: Seq<char>, w: WorkloadView)
    ensures
        spec_parse_rest(kv_u64(("fieldcount")@, n) + rest, Section::Root, w) == spec_parse_rest(
            rest,
            Section::Root,
            WorkloadView { field_count: n, ..w },
        ),
{
    lemma_root_keys();
    lemma_val_u64(n);
    lemma_assign_step(("fieldcount")@, dec(n as nat), rest, Section::Root, w);
    assert(spec_apply_kv(Section::Root, ("fieldcount")@, dec(n as nat), w) == Ok::<WorkloadView, ParseError>(
        WorkloadView { field_count: n, ..w },
    ));
}

/// Folding one `fieldlength` line replaces that field.
proof fn lemma_line_fieldlength(n: u64, rest: Seq<char>, w: WorkloadView)
    ensures
        spec_parse_rest(kv_u64(("fieldlength")@, n) + rest, Section::Root, w) == spec_parse_rest(
            rest,
            Section::Root,
            WorkloadView { field_length: n, ..w },
        ),
{
    lemma_root_keys();
    lemma_val_u64(n);
    lemma_assign_step(("fieldlength")@, dec(n as nat), rest, Section::Root, w);
    assert(spec_apply_kv(Section::Root, ("fieldlength")@, dec(n as nat), w) == Ok::<WorkloadView, ParseError>(
        WorkloadView { field_length: n, ..w },
    ));
}

/// Folding one `readallfields` line replaces that field.
proof fn lemma_line_readallfields(b: bool, rest: Seq<char>, w: WorkloadView)
    ensures
        spec_parse_rest(kv_bool(("readallfields")@, b) + rest, Section::Root, w) == spec_parse_rest(
            rest,
            Section::Root,
            WorkloadView { read_all_fields: b, ..w },
        ),
{
    lemma_root_keys();
    lemma_val_bool(b);
    lemma_assign_step(("readallfields")@, bool_str(b), rest, Section::Root, w);
    assert(spec_apply_kv(Section::Root, ("readallfields")@, bool_str(b), w) == Ok::<WorkloadView, ParseError>(
        WorkloadView { read_all_fields: b, ..w },
    ));
}

/// Folding one `writeallfields` line replaces that field.
proof fn lemma_line_writeallfields(b: bool, rest: Seq<char>, w: WorkloadView)
    ensures
        spec_parse_rest(kv_bool(("writeallfields")@, b) + rest, Section::Root, w) == spec_parse_rest(
            rest,
            Section::Root,
            WorkloadView { write_all_fields: b, ..w },
        ),
{
    lemma_root_keys();
    lemma_val_bool(b);
    lemma_assign_step(("writeallfields")@, bool_str(b), rest, Section::Root, w);
    assert(spec_apply_kv(Section::Root, ("writeallfields")@, bool_str(b), w) == Ok::<WorkloadView, ParseError>(
        WorkloadView { write_all_fields: b, ..w },
    ));
}

/// Folding one `fieldlengthdistribution` line replaces that field.
proof fn lemma_line_fieldlengthdistribution(d: Distribution, rest: Seq<char>, w: WorkloadView)
    ensures
        spec_parse_rest(kv_quoted(("fieldlengthdistribution")@, dist_name(d)) + rest, Section::Root, w) == spec_parse_rest(
            rest,
            Section::Root,
            WorkloadView { field_length_distribution: d, ..w },
        ),
{
    lemma_root_keys();
    lemma_dist_name_round_trip(d);
    lemma_val_quoted(dist_name(d));
    lemma_assign_step(("fieldlengthdistribution")@, seq!['"'] + dist_name(d) + seq!['"'], rest, Section::Root, w);
    assert(spec_apply_kv(Section::Root, ("fieldlengthdistribution")@, seq!['"'] + dist_name(d) + seq!['"'], w) == Ok::<WorkloadView, ParseError>(
        WorkloadView { field_length_distribution: d, ..w },
    ));
}

/// Folding one `readproportion` line replaces that field.
proof fn lemma_line_readproportion(p: Proportion, rest: Seq<char>, w: WorkloadView)
    requires
        p.wf(),
    ensures
        spec_parse_rest(kv_prop(("readproportion")@, p) + rest, Section::Root, w) == spec_parse_rest(
            rest,
            Section::Root,
            WorkloadView { read_proportion: p, ..w },
        ),
{
    lemma_root_keys();
    lemma_val_prop(p);
    lemma_assign_step(("readproportion")@, prop_str(p), rest, Section::Root, w);
    assert(spec_apply_kv(Section::Root, ("readproportion")@, prop_str(p), w) == Ok::<WorkloadView, ParseError>(
        WorkloadView { read_proportion: p, ..w },
    ));
}

/// Folding one `updateproportion` line replaces that field.
proof fn lemma_line_updateproportion(p: Proportion, rest: Seq<char>, w: WorkloadView)
    requires
        p.wf(),
    ensures
        spec_parse_rest(kv_prop(("updateproportion")@, p) + rest, Section::Root, w) == spec_parse_rest(
            rest,
            Section::Root,
            WorkloadView { update_proportion: p, ..w },
        ),
{
    lemma_root_keys();
    lemma_val_prop(p);
    lemma_assign_step(("updateproportion")@, prop_str(p), rest, Section::Root, w);
    assert(spec_apply_kv(Section::Root, ("updateproportion")@, prop_str(p), w) == Ok::<WorkloadView, ParseError>(
        WorkloadView { update_proportion: p, ..w },
    ));
}

/// Folding one `insertproportion` line replaces that field.
proof fn lemma_line_insertproportion(p: Proportion, rest: Seq<char>, w: WorkloadView)
    requires
        p.wf(),
    ensures
        spec_parse_rest(kv_prop(("insertproportion")@, p) + rest, Section::Root, w) == spec_parse_rest(
            rest,
            Section::Root,
            WorkloadView { insert_proportion: p, ..w },
        ),
{
    lemma_root_keys();
    lemma_val_prop(p);
    lemma_assign_step(("insertproportion")@, prop_str(p), rest, Section::Root, w);
    assert(spec_apply_kv(Section::Root, ("insertproportion")@, prop_str(p), w) == Ok::<WorkloadView, ParseError>(
        WorkloadView { insert_proportion: p, ..w },
    ));
}

/// Folding one `readmodifywriteproportion` line replaces that field.
proof fn lemma_line_readmodifywriteproportion(p: Proportion, rest: Seq<char>, w: WorkloadView)
    requires
        p.wf(),
    ensures
        spec_parse_rest(kv_prop(("readmodifywriteproportion")@, p) + rest, Section::Root, w) == spec_parse_rest(
            rest,
            Section::Root,
            WorkloadView { read_modify_write_proportion: p, ..w },
        ),
{
    lemma_root_keys();
    lemma_val_prop(p);
    lemma_assign_step(("readmodifywriteproportion")@, prop_str(p), rest, Section::Root, w);
    assert(spec_apply_kv(Section::Root, ("readmodifywriteproportion")@, prop_str(p), w) == Ok::<WorkloadView, ParseError>(
        WorkloadView { read_modify_write_proportion: p, ..w },
    ));
}

/// Folding one `scanproportion` line replaces that field.
proof fn lemma_line_scanproportion(p: Proportion, rest: Seq<char>, w: WorkloadView)
    requires
        p.wf(),
    ensures
        spec_parse_rest(kv_prop(("scanproportion")@, p) + rest, Section::Root, w) == spec_parse_rest(
            rest,
            Section::Root,
            WorkloadView { scan_proportion: p, ..w },
        ),
{
    lemma_root_keys();
    lemma_val_prop(p);
    lemma_assign_step(("scanproportion")@, prop_str(p), rest, Section::Root, w);
    assert(spec_apply_kv(Section::Root, ("scanproportion")@, prop_str(p), w) == Ok::<WorkloadView, ParseError>(
        WorkloadView { scan_proportion: p, ..w },
    ));
}

/// Folding one `maxscanlength` line replaces that field.
proof fn lemma_line_maxscanlength(n: u64, rest: Seq<char>, w: WorkloadView)
    ensures
        spec_parse_rest(kv_u64(("maxscanlength")@, n) + rest, Section::Root, w) == spec_parse_rest(
            rest,
            Section::Root,
            WorkloadView { max_scan_length: n, ..w },
        ),
{
    lemma_root_keys();
    lemma_val_u64(n);
    lemma_assign_step(("maxscanlength")@, dec(n as nat), rest, Section::Root, w);
    assert(spec_apply_kv(Section::Root, ("maxscanlength")@, dec(n as nat), w) == Ok::<WorkloadView, ParseError>(
        WorkloadView { max_scan_length: n, ..w },
    ));
}

/// Folding one `scanlengthdistribution` line replaces that field.
proof fn lemma_line_scanlengthdistribution(d: Distribution, rest: Seq<char>, w: WorkloadView)
    ensures
        spec_parse_rest(kv_quoted(("scanlengthdistribution")@, dist_name(d)) + rest, Section::Root, w) == spec_parse_rest(
            rest,
            Section::Root,
            WorkloadView { scan_length_distribution: d, ..w },
        ),
{
    lemma_root_keys();
    lemma_dist_name_round_trip(d);
    lemma_val_quoted(dist_name(d));
    lemma_assign_step(("scanlengthdistribution")@, seq!['"'] + dist_name(d) + seq!['"'], rest, Section::Root, w);
    assert(spec_apply_kv(Section::Root, ("scanlengthdistribution")@, seq!['"'] + dist_name(d) + seq!['"'], w) == Ok::<WorkloadView, ParseError>(
        WorkloadView { scan_length_distribution: d, ..w },
    ));
}

/// Folding one `insertorder` line replaces that field.
proof fn lemma_line_insertorder(o: InsertOrder, rest: Seq<char>, w: WorkloadView)
    ensures
        spec_parse_rest(kv_quoted(("insertorder")@, order_name(o)) + rest, Section::Root, w) == spec_parse_rest(
            rest,
            Section::Root,
            WorkloadView { insert_order: o, ..w },
        ),
{
    lemma_root_keys();
    lemma_order_name_round_trip(o);
    lemma_val_quoted(order_name(o));
    lemma_assign_step(("insertorder")@, seq!['"'] + order_name(o) + seq!['"'], rest, Section::Root, w);
    assert(spec_apply_kv(Section::Root, ("insertorder")@, seq!['"'] + order_name(o) + seq!['"'], w) == Ok::<WorkloadView, ParseError>(
        WorkloadView { insert_order: o, ..w },
    ));
}

/// Folding one `requestdistribution` line replaces that field.
proof fn lemma_line_requestdistribution(d: Distribution, rest: Seq<char>, w: WorkloadView)
    ensures
        spec_parse_rest(kv_quoted(("requestdistribution")@, dist_name(d)) + rest, Section::Root, w) == spec_parse_rest(
            rest,
            Section::Root,
            WorkloadView { request_distribution: d, ..w },
        ),
{
    lemma_root_keys();
    lemma_dist_name_round_trip(d);
    lemma_val_quoted(dist_name(d));
    lemma_assign_step(("requestdistribution")@, seq!['"'] + dist_name(d) + seq!['"'], rest, Section::Root, w);
    assert(spec_apply_kv(Section::Root, ("requestdistribution")@, seq!['"'] + dist_name(d) + seq!['"'], w) == Ok::<WorkloadView, ParseError>(
        WorkloadView { request_distribution: d, ..w },
    ));
}

/// Folding one `readcount` line replaces that field.
proof fn lemma_line_readcount(p: Proportion, rest: Seq<char>, w: WorkloadView)
    requires
        p.wf(),
    ensures
        spec_parse_rest(kv_prop(("readcount")@, p) + rest, Section::Root, w) == spec_parse_rest(
            rest,
            Section::Root,
            WorkloadView { hotspot_data_fraction: p, ..w },
        ),
{
    lemma_root_keys();
    lemma_val_prop(p);
    lemma_assign_step(("readcount")@, prop_str(p), rest, Section::Root, w);
    assert(spec_apply_kv(Section::Root, ("readcount")@, prop_str(p), w) == Ok::<WorkloadView, ParseError>(
        WorkloadView { hotspot_data_fraction: p, ..w },
    ));
}

/// Folding one `hotspotopnfraction` line replaces that field.
proof fn lemma_line_hotspotopnfraction(p: Proportion, rest: Seq<char>, w: WorkloadView)
    requires
        p.wf(),
    ensures
        spec_parse_rest(kv_prop(("hotspotopnfraction")@, p) + rest, Section::Root, w) == spec_parse_rest(
            rest,
            Section::Root,
            WorkloadView { hotspot_operation_fraction: p, ..w },
        ),
{
    lemma_root_keys();
    lemma_val_prop(p);
    lemma_assign_step(("hotspotopnfraction")@, prop_str(p), rest, Section::Root, w);
    assert(spec_apply_kv(Section::Root, ("hotspotopnfraction")@, prop_str(p), w) == Ok::<WorkloadView, ParseError>(
        WorkloadView { hotspot_operation_fraction: p, ..w },
    ));
}

/// Folding one `maxexecutiontime` line replaces that field.
proof fn lemma_line_maxexecutiontime(n: u64, rest: Seq<char>, w: WorkloadView)
    ensures
        spec_parse_rest(kv_u64(("maxexecutiontime")@, n) + rest, Section::Root, w) == spec_parse_rest(
            rest,
            Section::Root,
            WorkloadView { max_execution_time: n, ..w },
        ),
{
    lemma_root_keys();
    lemma_val_u64(n);
    lemma_assign_step(("maxexecutiontime")@, dec(n as nat), rest, Section::Root, w);
    assert(spec_apply_kv(Section::Root, ("maxexecutiontime")@, dec(n as nat), w) == Ok::<WorkloadView, ParseError>(
        WorkloadView { max_execution_time: n, ..w },
    ));
}

/// Folding one `table` line replaces that field.
proof fn lemma_line_table(c: Seq<char>, rest: Seq<char>, w: WorkloadView)
    requires
        text_wf(c),
    ensures
        spec_parse_rest(kv_quoted(("table")@, c) + rest, Section::Root, w) == spec_parse_rest(
            rest,
            Section::Root,
            WorkloadView { table: c, ..w },
        ),
{
    lemma_root_keys();
    lemma_val_quoted(c);
    lemma_assign_step(("table")@, seq!['"'] + c + seq!['"'], rest, Section::Root, w);
    assert(spec_apply_kv(Section::Root, ("table")@, seq!['"'] + c + seq!['"'], w) == Ok::<WorkloadView, ParseError>(
        WorkloadView { table: c, ..w },
    ));
}

/// Folding one `columnfamily` line replaces that field.
proof fn lemma_line_columnfamily(c: Seq<char>, rest: Seq<char>, w: WorkloadView)
    requires
        text_wf(c),
    ensures
        spec_parse_rest(kv_quoted(("columnfamily")@, c) + rest, Section::Root, w) == spec_parse_rest(
            rest,
            Section::Root,
            WorkloadView { column_family: c, ..w },
        ),
{
    lemma_root_keys();
    lemma_val_quoted(c);
    lemma_assign_step(("columnfamily")@, seq!['"'] + c + seq!['"'], rest, Section::Root, w);
    assert(spec_apply_kv(Section::Root, ("columnfamily")@, seq!['"'] + c + seq!['"'], w) == Ok::<WorkloadView, ParseError>(
        WorkloadView { column_family: c, ..w },
    ));
}

/// Folding one `measurementtype` line replaces that field.
proof fn lemma_line_measurementtype(m: MeasurementType, rest: Seq<char>, w: WorkloadView)
    ensures
        spec_parse_rest(kv_quoted(("measurementtype")@, meas_name(m)) + rest, Section::Root, w) == spec_parse_rest(
            rest,
            Section::Root,
            WorkloadView { measurement_type: m, ..w },
        ),
{
    lemma_root_keys();
    lemma_meas_name_round_trip(m);
    lemma_val_quoted(meas_name(m));
    lemma_assign_step(("measurementtype")@, seq!['"'] + meas_name(m) + seq!['"'], rest, Section::Root, w);
    assert(spec_apply_kv(Section::Root, ("measurementtype")@, seq!['"'] + meas_name(m) + seq!['"'], w) == Ok::<WorkloadView, ParseError>(
        WorkloadView { measurement_type: m, ..w },
    ));
}

/// Folding one `buckets` line under its section replaces the sub-configuration.
proof fn lemma_line_buckets(n: u64, rest: Seq<char>, w: WorkloadView)
    ensures
        spec_parse_rest(kv_u64(("buckets")@, n) + rest, Section::Histogram, w) == spec_parse_rest(
            rest,
            Section::Histogram,
            WorkloadView { histogram: crate::model::HistogramConfig { buckets: n }, ..w },
        ),
{
    lemma_root_keys();
    lemma_val_u64(n);
    lemma_assign_step(("buckets")@, dec(n as nat), rest, Section::Histogram, w);
    assert(spec_apply_kv(Section::Histogram, ("buckets")@, dec(n as nat), w) == Ok::<
        WorkloadView,
        ParseError,
    >(WorkloadView { histogram: crate::model::HistogramConfig { buckets: n }, ..w }));
}

/// Folding one `granularity` line under its section replaces the sub-configuration.
proof fn lemma_line_granularity(n: u64, rest: Seq<char>, w: WorkloadView)
    ensures
        spec_parse_rest(kv_u64(("granularity")@, n) + rest, Section::Timeseries, w) == spec_parse_rest(
            rest,
            Section::Timeseries,
            WorkloadView { timeseries: crate::model::TimeseriesConfig { granularity: n }, ..w },
        ),
{
    lemma_root_keys();
    lemma_val_u64(n);
    lemma_assign_step(("granularity")@, dec(n as nat), rest, Section::Timeseries, w);
    assert(spec_apply_kv(Section::Timeseries, ("granularity")@, dec(n as nat), w) == Ok::<
        WorkloadView,
        ParseError,
    >(WorkloadView { timeseries: crate::model::TimeseriesConfig { granularity: n }, ..w }));
}





/// Folding this group of serialized lines sets exactly its fields.
#[verifier::rlimit(100)]
proof fn lemma_ser_head(v: WorkloadView, rest: Seq<char>, w: WorkloadView)
    requires
        v.wf(),
    ensures
        spec_parse_rest(ser_head(v) + rest, Section::Root, w) == spec_parse_rest(
            rest,
            Section::Root,
            (WorkloadView { workload: v.workload, record_count: v.record_count, operation_count: v.operation_count, thread_count: v.thread_count, insert_count: v.insert_count, insert_start: v.insert_start, field_count: v.field_count, field_length: v.field_length, read_all_fields: v.read_all_fields, write_all_fields: v.write_all_fields, ..w }),
        ),
{
    let a1 = kv_quoted(("workload")@, v.workload);
    let a2 = kv_u64(("recordcount")@, v.record_count);
    let a3 = kv_u64(("operationcount")@, v.operation_count);
    let a4 = kv_u64(("threadcount")@, v.thread_count);
    let a5 = kv_u64(("insertcount")@, v.insert_count);
    let a6 = kv_u64(("insertstart")@, v.insert_start);
    let a7 = kv_u64(("fieldcount")@, v.field_count);
    let a8 = kv_u64(("fieldlength")@, v.field_length);
    let a9 = kv_bool(("readallfields")@, v.read_all_fields);
    let a10 = kv_bool(("writeallfields")@, v.write_all_fields);
    let r11 = rest;
    let r10 = a10 + r11;
    let r9 = a9 + r10;
    let r8 = a8 + r9;
    let r7 = a7 + r8;
    let r6 = a6 + r7;
    let r5 = a5 + r6;
    let r4 = a4 + r5;
    let r3 = a3 + r4;
    let r2 = a2 + r3;
    let r1 = a1 + r2;
    assert(ser_head(v) + rest =~= r1);
    let w1 = WorkloadView { workload: v.workload, ..w };
    lemma_line_workload(v.workload, r2, w);
    let w2 = WorkloadView { record_count: v.record_count, ..w1 };
    lemma_line_recordcount(v.record_count, r3, w1);
    let w3 = WorkloadView { operation_count: v.operation_count, ..w2 };
    lemma_line_operationcount(v.operation_count, r4, w2);
    let w4 = WorkloadView { thread_count: v.thread_count, ..w3 };
    lemma_line_threadcount(v.thread_count, r5, w3);
    let w5 = WorkloadView { insert_count: v.insert_count, ..w4 };
    lemma_line_insertcount(v.insert_count, r6, w4);
    let w6 = WorkloadView { insert_start: v.insert_start, ..w5 };
    lemma_line_insertstart(v.insert_start, r7, w5);
    let w7 = WorkloadView { field_count: v.field_count, ..w6 };
    lemma_line_fieldcount(v.field_count, r8, w6);
    let w8 = WorkloadView { field_length: v.field_length, ..w7 };
    lemma_line_fieldlength(v.field_length, r9, w7);
    let w9 = WorkloadView { read_all_fields: v.read_all_fields, ..w8 };
    lemma_line_readallfields(v.read_all_fields, r10, w8);
    let w10 = WorkloadView { write_all_fields: v.write_all_fields, ..w9 };
    lemma_line_writeallfields(v.write_all_fields, r11, w9);
    assert(w10 =~= (WorkloadView { workload: v.workload, record_count: v.record_count, operation_count: v.operation_count, thread_count: v.thread_count, insert_count: v.insert_count, insert_start: v.insert_start, field_count: v.field_count, field_length: v.field_length, read_all_fields: v.read_all_fields, write_all_fields: v.write_all_fields, ..w }));
}



/// Folding this group of serialized lines sets exactly its fields.
#[verifier::rlimit(100)]
proof fn lemma_ser_mid(v: WorkloadView, rest: Seq<char>, w: WorkloadView)
    requires
        v.wf(),
    ensures
        spec_parse_rest(ser_mid(v) + rest, Section::Root, w) == spec_parse_rest(
            rest,
            Section::Root,
            (WorkloadView { field_length_distribution: v.field_length_distribution, read_proportion: v.read_proportion, update_proportion: v.update_proportion, insert_proportion: v.insert_proportion, read_modify_write_proportion: v.read_modify_write_proportion, scan_proportion: v.scan_proportion, max_scan_length: v.max_scan_length, scan_length_distribution: v.scan_length_distribution, insert_order: v.insert_order, request_distribution: v.request_distribution, ..w }),
        ),
{
    let a1 = kv_quoted(("fieldlengthdistribution")@, dist_name(v.field_length_distribution));
    let a2 = kv_prop(("readproportion")@, v.read_proportion);
    let a3 = kv_prop(("updateproportion")@, v.update_proportion);
    let a4 = kv_prop(("insertproportion")@, v.insert_proportion);
    let a5 = kv_prop(("readmodifywriteproportion")@, v.read_modify_write_proportion);
    let a6 = kv_prop(("scanproportion")@, v.scan_proportion);
    let a7 = kv_u64(("maxscanlength")@, v.max_scan_length);
    let a8 = kv_quoted(("scanlengthdistribution")@, dist_name(v.scan_length_distribution));
    let a9 = kv_quoted(("insertorder")@, order_name(v.insert_order));
    let a10 = kv_quoted(("requestdistribution")@, dist_name(v.request_distribution));
    let r11 = rest;
    let r10 = a10 + r11;
    let r9 = a9 + r10;
    let r8 = a8 + r9;
    let r7 = a7 + r8;
    let r6 = a6 + r7;
    let r5 = a5 + r6;
    let r4 = a4 + r5;
    let r3 = a3 + r4;
    let r2 = a2 + r3;
    let r1 = a1 + r2;
    assert(ser_mid(v) + rest =~= r1);
    let w1 = WorkloadView { field_length_distribution: v.field_length_distribution, ..w };
    lemma_line_fieldlengthdistribution(v.field_length_distribution, r2, w);
    let w2 = WorkloadView { read_proportion: v.read_proportion, ..w1 };
    lemma_line_readproportion(v.read_proportion, r3, w1);
    let w3 = WorkloadView { update_proportion: v.update_proportion, ..w2 };
    lemma_line_updateproportion(v.update_proportion, r4, w2);
    let w4 = WorkloadView { insert_proportion: v.insert_proportion, ..w3 };
    lemma_line_insertproportion(v.insert_proportion, r5, w3);
    let w5 = WorkloadView { read_modify_write_proportion: v.read_modify_write_proportion, ..w4 };
    lemma_line_readmodifywriteproportion(v.read_modify_write_proportion, r6, w4);
    let w6 = WorkloadView { scan_proportion: v.scan_proportion, ..w5 };
    lemma_line_scanproportion(v.scan_proportion, r7, w5);
    let w7 = WorkloadView { max_scan_length: v.max_scan_length, ..w6 };
    lemma_line_maxscanlength(v.max_scan_length, r8, w6);
    let w8 = WorkloadView { scan_length_distribution: v.scan_length_distribution, ..w7 };
    lemma_line_scanlengthdistribution(v.scan_length_distribution, r9, w7);
    let w9 = WorkloadView { insert_order: v.insert_order, ..w8 };
    lemma_line_insertorder(v.insert_order, r10, w8);
    let w10 = WorkloadView { request_distribution: v.request_distribution, ..w9 };
    lemma_line_requestdistribution(v.request_distribution, r11, w9);
    assert(w10 =~= (WorkloadView { field_length_distribution: v.field_length_distribution, read_proportion: v.read_proportion, update_proportion: v.update_proportion, insert_proportion: v.insert_proportion, read_modify_write_proportion: v.read_modify_write_proportion, scan_proportion: v.scan_proportion, max_scan_length: v.max_scan_length, scan_length_distribution: v.scan_length_distribution, insert_order: v.insert_order, request_distribution: v.request_distribution, ..w }));
}



/// Folding this group of serialized lines sets exactly its fields.
#[verifier::rlimit(100)]
proof fn lemma_ser_tail(v: WorkloadView, rest: Seq<char>, w: WorkloadView)
    requires
        v.wf(),
    ensures
        spec_parse_rest(ser_tail(v) + rest, Section::Root, w) == spec_parse_rest(
            rest,
            Section::Timeseries,
            (WorkloadView { hotspot_data_fraction: v.hotspot_data_fraction, hotspot_operation_fraction: v.hotspot_operation_fraction, max_execution_time: v.max_execution_time, table: v.table, column_family: v.column_family, measurement_type: v.measurement_type, histogram: crate::model::HistogramConfig { buckets: v.histogram.buckets }, timeseries: crate::model::TimeseriesConfig { granularity: v.timeseries.granularity }, ..w }),
        ),
{
    let a1 = kv_prop(("readcount")@, v.hotspot_data_fraction);
    let a2 = kv_prop(("hotspotopnfraction")@, v.hotspot_operation_fraction);
    let a3 = kv_u64(("maxexecutiontime")@, v.max_execution_time);
    let a4 = kv_quoted(("table")@, v.table);
    let a5 = kv_quoted(("columnfamily")@, v.column_family);
    let a6 = kv_quoted(("measurementtype")@, meas_name(v.measurement_type));
    let a7 = header(("histogram")@);
    let a8 = kv_u64(("buckets")@, v.histogram.buckets);
    let a9 = header(("timeseries")@);
    let a10 = kv_u64(("granularity")@, v.timeseries.granularity);
    let r11 = rest;
    let r10 = a10 + r11;
    let r9 = a9 + r10;
    let r8 = a8 + r9;
    let r7 = a7 + r8;
    let r6 = a6 + r7;
    let r5 = a5 + r6;
    let r4 = a4 + r5;
    let r3 = a3 + r4;
    let r2 = a2 + r3;
    let r1 = a1 + r2;
    assert(ser_tail(v) + rest =~= r1);
    let w1 = WorkloadView { hotspot_data_fraction: v.hotspot_data_fraction, ..w };
    lemma_line_readcount(v.hotspot_data_fraction, r2, w);
    let w2 = WorkloadView { hotspot_operation_fraction: v.hotspot_operation_fraction, ..w1 };
    lemma_line_hotspotopnfraction(v.hotspot_operation_fraction, r3, w1);
    let w3 = WorkloadView { max_execution_time: v.max_execution_time, ..w2 };
    lemma_line_maxexecutiontime(v.max_execution_time, r4, w2);
    let w4 = WorkloadView { table: v.table, ..w3 };
    lemma_line_table(v.table, r5, w3);
    let w5 = WorkloadView { column_family: v.column_family, ..w4 };
    lemma_line_columnfamily(v.column_family, r6, w4);
    let w6 = WorkloadView { measurement_type: v.measurement_type, ..w5 };
    lemma_line_measurementtype(v.measurement_type, r7, w5);
    reveal_strlit("histogram");
    assert(is_bare_key(("histogram")@));
    lemma_header_step(("histogram")@, Section::Histogram, r8, Section::Root, w6);
    let w7 = WorkloadView { histogram: crate::model::HistogramConfig { buckets: v.histogram.buckets }, ..w6 };
    lemma_line_buckets(v.histogram.buckets, r9, w6);
    reveal_strlit("timeseries");
    assert(is_bare_key(("timeseries")@));
    lemma_header_step(("timeseries")@, Section::Timeseries, r10, Section::Histogram, w7);
    let w8 = WorkloadView { timeseries: crate::model::TimeseriesConfig { granularity: v.timeseries.granularity }, ..w7 };
    lemma_line_granularity(v.timeseries.granularity, r11, w7);
    assert(w8 =~= (WorkloadView { hotspot_data_fraction: v.hotspot_data_fraction, hotspot_operation_fraction: v.hotspot_operation_fraction, max_execution_time: v.max_execution_time, table: v.table, column_family: v.column_family, measurement_type: v.measurement_type, histogram: crate::model::HistogramConfig { buckets: v.histogram.buckets }, timeseries: crate::model::TimeseriesConfig { granularity: v.timeseries.granularity }, ..w }));
}

/// Splitting a three-part concatenation for a stepwise fold.
proof fn lemma_concat3(a: Seq<char>, b: Seq<char>, c: Seq<char>)
    ensures
        a + b + c == a + (b + (c + Seq::<char>::empty())),
{
    assert(a + b + c =~= a + (b + (c + Seq::<char>::empty())));
}

/// Serializing any well-formed workload value and parsing the result gives
/// back exactly that value: the canonical text format is lossless.
#[verifier::rlimit(100)]
pub proof fn lemma_serialize_parse_round_trip(v: WorkloadView)
    requires
        v.wf(),
    ensures
        spec_parse(spec_ser(v)) == Ok::<WorkloadView, ParseError>(v),
{
    let d = spec_default();
    let tail = Seq::<char>::empty();
    lemma_concat3(ser_head(v), ser_mid(v), ser_tail(v));
    assert(spec_ser(v) == ser_head(v) + (ser_mid(v) + (ser_tail(v) + tail)));
    lemma_ser_head(v, ser_mid(v) + (ser_tail(v) + tail), d);
    let w1 = WorkloadView { workload: v.workload, record_count: v.record_count, operation_count: v.operation_count, thread_count: v.thread_count, insert_count: v.insert_count, insert_start: v.insert_start, field_count: v.field_count, field_length: v.field_length, read_all_fields: v.read_all_fields, write_all_fields: v.write_all_fields, ..d };
    lemma_ser_mid(v, ser_tail(v) + tail, w1);
    let w2 = WorkloadView { field_length_distribution: v.field_length_distribution, read_proportion: v.read_proportion, update_proportion: v.update_proportion, insert_proportion: v.insert_proportion, read_modify_write_proportion: v.read_modify_write_proportion, scan_proportion: v.scan_proportion, max_scan_length: v.max_scan_length, scan_length_distribution: v.scan_length_distribution, insert_order: v.insert_order, request_distribution: v.request_distribution, ..w1 };
    lemma_ser_tail(v, tail, w2);
    let w3 = WorkloadView { hotspot_data_fraction: v.hotspot_data_fraction, hotspot_operation_fraction: v.hotspot_operation_fraction, max_execution_time: v.max_execution_time, table: v.table, column_family: v.column_family, measurement_type: v.measurement_type, histogram: crate::model::HistogramConfig { buckets: v.histogram.buckets }, timeseries: crate::model::TimeseriesConfig { granularity: v.timeseries.granularity }, ..w2 };
    assert(spec_parse_rest(tail, Section::Timeseries, w3) == Ok::<WorkloadView, ParseError>(w3));
    assert(w3 =~= v);
}



/// Merging one assignment keeps the workload well formed: parsed
/// proportions never exceed one, and parsed text fields hold neither a
/// quotation mark nor a line break.
proof fn lemma_apply_kv_wf(
    sec: Section,
    key: Seq<char>,
    val: Seq<char>,
    w: WorkloadView,
    w2: WorkloadView,
)
    requires
        w.wf(),
        forall|i: int| 0 <= i < val.len() ==> val[i] != '\n',
        spec_apply_kv(sec, key, val, w) == Ok::<WorkloadView, ParseError>(w2),
    ensures
        w2.wf(),
{
    if spec_parse_quoted(val) is Some {
        let c = spec_parse_quoted(val)->0;
        assert forall|i: int| 0 <= i < c.len() implies c[i] != '"' && c[i] != '\n' by {
            assert(c[i] == val[i + 1]);
        }
        assert(text_wf(c));
    }
}

/// Interpreting one line keeps the workload well formed.
proof fn lemma_apply_line_wf(
    line: Seq<char>,
    sec: Section,
    w: WorkloadView,
    sec2: Section,
    w2: WorkloadView,
)
    requires
        w.wf(),
        forall|i: int| 0 <= i < line.len() ==> line[i] != '\n',
        spec_apply_line(line, sec, w) == Ok::<(Section, WorkloadView), ParseError>((sec2, w2)),
    ensures
        w2.wf(),
{
    crate::text::lemma_trim_no_char(line, '\n');
    let t = trim(line);
    if t.len() == 0 {
        assert(w2 == w);
    } else if t[0] == '#' {
        assert(w2 == w);
    } else if t[0] == '[' {
        assert(w2 == w);
    } else {
        let eq = find_char(t, '=');
        lemma_find_char(t, '=');
        assert(eq < t.len());
        let sub = t.subrange((eq + 1) as int, t.len() as int);
        assert forall|i: int| 0 <= i < sub.len() implies sub[i] != '\n' by {
            assert(sub[i] == t[eq + 1 + i]);
        }
        crate::text::lemma_trim_no_char(sub, '\n');
        let val = trim(sub);
        let key = trim_right(t.subrange(0, eq as int));
        assert(is_bare_key(key) && val.len() != 0);
        assert(spec_apply_kv(sec, key, val, w) == Ok::<WorkloadView, ParseError>(w2));
        lemma_apply_kv_wf(sec, key, val, w, w2);
    }
}

/// Folding a document keeps the workload well formed.
proof fn lemma_parse_rest_wf(s: Seq<char>, sec: Section, w: WorkloadView, w2: WorkloadView)
    requires
        w.wf(),
        spec_parse_rest(s, sec, w) == Ok::<WorkloadView, ParseError>(w2),
    ensures
        w2.wf(),
    decreases s.len(),
{
    if s.len() > 0 {
        lemma_find_char(s, '\n');
        let n = find_char(s, '\n');
        let line = s.subrange(0, n as int);
        assert(forall|i: int| 0 <= i < line.len() ==> line[i] != '\n');
        let rest = if n == s.len() {
            Seq::<char>::empty()
        } else {
            s.subrange((n + 1) as int, s.len() as int)
        };
        let step = spec_apply_line(line, sec, w);
        if step is Ok {
            let (secn, wn) = step->Ok_0;
            lemma_apply_line_wf(line, sec, w, secn, wn);
            lemma_parse_rest_wf(rest, secn, wn, w2);
        }
    }
}

/// Every successfully parsed workload is well formed.
pub proof fn lemma_parse_wf(s: Seq<char>, w: WorkloadView)
    requires
        spec_parse(s) == Ok::<WorkloadView, ParseError>(w),
    ensures
        w.wf(),
{
    crate::model::lemma_default_wf();
    lemma_parse_rest_wf(s, Section::Root, spec_default(), w);
}

/// Merging onto the defaults is idempotent: parsing a document, then
/// serializing and parsing again, gives the value of the first parse.
pub proof fn lemma_parse_reserialize(s: Seq<char>, w: WorkloadView)
    requires
        spec_parse(s) == Ok::<WorkloadView, ParseError>(w),
    ensures
        spec_parse(spec_ser(w)) == Ok::<WorkloadView, ParseError>(w),
{
    lemma_parse_wf(s, w);
    lemma_serialize_parse_round_trip(w);
}


/// The reference document of preset A: exactly its published
/// overrides, one per line.
pub open spec fn preset_doc_a(rc: u64, oc: u64) -> Seq<char> {
    kv_u64(("recordcount")@, rc) + kv_u64(("operationcount")@, oc) + kv_bool(("readallfields")@, true) + kv_prop(("readproportion")@, Proportion { micros: 500000 }) + kv_prop(("updateproportion")@, Proportion { micros: 500000 }) + kv_prop(("scanproportion")@, Proportion { micros: 0 }) + kv_prop(("insertproportion")@, Proportion { micros: 0 }) + kv_quoted(("requestdistribution")@, dist_name(Distribution::Uniform))
}

/// Preset equivalence for profile A: for any record and
/// operation counts, parsing the reference document yields exactly the
/// value the factory builds.
#[verifier::rlimit(100)]
pub proof fn lemma_preset_a_matches_document(rc: u64, oc: u64)
    ensures
        spec_parse(preset_doc_a(rc, oc)) == Ok::<WorkloadView, ParseError>(
            WorkloadView { record_count: rc, operation_count: oc, read_all_fields: true, read_proportion: Proportion { micros: 500000 }, update_proportion: Proportion { micros: 500000 }, scan_proportion: Proportion { micros: 0 }, insert_proportion: Proportion { micros: 0 }, request_distribution: Distribution::Uniform, ..spec_default() },
        ),
{
    crate::model::lemma_default_wf();
    let d = spec_default();
    let a1 = kv_u64(("recordcount")@, rc);
    let a2 = kv_u64(("operationcount")@, oc);
    let a3 = kv_bool(("readallfields")@, true);
    let a4 = kv_prop(("readproportion")@, Proportion { micros: 500000 });
    let a5 = kv_prop(("updateproportion")@, Proportion { micros: 500000 });
    let a6 = kv_prop(("scanproportion")@, Proportion { micros: 0 });
    let a7 = kv_prop(("insertproportion")@, Proportion { micros: 0 });
    let a8 = kv_quoted(("requestdistribution")@, dist_name(Distribution::Uniform));
    let r9 = Seq::<char>::empty();
    let r8 = a8 + r9;
    let r7 = a7 + r8;
    let r6 = a6 + r7;
    let r5 = a5 + r6;
    let r4 = a4 + r5;
    let r3 = a3 + r4;
    let r2 = a2 + r3;
    let r1 = a1 + r2;
    assert(preset_doc_a(rc, oc) =~= r1);
    let w1 = WorkloadView { record_count: rc, ..d };
    lemma_line_recordcount(rc, r2, d);
    let w2 = WorkloadView { operation_count: oc, ..w1 };
    lemma_line_operationcount(oc, r3, w1);
    let w3 = WorkloadView { read_all_fields: true, ..w2 };
    lemma_line_readallfields(true, r4, w2);
    let w4 = WorkloadView { read_proportion: Proportion { micros: 500000 }, ..w3 };
    lemma_line_readproportion(Proportion { micros: 500000 }, r5, w3);
    let w5 = WorkloadView { update_proportion: Proportion { micros: 500000 }, ..w4 };
    lemma_line_updateproportion(Proportion { micros: 500000 }, r6, w4);
    let w6 = WorkloadView { scan_proportion: Proportion { micros: 0 }, ..w5 };
    lemma_line_scanproportion(Proportion { micros: 0 }, r7, w5);
    let w7 = WorkloadView { insert_proportion: Proportion { micros: 0 }, ..w6 };
    lemma_line_insertproportion(Proportion { micros: 0 }, r8, w6);
    let w8 = WorkloadView { request_distribution: Distribution::Uniform, ..w7 };
    lemma_line_requestdistribution(Distribution::Uniform, r9, w7);
    assert(spec_parse_rest(r9, Section::Root, w8) == Ok::<WorkloadView, ParseError>(w8));
    assert(w8 =~= (WorkloadView { record_count: rc, operation_count: oc, read_all_fields: true, read_proportion: Proportion { micros: 500000 }, update_proportion: Proportion { micros: 500000 }, scan_proportion: Proportion { micros: 0 }, insert_proportion: Proportion { micros: 0 }, request_distribution: Distribution::Uniform, ..spec_default() }));
}

/// The reference document of preset B: exactly its published
/// overrides, one per line.
pub open spec fn preset_doc_b(rc: u64, oc: u64) -> Seq<char> {
    kv_u64(("recordcount")@, rc) + kv_u64(("operationcount")@, oc) + kv_bool(("readallfields")@, true) + kv_prop(("readproportion")@, Proportion { micros: 950000 }) + kv_prop(("updateproportion")@, Proportion { micros: 50000 }) + kv_prop(("scanproportion")@, Proportion { micros: 0 }) + kv_prop(("insertproportion")@, Proportion { micros: 0 }) + kv_quoted(("requestdistribution")@, dist_name(Distribution::Uniform))
}

/// Preset equivalence for profile B: for any record and
/// operation counts, parsing the reference document yields exactly the
/// value the factory builds.
#[verifier::rlimit(100)]
pub proof fn lemma_preset_b_matches_document(rc: u64, oc: u64)
    ensures
        spec_parse(preset_doc_b(rc, oc)) == Ok::<WorkloadView, ParseError>(
            WorkloadView { record_count: rc, operation_count: oc, read_all_fields: true, read_proportion: Proportion { micros: 950000 }, update_proportion: Proportion { micros: 50000 }, scan_proportion: Proportion { micros: 0 }, insert_proportion: Proportion { micros: 0 }, request_distribution: Distribution::Uniform, ..spec_default() },
        ),
{
    crate::model::lemma_default_wf();
    let d = spec_default();
    let a1 = kv_u64(("recordcount")@, rc);
    let a2 = kv_u64(("operationcount")@, oc);
    let a3 = kv_bool(("readallfields")@, true);
    let a4 = kv_prop(("readproportion")@, Proportion { micros: 950000 });
    let a5 = kv_prop(("updateproportion")@, Proportion { micros: 50000 });
    let a6 = kv_prop(("scanproportion")@, Proportion { micros: 0 });
    let a7 = kv_prop(("insertproportion")@, Proportion { micros: 0 });
    let a8 = kv_quoted(("requestdistribution")@, dist_name(Distribution::Uniform));
    let r9 = Seq::<char>::empty();
    let r8 = a8 + r9;
    let r7 = a7 + r8;
    let r6 = a6 + r7;
    let r5 = a5 + r6;
    let r4 = a4 + r5;
    let r3 = a3 + r4;
    let r2 = a2 + r3;
    let r1 = a1 + r2;
    assert(preset_doc_b(rc, oc) =~= r1);
    let w1 = WorkloadView { record_count: rc, ..d };
    lemma_line_recordcount(rc, r2, d);
    let w2 = WorkloadView { operation_count: oc, ..w1 };
    lemma_line_operationcount(oc, r3, w1);
    let w3 = WorkloadView { read_all_fields: true, ..w2 };
    lemma_line_readallfields(true, r4, w2);
    let w4 = WorkloadView { read_proportion: Proportion { micros: 950000 }, ..w3 };
    lemma_line_readproportion(Proportion { micros: 950000 }, r5, w3);
    let w5 = WorkloadView { update_proportion: Proportion { micros: 50000 }, ..w4 };
    lemma_line_updateproportion(Proportion { micros: 50000 }, r6, w4);
    let w6 = WorkloadView { scan_proportion: Proportion { micros: 0 }, ..w5 };
    lemma_line_scanproportion(Proportion { micros: 0 }, r7, w5);
    let w7 = WorkloadView { insert_proportion: Proportion { micros: 0 }, ..w6 };
    lemma_line_insertproportion(Proportion { micros: 0 }, r8, w6);
    let w8 = WorkloadView { request_distribution: Distribution::Uniform, ..w7 };
    lemma_line_requestdistribution(Distribution::Uniform, r9, w7);
    assert(spec_parse_rest(r9, Section::Root, w8) == Ok::<WorkloadView, ParseError>(w8));
    assert(w8 =~= (WorkloadView { record_count: rc, operation_count: oc, read_all_fields: true, read_proportion: Proportion { micros: 950000 }, update_proportion: Proportion { micros: 50000 }, scan_proportion: Proportion { micros: 0 }, insert_proportion: Proportion { micros: 0 }, request_distribution: Distribution::Uniform, ..spec_default() }));
}

/// The reference document of preset C: exactly its published
/// overrides, one per line.
pub open spec fn preset_doc_c(rc: u64, oc: u64) -> Seq<char> {
    kv_u64(("recordcount")@, rc) + kv_u64(("operationcount")@, oc) + kv_bool(("readallfields")@, true) + kv_prop(("readproportion")@, Proportion { micros: 1000000 }) + kv_prop(("updateproportion")@, Proportion { micros: 0 }) + kv_prop(("scanproportion")@, Proportion { micros: 0 }) + kv_prop(("insertproportion")@, Proportion { micros: 0 }) + kv_quoted(("requestdistribution")@, dist_name(Distribution::Uniform))
}

/// Preset equivalence for profile C: for any record and
/// operation counts, parsing the reference document yields exactly the
/// value the factory builds.
#[verifier::rlimit(100)]
pub proof fn lemma_preset_c_matches_document(rc: u64, oc: u64)
    ensures
        spec_parse(preset_doc_c(rc, oc)) == Ok::<WorkloadView, ParseError>(
            WorkloadView { record_count: rc, operation_count: oc, read_all_fields: true, read_proportion: Proportion { micros: 1000000 }, update_proportion: Proportion { micros: 0 }, scan_proportion: Proportion { micros: 0 }, insert_proportion: Proportion { micros: 0 }, request_distribution: Distribution::Uniform, ..spec_default() },
        ),
{
    crate::model::lemma_default_wf();
    let d = spec_default();
    let a1 = kv_u64(("recordcount")@, rc);
    let a2 = kv_u64(("operationcount")@, oc);
    let a3 = kv_bool(("readallfields")@, true);
    let a4 = kv_prop(("readproportion")@, Proportion { micros: 1000000 });
    let a5 = kv_prop(("updateproportion")@, Proportion { micros: 0 });
    let a6 = kv_prop(("scanproportion")@, Proportion { micros: 0 });
    let a7 = kv_prop(("insertproportion")@, Proportion { micros: 0 });
    let a8 = kv_quoted(("requestdistribution")@, dist_name(Distribution::Uniform));
    let r9 = Seq::<char>::empty();
    let r8 = a8 + r9;
    let r7 = a7 + r8;
    let r6 = a6 + r7;
    let r5 = a5 + r6;
    let r4 = a4 + r5;
    let r3 = a3 + r4;
    let r2 = a2 + r3;
    let r1 = a1 + r2;
    assert(preset_doc_c(rc, oc) =~= r1);
    let w1 = WorkloadView { record_count: rc, ..d };
    lemma_line_recordcount(rc, r2, d);
    let w2 = WorkloadView { operation_count: oc, ..w1 };
    lemma_line_operationcount(oc, r3, w1);
    let w3 = WorkloadView { read_all_fields: true, ..w2 };
    lemma_line_readallfields(true, r4, w2);
    let w4 = WorkloadView { read_proportion: Proportion { micros: 1000000 }, ..w3 };
    lemma_line_readproportion(Proportion { micros: 1000000 }, r5, w3);
    let w5 = WorkloadView { update_proportion: Proportion { micros: 0 }, ..w4 };
    lemma_line_updateproportion(Proportion { micros: 0 }, r6, w4);
    let w6 = WorkloadView { scan_proportion: Proportion { micros: 0 }, ..w5 };
    lemma_line_scanproportion(Proportion { micros: 0 }, r7, w5);
    let w7 = WorkloadView { insert_proportion: Proportion { micros: 0 }, ..w6 };
    lemma_line_insertproportion(Proportion { micros: 0 }, r8, w6);
    let w8 = WorkloadView { request_distribution: Distribution::Uniform, ..w7 };
    lemma_line_requestdistribution(Distribution::Uniform, r9, w7);
    assert(spec_parse_rest(r9, Section::Root, w8) == Ok::<WorkloadView, ParseError>(w8));
    assert(w8 =~= (WorkloadView { record_count: rc, operation_count: oc, read_all_fields: true, read_proportion: Proportion { micros: 1000000 }, update_proportion: Proportion { micros: 0 }, scan_proportion: Proportion { micros: 0 }, insert_proportion: Proportion { micros: 0 }, request_distribution: Distribution::Uniform, ..spec_default() }));
}

/// The reference document of preset D: exactly its published
/// overrides, one per line.
pub open spec fn preset_doc_d(rc: u64, oc: u64) -> Seq<char> {
    kv_u64(("recordcount")@, rc) + kv_u64(("operationcount")@, oc) + kv_bool(("readallfields")@, true) + kv_prop(("readproportion")@, Proportion { micros: 950000 }) + kv_prop(("updateproportion")@, Proportion { micros: 0 }) + kv_prop(("scanproportion")@, Proportion { micros: 0 }) + kv_prop(("insertproportion")@, Proportion { micros: 50000 }) + kv_quoted(("requestdistribution")@, dist_name(Distribution::Latest))
}

/// Preset equivalence for profile D: for any record and
/// operation counts, parsing the reference document yields exactly the
/// value the factory builds.
#[verifier::rlimit(100)]
pub proof fn lemma_preset_d_matches_document(rc: u64, oc: u64)
    ensures
        spec_parse(preset_doc_d(rc, oc)) == Ok::<WorkloadView, ParseError>(
            WorkloadView { record_count: rc, operation_count: oc, read_all_fields: true, read_proportion: Proportion { micros: 950000 }, update_proportion: Proportion { micros: 0 }, scan_proportion: Proportion { micros: 0 }, insert_proportion: Proportion { micros: 50000 }, request_distribution: Distribution::Latest, ..spec_default() },
        ),
{
    crate::model::lemma_default_wf();
    let d = spec_default();
    let a1 = kv_u64(("recordcount")@, rc);
    let a2 = kv_u64(("operationcount")@, oc);
    let a3 = kv_bool(("readallfields")@, true);
    let a4 = kv_prop(("readproportion")@, Proportion { micros: 950000 });
    let a5 = kv_prop(("updateproportion")@, Proportion { micros: 0 });
    let a6 = kv_prop(("scanproportion")@, Proportion { micros: 0 });
    let a7 = kv_prop(("insertproportion")@, Proportion { micros: 50000 });
    let a8 = kv_quoted(("requestdistribution")@, dist_name(Distribution::Latest));
    let r9 = Seq::<char>::empty();
    let r8 = a8 + r9;
    let r7 = a7 + r8;
    let r6 = a6 + r7;
    let r5 = a5 + r6;
    let r4 = a4 + r5;
    let r3 = a3 + r4;
    let r2 = a2 + r3;
    let r1 = a1 + r2;
    assert(preset_doc_d(rc, oc) =~= r1);
    let w1 = WorkloadView { record_count: rc, ..d };
    lemma_line_recordcount(rc, r2, d);
    let w2 = WorkloadView { operation_count: oc, ..w1 };
    lemma_line_operationcount(oc, r3, w1);
    let w3 = WorkloadView { read_all_fields: true, ..w2 };
    lemma_line_readallfields(true, r4, w2);
    let w4 = WorkloadView { read_proportion: Proportion { micros: 950000 }, ..w3 };
    lemma_line_readproportion(Proportion { micros: 950000 }, r5, w3);
    let w5 = WorkloadView { update_proportion: Proportion { micros: 0 }, ..w4 };
    lemma_line_updateproportion(Proportion { micros: 0 }, r6, w4);
    let w6 = WorkloadView { scan_proportion: Proportion { micros: 0 }, ..w5 };
    lemma_line_scanproportion(Proportion { micros: 0 }, r7, w5);
    let w7 = WorkloadView { insert_proportion: Proportion { micros: 50000 }, ..w6 };
    lemma_line_insertproportion(Proportion { micros: 50000 }, r8, w6);
    let w8 = WorkloadView { request_distribution: Distribution::Latest, ..w7 };
    lemma_line_requestdistribution(Distribution::Latest, r9, w7);
    assert(spec_parse_rest(r9, Section::Root, w8) == Ok::<WorkloadView, ParseError>(w8));
    assert(w8 =~= (WorkloadView { record_count: rc, operation_count: oc, read_all_fields: true, read_proportion: Proportion { micros: 950000 }, update_proportion: Proportion { micros: 0 }, scan_proportion: Proportion { micros: 0 }, insert_proportion: Proportion { micros: 50000 }, request_distribution: Distribution::Latest, ..spec_default() }));
}

/// The reference document of preset E: exactly its published
/// overrides, one per line.
pub open spec fn preset_doc_e(rc: u64, oc: u64) -> Seq<char> {
    kv_u64(("recordcount")@, rc) + kv_u64(("operationcount")@, oc) + kv_bool(("readallfields")@, true) + kv_prop(("readproportion")@, Proportion { micros: 0 }) + kv_prop(("updateproportion")@, Proportion { micros: 0 }) + kv_prop(("scanproportion")@, Proportion { micros: 950000 }) + kv_prop(("insertproportion")@, Proportion { micros: 50000 }) + kv_quoted(("requestdistribution")@, dist_name(Distribution::Uniform)) + kv_u64(("maxscanlength")@, 1u64) + kv_quoted(("scanlengthdistribution")@, dist_name(Distribution::Uniform))
}

/// Preset equivalence for profile E: for any record and
/// operation counts, parsing the reference document yields exactly the
/// value the factory builds.
#[verifier::rlimit(100)]
pub proof fn lemma_preset_e_matches_document(rc: u64, oc: u64)
    ensures
        spec_parse(preset_doc_e(rc, oc)) == Ok::<WorkloadView, ParseError>(
            WorkloadView { record_count: rc, operation_count: oc, read_all_fields: true, read_proportion: Proportion { micros: 0 }, update_proportion: Proportion { micros: 0 }, scan_proportion: Proportion { micros: 950000 }, insert_proportion: Proportion { micros: 50000 }, request_distribution: Distribution::Uniform, max_scan_length: 1, scan_length_distribution: Distribution::Uniform, ..spec_default() },
        ),
{
    crate::model::lemma_default_wf();
    let d = spec_default();
    let a1 = kv_u64(("recordcount")@, rc);
    let a2 = kv_u64(("operationcount")@, oc);
    let a3 = kv_bool(("readallfields")@, true);
    let a4 = kv_prop(("readproportion")@, Proportion { micros: 0 });
    let a5 = kv_prop(("updateproportion")@, Proportion { micros: 0 });
    let a6 = kv_prop(("scanproportion")@, Proportion { micros: 950000 });
    let a7 = kv_prop(("insertproportion")@, Proportion { micros: 50000 });
    let a8 = kv_quoted(("requestdistribution")@, dist_name(Distribution::Uniform));
    let a9 = kv_u64(("maxscanlength")@, 1u64);
    let a10 = kv_quoted(("scanlengthdistribution")@, dist_name(Distribution::Uniform));
    let r11 = Seq::<char>::empty();
    let r10 = a10 + r11;
    let r9 = a9 + r10;
    let r8 = a8 + r9;
    let r7 = a7 + r8;
    let r6 = a6 + r7;
    let r5 = a5 + r6;
    let r4 = a4 + r5;
    let r3 = a3 + r4;
    let r2 = a2 + r3;
    let r1 = a1 + r2;
    assert(preset_doc_e(rc, oc) =~= r1);
    let w1 = WorkloadView { record_count: rc, ..d };
    lemma_line_recordcount(rc, r2, d);
    let w2 = WorkloadView { operation_count: oc, ..w1 };
    lemma_line_operationcount(oc, r3, w1);
    let w3 = WorkloadView { read_all_fields: true, ..w2 };
    lemma_line_readallfields(true, r4, w2);
    let w4 = WorkloadView { read_proportion: Proportion { micros: 0 }, ..w3 };
    lemma_line_readproportion(Proportion { micros: 0 }, r5, w3);
    let w5 = WorkloadView { update_proportion: Proportion { micros: 0 }, ..w4 };
    lemma_line_updateproportion(Proportion { micros: 0 }, r6, w4);
    let w6 = WorkloadView { scan_proportion: Proportion { micros: 950000 }, ..w5 };
    lemma_line_scanproportion(Proportion { micros: 950000 }, r7, w5);
    let w7 = WorkloadView { insert_proportion: Proportion { micros: 50000 }, ..w6 };
    lemma_line_insertproportion(Proportion { micros: 50000 }, r8, w6);
    let w8 = WorkloadView { request_distribution: Distribution::Uniform, ..w7 };
    lemma_line_requestdistribution(Distribution::Uniform, r9, w7);
    let w9 = WorkloadView { max_scan_length: 1, ..w8 };
    lemma_line_maxscanlength(1u64, r10, w8);
    let w10 = WorkloadView { scan_length_distribution: Distribution::Uniform, ..w9 };
    lemma_line_scanlengthdistribution(Distribution::Uniform, r11, w9);
    assert(spec_parse_rest(r11, Section::Root, w10) == Ok::<WorkloadView, ParseError>(w10));
    assert(w10 =~= (WorkloadView { record_count: rc, operation_count: oc, read_all_fields: true, read_proportion: Proportion { micros: 0 }, update_proportion: Proportion { micros: 0 }, scan_proportion: Proportion { micros: 950000 }, insert_proportion: Proportion { micros: 50000 }, request_distribution: Distribution::Uniform, max_scan_length: 1, scan_length_distribution: Distribution::Uniform, ..spec_default() }));
}

/// The reference document of preset F: exactly its published
/// overrides, one per line.
pub open spec fn preset_doc_f(rc: u64, oc: u64) -> Seq<char> {
    kv_u64(("recordcount")@, rc) + kv_u64(("operationcount")@, oc) + kv_bool(("readallfields")@, true) + kv_prop(("readproportion")@, Proportion { micros: 500000 }) + kv_prop(("updateproportion")@, Proportion { micros: 0 }) + kv_prop(("scanproportion")@, Proportion { micros: 0 }) + kv_prop(("insertproportion")@, Proportion { micros: 0 }) + kv_prop(("readmodifywriteproportion")@, Proportion { micros: 500000 }) + kv_quoted(("requestdistribution")@, dist_name(Distribution::Uniform))
}

/// Preset equivalence for profile F: for any record and
/// operation counts, parsing the reference document yields exactly the
/// value the factory builds.
#[verifier::rlimit(100)]
pub proof fn lemma_preset_f_matches_document(rc: u64, oc: u64)
    ensures
        spec_parse(preset_doc_f(rc, oc)) == Ok::<WorkloadView, ParseError>(
            WorkloadView { record_count: rc, operation_count: oc, read_all_fields: true, read_proportion: Proportion { micros: 500000 }, update_proportion: Proportion { micros: 0 }, scan_proportion: Proportion { micros: 0 }, insert_proportion: Proportion { micros: 0 }, read_modify_write_proportion: Proportion { micros: 500000 }, request_distribution: Distribution::Uniform, ..spec_default() },
        ),
{
    crate::model::lemma_default_wf();
    let d = spec_default();
    let a1 = kv_u64(("recordcount")@, rc);
    let a2 = kv_u64(("operationcount")@, oc);
    let a3 = kv_bool(("readallfields")@, true);
    let a4 = kv_prop(("readproportion")@, Proportion { micros: 500000 });
    let a5 = kv_prop(("updateproportion")@, Proportion { micros: 0 });
    let a6 = kv_prop(("scanproportion")@, Proportion { micros: 0 });
    let a7 = kv_prop(("insertproportion")@, Proportion { micros: 0 });
    let a8 = kv_prop(("readmodifywriteproportion")@, Proportion { micros: 500000 });
    let a9 = kv_quoted(("requestdistribution")@, dist_name(Distribution::Uniform));
    let r10 = Seq::<char>::empty();
    let r9 = a9 + r10;
    let r8 = a8 + r9;
    let r7 = a7 + r8;
    let r6 = a6 + r7;
    let r5 = a5 + r6;
    let r4 = a4 + r5;
    let r3 = a3 + r4;
    let r2 = a2 + r3;
    let r1 = a1 + r2;
    assert(preset_doc_f(rc, oc) =~= r1);
    let w1 = WorkloadView { record_count: rc, ..d };
    lemma_line_recordcount(rc, r2, d);
    let w2 = WorkloadView { operation_count: oc, ..w1 };
    lemma_line_operationcount(oc, r3, w1);
    let w3 = WorkloadView { read_all_fields: true, ..w2 };
    lemma_line_readallfields(true, r4, w2);
    let w4 = WorkloadView { read_proportion: Proportion { micros: 500000 }, ..w3 };
    lemma_line_readproportion(Proportion { micros: 500000 }, r5, w3);
    let w5 = WorkloadView { update_proportion: Proportion { micros: 0 }, ..w4 };
    lemma_line_updateproportion(Proportion { micros: 0 }, r6, w4);
    let w6 = WorkloadView { scan_proportion: Proportion { micros: 0 }, ..w5 };
    lemma_line_scanproportion(Proportion { micros: 0 }, r7, w5);
    let w7 = WorkloadView { insert_proportion: Proportion { micros: 0 }, ..w6 };
    lemma_line_insertproportion(Proportion { micros: 0 }, r8, w6);
    let w8 = WorkloadView { read_modify_write_proportion: Proportion { micros: 500000 }, ..w7 };
    lemma_line_readmodifywriteproportion(Proportion { micros: 500000 }, r9, w7);
    let w9 = WorkloadView { request_distribution: Distribution::Uniform, ..w8 };
    lemma_line_requestdistribution(Distribution::Uniform, r10, w8);
    assert(spec_parse_rest(r10, Section::Root, w9) == Ok::<WorkloadView, ParseError>(w9));
    assert(w9 =~= (WorkloadView { record_count: rc, operation_count: oc, read_all_fields: true, read_proportion: Proportion { micros: 500000 }, update_proportion: Proportion { micros: 0 }, scan_proportion: Proportion { micros: 0 }, insert_proportion: Proportion { micros: 0 }, read_modify_write_proportion: Proportion { micros: 500000 }, request_distribution: Distribution::Uniform, ..spec_default() }));
}

/// The default instance round-trips: serializing it and parsing the result
/// yields the default instance again.
pub proof fn lemma_default_round_trip()
    ensures
        spec_parse(spec_ser(spec_default())) == Ok::<WorkloadView, ParseError>(spec_default()),
{
    crate::model::lemma_default_wf();
    lemma_serialize_parse_round_trip(spec_default());
}

} // verus!
