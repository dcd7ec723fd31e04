//! Character-sequence utilities shared by the serializer and the parser:
//! conversions between `str`/`String` and `Vec<char>`, first-occurrence
//! search, and whitespace trimming.
use vstd::prelude::*;
use vstd::std_specs::iter::IteratorSpec;

verus! {

/// The characters stripped from either edge of a key or value.
pub open spec fn is_space(c: char) -> bool {
    c == ' ' || c == '\t'
}

/// Collects the characters of a string slice into a vector.
pub fn str_to_chars(s: &str) -> (r: Vec<char>)
    ensures
        r@ == s@,
{
    broadcast use vstd::string::axiom_spec_iter, vstd::string::next_postcondition;

    let mut it = s.chars();
    let mut out: Vec<char> = Vec::new();
    loop
        invariant_except_break
            it.obeys_prophetic_iter_laws(),
            it.decrease() is Some,
            out@ + it.remaining() == s@,
        ensures
            out@ == s@,
        decreases it.decrease()->0,
    {
        match it.next() {
            Some(c) => {
                out.push(c);
            },
            None => {
                break ;
            },
        }
    }
    out
}

/// Relies on `String`'s `FromIterator` implementation: collecting characters
/// concatenates them in order into one string.
#[verifier::external_body]
pub fn chars_to_string(v: &Vec<char>) -> (r: String)
    ensures
        r@ == v@,
{
    v.iter().collect()
}

/// Appends the characters of a string slice to a character vector.
pub fn push_chars(out: &mut Vec<char>, s: &str)
    ensures
        final(out)@ == old(out)@ + s@,
{
    let mut cs = str_to_chars(s);
    out.append(&mut cs);
}

/// The index of the first occurrence of `c` in `s`, or `s.len()` when `c`
/// does not occur.
pub open spec fn find_char(s: Seq<char>, c: char) -> nat
    decreases s.len(),
{
    if s.len() == 0 {
        0
    } else if s[0] == c {
        0
    } else {
        1 + find_char(s.drop_first(), c)
    }
}

/// `find_char` names the first occurrence: everything before it differs from
/// `c`, and the index is in range exactly when `c` occurs at all.
pub proof fn lemma_find_char(s: Seq<char>, c: char)
    ensures
        find_char(s, c) <= s.len(),
        find_char(s, c) < s.len() ==> s[find_char(s, c) as int] == c,
        forall|j: int| 0 <= j < find_char(s, c) ==> s[j] != c,
    decreases s.len(),
{
    if s.len() > 0 && s[0] != c {
        lemma_find_char(s.drop_first(), c);
        assert forall|j: int| 0 <= j < find_char(s, c) implies s[j] != c by {
            if j >= 1 {
                assert(s.drop_first()[j - 1] == s[j]);
            }
        }
    }
}

/// Searching a concatenation whose first part is free of `c` skips that part.
pub proof fn lemma_find_char_concat(a: Seq<char>, b: Seq<char>, c: char)
    requires
        forall|j: int| 0 <= j < a.len() ==> a[j] != c,
    ensures
        find_char(a + b, c) == a.len() + find_char(b, c),
    decreases a.len(),
{
    if a.len() == 0 {
        assert(a + b =~= b);
    } else {
        assert((a + b).drop_first() =~= a.drop_first() + b);
        lemma_find_char_concat(a.drop_first(), b, c);
    }
}

/// Finds the first occurrence of `c` in `v[start..end]`, returning its
/// absolute index, or `end` when there is none.
pub fn find_in(v: &Vec<char>, start: usize, end: usize, c: char) -> (r: usize)
    requires
        start <= end <= v@.len(),
    ensures
        r - start == find_char(v@.subrange(start as int, end as int), c),
        start <= r <= end,
{
    proof {
        lemma_find_char(v@.subrange(start as int, end as int), c);
    }
    let ghost s = v@.subrange(start as int, end as int);
    let mut i: usize = start;
    while i < end
        invariant
            start <= i <= end <= v@.len(),
            s == v@.subrange(start as int, end as int),
            forall|j: int| 0 <= j < i - start ==> s[j] != c,
        decreases end - i,
    {
        if v[i] == c {
            proof {
                lemma_find_char(s, c);
                assert(s[i - start] == c);
                if find_char(s, c) < i - start {
                    assert(s[find_char(s, c) as int] == c);
                    assert(false);
                }
            }
            return i;
        }
        i += 1;
    }
    proof {
        lemma_find_char(s, c);
        if find_char(s, c) < s.len() {
            assert(s[find_char(s, c) as int] == c);
            assert(false);
        }
    }
    i
}

/// `s` with leading spaces removed.
pub open spec fn trim_left(s: Seq<char>) -> Seq<char>
    decreases s.len(),
{
    if s.len() > 0 && is_space(s[0]) {
        trim_left(s.drop_first())
    } else {
        s
    }
}

/// `s` with trailing spaces removed.
pub open spec fn trim_right(s: Seq<char>) -> Seq<char>
    decreases s.len(),
{
    if s.len() > 0 && is_space(s.last()) {
        trim_right(s.drop_last())
    } else {
        s
    }
}

/// `s` with spaces removed from both edges.
pub open spec fn trim(s: Seq<char>) -> Seq<char> {
    trim_right(trim_left(s))
}

/// A sequence whose edges hold no space is left unchanged by trimming.
pub proof fn lemma_trim_noop(s: Seq<char>)
    requires
        s.len() > 0,
        !is_space(s[0]),
        !is_space(s.last()),
    ensures
        trim(s) == s,
{
}

/// Narrows `v[start..end]` to the subrange that trimming leaves.
pub fn trim_in(v: &Vec<char>, start: usize, end: usize) -> (r: (usize, usize))
    requires
        start <= end <= v@.len(),
    ensures
        start <= r.0 <= r.1 <= end,
        v@.subrange(r.0 as int, r.1 as int) == trim(
            v@.subrange(start as int, end as int),
        ),
{
    let mut lo: usize = start;
    loop
        invariant_except_break
            start <= lo <= end <= v@.len(),
            trim_left(v@.subrange(start as int, end as int)) == trim_left(
                v@.subrange(lo as int, end as int),
            ),
        ensures
            start <= lo <= end <= v@.len(),
            trim_left(v@.subrange(start as int, end as int)) == v@.subrange(lo as int, end as int),
        decreases end - lo,
    {
        if lo >= end {
            break ;
        }
        let c = v[lo];
        if c != ' ' && c != '\t' {
            break ;
        }
        proof {
            assert(v@.subrange(lo as int, end as int).drop_first() =~= v@.subrange(
                lo + 1,
                end as int,
            ));
        }
        lo += 1;
    }
    let mut hi: usize = end;
    loop
        invariant_except_break
            start <= lo <= hi <= end <= v@.len(),
            trim_left(v@.subrange(start as int, end as int)) == v@.subrange(lo as int, end as int),
            trim_right(v@.subrange(lo as int, end as int)) == trim_right(
                v@.subrange(lo as int, hi as int),
            ),
        ensures
            start <= lo <= hi <= end <= v@.len(),
            trim_left(v@.subrange(start as int, end as int)) == v@.subrange(lo as int, end as int),
            trim_right(v@.subrange(lo as int, end as int)) == v@.subrange(lo as int, hi as int),
        decreases hi,
    {
        if hi <= lo {
            break ;
        }
        let c = v[hi - 1];
        if c != ' ' && c != '\t' {
            break ;
        }
        proof {
            assert(v@.subrange(lo as int, hi as int).drop_last() =~= v@.subrange(
                lo as int,
                hi - 1,
            ));
        }
        hi -= 1;
    }
    (lo, hi)
}

/// Whether `v[start..end]` equals the characters of `lit`.
pub fn window_eq(v: &Vec<char>, start: usize, end: usize, lit: &str) -> (r: bool)
    requires
        start <= end <= v@.len(),
    ensures
        r == (v@.subrange(start as int, end as int) == lit@),
{
    let cs = str_to_chars(lit);
    if end - start != cs.len() {
        proof {
            assert(v@.subrange(start as int, end as int).len() == end - start);
        }
        return false;
    }
    let mut i: usize = 0;
    while i < cs.len()
        invariant
            start <= end <= v@.len(),
            end - start == cs.len(),
            cs@ == lit@,
            0 <= i <= cs.len(),
            forall|j: int| 0 <= j < i ==> v@.subrange(start as int, end as int)[j] == lit@[j],
        decreases cs.len() - i,
    {
        if v[start + i] != cs[i] {
            proof {
                assert(v@.subrange(start as int, end as int)[i as int] != lit@[i as int]);
            }
            return false;
        }
        i += 1;
    }
    proof {
        assert(v@.subrange(start as int, end as int) =~= lit@);
    }
    true
}

/// Copies `v[start..end]` into a `String`.
pub fn window_to_string(v: &Vec<char>, start: usize, end: usize) -> (r: String)
    requires
        start <= end <= v@.len(),
    ensures
        r@ == v@.subrange(start as int, end as int),
{
    let mut out: Vec<char> = Vec::new();
    let mut i: usize = start;
    while i < end
        invariant
            start <= i <= end <= v@.len(),
            out@ == v@.subrange(start as int, i as int),
        decreases end - i,
    {
        out.push(v[i]);
        proof {
            assert(v@.subrange(start as int, i + 1) =~= v@.subrange(start as int, i as int).push(
                v@[i as int],
            ));
        }
        i += 1;
    }
    chars_to_string(&out)
}


/// A nonempty trimmed sequence has no space at either edge, and trimming
/// from the right leaves the first character in place.
pub proof fn lemma_trim_props(s: Seq<char>)
    ensures
        trim(s).len() > 0 ==> !is_space(trim(s)[0]),
        trim(s).len() > 0 ==> !is_space(trim(s).last()),
{
    lemma_trim_left_first(s);
    lemma_trim_right_keep(trim_left(s));
}

/// The first character left by `trim_left` is never a space.
pub proof fn lemma_trim_left_first(s: Seq<char>)
    ensures
        trim_left(s).len() > 0 ==> !is_space(trim_left(s)[0]),
    decreases s.len(),
{
    if s.len() > 0 && is_space(s[0]) {
        lemma_trim_left_first(s.drop_first());
    }
}

/// `trim_right` keeps the first character and leaves no space at the end.
pub proof fn lemma_trim_right_keep(s: Seq<char>)
    ensures
        trim_right(s).len() > 0 ==> !is_space(trim_right(s).last()),
        trim_right(s).len() > 0 ==> trim_right(s)[0] == s[0],
    decreases s.len(),
{
    if s.len() > 0 && is_space(s.last()) {
        lemma_trim_right_keep(s.drop_last());
    }
}


/// Trimming never introduces a character: a sequence free of `c` stays
/// free of `c`.
pub proof fn lemma_trim_no_char(s: Seq<char>, c: char)
    requires
        forall|i: int| 0 <= i < s.len() ==> s[i] != c,
    ensures
        forall|i: int| 0 <= i < trim(s).len() ==> trim(s)[i] != c,
{
    lemma_trim_left_no_char(s, c);
    lemma_trim_right_no_char(trim_left(s), c);
}

/// `trim_left` keeps only characters of its argument.
proof fn lemma_trim_left_no_char(s: Seq<char>, c: char)
    requires
        forall|i: int| 0 <= i < s.len() ==> s[i] != c,
    ensures
        forall|i: int| 0 <= i < trim_left(s).len() ==> trim_left(s)[i] != c,
    decreases s.len(),
{
    if s.len() > 0 && is_space(s[0]) {
        assert forall|i: int| 0 <= i < s.drop_first().len() implies s.drop_first()[i] != c by {
            assert(s.drop_first()[i] == s[i + 1]);
        }
        lemma_trim_left_no_char(s.drop_first(), c);
        assert(trim_left(s) == trim_left(s.drop_first()));
    } else {
        assert(trim_left(s) == s);
    }
}

/// `trim_right` keeps only characters of its argument.
proof fn lemma_trim_right_no_char(s: Seq<char>, c: char)
    requires
        forall|i: int| 0 <= i < s.len() ==> s[i] != c,
    ensures
        forall|i: int| 0 <= i < trim_right(s).len() ==> trim_right(s)[i] != c,
    decreases s.len(),
{
    if s.len() > 0 && is_space(s.last()) {
        assert forall|i: int| 0 <= i < s.drop_last().len() implies s.drop_last()[i] != c by {
            assert(s.drop_last()[i] == s[i]);
        }
        lemma_trim_right_no_char(s.drop_last(), c);
        assert(trim_right(s) == trim_right(s.drop_last()));
    } else {
        assert(trim_right(s) == s);
    }
}

} // verus!
