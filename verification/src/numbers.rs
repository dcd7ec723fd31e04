//! Decimal text for the canonical format: rendering and parsing of unsigned
//! integers, and of fixed-point proportions, with their round-trip laws.
use vstd::prelude::*;

use crate::model::Proportion;
use crate::model::PROPORTION_UNIT;
use crate::text::find_in;

verus! {

/// Whether `c` is a decimal digit.
pub open spec fn is_digit(c: char) -> bool {
    '0' <= c && c <= '9'
}

/// The numeric value of a digit character.
pub open spec fn digit_val(c: char) -> nat {
    ((c as nat) - 48) as nat
}

/// The digit character for a value below ten.
pub open spec fn digit_char(d: nat) -> char {
    ((48 + d) as char)
}

/// Whether every character of `s` is a decimal digit.
pub open spec fn all_digits(s: Seq<char>) -> bool {
    forall|i: int| 0 <= i < s.len() ==> is_digit(s[i])
}

/// The number a digit sequence denotes, most significant digit first.
pub open spec fn digits_val(s: Seq<char>) -> nat
    decreases s.len(),
{
    if s.len() == 0 {
        0
    } else {
        digits_val(s.drop_last()) * 10 + digit_val(s.last())
    }
}

/// The shortest decimal rendering of `n`.
pub open spec fn dec(n: nat) -> Seq<char>
    decreases n,
{
    if n < 10 {
        seq![digit_char(n)]
    } else {
        dec(n / 10).push(digit_char(n % 10))
    }
}

/// Ten to the `k`.
pub open spec fn pow10(k: nat) -> nat
    decreases k,
{
    if k == 0 {
        1
    } else {
        10 * pow10((k - 1) as nat)
    }
}

/// The decimal rendering of `n` zero-padded to exactly `w` digits.
pub open spec fn dec_pad(n: nat, w: nat) -> Seq<char>
    decreases w,
{
    if w == 0 {
        Seq::empty()
    } else {
        dec_pad(n / 10, (w - 1) as nat).push(digit_char(n % 10))
    }
}

/// A digit character round-trips through its value, and is neither
/// whitespace nor a piece of the surrounding syntax.
pub proof fn lemma_digit_char(d: nat)
    requires
        d < 10,
    ensures
        is_digit(digit_char(d)),
        digit_val(digit_char(d)) == d,
        digit_char(d) != '\n' && digit_char(d) != '"' && digit_char(d) != ' ' && digit_char(d)
            != '\t' && digit_char(d) != '=' && digit_char(d) != '.',
{
    assert(48 + d <= 57);
    assert(digit_char(d) as nat == 48 + d);
}

/// `dec(n)` is a nonempty digit string denoting `n`.
pub proof fn lemma_dec(n: nat)
    ensures
        dec(n).len() >= 1,
        all_digits(dec(n)),
        digits_val(dec(n)) == n,
    decreases n,
{
    if n < 10 {
        lemma_digit_char(n);
        assert(dec(n) =~= seq![digit_char(n)]);
        assert(dec(n).drop_last() =~= Seq::<char>::empty());
        assert(dec(n).last() == digit_char(n));
        assert(digits_val(dec(n)) == digits_val(Seq::<char>::empty()) * 10 + digit_val(
            digit_char(n),
        ));
    } else {
        lemma_dec(n / 10);
        lemma_digit_char(n % 10);
        assert(dec(n).drop_last() =~= dec(n / 10));
        assert(dec(n).last() == digit_char(n % 10));
        assert(n / 10 * 10 + n % 10 == n) by (nonlinear_arith);
    }
}

/// `dec_pad(n, w)` is `w` digits denoting `n`, when `n` fits.
pub proof fn lemma_dec_pad(n: nat, w: nat)
    requires
        n < pow10(w),
    ensures
        dec_pad(n, w).len() == w,
        all_digits(dec_pad(n, w)),
        digits_val(dec_pad(n, w)) == n,
    decreases w,
{
    if w == 0 {
    } else {
        assert(n / 10 < pow10((w - 1) as nat)) by {
            if n / 10 >= pow10((w - 1) as nat) {
                assert(n >= (n / 10) * 10) by (nonlinear_arith);
                assert((n / 10) * 10 >= pow10((w - 1) as nat) * 10) by (nonlinear_arith)
                    requires n / 10 >= pow10((w - 1) as nat);
            }
        }
        lemma_dec_pad(n / 10, (w - 1) as nat);
        lemma_digit_char(n % 10);
        assert(dec_pad(n, w).drop_last() =~= dec_pad(n / 10, (w - 1) as nat));
    }
}

/// A digit string denotes less than ten to its length.
pub proof fn lemma_digits_val_bound(s: Seq<char>)
    requires
        all_digits(s),
    ensures
        digits_val(s) < pow10(s.len()),
    decreases s.len(),
{
    if s.len() > 0 {
        assert(all_digits(s.drop_last()));
        lemma_digits_val_bound(s.drop_last());
        assert(digit_val(s.last()) <= 9);
        assert(digits_val(s.drop_last()) * 10 + 9 < pow10(s.len())) by (nonlinear_arith)
            requires
                digits_val(s.drop_last()) < pow10((s.len() - 1) as nat),
                pow10(s.len()) == 10 * pow10((s.len() - 1) as nat),
        ;
    }
}

/// A prefix of a digit string denotes no more than the whole.
pub proof fn lemma_digits_val_prefix(s: Seq<char>, i: int)
    requires
        all_digits(s),
        0 <= i <= s.len(),
    ensures
        digits_val(s.subrange(0, i)) <= digits_val(s),
    decreases s.len() - i,
{
    if i < s.len() {
        lemma_digits_val_prefix(s, i + 1);
        assert(s.subrange(0, i + 1).drop_last() =~= s.subrange(0, i));
        assert(digits_val(s.subrange(0, i)) * 10 + digit_val(s[i]) >= digits_val(
            s.subrange(0, i),
        )) by (nonlinear_arith);
    } else {
        assert(s.subrange(0, i) =~= s);
    }
}

/// Appends the decimal rendering of `n`.
pub fn push_dec(out: &mut Vec<char>, n: u64)
    ensures
        final(out)@ == old(out)@ + dec(n as nat),
    decreases n,
{
    if n < 10 {
        out.push((48 + n as u8) as char);
        proof {
            assert(final(out)@ =~= old(out)@ + dec(n as nat));
        }
    } else {
        push_dec(out, n / 10);
        out.push((48 + (n % 10) as u8) as char);
        proof {
            assert(final(out)@ =~= old(out)@ + dec(n as nat));
        }
    }
}

/// The number denoted by the digit string `v[start..end]`: `None` unless the
/// window is nonempty, all digits, and in range for `u64`.
pub open spec fn spec_parse_u64(s: Seq<char>) -> Option<u64> {
    if s.len() > 0 && all_digits(s) && digits_val(s) <= u64::MAX {
        Some(digits_val(s) as u64)
    } else {
        None
    }
}

/// Parses `v[start..end]` as an unsigned decimal integer.
pub fn parse_u64_in(v: &Vec<char>, start: usize, end: usize) -> (r: Option<u64>)
    requires
        start <= end <= v@.len(),
    ensures
        r == spec_parse_u64(v@.subrange(start as int, end as int)),
{
    let ghost s = v@.subrange(start as int, end as int);
    if start == end {
        return None;
    }
    let mut acc: u64 = 0;
    let mut i: usize = start;
    while i < end
        invariant
            start <= i <= end <= v@.len(),
            s == v@.subrange(start as int, end as int),
            all_digits(s.subrange(0, i - start)),
            acc == digits_val(s.subrange(0, i - start)),
        decreases end - i,
    {
        let c = v[i];
        if c < '0' || c > '9' {
            proof {
                assert(!is_digit(s[i - start]));
            }
            return None;
        }
        let d: u64 = (c as u32 as u64) - 48;
        proof {
            assert(s.subrange(0, i + 1 - start).drop_last() =~= s.subrange(0, i - start));
        }
        let next = match acc.checked_mul(10) {
            Some(m) => m.checked_add(d),
            None => None,
        };
        match next {
            Some(a) => {
                acc = a;
            },
            None => {
                proof {
                    let pre = s.subrange(0, i + 1 - start);
                    assert(all_digits(pre));
                    assert(digits_val(pre) == acc * 10 + d);
                    assert(digits_val(pre) > u64::MAX);
                    if all_digits(s) {
                        lemma_digits_val_prefix(s, i + 1 - start);
                    }
                }
                return None;
            },
        }
        i += 1;
    }
    proof {
        assert(s.subrange(0, end - start) =~= s);
    }
    Some(acc)
}

/// `pow10` turns addition of exponents into multiplication.
pub proof fn lemma_pow10_add(a: nat, b: nat)
    ensures
        pow10(a + b) == pow10(a) * pow10(b),
    decreases a,
{
    if a == 0 {
        assert(a + b == b);
        assert(pow10(a) == 1);
        assert(pow10(a) * pow10(b) == pow10(b)) by (nonlinear_arith)
            requires
                pow10(a) == 1,
        ;
    } else {
        lemma_pow10_add((a - 1) as nat, b);
        assert(pow10(a + b) == 10 * pow10((a + b - 1) as nat));
        assert((a + b - 1) as nat == (a - 1) as nat + b);
        assert(pow10((a + b - 1) as nat) == pow10((a - 1) as nat) * pow10(b));
        assert(pow10(a) == 10 * pow10((a - 1) as nat));
        assert(pow10(a + b) == pow10(a) * pow10(b)) by (nonlinear_arith)
            requires
                pow10(a + b) == 10 * pow10((a + b - 1) as nat),
                pow10((a + b - 1) as nat) == pow10((a - 1) as nat) * pow10(b),
                pow10(a) == 10 * pow10((a - 1) as nat),
        ;
    }
}

/// Ten to the `k`, for small `k`.
pub fn pow10_exec(k: u64) -> (r: u64)
    requires
        k <= 6,
    ensures
        r == pow10(k as nat),
{
    proof {
        lemma_pow10_6();
    }
    if k == 0 {
        1
    } else if k == 1 {
        10
    } else if k == 2 {
        100
    } else if k == 3 {
        1000
    } else if k == 4 {
        10000
    } else if k == 5 {
        100000
    } else {
        1000000
    }
}

/// Appends the decimal rendering of `n` zero-padded to `w` digits.
pub fn push_dec_pad(out: &mut Vec<char>, n: u64, w: u64)
    ensures
        final(out)@ == old(out)@ + dec_pad(n as nat, w as nat),
    decreases w,
{
    if w == 0 {
        proof {
            assert(final(out)@ =~= old(out)@ + dec_pad(n as nat, 0));
        }
    } else {
        push_dec_pad(out, n / 10, w - 1);
        out.push((48 + (n % 10) as u8) as char);
        proof {
            assert(final(out)@ =~= old(out)@ + dec_pad(n as nat, w as nat));
        }
    }
}

/// The powers of ten up to one million.
pub proof fn lemma_pow10_6()
    ensures
        pow10(0) == 1,
        pow10(1) == 10,
        pow10(2) == 100,
        pow10(3) == 1000,
        pow10(4) == 10000,
        pow10(5) == 100000,
        pow10(6) == 1000000,
{
    assert(pow10(0) == 1);
    assert(pow10(1) == 10);
    assert(pow10(2) == 100);
    assert(pow10(3) == 1000);
    assert(pow10(4) == 10000);
    assert(pow10(5) == 100000);
}

/// Every power of ten is positive.
pub proof fn lemma_pow10_pos(k: nat)
    ensures
        pow10(k) >= 1,
    decreases k,
{
    if k > 0 {
        lemma_pow10_pos((k - 1) as nat);
    }
}

/// A fraction-digit string with its trailing zeros removed, always keeping
/// at least one digit.
pub open spec fn frac_trim(s: Seq<char>) -> Seq<char>
    decreases s.len(),
{
    if s.len() > 1 && s.last() == '0' {
        frac_trim(s.drop_last())
    } else {
        s
    }
}

/// Trimming trailing zeros keeps a nonempty digit string of digits.
pub proof fn lemma_frac_trim_digits(s: Seq<char>)
    requires
        all_digits(s),
        s.len() >= 1,
    ensures
        all_digits(frac_trim(s)),
        1 <= frac_trim(s).len() <= s.len(),
    decreases s.len(),
{
    if s.len() > 1 && s.last() == '0' {
        assert(all_digits(s.drop_last()));
        lemma_frac_trim_digits(s.drop_last());
    }
}

/// Trimming trailing zeros of a fraction keeps its value, once each string
/// is scaled out to `w` places.
pub proof fn lemma_frac_trim_val(s: Seq<char>, w: nat)
    requires
        all_digits(s),
        1 <= s.len() <= w,
    ensures
        digits_val(frac_trim(s)) * pow10((w - frac_trim(s).len()) as nat) == digits_val(s)
            * pow10((w - s.len()) as nat),
    decreases s.len(),
{
    if s.len() > 1 && s.last() == '0' {
        assert(all_digits(s.drop_last()));
        lemma_frac_trim_val(s.drop_last(), w);
        assert(digit_val('0') == 0);
        assert(digits_val(s) == digits_val(s.drop_last()) * 10);
        let k = (w - s.len()) as nat;
        assert(pow10(k + 1) == 10 * pow10(k));
        assert(digits_val(s.drop_last()) * pow10(k + 1) == digits_val(s.drop_last()) * (10
            * pow10(k))) by (nonlinear_arith)
            requires
                pow10(k + 1) == 10 * pow10(k),
        ;
        assert(digits_val(s.drop_last()) * (10 * pow10(k)) == (digits_val(s.drop_last()) * 10)
            * pow10(k)) by (nonlinear_arith);
    }
}

/// The canonical decimal text of a proportion: the whole part, the point,
/// and the millionths without their trailing zeros.
pub open spec fn prop_str(p: Proportion) -> Seq<char> {
    dec(p.micros as nat / 1000000) + seq!['.'] + frac_trim(
        dec_pad(p.micros as nat % 1000000, 6),
    )
}

/// The canonical text of a proportion is made of digits around one point:
/// it begins and ends with a digit, and holds no other kind of character.
pub proof fn lemma_prop_str_chars(p: Proportion)
    ensures
        prop_str(p).len() >= 3,
        is_digit(prop_str(p)[0]),
        is_digit(prop_str(p).last()),
        forall|i: int|
            0 <= i < prop_str(p).len() ==> is_digit(#[trigger] prop_str(p)[i]) || prop_str(p)[i]
                == '.',
{
    let s = prop_str(p);
    let w = dec(p.micros as nat / 1000000);
    lemma_dec(p.micros as nat / 1000000);
    lemma_pow10_6();
    lemma_dec_pad(p.micros as nat % 1000000, 6);
    lemma_frac_trim_digits(dec_pad(p.micros as nat % 1000000, 6));
    let ft = frac_trim(dec_pad(p.micros as nat % 1000000, 6));
    assert(s[0] == w[0]);
    assert(s.last() == ft.last());
    assert(is_digit(ft[ft.len() - 1]));
    assert forall|i: int| 0 <= i < s.len() implies is_digit(#[trigger] s[i]) || s[i] == '.' by {
        if i < w.len() {
            assert(s[i] == w[i]);
        } else if i > w.len() {
            assert(s[i] == ft[i - w.len() - 1]);
        }
    }
}

/// The proportion a decimal literal denotes: an optional fractional part of
/// at most six places over a whole part, `None` when the text is not such a
/// literal or exceeds `1.0`.
pub open spec fn spec_parse_prop(s: Seq<char>) -> Option<Proportion> {
    let dot = crate::text::find_char(s, '.');
    if dot == s.len() {
        if s.len() > 0 && all_digits(s) && digits_val(s) <= 1 {
            Some(Proportion { micros: (digits_val(s) * 1000000) as u32 })
        } else {
            None
        }
    } else {
        let ip = s.subrange(0, dot as int);
        let fp = s.subrange((dot + 1) as int, s.len() as int);
        if ip.len() > 0 && all_digits(ip) && 1 <= fp.len() <= 6 && all_digits(fp) {
            let m = digits_val(ip) * 1000000 + digits_val(fp) * pow10((6 - fp.len()) as nat);
            if m <= 1000000 {
                Some(Proportion { micros: m as u32 })
            } else {
                None
            }
        } else {
            None
        }
    }
}

/// Parses `v[start..end]` as a proportion literal.
pub fn parse_prop_in(v: &Vec<char>, start: usize, end: usize) -> (r: Option<Proportion>)
    requires
        start <= end <= v@.len(),
    ensures
        r == spec_parse_prop(v@.subrange(start as int, end as int)),
        r is Some ==> r->0.wf(),
{
    let ghost s = v@.subrange(start as int, end as int);
    let dot = find_in(v, start, end, '.');
    proof {
        crate::text::lemma_find_char(s, '.');
    }
    if dot == end {
        match parse_u64_in(v, start, end) {
            Some(n) => {
                if n <= 1 {
                    Some(Proportion { micros: (n as u32) * 1000000 })
                } else {
                    None
                }
            },
            None => {
                proof {
                    if s.len() > 0 && all_digits(s) && digits_val(s) <= 1 {
                        assert(spec_parse_u64(s) is Some);
                    }
                }
                None
            },
        }
    } else {
        let ghost ip = s.subrange(0, dot - start);
        let ghost fp = s.subrange(dot - start + 1, s.len() as int);
        proof {
            assert(ip =~= v@.subrange(start as int, dot as int));
            assert(fp =~= v@.subrange(dot + 1, end as int));
        }
        let flen = end - dot - 1;
        if flen < 1 || flen > 6 {
            return None;
        }
        let whole = match parse_u64_in(v, start, dot) {
            Some(n) => n,
            None => {
                proof {
                    if ip.len() > 0 && all_digits(ip) {
                        if digits_val(ip) <= u64::MAX {
                            assert(spec_parse_u64(ip) is Some);
                        } else {
                            assert(digits_val(ip) * 1000000 > 1000000) by (nonlinear_arith)
                                requires
                                    digits_val(ip) > u64::MAX,
                            ;
                        }
                    }
                }
                return None;
            },
        };
        let frac = match parse_u64_in(v, dot + 1, end) {
            Some(f) => f,
            None => {
                proof {
                    if all_digits(fp) {
                        lemma_digits_val_bound(fp);
                        assert(pow10(fp.len()) <= pow10(6)) by {
                            lemma_pow10_add(fp.len(), (6 - fp.len()) as nat);
                            lemma_pow10_pos((6 - fp.len()) as nat);
                            assert(pow10(fp.len()) * 1 <= pow10(fp.len()) * pow10(
                                (6 - fp.len()) as nat,
                            )) by (nonlinear_arith)
                                requires
                                    pow10((6 - fp.len()) as nat) >= 1,
                            ;
                        }
                        lemma_pow10_6();
                        assert(spec_parse_u64(fp) is Some);
                    }
                }
                return None;
            },
        };
        if whole >= 2 {
            proof {
                assert(digits_val(ip) * 1000000 >= 2000000) by (nonlinear_arith)
                    requires
                        digits_val(ip) >= 2,
                ;
            }
            return None;
        }
        proof {
            lemma_digits_val_bound(fp);
            lemma_pow10_add(fp.len(), (6 - fp.len()) as nat);
            lemma_pow10_6();
            lemma_pow10_pos((6 - fp.len()) as nat);
            assert(digits_val(fp) * pow10((6 - fp.len()) as nat) < pow10(fp.len()) * pow10(
                (6 - fp.len()) as nat,
            )) by (nonlinear_arith)
                requires
                    digits_val(fp) < pow10(fp.len()),
                    pow10((6 - fp.len()) as nat) >= 1,
            ;
        }
        let m = whole * 1000000 + frac * pow10_exec(6 - (flen as u64));
        if m <= 1000000 {
            Some(Proportion { micros: m as u32 })
        } else {
            None
        }
    }
}

/// Appends the canonical decimal text of a proportion.
pub fn push_prop(out: &mut Vec<char>, p: Proportion)
    ensures
        final(out)@ == old(out)@ + prop_str(p),
{
    push_dec(out, (p.micros / 1000000) as u64);
    out.push('.');
    let mut digits: Vec<char> = Vec::new();
    push_dec_pad(&mut digits, (p.micros % 1000000) as u64, 6);
    let ghost padded = digits@;
    loop
        invariant_except_break
            digits@.len() >= 1,
            frac_trim(padded) == frac_trim(digits@),
        ensures
            digits@ == frac_trim(padded),
        decreases digits@.len(),
    {
        if digits.len() <= 1 {
            break ;
        }
        if digits[digits.len() - 1] != '0' {
            break ;
        }
        proof {
            assert(digits@.drop_last() =~= digits@.subrange(0, digits@.len() - 1));
        }
        let _ = digits.pop();
    }
    out.append(&mut digits);
    proof {
        assert(final(out)@ =~= old(out)@ + prop_str(p));
    }
}

/// The canonical text of a well-formed proportion parses back to it.
pub proof fn lemma_prop_round_trip(p: Proportion)
    requires
        p.wf(),
    ensures
        spec_parse_prop(prop_str(p)) == Some(p),
{
    let s = prop_str(p);
    let m = p.micros as nat;
    let q = m / 1000000;
    let w = dec(q);
    lemma_dec(q);
    lemma_pow10_6();
    lemma_dec_pad(m % 1000000, 6);
    let padded = dec_pad(m % 1000000, 6);
    lemma_frac_trim_digits(padded);
    let ft = frac_trim(padded);
    crate::text::lemma_find_char_concat(w, seq!['.'] + ft, '.');
    assert((seq!['.'] + ft)[0] == '.');
    assert(s =~= w + (seq!['.'] + ft));
    assert(crate::text::find_char(s, '.') == w.len());
    let dot = crate::text::find_char(s, '.');
    assert(dot < s.len());
    let ip = s.subrange(0, dot as int);
    let fp = s.subrange((dot + 1) as int, s.len() as int);
    assert(ip =~= w);
    assert(fp =~= ft);
    assert(digits_val(ip) == q);
    lemma_frac_trim_val(padded, 6);
    assert(pow10(0) == 1);
    assert(digits_val(padded) * 1 == m % 1000000);
    assert(digits_val(ft) * pow10((6 - ft.len()) as nat) == m % 1000000);
    assert(q * 1000000 + m % 1000000 == m) by (nonlinear_arith)
        requires
            q == m / 1000000,
    ;
    assert(digits_val(ip) * 1000000 + digits_val(fp) * pow10((6 - fp.len()) as nat) == m);
}

} // verus!
