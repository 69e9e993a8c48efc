//! Character-level vocabulary of the command language: whitespace, digits,
//! case-insensitive comparison, wallet-address shape and numeric tokens.

use vstd::prelude::*;

verus! {

/// ASCII whitespace: the separators the tokenizer recognizes.
pub open spec fn is_space(c: char) -> bool {
    c == ' ' || c == '\t' || c == '\n' || c == '\r'
}

pub fn is_space_char(c: char) -> (r: bool)
    ensures
        r == is_space(c),
{
    c == ' ' || c == '\t' || c == '\n' || c == '\r'
}

pub open spec fn is_digit(c: char) -> bool {
    '0' <= c && c <= '9'
}

pub fn is_digit_char(c: char) -> (r: bool)
    ensures
        r == is_digit(c),
{
    '0' <= c && c <= '9'
}

/// The code point of `c` with an ASCII capital letter folded to lower case.
pub open spec fn lower_code(c: char) -> int {
    if 65 <= c as u32 && c as u32 <= 90 {
        c as u32 + 32
    } else {
        c as u32 as int
    }
}

/// Case-insensitive character equality (ASCII letters only).
pub open spec fn char_eq_ci(a: char, b: char) -> bool {
    lower_code(a) == lower_code(b)
}

pub fn chars_eq_ci(a: char, b: char) -> (r: bool)
    ensures
        r == char_eq_ci(a, b),
{
    let va = a as u32;
    let vb = b as u32;
    let la = if 65 <= va && va <= 90 { va + 32 } else { va };
    let lb = if 65 <= vb && vb <= 90 { vb + 32 } else { vb };
    la == lb
}

/// Case-insensitive equality of two character sequences.
pub open spec fn seq_eq_ci(s: Seq<char>, t: Seq<char>) -> bool {
    s.len() == t.len() && forall|i: int| 0 <= i < s.len() ==> char_eq_ci(s[i], t[i])
}

pub fn str_eq_ci(a: &str, b: &str) -> (r: bool)
    ensures
        r == seq_eq_ci(a@, b@),
{
    let na = a.unicode_len();
    let nb = b.unicode_len();
    if na != nb {
        return false;
    }
    let mut i: usize = 0;
    while i < na
        invariant
            na == a@.len(),
            na == b@.len(),
            i <= na,
            forall|j: int| 0 <= j < i ==> char_eq_ci(a@[j], b@[j]),
        decreases na - i,
    {
        if !chars_eq_ci(a.get_char(i), b.get_char(i)) {
            return false;
        }
        i += 1;
    }
    true
}

/// A structurally valid wallet address: exactly 42 characters that begin
/// with the prefix `0x`. No checksum or on-chain existence check.
pub open spec fn valid_address(s: Seq<char>) -> bool {
    s.len() == 42 && s[0] == '0' && s[1] == 'x'
}

pub fn is_valid_address(t: &str) -> (r: bool)
    ensures
        r == valid_address(t@),
{
    let n = t.unicode_len();
    n == 42 && t.get_char(0) == '0' && t.get_char(1) == 'x'
}

pub open spec fn is_sign(c: char) -> bool {
    c == '+' || c == '-'
}

/// `s` without its optional leading sign.
pub open spec fn strip_sign(s: Seq<char>) -> Seq<char> {
    if s.len() > 0 && is_sign(s[0]) {
        s.subrange(1, s.len() as int)
    } else {
        s
    }
}

/// The non-finite spellings a float token may use, matched case-insensitively.
pub open spec fn is_special_float(t: Seq<char>) -> bool {
    seq_eq_ci(t, "inf"@) || seq_eq_ci(t, "infinity"@) || seq_eq_ci(t, "nan"@)
}

pub open spec fn is_exp_marker(c: char) -> bool {
    c == 'e' || c == 'E'
}

/// A mantissa: at least one digit, only digits and at most one decimal point.
pub open spec fn is_mantissa(m: Seq<char>) -> bool {
    &&& m.len() > 0
    &&& forall|i: int| 0 <= i < m.len() ==> is_digit(m[i]) || m[i] == '.'
    &&& exists|i: int| 0 <= i < m.len() && is_digit(m[i])
    &&& forall|i: int, j: int| 0 <= i < j < m.len() ==> !(m[i] == '.' && m[j] == '.')
}

/// An exponent after the marker: an optional sign, then one or more digits.
pub open spec fn is_exponent(e: Seq<char>) -> bool {
    let d = strip_sign(e);
    d.len() > 0 && forall|i: int| 0 <= i < d.len() ==> is_digit(d[i])
}

/// The index of the first exponent marker in `t`, or `t.len()` if none.
pub open spec fn find_exp(t: Seq<char>) -> int
    decreases t.len(),
{
    if t.len() == 0 {
        0
    } else if is_exp_marker(t[0]) {
        0
    } else {
        1 + find_exp(t.drop_first())
    }
}

/// If no marker stands before `k` and `k` is a marker (or the end), the first
/// marker is at `k`.
pub proof fn lemma_find_exp_is(t: Seq<char>, k: int)
    requires
        0 <= k <= t.len(),
        forall|j: int| 0 <= j < k ==> !is_exp_marker(t[j]),
        k < t.len() ==> is_exp_marker(t[k]),
    ensures
        find_exp(t) == k,
    decreases t.len(),
{
    if t.len() > 0 && !is_exp_marker(t[0]) {
        assert forall|j: int| 0 <= j < k - 1 implies !is_exp_marker(t.drop_first()[j]) by {
            assert(t.drop_first()[j] == t[j + 1]);
        }
        lemma_find_exp_is(t.drop_first(), k - 1);
    }
}

/// A finite number: a mantissa, optionally followed by a marked exponent.
pub open spec fn is_finite_number(t: Seq<char>) -> bool {
    let k = find_exp(t);
    if k == t.len() {
        is_mantissa(t)
    } else {
        is_mantissa(t.subrange(0, k)) && is_exponent(t.subrange(k + 1, t.len() as int))
    }
}

/// A token that reads as a signed floating-point number: an optional sign,
/// then either a non-finite spelling or a finite number. No range bound.
pub open spec fn is_float_token(s: Seq<char>) -> bool {
    let t = strip_sign(s);
    is_special_float(t) || is_finite_number(t)
}

fn is_mantissa_str(m: &str) -> (r: bool)
    ensures
        r == is_mantissa(m@),
{
    let n = m.unicode_len();
    let mut has_digit = false;
    let mut all_ok = true;
    let mut dot_seen = false;
    let mut double_dot = false;
    let mut i: usize = 0;
    while i < n
        invariant
            n == m@.len(),
            i <= n,
            has_digit == exists|j: int| 0 <= j < i && is_digit(m@[j]),
            all_ok == forall|j: int| 0 <= j < i ==> is_digit(m@[j]) || m@[j] == '.',
            dot_seen == exists|j: int| 0 <= j < i && m@[j] == '.',
            double_dot == exists|j1: int, j2: int|
                0 <= j1 < j2 < i && m@[j1] == '.' && m@[j2] == '.',
        decreases n - i,
    {
        let c = m.get_char(i);
        if is_digit_char(c) {
            has_digit = true;
        } else if c == '.' {
            if dot_seen {
                double_dot = true;
            }
            dot_seen = true;
        } else {
            all_ok = false;
        }
        i += 1;
    }
    n > 0 && all_ok && has_digit && !double_dot
}

fn is_exponent_str(e: &str) -> (r: bool)
    ensures
        r == is_exponent(e@),
{
    let n = e.unicode_len();
    let start: usize = if n > 0 && (e.get_char(0) == '+' || e.get_char(0) == '-') {
        1
    } else {
        0
    };
    proof {
        assert(strip_sign(e@) =~= e@.subrange(start as int, n as int));
    }
    if start >= n {
        return false;
    }
    let mut i: usize = start;
    let mut all_ok = true;
    while i < n
        invariant
            n == e@.len(),
            start <= i <= n,
            all_ok == forall|j: int| start <= j < i ==> is_digit(e@[j]),
        decreases n - i,
    {
        if !is_digit_char(e.get_char(i)) {
            all_ok = false;
        }
        i += 1;
    }
    proof {
        let d = strip_sign(e@);
        assert(d =~= e@.subrange(start as int, n as int));
        if all_ok {
            assert forall|i: int| 0 <= i < d.len() implies is_digit(d[i]) by {
                assert(d[i] == e@[i + start]);
            }
        } else {
            let j = choose|j: int| start <= j < n && !is_digit(e@[j]);
            assert(!is_digit(d[j - start]));
        }
    }
    all_ok
}

fn is_finite_number_str(t: &str) -> (r: bool)
    ensures
        r == is_finite_number(t@),
{
    let n = t.unicode_len();
    let mut k: usize = 0;
    while k < n && !(t.get_char(k) == 'e' || t.get_char(k) == 'E')
        invariant
            n == t@.len(),
            k <= n,
            forall|j: int| 0 <= j < k ==> !is_exp_marker(t@[j]),
        decreases n - k,
    {
        k += 1;
    }
    proof {
        lemma_find_exp_is(t@, k as int);
    }
    if k == n {
        is_mantissa_str(t)
    } else {
        let m = t.substring_char(0, k);
        let e = t.substring_char(k + 1, n);
        let rm = is_mantissa_str(m);
        let re = is_exponent_str(e);
        rm && re
    }
}

/// Whether the token reads as a signed floating-point number.
pub fn is_float_str(t: &str) -> (r: bool)
    ensures
        r == is_float_token(t@),
{
    let n = t.unicode_len();
    let start: usize = if n > 0 && (t.get_char(0) == '+' || t.get_char(0) == '-') {
        1
    } else {
        0
    };
    let body = t.substring_char(start, n);
    proof {
        assert(body@ =~= strip_sign(t@));
    }
    if str_eq_ci(body, "inf") || str_eq_ci(body, "infinity") || str_eq_ci(body, "nan") {
        return true;
    }
    is_finite_number_str(body)
}

} // verus!
