//! Decimal numbers held exactly, as normalised decimal text.

use vstd::prelude::*;
use crate::text::{all_digits, first_index, index_of};

verus! {

/// The length of an optional leading sign.
pub open spec fn sign_len(s: Seq<char>) -> int {
    if s.len() > 0 && (s[0] == '+' || s[0] == '-') { 1 } else { 0 }
}

/// The digits before the decimal point (after the sign).
pub open spec fn int_digits(s: Seq<char>) -> Seq<char> {
    let body = s.subrange(sign_len(s), s.len() as int);
    let dot = first_index(body, '.');
    if dot < 0 { body } else { body.subrange(0, dot) }
}

/// The digits after the decimal point.
pub open spec fn frac_digits(s: Seq<char>) -> Seq<char> {
    let body = s.subrange(sign_len(s), s.len() as int);
    let dot = first_index(body, '.');
    if dot < 0 { Seq::empty() } else { body.subrange(dot + 1, body.len() as int) }
}

/// `s` is `[+-]?digits[.digits]` with at least one digit.
pub open spec fn is_decimal_text(s: Seq<char>) -> bool {
    &&& all_digits(int_digits(s))
    &&& all_digits(frac_digits(s))
    &&& int_digits(s).len() + frac_digits(s).len() >= 1
}

pub open spec fn strip_leading_zeros(s: Seq<char>) -> Seq<char>
    decreases s.len(),
{
    if s.len() > 0 && s[0] == '0' { strip_leading_zeros(s.subrange(1, s.len() as int)) } else { s }
}

pub open spec fn strip_trailing_zeros(s: Seq<char>) -> Seq<char>
    decreases s.len(),
{
    if s.len() > 0 && s.last() == '0' { strip_trailing_zeros(s.drop_last()) } else { s }
}

/// The normal form of a decimal text: `-` for a negative sign, the integer digits
/// without leading zeros (at least `0`), and the fraction without trailing zeros.
pub open spec fn normal_decimal(s: Seq<char>) -> Seq<char> {
    let sign = if s.len() > 0 && s[0] == '-' { seq!['-'] } else { Seq::empty() };
    let i = strip_leading_zeros(int_digits(s));
    let f = strip_trailing_zeros(frac_digits(s));
    sign + (if i.len() == 0 { seq!['0'] } else { i }) + (if f.len() == 0 { Seq::empty() } else { seq!['.'] + f })
}

/// A decimal number, held as its normal form.
#[derive(Clone, Debug)]
pub struct Decimal {
    text: String,
}

impl View for Decimal {
    type V = Seq<char>;

    closed spec fn view(&self) -> Seq<char> {
        self.text@
    }
}

fn all_digit_range(v: &Vec<char>, from: usize, to: usize) -> (r: bool)
    requires
        from <= to <= v@.len(),
    ensures
        r == all_digits(v@.subrange(from as int, to as int)),
{
    crate::text::digits_only(v, from, to)
}

/// Appends `v[from..to]` to `out`.
pub(crate) fn push_range(v: &Vec<char>, from: usize, to: usize, out: &mut Vec<char>)
    requires
        from <= to <= v@.len(),
    ensures
        final(out)@ == old(out)@ + v@.subrange(from as int, to as int),
{
    let ghost start = out@;
    let mut k: usize = from;
    while k < to
        invariant
            from <= k <= to <= v@.len(),
            out@ == start + v@.subrange(from as int, k as int),
        decreases to - k,
    {
        out.push(v[k]);
        k = k + 1;
        assert(out@ =~= start + v@.subrange(from as int, k as int));
    }
}

/// The start of `v[from..to]` without its leading zeros.
fn skip_zeros(v: &Vec<char>, from: usize, to: usize) -> (lo: usize)
    requires
        from <= to <= v@.len(),
    ensures
        from <= lo <= to,
        strip_leading_zeros(v@.subrange(from as int, to as int)) == v@.subrange(lo as int, to as int),
{
    let mut lo: usize = from;
    while lo < to && v[lo] == '0'
        invariant
            from <= lo <= to <= v@.len(),
            strip_leading_zeros(v@.subrange(from as int, to as int)) == strip_leading_zeros(
                v@.subrange(lo as int, to as int),
            ),
        decreases to - lo,
    {
        assert(v@.subrange(lo as int, to as int).subrange(1, (to - lo) as int)
            =~= v@.subrange(lo + 1, to as int));
        lo = lo + 1;
    }
    lo
}

/// The end of `v[from..to]` without its trailing zeros.
fn trim_zeros(v: &Vec<char>, from: usize, to: usize) -> (hi: usize)
    requires
        from <= to <= v@.len(),
    ensures
        from <= hi <= to,
        strip_trailing_zeros(v@.subrange(from as int, to as int)) == v@.subrange(from as int, hi as int),
{
    let mut hi: usize = to;
    while hi > from && v[hi - 1] == '0'
        invariant
            from <= hi <= to <= v@.len(),
            strip_trailing_zeros(v@.subrange(from as int, to as int))
                == strip_trailing_zeros(v@.subrange(from as int, hi as int)),
        decreases hi - from,
    {
        assert(v@.subrange(from as int, hi as int).drop_last() =~= v@.subrange(from as int, hi - 1));
        hi = hi - 1;
    }
    hi
}

impl Decimal {
    /// The number that `s` writes, if `s` is `[+-]?digits[.digits]` with at least one digit.
    #[verifier::rlimit(40)]
    pub fn from_str(s: &str) -> (r: Option<Decimal>)
        ensures
            match r {
                Some(d) => is_decimal_text(s@) && d@ == normal_decimal(s@),
                None => !is_decimal_text(s@),
            },
    {
        let v = crate::text::chars_of(s);
        let n = v.len();
        let sl: usize = if n > 0 && (v[0] == '+' || v[0] == '-') { 1 } else { 0 };
        let mut b: Vec<char> = Vec::new();
        push_range(&v, sl, n, &mut b);
        assert(b@ =~= s@.subrange(sign_len(s@), s@.len() as int));
        let (int_end, frac_start) = match index_of(&b, '.') {
            Some(k) => (k, k + 1),
            None => (b.len(), b.len()),
        };
        assert(int_digits(s@) =~= b@.subrange(0, int_end as int));
        assert(frac_digits(s@) =~= b@.subrange(frac_start as int, b@.len() as int));
        if !all_digit_range(&b, 0, int_end) || !all_digit_range(&b, frac_start, b.len())
            || int_end + (b.len() - frac_start) == 0 {
            return None;
        }
        let lo = skip_zeros(&b, 0, int_end);
        let hi = trim_zeros(&b, frac_start, b.len());
        let mut out: Vec<char> = Vec::new();
        if n > 0 && v[0] == '-' {
            out.push('-');
        }
        if lo == int_end {
            out.push('0');
        } else {
            push_range(&b, lo, int_end, &mut out);
        }
        if hi > frac_start {
            out.push('.');
            push_range(&b, frac_start, hi, &mut out);
        }
        assert(out@ =~= normal_decimal(s@));
        Some(Decimal { text: crate::text::string_of(out.as_slice()) })
    }

    pub fn copy(&self) -> (r: Self)
        ensures
            r@ == self@,
    {
        Decimal { text: self.text.clone() }
    }

    /// The normal decimal text of this number.
    pub fn to_string(&self) -> (r: String)
        ensures
            r@ == self@,
    {
        self.text.clone()
    }
}

} // verus!
