use core::ops::Range;
use vstd::arithmetic::div_mod::{
    lemma_div_by_multiple_is_strongly_ordered,
    lemma_div_is_ordered,
    lemma_div_multiples_vanish,
    lemma_div_pos_is_pos,
};
use vstd::prelude::*;
use vstd::string::StringSliceAdditionalSpecFns;

verus! {

/// Number of values in `r`, as `ExactSizeIterator::len` counts them:
/// zero when `r` is empty.
pub open spec fn range_len(r: Range<u32>) -> int {
    if r.start < r.end {
        r.end - r.start
    } else {
        0
    }
}

/// The value that `map_in_range` computes.
pub open spec fn mapped(input: int, in_range: Range<u32>, out_range: Range<u32>) -> int {
    (input - in_range.start) * range_len(out_range) / range_len(in_range) + out_range.start
}

/// Linearly maps `input` from `in_range` onto `out_range`:
/// `(input - in.start) * out.len() / in.len() + out.start`.
/// The input must not lie below `in_range`, `in_range` must not be empty,
/// and neither the product nor the sum may exceed `u32::MAX`: the
/// arithmetic fails otherwise.
pub fn map_in_range(input: u32, in_range: Range<u32>, out_range: Range<u32>) -> (r: u32)
    requires
        in_range.start <= input,
        range_len(in_range) > 0,
        (input - in_range.start) * range_len(out_range) <= u32::MAX,
        (input - in_range.start) * range_len(out_range) / range_len(in_range) + out_range.start
            <= u32::MAX,
    ensures
        r == mapped(input as int, in_range, out_range),
{
    let in_len: u32 = if in_range.start < in_range.end {
        in_range.end - in_range.start
    } else {
        0
    };
    let out_len: u32 = if out_range.start < out_range.end {
        out_range.end - out_range.start
    } else {
        0
    };
    (input - in_range.start) * out_len / in_len + out_range.start
}

/// The bytes of `"true"`.
pub open spec fn true_bytes() -> Seq<u8> {
    seq![116u8, 114u8, 117u8, 101u8]
}

/// Whether the optional argument is exactly the text `true`.
pub fn parse_bool(input: Option<&str>) -> (b: bool)
    ensures
        b == match input {
            Some(s) => s.spec_bytes() == true_bytes(),
            None => false,
        },
{
    match input {
        Some(s) => {
            let bytes = s.as_bytes();
            let r = bytes.len() == 4 && bytes[0] == 116u8 && bytes[1] == 114u8 && bytes[2] == 117u8
                && bytes[3] == 101u8;
            assert(r ==> bytes@ =~= true_bytes());
            r
        },
        None => false,
    }
}

/// An ASCII decimal digit.
pub open spec fn is_ascii_digit(b: u8) -> bool {
    48 <= b <= 57
}

/// The number that a sequence of ASCII decimal digits spells.
pub open spec fn digits_value(d: Seq<u8>) -> nat
    decreases d.len(),
{
    if d.len() == 0 {
        0
    } else {
        digits_value(d.drop_last()) * 10 + (d.last() - 48) as nat
    }
}

/// The digits of an unsigned number in text: the text without a leading
/// `+` sign.
pub open spec fn unsigned_digits(text: Seq<u8>) -> Seq<u8> {
    if text.len() > 0 && text[0] == 43 {
        text.drop_first()
    } else {
        text
    }
}

/// `u32`'s reading of text: an optional `+` followed by one or more ASCII
/// digits whose value fits in a `u32`; anything else is refused.
pub open spec fn parse_u32_spec(text: Seq<u8>) -> Option<u32> {
    let d = unsigned_digits(text);
    if d.len() > 0 && (forall|i: int| 0 <= i < d.len() ==> is_ascii_digit(#[trigger] d[i]))
        && digits_value(d) <= u32::MAX {
        Some(digits_value(d) as u32)
    } else {
        None
    }
}

/// A prefix never spells a larger number than the whole sequence.
proof fn lemma_digits_value_prefix(d: Seq<u8>, k: int)
    requires
        0 <= k <= d.len(),
    ensures
        digits_value(d.subrange(0, k)) <= digits_value(d),
    decreases d.len(),
{
    if k == d.len() {
        assert(d.subrange(0, k) =~= d);
    } else {
        lemma_digits_value_prefix(d.drop_last(), k);
        assert(d.drop_last().subrange(0, k) =~= d.subrange(0, k));
    }
}

/// Reads a `u32` from text bytes as `str::parse::<u32>` does.
fn parse_u32_bytes(text: &[u8]) -> (r: Option<u32>)
    ensures
        r == parse_u32_spec(text@),
{
    let n = text.len();
    if n == 0 {
        return None;
    }
    let start: usize = if text[0] == 43u8 {
        1
    } else {
        0
    };
    let ghost d = unsigned_digits(text@);
    assert(d =~= text@.subrange(start as int, n as int));
    if start == n {
        return None;
    }
    let mut acc: u32 = 0;
    let mut i: usize = start;
    while i < n
        invariant
            start <= i <= n,
            n == text@.len(),
            d == text@.subrange(start as int, n as int),
            d == unsigned_digits(text@),
            d.len() > 0,
            forall|j: int| 0 <= j < i - start ==> is_ascii_digit(#[trigger] d[j]),
            acc == digits_value(d.subrange(0, i - start)),
        decreases n - i,
    {
        let b = text[i];
        let ghost k: int = i - start;
        assert(d[k] == b);
        if b < 48u8 || b > 57u8 {
            assert(!is_ascii_digit(d[k]));
            return None;
        }
        assert(d.subrange(0, k + 1).drop_last() =~= d.subrange(0, k));
        let digit: u32 = (b - 48u8) as u32;
        let next = match acc.checked_mul(10) {
            Some(m) => m.checked_add(digit),
            None => None,
        };
        match next {
            Some(v) => {
                acc = v;
            },
            None => {
                proof {
                    assert(digits_value(d.subrange(0, k + 1)) == acc * 10 + digit);
                    assert(digits_value(d.subrange(0, k + 1)) > u32::MAX);
                    if forall|j: int| 0 <= j < d.len() ==> is_ascii_digit(#[trigger] d[j]) {
                        lemma_digits_value_prefix(d, k + 1);
                    }
                }
                return None;
            },
        }
        i = i + 1;
    }
    assert(d.subrange(0, d.len() as int) =~= d);
    Some(acc)
}

/// The number in the optional argument, or `default` when there is none or
/// it is not a valid `u32`.
pub fn parse_u32(input: Option<&str>, default: u32) -> (r: u32)
    ensures
        r == match input {
            Some(s) => match parse_u32_spec(s.spec_bytes()) {
                Some(v) => v,
                None => default,
            },
            None => default,
        },
{
    match input {
        Some(s) => match parse_u32_bytes(s.as_bytes()) {
            Some(v) => v,
            None => default,
        },
        None => default,
    }
}

/// An input inside `in_range` is mapped to a value inside `out_range`,
/// and the mapping never decreases.
pub proof fn lemma_mapped_within(input: int, other: int, in_range: Range<u32>, out_range: Range<u32>)
    requires
        in_range.start <= input < in_range.end,
        in_range.start <= other < in_range.end,
        out_range.start < out_range.end,
    ensures
        out_range.start <= mapped(input, in_range, out_range) < out_range.end,
        input <= other ==> mapped(input, in_range, out_range) <= mapped(other, in_range, out_range),
{
    let x = input - in_range.start;
    let y = other - in_range.start;
    let li = range_len(in_range);
    let lo = range_len(out_range);
    assert(0 <= x * lo < lo * li) by (nonlinear_arith)
        requires
            0 <= x < li,
            0 < lo,
    ;
    lemma_div_by_multiple_is_strongly_ordered(x * lo, lo * li, lo, li);
    lemma_div_multiples_vanish(lo, li);
    lemma_div_pos_is_pos(x * lo, li);
    if x <= y {
        assert(x * lo <= y * lo) by (nonlinear_arith)
            requires
                x <= y,
                0 < lo,
        ;
        lemma_div_is_ordered(x * lo, y * lo, li);
    }
}

} // verus!
