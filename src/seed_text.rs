//! Reading a seed from user-edited text.
use vstd::prelude::*;

verus! {

pub open spec fn is_decimal_digit(c: char) -> bool {
    '0' <= c && c <= '9'
}

/// The value of a string of decimal digits.
pub open spec fn decimal_value(s: Seq<char>) -> nat
    decreases s.len(),
{
    if s.len() == 0 {
        0
    } else {
        decimal_value(s.drop_last()) * 10 + ((s.last() as u32) - ('0' as u32)) as nat
    }
}

/// `s` without a leading `+`, if it has one.
pub open spec fn unsigned_part(s: Seq<char>) -> Seq<char> {
    if s.len() > 0 && s[0] == '+' {
        s.subrange(1, s.len() as int)
    } else {
        s
    }
}

/// The unsigned 64-bit integer that `s` writes in decimal: an optional `+`
/// followed by one or more digits, with no other character, and a value that
/// fits in 64 bits. `None` for any other text.
pub open spec fn parsed_seed(s: Seq<char>) -> Option<u64> {
    let d = unsigned_part(s);
    if d.len() > 0 && (forall|i: int| 0 <= i < d.len() ==> is_decimal_digit(#[trigger] d[i]))
        && decimal_value(d) <= u64::MAX {
        Some(decimal_value(d) as u64)
    } else {
        None
    }
}

/// Relies on `str::parse::<u64>` (that is, `u64::from_str_radix` in base
/// 10), documented to accept an optional `+` sign followed by digits only,
/// and to fail on empty text, on any other character and on overflow.
#[verifier::external_body]
pub(crate) fn parse_seed(text: &str) -> (r: Option<u64>)
    ensures
        r == parsed_seed(text@),
{
    text.parse::<u64>().ok()
}

} // verus!
