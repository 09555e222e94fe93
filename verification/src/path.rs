//! Binding the id that a request names in its path.

use vstd::prelude::*;
use crate::errors::{ClientError, ClientErrorView, ErrorCodes};

verus! {

/// Whether `c` is one of the ten decimal digits.
pub open spec fn is_digit(c: char) -> bool {
    '0' as int <= c as int <= '9' as int
}

/// The number that the digit `c` stands for.
pub open spec fn digit_value(c: char) -> int {
    c as int - '0' as int
}

/// Whether `segment` begins with a sign.
pub open spec fn has_sign(segment: Seq<char>) -> bool {
    segment.len() > 0 && (segment[0] == '+' || segment[0] == '-')
}

/// What follows the sign of `segment`, or all of it where it has none.
pub open spec fn digits_of(segment: Seq<char>) -> Seq<char> {
    if has_sign(segment) {
        segment.skip(1)
    } else {
        segment
    }
}

/// Whether `digits` is one decimal digit or more, and nothing else.
pub open spec fn is_number(digits: Seq<char>) -> bool {
    digits.len() > 0 && forall|i: int| 0 <= i < digits.len() ==> is_digit(#[trigger] digits[i])
}

/// The number that `digits` denotes in base ten, most significant digit
/// first.
pub open spec fn decimal_value(digits: Seq<char>) -> int
    decreases digits.len(),
{
    if digits.len() == 0 {
        0
    } else {
        10 * decimal_value(digits.drop_last()) + digit_value(digits.last())
    }
}

/// The integer that `segment` denotes, where it is written as an optional
/// sign, `+` or `-`, and then one decimal digit or more.
pub open spec fn written_integer(segment: Seq<char>) -> Option<int> {
    if is_number(digits_of(segment)) {
        if segment[0] == '-' {
            Some(-decimal_value(digits_of(segment)))
        } else {
            Some(decimal_value(digits_of(segment)))
        }
    } else {
        None
    }
}

/// The id that `segment` names: the integer written in it, where there is
/// one and it is a 32-bit signed integer.
pub open spec fn id_of(segment: Seq<char>) -> Option<i32> {
    match written_integer(segment) {
        Some(value) => if i32::MIN <= value <= i32::MAX {
            Some(value as i32)
        } else {
            None
        },
        None => None,
    }
}

/// The path of the request names no id.
pub open spec fn malformed_id() -> ClientErrorView {
    ClientErrorView {
        code: ErrorCodes::InvalidInput,
        msg: "Incorrect id specified, expected an integer"@,
    }
}

/// What [`parse_id`] returns, as a mathematical value.
pub open spec fn binding_view(binding: Result<i32, ClientError>) -> Result<i32, ClientErrorView> {
    match binding {
        Ok(id) => Ok(id),
        Err(error) => Err(error@),
    }
}

/// The binding of a path segment: its id, or `InvalidInput`.
pub open spec fn parse_id_answer(segment: Seq<char>) -> Result<i32, ClientErrorView> {
    match id_of(segment) {
        Some(id) => Ok(id),
        None => Err(malformed_id()),
    }
}

/// Appending a digit to digits multiplies their value by ten and adds the
/// digit's.
proof fn lemma_decimal_value_push(digits: Seq<char>, c: char)
    ensures
        decimal_value(digits.push(c)) == 10 * decimal_value(digits) + digit_value(c),
{
    assert(digits.push(c).drop_last() =~= digits);
}

/// Digits denote no negative number.
proof fn lemma_decimal_value_nonnegative(digits: Seq<char>)
    requires
        forall|i: int| 0 <= i < digits.len() ==> is_digit(#[trigger] digits[i]),
    ensures
        decimal_value(digits) >= 0,
    decreases digits.len(),
{
    if digits.len() > 0 {
        lemma_decimal_value_nonnegative(digits.drop_last());
    }
}

/// The largest magnitude of a 32-bit signed integer: that of `i32::MIN`.
const MAX_MAGNITUDE: i64 = 2147483648;

/// Binds the id in the path of a request, before the store is asked
/// anything. The segment must be written as `i32` values are: an optional
/// sign and then decimal digits, with nothing before, between or after.
/// Anything else is answered with `InvalidInput`.
pub fn parse_id(segment: &str) -> (binding: Result<i32, ClientError>)
    ensures
        binding_view(binding) == parse_id_answer(segment@),
{
    let mut first = true;
    let mut negative = false;
    let mut valid = true;
    let mut nonempty = false;
    let mut too_large = false;
    let mut magnitude: i64 = 0;
    let ghost mut digits: Seq<char> = Seq::empty();
    for c in it: segment.chars()
        invariant
            it.seq() == segment@,
            first == (it.index() == 0),
            digits == digits_of(segment@.take(it.index())),
            negative == (it.index() > 0 && segment@[0] == '-'),
            valid == (forall|i: int| 0 <= i < digits.len() ==> is_digit(#[trigger] digits[i])),
            nonempty == (digits.len() > 0),
            0 <= magnitude <= MAX_MAGNITUDE,
            valid && !too_large ==> magnitude == decimal_value(digits),
            valid && too_large ==> decimal_value(digits) > MAX_MAGNITUDE,
    {
        let ghost before = segment@.take(it.index());
        let ghost after = segment@.take(it.index() + 1);
        assert(after =~= before.push(c));
        if first && (c == '+' || c == '-') {
            negative = c == '-';
            assert(digits_of(after) =~= digits);
        } else {
            assert(digits_of(after) =~= digits.push(c));
            proof {
                lemma_decimal_value_push(digits, c);
                if valid {
                    lemma_decimal_value_nonnegative(digits);
                } else {
                    let i = choose|i: int| 0 <= i < digits.len() && !is_digit(digits[i]);
                    assert(digits.push(c)[i] == digits[i]);
                }
                assert(digits.push(c)[digits.len() as int] == c);
                digits = digits.push(c);
            }
            nonempty = true;
            if '0' <= c && c <= '9' {
                if !too_large {
                    let digit: i64 = (c as u32 - '0' as u32) as i64;
                    let next: i64 = magnitude * 10 + digit;
                    if next > MAX_MAGNITUDE {
                        too_large = true;
                    } else {
                        magnitude = next;
                    }
                }
            } else {
                valid = false;
            }
        }
        first = false;
    }
    assert(segment@.take(segment@.len() as int) =~= segment@);
    if !valid || !nonempty || too_large {
        Err(malformed())
    } else if negative {
        Ok((-magnitude) as i32)
    } else if magnitude > i32::MAX as i64 {
        Err(malformed())
    } else {
        Ok(magnitude as i32)
    }
}

fn malformed() -> (error: ClientError)
    ensures
        error@ == malformed_id(),
{
    ClientError::new(
        ErrorCodes::InvalidInput,
        "Incorrect id specified, expected an integer".to_string(),
    )
}

} // verus!
