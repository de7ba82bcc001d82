//! Writing decimal numbers, and counting tokens.

use vstd::prelude::*;

verus! {

/// The decimal digit of a value below ten.
pub open spec fn digit(value: nat) -> char {
    (48 + value) as char
}

/// The decimal digits of a natural number.
pub open spec fn digits(value: nat) -> Seq<char>
    decreases value,
{
    if value < 10 {
        seq![digit(value)]
    } else {
        digits(value / 10).push(digit(value % 10))
    }
}

/// The decimal form of an integer.
pub open spec fn decimal(value: int) -> Seq<char> {
    if value < 0 {
        seq!['-'] + digits((-value) as nat)
    } else {
        digits(value as nat)
    }
}

/// The decimal form of an optional integer, or `default` where there is none.
pub open spec fn opt_decimal(value: Option<int>, default: Seq<char>) -> Seq<char> {
    match value {
        Some(value) => decimal(value),
        None => default,
    }
}

pub open spec fn opt_int_i64(value: Option<i64>) -> Option<int> {
    match value {
        Some(value) => Some(value as int),
        None => None,
    }
}

pub open spec fn opt_int_usize(value: Option<usize>) -> Option<int> {
    match value {
        Some(value) => Some(value as int),
        None => None,
    }
}

/// `true` or `false`.
pub open spec fn bool_text(value: bool) -> Seq<char> {
    if value {
        "true"@
    } else {
        "false"@
    }
}

/// The decimal form of a `u128`.
pub fn u128_text(value: u128) -> (out: String)
    ensures
        out@ == decimal(value as int),
    decreases value,
{
    let last = (48u8 + (value % 10) as u8) as char;
    if value < 10 {
        let mut out = String::new();
        out.push(last);
        assert(out@ =~= seq![digit(value as nat)]);
        out
    } else {
        let mut out = u128_text(value / 10);
        out.push(last);
        out
    }
}

/// The decimal form of a `u64`.
pub fn u64_text(value: u64) -> (out: String)
    ensures
        out@ == decimal(value as int),
{
    u128_text(value as u128)
}

/// The decimal form of a `usize`.
pub fn usize_text(value: usize) -> (out: String)
    ensures
        out@ == decimal(value as int),
{
    u64_text(value as u64)
}

/// The decimal form of a `u32`.
pub fn u32_text(value: u32) -> (out: String)
    ensures
        out@ == decimal(value as int),
{
    u64_text(value as u64)
}

/// The decimal form of an `i64`.
pub fn i64_text(value: i64) -> (out: String)
    ensures
        out@ == decimal(value as int),
{
    if value < 0 {
        let size: u64 = (-(value + 1)) as u64 + 1;
        let rest = u64_text(size);
        let mut out = String::new();
        out.push('-');
        out.append(rest.as_str());
        assert(out@ =~= seq!['-'] + digits((-value) as nat));
        out
    } else {
        u64_text(value as u64)
    }
}

/// The decimal form of an optional `i64`, or `default` where there is none.
pub fn opt_i64_text(value: Option<i64>, default: &str) -> (out: String)
    ensures
        out@ == opt_decimal(opt_int_i64(value), default@),
{
    match value {
        Some(value) => i64_text(value),
        None => default.to_owned(),
    }
}

/// The decimal form of an optional `usize`, or `default` where there is none.
pub fn opt_usize_text(value: Option<usize>, default: &str) -> (out: String)
    ensures
        out@ == opt_decimal(opt_int_usize(value), default@),
{
    match value {
        Some(value) => usize_text(value),
        None => default.to_owned(),
    }
}

/// `true` or `false`.
pub fn bool_str(value: bool) -> (out: &'static str)
    ensures
        out@ == bool_text(value),
{
    if value {
        "true"
    } else {
        "false"
    }
}

/// The value of a decimal digit.
pub open spec fn digit_value(ch: char) -> Option<nat> {
    if '0' <= ch <= '9' {
        Some((ch as int - 48) as nat)
    } else {
        None
    }
}

/// The number that a text of decimal digits stands for.
pub open spec fn digits_value(text: Seq<char>) -> Option<nat>
    decreases text.len(),
{
    if text.len() == 0 {
        Some(0)
    } else {
        match (digits_value(text.drop_last()), digit_value(text.last())) {
            (Some(front), Some(last)) => Some(front * 10 + last),
            _ => None,
        }
    }
}

/// The integer that a text stands for: an optional sign, then at least one
/// decimal digit.
pub open spec fn integer_value(text: Seq<char>) -> Option<int> {
    let unsigned = text.skip(1);
    if text.len() > 0 && (text[0] == '-' || text[0] == '+') {
        if unsigned.len() == 0 {
            None
        } else {
            match digits_value(unsigned) {
                Some(value) => Some(
                    if text[0] == '-' {
                        -(value as int)
                    } else {
                        value as int
                    },
                ),
                None => None,
            }
        }
    } else if text.len() == 0 {
        None
    } else {
        match digits_value(text) {
            Some(value) => Some(value as int),
            None => None,
        }
    }
}

/// Writing a number and reading it back gives the number.
pub proof fn digits_round_trip(value: nat)
    ensures
        digits_value(digits(value)) == Some(value),
        digits(value).len() > 0,
        '0' <= digits(value)[0] <= '9',
    decreases value,
{
    reveal_with_fuel(digits_value, 2);
    if value >= 10 {
        digits_round_trip(value / 10);
        assert(digits(value).drop_last() =~= digits(value / 10));
    } else {
        assert(digits(value).drop_last() =~= Seq::<char>::empty());
    }
}

/// Every integer is read back from its decimal form.
pub proof fn decimal_round_trip(value: int)
    ensures
        integer_value(decimal(value)) == Some(value),
{
    if value < 0 {
        digits_round_trip((-value) as nat);
        assert(decimal(value).skip(1) =~= digits((-value) as nat));
    } else {
        digits_round_trip(value as nat);
    }
}

// --------------------------------------------------------------------- tokens

/// The number of bytes of a text in UTF-8.
pub open spec fn byte_len(text: Seq<char>) -> nat {
    vstd::utf8::encode_utf8(text).len()
}

/// One token for every four bytes, a rest counted as one more.
pub open spec fn tokens_of_bytes(bytes: nat) -> nat {
    if bytes % 4 == 0 {
        bytes / 4
    } else {
        bytes / 4 + 1
    }
}

/// The estimated number of tokens of a text.
pub open spec fn token_count(text: Seq<char>) -> nat {
    tokens_of_bytes(byte_len(text))
}

/// One token for every four bytes, a rest counted as one more.
pub fn bytes_to_tokens(bytes: usize) -> (tokens: usize)
    ensures
        tokens == tokens_of_bytes(bytes as nat),
        tokens <= usize::MAX / 4 + 1,
{
    if bytes % 4 == 0 {
        bytes / 4
    } else {
        bytes / 4 + 1
    }
}

/// The estimated number of tokens of a text: its bytes divided by four,
/// rounded up.
pub fn approx_token_count(text: &str) -> (tokens: usize)
    ensures
        tokens == token_count(text@),
        tokens <= usize::MAX / 4 + 1,
{
    bytes_to_tokens(text.as_bytes().len())
}

/// A text has one token for every four bytes of its UTF-8 form, rounded up.
pub proof fn tokens_are_four_bytes_each(text: Seq<char>)
    ensures
        4 * token_count(text) >= byte_len(text),
        byte_len(text) > 0 ==> 4 * (token_count(text) - 1) < byte_len(text),
        byte_len(text) == 0 ==> token_count(text) == 0,
{
}

/// A decimal number is written from the digits of its tens and the one behind
/// them, and a negative one with a minus sign in front.
pub proof fn decimal_is_written_by_digits(tens: nat, ones: nat)
    requires
        ones < 10,
    ensures
        tens > 0 ==> decimal((tens * 10 + ones) as int) == decimal(tens as int).push(
            "0123456789"@[ones as int],
        ),
        decimal(ones as int) == seq!["0123456789"@[ones as int]],
        tens > 0 ==> decimal(-(tens as int)) == seq!['-'] + decimal(tens as int),
{
    reveal_strlit("0123456789");
    assert("0123456789"@[ones as int] == digit(ones));
    if tens > 0 {
        let value = tens * 10 + ones;
        assert(value / 10 == tens);
        assert(value % 10 == ones);
    }
}

/// What is not there is written as the default, and a truth by its word.
pub proof fn absent_numbers_are_written_as_the_default(value: i64, default: Seq<char>)
    ensures
        opt_decimal(opt_int_i64(Some(value)), default) == decimal(value as int),
        opt_decimal(opt_int_i64(None), default) == default,
        opt_decimal(opt_int_usize(None), default) == default,
        bool_text(true) == "true"@,
        bool_text(false) == "false"@,
{
}

} // verus!
