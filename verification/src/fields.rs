//! Reading the integer fields of the observation form.
//!
//! Every field is parsed as a decimal `i32`; a field that does not parse
//! counts as 0.
use vstd::prelude::*;

use crate::calendar::fits_i32;

verus! {

pub open spec fn is_ascii_digit(c: char) -> bool {
    '0' <= c && c <= '9'
}

/// The value of a run of decimal digits.
pub open spec fn digits_value(digits: Seq<char>) -> int
    decreases digits.len(),
{
    if digits.len() == 0 {
        0
    } else {
        digits_value(digits.drop_last()) * 10 + (digits.last() as int - '0' as int)
    }
}

/// Every character is an ASCII digit.
pub open spec fn all_ascii_digits(text: Seq<char>) -> bool {
    forall|i: int| 0 <= i < text.len() ==> #[trigger] is_ascii_digit(text[i])
}

/// The text starts with a `+` or `-` sign.
pub open spec fn has_sign(text: Seq<char>) -> bool {
    text.len() > 0 && (text[0] == '-' || text[0] == '+')
}

/// The text after its sign, if it has one.
pub open spec fn unsigned_part(text: Seq<char>) -> Seq<char> {
    if has_sign(text) {
        text.drop_first()
    } else {
        text
    }
}

/// What `str::parse::<i32>` accepts: an optional `+` or `-` followed by one
/// or more ASCII digits, nothing else, with a value that fits in `i32`.
pub open spec fn decimal_i32(text: Seq<char>) -> Option<i32> {
    let digits = unsigned_part(text);
    let magnitude = digits_value(digits);
    let value = if has_sign(text) && text[0] == '-' {
        -magnitude
    } else {
        magnitude
    };
    if digits.len() > 0 && all_ascii_digits(digits) && fits_i32(value) {
        Some(value as i32)
    } else {
        None
    }
}

/// The field's value, or 0 when it does not parse.
pub open spec fn field_value(text: Seq<char>) -> i32 {
    match decimal_i32(text) {
        Some(v) => v,
        None => 0,
    }
}

/// Calls `str::parse::<i32>`.  Trusted: the standard library documents that it
/// accepts an optional `+` or `-` sign followed by digits only, and fails on an
/// empty string, on any other character and on a value outside `i32`; that is
/// `decimal_i32`.
#[verifier::external_body]
fn parse_i32(text: &str) -> (r: Option<i32>)
    ensures
        r == decimal_i32(text@),
{
    text.parse::<i32>().ok()
}

fn parse_or_zero(text: &String) -> (v: i32)
    ensures
        v == field_value(text@),
{
    match parse_i32(text.as_str()) {
        Some(v) => v,
        None => 0,
    }
}

/// Reads the date and time fields of the form as integers; a field that does
/// not parse as a decimal `i32` becomes 0.  The result is
/// (year, month, day, hour, minute, second).
pub fn to_correct(
    year: &String,
    month: &String,
    day: &String,
    hour: &String,
    minute: &String,
    second: &String,
) -> (r: (i32, i32, i32, i32, i32, i32))
    ensures
        r.0 == field_value(year@),
        r.1 == field_value(month@),
        r.2 == field_value(day@),
        r.3 == field_value(hour@),
        r.4 == field_value(minute@),
        r.5 == field_value(second@),
{
    let new_year = parse_or_zero(year);
    let new_month = parse_or_zero(month);
    let new_day = parse_or_zero(day);
    let new_hour = parse_or_zero(hour);
    let new_min = parse_or_zero(minute);
    let new_sec = parse_or_zero(second);
    (new_year, new_month, new_day, new_hour, new_min, new_sec)
}

/// The decimal digits of a natural number, without leading zeros.
pub open spec fn digits_of(n: nat) -> Seq<char>
    decreases n,
{
    let last = (('0' as int) + (n % 10) as int) as char;
    if n < 10 {
        seq![last]
    } else {
        digits_of(n / 10).push(last)
    }
}

/// How `{}` writes an integer: a minus sign for negative values, then the
/// digits of its magnitude.
pub open spec fn decimal_text(v: int) -> Seq<char> {
    if v < 0 {
        seq!['-'] + digits_of((-v) as nat)
    } else {
        digits_of(v as nat)
    }
}

proof fn lemma_digits_of(n: nat)
    ensures
        digits_of(n).len() > 0,
        forall|i: int| 0 <= i < digits_of(n).len() ==> is_ascii_digit(#[trigger] digits_of(n)[i]),
        digits_value(digits_of(n)) == n,
        digits_of(n)[0] != '-' && digits_of(n)[0] != '+',
    decreases n,
{
    let last = (('0' as int) + (n % 10) as int) as char;
    assert(last as int == '0' as int + n % 10);
    if n >= 10 {
        lemma_digits_of(n / 10);
        assert(digits_of(n).drop_last() =~= digits_of(n / 10));
        assert((n / 10) * 10 + n % 10 == n);
        let d = digits_of(n);
        assert(d.last() == last);
        assert(digits_value(d) == digits_value(d.drop_last()) * 10 + (last as int - '0' as int));
    } else {
        assert(digits_of(n) =~= seq![last]);
        assert(digits_of(n).drop_last() =~= Seq::<char>::empty());
        assert(digits_value(digits_of(n)) == digits_value(Seq::<char>::empty()) * 10 + (last as int
            - '0' as int));
    }
}

/// Law: a field holding an `i32` written in decimal reads back as that value.
pub proof fn law_decimal_text_reads_back(v: i32)
    ensures
        decimal_i32(decimal_text(v as int)) == Some(v),
        field_value(decimal_text(v as int)) == v,
{
    let text = decimal_text(v as int);
    if v < 0 {
        let n = (-v) as nat;
        lemma_digits_of(n);
        assert(text.drop_first() =~= digits_of(n));
    } else {
        lemma_digits_of(v as nat);
    }
}

} // verus!
