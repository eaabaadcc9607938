use vstd::prelude::*;

verus! {

/// A JSON value of `serde_json`, carried through unread.
#[verifier::external_type_specification]
#[verifier::external_body]
pub struct ExJsonValue(serde_json::Value);

/// What `time::OffsetDateTime::parse` with `Iso8601::DEFAULT` gives for a
/// text, its error dropped: the timestamp it reads, or none.
pub uninterp spec fn iso8601_reading(s: Seq<char>) -> Option<time::OffsetDateTime>;

/// What `time::OffsetDateTime::parse` with `Rfc2822` gives for a text, its
/// error dropped: the timestamp it reads, or none.
pub uninterp spec fn rfc2822_reading(s: Seq<char>) -> Option<time::OffsetDateTime>;

/// Whether `time` reads a text as an ISO 8601 timestamp with an offset.
pub open spec fn parses_as_iso8601(s: Seq<char>) -> bool {
    iso8601_reading(s) is Some
}

/// Whether `time` reads a text as an RFC 2822 timestamp.
pub open spec fn parses_as_rfc2822(s: Seq<char>) -> bool {
    rfc2822_reading(s) is Some
}

/// A timestamp of `time`, carried through unread.
#[verifier::external_type_specification]
#[verifier::external_body]
pub struct ExOffsetDateTime(time::OffsetDateTime);

/// `time::OffsetDateTime::parse` with `Iso8601::DEFAULT`, its error
/// dropped. The result is the name `iso8601_reading` of the text: the
/// grammar `time` accepts and the instant it reads are left to the name.
#[verifier::external_body]
pub(crate) fn parse_iso8601_text(s: &str) -> (r: Option<time::OffsetDateTime>)
    ensures
        r == iso8601_reading(s@),
{
    time::OffsetDateTime::parse(s, &time::format_description::well_known::Iso8601::DEFAULT).ok()
}

/// `time::OffsetDateTime::parse` with `Rfc2822`, its error dropped. The
/// result is the name `rfc2822_reading` of the text: the grammar `time`
/// accepts and the instant it reads are left to the name.
#[verifier::external_body]
pub(crate) fn parse_rfc2822_text(s: &str) -> (r: Option<time::OffsetDateTime>)
    ensures
        r == rfc2822_reading(s@),
{
    time::OffsetDateTime::parse(s, &time::format_description::well_known::Rfc2822).ok()
}

/// A decimal number of `rust_decimal`, carried through unread.
#[verifier::external_type_specification]
#[verifier::external_body]
pub struct ExDecimal(rust_decimal::Decimal);

/// The error `rust_decimal` reports for a text it cannot read.
#[verifier::external_type_specification]
#[verifier::external_body]
pub struct ExDecimalError(rust_decimal::Error);

/// What `rust_decimal::Decimal::from_str` gives for a text: the decimal it
/// reads, or the error it reports.
pub uninterp spec fn decimal_reading(s: Seq<char>) -> Result<rust_decimal::Decimal, rust_decimal::Error>;

/// Whether `rust_decimal` reads a text as a decimal number.
pub open spec fn parses_as_decimal(s: Seq<char>) -> bool {
    decimal_reading(s) is Ok
}

/// `rust_decimal::Decimal::from_str`. The result is the name
/// `decimal_reading` of the text: the grammar `rust_decimal` accepts and the
/// number it reads are left to the name.
#[verifier::external_body]
pub(crate) fn parse_decimal(s: &str) -> (r: Result<rust_decimal::Decimal, rust_decimal::Error>)
    ensures
        r == decimal_reading(s@),
{
    <rust_decimal::Decimal as std::str::FromStr>::from_str(s)
}

/// Whether a year is a leap year of the proleptic Gregorian calendar.
pub open spec fn is_leap_year(year: int) -> bool {
    year % 4 == 0 && (year % 100 != 0 || year % 400 == 0)
}

/// Days in a month of a year, for `1 <= month <= 12`.
pub open spec fn days_in_month(year: int, month: int) -> int {
    if month == 2 {
        if is_leap_year(year) {
            29
        } else {
            28
        }
    } else if month == 4 || month == 6 || month == 9 || month == 11 {
        30
    } else {
        31
    }
}

/// A calendar date that `time::Date` can hold: years `-9999..=9999`.
pub open spec fn is_calendar_date(year: int, month: int, day: int) -> bool {
    &&& -9999 <= year <= 9999
    &&& 1 <= month <= 12
    &&& 1 <= day <= days_in_month(year, month)
}

/// `time::Month::try_from` then `time::Date::from_calendar_date`: whether
/// the year, month number and day make a date. The month number converts
/// the argument; the date is the call. The contract states `time`'s rules:
/// months `1..=12`, years `-9999..=9999`, and the days of each month with
/// Gregorian leap years.
#[verifier::external_body]
pub(crate) fn calendar_date_exists(year: i32, month: u8, day: u8) -> (b: bool)
    ensures
        b == is_calendar_date(year as int, month as int, day as int),
{
    match time::Month::try_from(month) {
        Ok(m) => time::Date::from_calendar_date(year, m, day).is_ok(),
        Err(_) => false,
    }
}

/// Whether a byte passes through the form serializer unchanged.
pub open spec fn form_unreserved(b: u8) -> bool {
    b == 0x2a || b == 0x2d || b == 0x2e || (0x30 <= b <= 0x39) || (0x41 <= b <= 0x5a) || b == 0x5f
        || (0x61 <= b <= 0x7a)
}

/// An upper-case hexadecimal digit.
pub open spec fn hex_upper(d: u8) -> char {
    if d < 10 {
        (48 + d) as char
    } else {
        (55 + d) as char
    }
}

/// The `application/x-www-form-urlencoded` serialization of bytes: bytes
/// in `*-._0-9A-Za-z` are kept, a space becomes `+`, and every other
/// byte becomes `%` and two upper-case hexadecimal digits.
pub open spec fn form_encode_bytes(bs: Seq<u8>) -> Seq<char>
    decreases bs.len(),
{
    if bs.len() == 0 {
        seq![]
    } else {
        let b = bs[0];
        let head = if form_unreserved(b) {
            seq![b as char]
        } else if b == 0x20 {
            seq!['+']
        } else {
            seq!['%', hex_upper(b / 16), hex_upper(b % 16)]
        };
        head + form_encode_bytes(bs.drop_first())
    }
}

/// The `application/x-www-form-urlencoded` serialization of a text's UTF-8 bytes.
pub open spec fn form_encoded(s: Seq<char>) -> Seq<char> {
    form_encode_bytes(vstd::utf8::encode_utf8(s))
}

/// `url::form_urlencoded::byte_serialize` over the UTF-8 bytes of a text,
/// collected into a `String`. The contract states the serializer's rule.
#[verifier::external_body]
pub(crate) fn form_urlencode(s: &str) -> (r: String)
    ensures
        r@ == form_encoded(s@),
{
    url::form_urlencoded::byte_serialize(s.as_bytes()).collect()
}

/// A lower-case hexadecimal digit.
pub open spec fn hex_lower(d: u32) -> char {
    if d < 10 {
        (48 + d) as char
    } else {
        (87 + d) as char
    }
}

/// How `serde_json` writes one character inside a JSON string.
pub open spec fn json_escape_char(c: char) -> Seq<char> {
    if c == '"' {
        seq!['\\', '"']
    } else if c == '\\' {
        seq!['\\', '\\']
    } else if c == '\u{8}' {
        seq!['\\', 'b']
    } else if c == '\t' {
        seq!['\\', 't']
    } else if c == '\n' {
        seq!['\\', 'n']
    } else if c == '\u{c}' {
        seq!['\\', 'f']
    } else if c == '\r' {
        seq!['\\', 'r']
    } else if (c as u32) < 0x20 {
        seq!['\\', 'u', '0', '0', hex_lower((c as u32) / 16), hex_lower((c as u32) % 16)]
    } else {
        seq![c]
    }
}

/// The characters of a JSON string body, escaped as `serde_json` escapes them.
pub open spec fn json_escape(s: Seq<char>) -> Seq<char>
    decreases s.len(),
{
    if s.len() == 0 {
        seq![]
    } else {
        json_escape_char(s[0]) + json_escape(s.drop_first())
    }
}

/// A text written as a JSON string literal.
pub open spec fn json_string_literal(s: Seq<char>) -> Seq<char> {
    seq!['"'] + json_escape(s) + seq!['"']
}

/// `serde_json::to_string` of a `&str`. Writing a string to memory does not
/// fail; the contract states how `serde_json` quotes and escapes it.
#[verifier::external_body]
pub(crate) fn json_string(s: &str) -> (r: String)
    ensures
        r@ == json_string_literal(s@),
{
    match serde_json::to_string(s) {
        Ok(text) => text,
        Err(_) => String::new(),
    }
}

/// What `<str as Debug>::fmt` writes for a text: the text in double quotes,
/// with the characters std's `Debug` escapes written as escapes.
pub uninterp spec fn str_debug_text(s: Seq<char>) -> Seq<char>;

/// `<str as Debug>::fmt`, written to a `String`. The result is the name
/// `str_debug_text` of the text: the escaping rules are left to the name.
#[verifier::external_body]
pub(crate) fn str_debug(s: &str) -> (r: String)
    ensures
        r@ == str_debug_text(s@),
{
    format!("{:?}", s)
}

/// What `<time::OffsetDateTime as Debug>::fmt` writes for a timestamp.
pub uninterp spec fn timestamp_debug_text(t: time::OffsetDateTime) -> Seq<char>;

/// `<time::OffsetDateTime as Debug>::fmt`, written to a `String`. The result
/// is the name `timestamp_debug_text` of the timestamp: the layout `time`
/// writes is left to the name.
#[verifier::external_body]
pub(crate) fn timestamp_debug(t: &time::OffsetDateTime) -> (r: String)
    ensures
        r@ == timestamp_debug_text(*t),
{
    format!("{:?}", t)
}

} // verus!
