//! Identifiers and moments in time, held as plain numbers, with the text that
//! each is written as on the wire.

use vstd::prelude::*;
use crate::json::{Json, JsonValue, ToJson};

verus! {

/// The lower-case hexadecimal digit of a number below sixteen.
pub open spec fn hex_digit(n: int) -> char {
    seq!['0', '1', '2', '3', '4', '5', '6', '7', '8', '9', 'a', 'b', 'c', 'd', 'e', 'f'][n]
}

/// The `k`-th group of four bits of a 128-bit number, counted from the most
/// significant group, which is number 0.
pub open spec fn nibble(bits: u128, k: int) -> int {
    (bits as int / vstd::arithmetic::power::pow(16, (31 - k) as nat)) % 16
}

/// The 36 characters of the hyphenated form of an identifier: its 32
/// hexadecimal digits, most significant first, in groups of 8, 4, 4, 4 and 12
/// that hyphens separate.
pub open spec fn hyphenated(bits: u128) -> Seq<char> {
    Seq::new(
        36,
        |i: int|
            if i == 8 || i == 13 || i == 18 || i == 23 {
                '-'
            } else if i < 8 {
                hex_digit(nibble(bits, i))
            } else if i < 13 {
                hex_digit(nibble(bits, i - 1))
            } else if i < 18 {
                hex_digit(nibble(bits, i - 2))
            } else if i < 23 {
                hex_digit(nibble(bits, i - 3))
            } else {
                hex_digit(nibble(bits, i - 4))
            },
    )
}

/// `uuid::Uuid::from_u128` and the `Display` of the value it gives. Claimed of
/// them: the text is the hyphenated lower-case form, in which the most
/// significant byte of the number comes first.
#[verifier::external_body]
fn uuid_to_string(bits: u128) -> (s: String)
    ensures
        s@ == hyphenated(bits),
{
    uuid::Uuid::from_u128(bits).to_string()
}

/// A universally unique identifier, as the 128-bit number it stands for.
#[derive(Clone, Copy, Debug, PartialEq, Eq, Hash, Default)]
pub struct Uuid {
    pub bits: u128,
}

impl Uuid {
    /// The identifier that stands for the given number.
    pub fn from_u128(bits: u128) -> (id: Uuid)
        ensures
            id.bits == bits,
    {
        Uuid { bits }
    }

    /// The number that the identifier stands for.
    pub fn as_u128(&self) -> (bits: u128)
        ensures
            bits == self.bits,
    {
        self.bits
    }

    /// The hyphenated form, as it stands in a URL and in a JSON document.
    pub fn to_string(&self) -> (s: String)
        ensures
            s@ == hyphenated(self.bits),
    {
        uuid_to_string(self.bits)
    }
}

impl ToJson for Uuid {
    open spec fn json(&self) -> JsonValue {
        JsonValue::Str(hyphenated(self.bits))
    }

    fn to_json(&self) -> (j: Json) {
        Json::Str(self.to_string())
    }
}

/// What `chrono::NaiveDateTime::parse_from_str` makes of a text under a format:
/// the seconds since 1970-01-01 00:00:00 and the nanoseconds within the second
/// of the moment it reads, or the message of its refusal.
pub uninterp spec fn parsed_datetime(text: Seq<char>, format: Seq<char>) -> Result<
    (i64, u32),
    Seq<char>,
>;

/// What the `Debug` of a `chrono::NaiveDateTime` prints for the moment that
/// `chrono::DateTime::from_timestamp` makes of seconds and nanoseconds; none
/// where it makes no moment of them.
pub uninterp spec fn datetime_text(seconds: i64, nanos: u32) -> Option<Seq<char>>;

/// The characters of the text on either side of a result.
pub open spec fn result_text<T>(r: Result<T, String>) -> Result<T, Seq<char>> {
    match r {
        Ok(v) => Ok(v),
        Err(e) => Err(e@),
    }
}

/// The characters of an optional text.
pub open spec fn option_text(r: Option<String>) -> Option<Seq<char>> {
    match r {
        Some(s) => Some(s@),
        None => None,
    }
}

/// `chrono::NaiveDateTime::parse_from_str`, its result read off through
/// `and_utc`, `timestamp` and `timestamp_subsec_nanos`, its error through
/// `Display`. Claimed of it: the result depends on the text and the format
/// alone.
#[verifier::external_body]
fn parse_datetime(text: &str, format: &str) -> (r: Result<(i64, u32), String>)
    ensures
        result_text(r) == parsed_datetime(text@, format@),
{
    match chrono::NaiveDateTime::parse_from_str(text, format) {
        Ok(t) => Ok((t.and_utc().timestamp(), t.and_utc().timestamp_subsec_nanos())),
        Err(e) => Err(e.to_string()),
    }
}

/// `chrono::DateTime::from_timestamp` and the `Debug` of what `naive_utc`
/// gives for its result. Claimed of them: the result depends on the two
/// numbers alone.
#[verifier::external_body]
fn format_datetime(seconds: i64, nanos: u32) -> (r: Option<String>)
    ensures
        option_text(r) == datetime_text(seconds, nanos),
{
    match chrono::DateTime::from_timestamp(seconds, nanos) {
        Some(t) => Some(format!("{:?}", t.naive_utc())),
        None => None,
    }
}

/// The format in which the service writes moments.
pub const DATE_FORMAT: &'static str = "%Y-%m-%d %H:%M:%S%.3f";

/// A moment of the calendar without a time zone: the seconds since
/// 1970-01-01 00:00:00 and the nanoseconds within the second.
#[derive(Clone, Copy, Debug, PartialEq, Eq, Default)]
pub struct Moment {
    pub seconds: i64,
    pub nanos: u32,
}

impl Moment {
    /// The moment that a parsed pair of numbers stands for; a refusal is
    /// handed on.
    pub fn from_parsed(parsed: Result<(i64, u32), String>) -> (r: Result<Moment, String>)
        ensures
            match parsed {
                Ok((seconds, nanos)) => r == Ok::<Moment, String>(Moment { seconds, nanos }),
                Err(e) => r == Err::<Moment, String>(e),
            },
    {
        match parsed {
            Ok((seconds, nanos)) => Ok(Moment { seconds, nanos }),
            Err(e) => Err(e),
        }
    }

    /// Reads a moment written in `DATE_FORMAT`.
    pub fn parse(text: &str) -> (r: Result<Moment, String>)
        ensures
            match parsed_datetime(text@, DATE_FORMAT@) {
                Ok((seconds, nanos)) => r == Ok::<Moment, String>(Moment { seconds, nanos }),
                Err(e) => r is Err && r->Err_0@ == e,
            },
    {
        Moment::from_parsed(parse_datetime(text, DATE_FORMAT))
    }

    /// The ISO 8601 text of the moment; none for numbers that no calendar
    /// moment has.
    pub fn to_text(&self) -> (r: Option<String>)
        ensures
            option_text(r) == datetime_text(self.seconds, self.nanos),
    {
        format_datetime(self.seconds, self.nanos)
    }
}

/// The document of a text that may be missing: the text, or `null`.
pub open spec fn text_or_null(text: Option<Seq<char>>) -> JsonValue {
    match text {
        Some(text) => JsonValue::Str(text),
        None => JsonValue::Null,
    }
}

/// The document of a text that may be missing: the text, or `null`.
pub fn text_document(text: Option<String>) -> (j: Json)
    ensures
        j@ == text_or_null(option_text(text)),
{
    match text {
        Some(text) => Json::Str(text),
        None => Json::Null,
    }
}

/// A moment is written as its ISO 8601 text, and as `null` where it has none.
impl ToJson for Moment {
    open spec fn json(&self) -> JsonValue {
        text_or_null(datetime_text(self.seconds, self.nanos))
    }

    fn to_json(&self) -> (j: Json) {
        text_document(self.to_text())
    }
}

} // verus!
