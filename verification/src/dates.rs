//! Timestamps as text: the clock, and the conversions between date formats.

use vstd::prelude::*;
use chrono::DateTime;
use chrono::SecondsFormat;
use chrono::Utc;

verus! {

/// What `DateTime::parse_from_rfc2822` followed by `to_rfc3339_opts` makes of a
/// text: the RFC 3339 form, to the second, of the date it reads, or `None`
/// where the text is no RFC 2822 date.
pub uninterp spec fn rfc2822_as_rfc3339(text: Seq<char>) -> Option<Seq<char>>;

/// What `DateTime::parse_from_rfc3339` followed by `format("%m/%d/%Y")` makes
/// of a text: month, day and year of the date it reads, or `None` where the
/// text is no RFC 3339 timestamp.
pub uninterp spec fn rfc3339_as_month_day_year(text: Seq<char>) -> Option<Seq<char>>;

/// Whether a symbol is one of the digits 0 to 9.
pub open spec fn is_date_digit(symbol: char) -> bool {
    '0' <= symbol <= '9'
}

/// Whether a text has the form of a UTC timestamp with milliseconds: a year
/// of four or more symbols that ends in four digits, then month, day, hour,
/// minute and second of two digits each, three digits of milliseconds and
/// the suffix `Z`, as in `2018-01-26T18:30:09.453Z`.
pub open spec fn is_utc_millis_timestamp(text: Seq<char>) -> bool {
    let tail = text.len() - 20;
    &&& text.len() >= 24
    &&& is_date_digit(text[tail - 4]) && is_date_digit(text[tail - 3])
    &&& is_date_digit(text[tail - 2]) && is_date_digit(text[tail - 1])
    &&& text[tail] == '-' && is_date_digit(text[tail + 1]) && is_date_digit(text[tail + 2])
    &&& text[tail + 3] == '-' && is_date_digit(text[tail + 4]) && is_date_digit(text[tail + 5])
    &&& text[tail + 6] == 'T' && is_date_digit(text[tail + 7]) && is_date_digit(text[tail + 8])
    &&& text[tail + 9] == ':' && is_date_digit(text[tail + 10]) && is_date_digit(text[tail + 11])
    &&& text[tail + 12] == ':' && is_date_digit(text[tail + 13]) && is_date_digit(text[tail + 14])
    &&& text[tail + 15] == '.' && is_date_digit(text[tail + 16]) && is_date_digit(text[tail + 17])
    &&& is_date_digit(text[tail + 18])
    &&& text[tail + 19] == 'Z'
}

/// Decides whether the symbol at `at` is a digit.
fn digit_at(text: &str, at: usize) -> (r: bool)
    requires
        at < text@.len(),
    ensures
        r == is_date_digit(text@[at as int]),
{
    let symbol = text.get_char(at);
    '0' <= symbol && symbol <= '9'
}

/// Decides whether the symbol at `at` is `mark`.
fn mark_at(text: &str, at: usize, mark: char) -> (r: bool)
    requires
        at < text@.len(),
    ensures
        r == (text@[at as int] == mark),
{
    text.get_char(at) == mark
}

/// Decides whether a text has the form of a UTC timestamp with milliseconds.
pub fn has_timestamp_form(text: &str) -> (r: bool)
    ensures
        r == is_utc_millis_timestamp(text@),
{
    let length = text.unicode_len();
    if length < 24 {
        return false;
    }
    let tail = length - 20;
    digit_at(text, tail - 4) && digit_at(text, tail - 3) && digit_at(text, tail - 2) && digit_at(
        text,
        tail - 1,
    ) && mark_at(text, tail, '-') && digit_at(text, tail + 1) && digit_at(text, tail + 2)
        && mark_at(text, tail + 3, '-') && digit_at(text, tail + 4) && digit_at(text, tail + 5)
        && mark_at(text, tail + 6, 'T') && digit_at(text, tail + 7) && digit_at(text, tail + 8)
        && mark_at(text, tail + 9, ':') && digit_at(text, tail + 10) && digit_at(text, tail + 11)
        && mark_at(text, tail + 12, ':') && digit_at(text, tail + 13) && digit_at(text, tail + 14)
        && mark_at(text, tail + 15, '.') && digit_at(text, tail + 16) && digit_at(text, tail + 17)
        && digit_at(text, tail + 18) && mark_at(text, tail + 19, 'Z')
}

/// A time in UTC, held as RFC 3339 text with milliseconds. Every value has
/// that form: there is no other way to make one.
#[derive(Debug)]
pub struct Timestamp {
    text: String,
}

impl View for Timestamp {
    type V = Seq<char>;

    closed spec fn view(&self) -> Seq<char> {
        self.text@
    }
}

impl Clone for Timestamp {
    fn clone(&self) -> (copy: Self)
        ensures
            copy@ == self@,
    {
        proof {
            use_type_invariant(self);
        }
        Timestamp { text: self.text.clone() }
    }
}

impl Timestamp {
    #[verifier::type_invariant]
    spec fn well_formed(self) -> bool {
        is_utc_millis_timestamp(self.text@)
    }

    /// Takes a text as a timestamp, if it has the form of one.
    pub fn from_text(text: String) -> (r: Option<Timestamp>)
        ensures
            r is Some <==> is_utc_millis_timestamp(text@),
            r matches Some(timestamp) ==> timestamp@ == text@,
    {
        if has_timestamp_form(text.as_str()) {
            Some(Timestamp { text })
        } else {
            None
        }
    }

    /// The timestamp's text.
    pub fn as_str(&self) -> (text: &str)
        ensures
            text@ == self@,
            is_utc_millis_timestamp(text@),
    {
        proof {
            use_type_invariant(self);
        }
        self.text.as_str()
    }
}

/// Reads the clock with `Utc::now` and writes it with `to_rfc3339_opts`
/// (milliseconds, `Z` suffix). Which time it is changes from call to call;
/// what is claimed is the form that `to_rfc3339_opts` writes every instant of
/// UTC in. `Utc::now` panics where the system clock reads before 1970.
#[verifier::external_body]
pub(crate) fn utc_now_rfc3339_millis() -> (text: String)
    ensures
        is_utc_millis_timestamp(text@),
{
    Utc::now().to_rfc3339_opts(SecondsFormat::Millis, true)
}

/// `DateTime::parse_from_rfc2822`, and on success `to_rfc3339_opts` (seconds,
/// `Z` suffix). Both depend on the text alone, so the result is named. Two
/// facts stand beside the name. The parser asks for a day of the month
/// first, so the empty text is no date. And what `to_rfc3339_opts` writes
/// holds year, month, day, hour, minute, second and zone: twenty symbols at
/// the least.
#[verifier::external_body]
pub(crate) fn rfc2822_to_rfc3339(text: &str) -> (converted: Option<String>)
    ensures
        converted is Some == rfc2822_as_rfc3339(text@) is Some,
        converted matches Some(t) ==> rfc2822_as_rfc3339(text@) == Some(t@),
        converted matches Some(t) ==> t@.len() >= 20,
        text@.len() == 0 ==> converted is None,
{
    match DateTime::parse_from_rfc2822(text) {
        Ok(date) => Some(date.to_rfc3339_opts(SecondsFormat::Secs, true)),
        Err(_) => None,
    }
}

/// `DateTime::parse_from_rfc3339`, and on success `format("%m/%d/%Y")` written
/// to a string. Both depend on the text alone, so the result is named.
#[verifier::external_body]
pub(crate) fn rfc3339_to_month_day_year(text: &str) -> (converted: Option<String>)
    ensures
        converted is Some == rfc3339_as_month_day_year(text@) is Some,
        converted matches Some(t) ==> rfc3339_as_month_day_year(text@) == Some(t@),
{
    match DateTime::parse_from_rfc3339(text) {
        Ok(date) => Some(date.format("%m/%d/%Y").to_string()),
        Err(_) => None,
    }
}

/// The text that stands where no time has been recorded yet.
pub const NEVER: &'static str = "-1";

/// The converted text where there is one, else the text as it was given.
pub open spec fn converted_or(converted: Option<Seq<char>>, given: Seq<char>) -> Seq<char> {
    match converted {
        Some(text) => text,
        None => given,
    }
}

/// How a stored timestamp is shown: as month, day and year where it is an
/// RFC 3339 timestamp, else as it stands.
pub open spec fn human_date(timestamp: Seq<char>) -> Seq<char> {
    converted_or(rfc3339_as_month_day_year(timestamp), timestamp)
}

/// How a publication date is stored: in RFC 3339 form where it is an RFC 2822
/// date, else as it stands.
pub open spec fn stored_date(published: Seq<char>) -> Seq<char> {
    converted_or(rfc2822_as_rfc3339(published), published)
}

/// Keeps a date that could not be converted: gives the converted text where
/// there is one, and otherwise the text that was given, unchanged.
pub fn converted_or_given(converted: Option<String>, given: String) -> (text: String)
    ensures
        text@ == converted_or(
            match converted {
                Some(c) => Some(c@),
                None => None,
            },
            given@,
        ),
{
    match converted {
        Some(text) => text,
        None => given,
    }
}

/// Turns an RFC 3339 timestamp into month, day and year; any other text is
/// returned unchanged.
pub fn rfc3339_timestamp_to_human(timestamp: String) -> (shown: String)
    ensures
        shown@ == human_date(timestamp@),
{
    let converted = rfc3339_to_month_day_year(timestamp.as_str());
    converted_or_given(converted, timestamp)
}

/// Brings a publication date into RFC 3339 form where it is an RFC 2822 date;
/// any other text is returned unchanged. So what is stored is empty exactly
/// where no date was given.
pub fn normalize_published(published: String) -> (stored: String)
    ensures
        stored@ == stored_date(published@),
        stored@.len() == 0 <==> published@.len() == 0,
{
    let converted = rfc2822_to_rfc3339(published.as_str());
    converted_or_given(converted, published)
}

} // verus!
