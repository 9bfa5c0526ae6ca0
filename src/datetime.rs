use vstd::prelude::*;
use time::format_description::well_known::Iso8601;
use time::{OffsetDateTime, UtcOffset};

verus! {

/// An instant with the UTC offset it is written in: nanoseconds since the Unix
/// epoch, and the offset in seconds east of UTC.
#[derive(Debug, Clone, Copy)]
pub struct DateTime {
    pub unix_nanos: i128,
    pub offset_seconds: i32,
}

/// What time's ISO 8601 parser reads from a text: the instant in nanoseconds
/// since the epoch and the offset in seconds, or nothing.
pub uninterp spec fn iso_parse(s: Seq<char>) -> Option<(i128, i32)>;

/// The ISO 8601 text that time writes for an instant at an offset, where it
/// can write one.
pub uninterp spec fn iso_text(unix_nanos: i128, offset_seconds: i32) -> Option<Seq<char>>;

/// Relies on time's `OffsetDateTime::parse` with the default ISO 8601
/// configuration, read back as the instant's nanoseconds and the offset.
#[verifier::external_body]
fn parse_iso(s: &str) -> (r: Option<(i128, i32)>)
    ensures
        r == iso_parse(s@),
{
    OffsetDateTime::parse(s, &Iso8601::DEFAULT)
        .ok()
        .map(|d| (d.unix_timestamp_nanos(), d.offset().whole_seconds()))
}

/// Relies on time's `OffsetDateTime::format` with the default ISO 8601
/// configuration. That format writes all nine fractional digits of the second
/// and the offset to the minute, and fails rather than drop an offset's
/// seconds, so time's parser reads each text it writes back to the same
/// instant and offset.
#[verifier::external_body]
fn format_iso(unix_nanos: i128, offset_seconds: i32) -> (r: Option<String>)
    ensures
        r matches Some(t) ==> iso_text(unix_nanos, offset_seconds) == Some(t@),
        r is None ==> iso_text(unix_nanos, offset_seconds) is None,
        r matches Some(t) ==> iso_parse(t@) == Some((unix_nanos, offset_seconds)),
{
    let offset = UtcOffset::from_whole_seconds(offset_seconds).ok()?;
    let at = OffsetDateTime::from_unix_timestamp_nanos(unix_nanos).ok()?;
    at.checked_to_offset(offset)?.format(&Iso8601::DEFAULT).ok()
}

/// Relies on time's `OffsetDateTime::now_utc`: the current instant, in UTC.
#[verifier::external_body]
fn now_utc_nanos() -> (r: i128) {
    OffsetDateTime::now_utc().unix_timestamp_nanos()
}

/// The text of an instant, where it has one.
pub open spec fn format_spec(t: DateTime) -> Option<Seq<char>> {
    iso_text(t.unix_nanos, t.offset_seconds)
}

/// The instant a text gives, where it gives one.
pub open spec fn parse_spec(s: Seq<char>) -> Option<DateTime> {
    match iso_parse(s) {
        Some(p) => Some(DateTime { unix_nanos: p.0, offset_seconds: p.1 }),
        None => None,
    }
}

impl DateTime {
    /// The current instant, in UTC.
    pub fn now() -> (r: DateTime)
        ensures
            r.offset_seconds == 0,
    {
        DateTime { unix_nanos: now_utc_nanos(), offset_seconds: 0 }
    }

    /// Reads an ISO 8601 text.
    pub fn from_str(s: &str) -> (r: Option<DateTime>)
        ensures
            r == parse_spec(s@),
    {
        match parse_iso(s) {
            Some(p) => Some(DateTime { unix_nanos: p.0, offset_seconds: p.1 }),
            None => None,
        }
    }

    /// Writes this instant as ISO 8601 text at its own offset; `None` where
    /// the format cannot hold it (a year past four digits, an offset with
    /// seconds). Every text written reads back to this very value, offset
    /// included.
    pub fn to_iso_string(&self) -> (r: Option<String>)
        ensures
            r matches Some(t) ==> format_spec(*self) == Some(t@),
            r is None ==> format_spec(*self) is None,
            r matches Some(t) ==> parse_spec(t@) == Some(*self),
    {
        format_iso(self.unix_nanos, self.offset_seconds)
    }
}

/// Two values are the same instant, whatever offsets they are written in.
pub open spec fn same_instant(a: DateTime, b: DateTime) -> bool {
    a.unix_nanos == b.unix_nanos
}

impl PartialEq for DateTime {
    fn eq(&self, o: &DateTime) -> (r: bool)
        ensures
            r == same_instant(*self, *o),
    {
        self.unix_nanos == o.unix_nanos
    }
}

impl Eq for DateTime {
}

impl vstd::std_specs::cmp::PartialEqSpecImpl for DateTime {
    open spec fn obeys_eq_spec() -> bool {
        true
    }

    open spec fn eq_spec(&self, o: &DateTime) -> bool {
        same_instant(*self, *o)
    }
}

} // verus!
