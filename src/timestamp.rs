use vstd::prelude::*;

verus! {

/// A date-time with a fixed UTC offset, held as its calendar and clock fields.
#[derive(Clone, Copy, Debug, PartialEq, Eq, Structural)]
pub struct Timestamp {
    pub year: i32,
    pub month: u8,
    pub day: u8,
    pub hour: u8,
    pub minute: u8,
    pub second: u8,
    pub nanosecond: u32,
    /// Offset from UTC, in seconds east.
    pub offset_seconds: i32,
}

/// The fields of a timestamp as plain integers, in declaration order.
pub type TimestampFields = (int, int, int, int, int, int, int, int);

impl Timestamp {
    pub open spec fn fields(self) -> TimestampFields {
        (
            self.year as int,
            self.month as int,
            self.day as int,
            self.hour as int,
            self.minute as int,
            self.second as int,
            self.nanosecond as int,
            self.offset_seconds as int,
        )
    }

    /// Every field lies in the range of a real date-time written with a four-digit year.
    pub open spec fn wf(self) -> bool {
        &&& 0 <= self.year <= 9999
        &&& 1 <= self.month <= 12
        &&& 1 <= self.day <= 31
        &&& self.hour < 24
        &&& self.minute < 60
        &&& self.second < 60
        &&& self.nanosecond < 1_000_000_000
        &&& -86400 < self.offset_seconds < 86400
    }
}

/// What RFC 3339 parsing of a text yields: the fields of the date-time, or
/// nothing where the text is not an RFC 3339 date-time.
pub uninterp spec fn rfc3339_parse(s: Seq<char>) -> Option<TimestampFields>;

/// What RFC 3339 formatting of a date-time given by its fields yields, or
/// nothing where the value cannot be written in that format.
pub uninterp spec fn rfc3339_format(t: TimestampFields) -> Option<Seq<char>>;

/// Relies on `time::OffsetDateTime::parse` with the `Rfc3339` description:
/// it reads a four-digit year, and the date, time and offset it builds are
/// range-checked by the `time` crate's constructors.
#[verifier::external_body]
pub(crate) fn parse_rfc3339(s: &str) -> (r: Option<Timestamp>)
    ensures
        r is Some <==> rfc3339_parse(s@) is Some,
        r matches Some(t) ==> rfc3339_parse(s@) == Some(t.fields()) && t.wf(),
{
    match time::OffsetDateTime::parse(s, &time::format_description::well_known::Rfc3339) {
        Ok(dt) => Some(Timestamp {
            year: dt.year(),
            month: dt.month() as u8,
            day: dt.day(),
            hour: dt.hour(),
            minute: dt.minute(),
            second: dt.second(),
            nanosecond: dt.nanosecond(),
            offset_seconds: dt.offset().whole_seconds(),
        }),
        Err(_) => None,
    }
}

/// Relies on `time::OffsetDateTime::format` with the `Rfc3339` description,
/// after rebuilding the value from its fields with the `time` crate's checked
/// constructors.
#[verifier::external_body]
pub(crate) fn format_rfc3339(t: &Timestamp) -> (r: Option<String>)
    ensures
        r is Some <==> rfc3339_format(t.fields()) is Some,
        r matches Some(s) ==> rfc3339_format(t.fields()) == Some(s@),
{
    let month = time::Month::try_from(t.month).ok()?;
    let date = time::Date::from_calendar_date(t.year, month, t.day).ok()?;
    let clock = time::Time::from_hms_nano(t.hour, t.minute, t.second, t.nanosecond).ok()?;
    let offset = time::UtcOffset::from_whole_seconds(t.offset_seconds).ok()?;
    time::OffsetDateTime::new_in_offset(date, clock, offset).format(
        &time::format_description::well_known::Rfc3339,
    ).ok()
}

} // verus!
