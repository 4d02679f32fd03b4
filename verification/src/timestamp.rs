//! The creation time of a record and its textual form.

use vstd::prelude::*;

verus! {

/// A calendar date and time of day without an offset, as the store hands it
/// out.
#[derive(Clone, Copy, Debug, PartialEq, Eq)]
pub struct Timestamp {
    pub year: i32,
    pub month: u8,
    pub day: u8,
    pub hour: u8,
    pub minute: u8,
    pub second: u8,
    pub nanosecond: u32,
}

/// The text that `time::PrimitiveDateTime` displays for the given
/// components, or `None` where the `time` crate refuses them as a date and
/// time.
pub uninterp spec fn datetime_text(
    year: int,
    month: int,
    day: int,
    hour: int,
    minute: int,
    second: int,
    nanosecond: int,
) -> Option<Seq<char>>;

/// Builds a `time::PrimitiveDateTime` with `time::Month::try_from`,
/// `time::Date::from_calendar_date`, `time::Time::from_hms_nano` and
/// `time::PrimitiveDateTime::new`, and renders it with its `Display` impl.
/// Trusted: the outcome is the one that `datetime_text` names for these
/// components; nothing is claimed of the format itself.
#[verifier::external_body]
fn display_datetime(
    year: i32,
    month: u8,
    day: u8,
    hour: u8,
    minute: u8,
    second: u8,
    nanosecond: u32,
) -> (text: Option<String>)
    ensures
        text is Some == datetime_text(
            year as int,
            month as int,
            day as int,
            hour as int,
            minute as int,
            second as int,
            nanosecond as int,
        ) is Some,
        text matches Some(shown) ==> Some(shown@) == datetime_text(
            year as int,
            month as int,
            day as int,
            hour as int,
            minute as int,
            second as int,
            nanosecond as int,
        ),
{
    let month = time::Month::try_from(month).ok()?;
    let date = time::Date::from_calendar_date(year, month, day).ok()?;
    let time = time::Time::from_hms_nano(hour, minute, second, nanosecond).ok()?;
    Some(time::PrimitiveDateTime::new(date, time).to_string())
}

impl Timestamp {
    /// The text that stands for this timestamp in a response.
    pub open spec fn text(self) -> Option<Seq<char>> {
        datetime_text(
            self.year as int,
            self.month as int,
            self.day as int,
            self.hour as int,
            self.minute as int,
            self.second as int,
            self.nanosecond as int,
        )
    }

    /// Renders the timestamp as the store's own datetime text. `None` where
    /// the components are no date and time.
    pub fn to_text(&self) -> (text: Option<String>)
        ensures
            text is Some == self.text() is Some,
            text matches Some(shown) ==> Some(shown@) == self.text(),
    {
        display_datetime(
            self.year,
            self.month,
            self.day,
            self.hour,
            self.minute,
            self.second,
            self.nanosecond,
        )
    }
}

} // verus!
