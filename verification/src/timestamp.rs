//! The local wall-clock time at which a note is created or renamed.

use crate::text::{is_ascii_digit, lemma_zero_padded_shape, zero_padded};
use vstd::prelude::*;
use vstd::string::*;

verus! {

/// The calendar fields of a timestamp.
pub struct TimestampFields {
    pub year: int,
    pub month: int,
    pub day: int,
    pub hour: int,
    pub minute: int,
    /// The second of the minute, 0 to 59.
    pub second: int,
    /// The millisecond of the second, 0 to 999; in a leap second, which
    /// follows second 59, the milliseconds run on from 1000 to 1999.
    pub millisecond: int,
}

/// Whether `year` has a 29th of February in the Gregorian calendar.
pub open spec fn is_leap_year(year: int) -> bool {
    year % 4 == 0 && (year % 100 != 0 || year % 400 == 0)
}

/// The number of days of `month` (1 to 12) in `year`.
pub open spec fn days_in_month(year: int, month: int) -> int {
    if month == 2 {
        if is_leap_year(year) {
            29
        } else {
            28
        }
    } else if month == 4 || month == 6 || month == 9 || month == 11 {
        30
    } else {
        31
    }
}

/// Whether the fields name a moment of the Gregorian calendar in the years
/// 0 to 9999, which are the years that four digits can write. A leap second
/// can follow second 59 of any minute.
pub open spec fn is_valid(fields: TimestampFields) -> bool {
    &&& 0 <= fields.year <= 9999
    &&& 1 <= fields.month <= 12
    &&& 1 <= fields.day <= days_in_month(fields.year, fields.month)
    &&& 0 <= fields.hour < 24
    &&& 0 <= fields.minute < 60
    &&& 0 <= fields.second < 60
    &&& 0 <= fields.millisecond < 2000
    &&& fields.millisecond >= 1000 ==> fields.second == 59
}

/// The second as it is written: 0 to 59, and 60 in a leap second.
pub open spec fn written_second(fields: TimestampFields) -> int {
    fields.second + fields.millisecond / 1000
}

/// The millisecond as it is written: 0 to 999, in a leap second too.
pub open spec fn written_millisecond(fields: TimestampFields) -> int {
    fields.millisecond % 1000
}

/// Year, month and day as `YYYY/MM/DD`.
pub open spec fn date_path(fields: TimestampFields) -> Seq<char> {
    zero_padded(fields.year as nat, 4) + seq!['/'] + zero_padded(fields.month as nat, 2) + seq![
        '/',
    ] + zero_padded(fields.day as nat, 2)
}

/// All fields in a row as seventeen digits: `YYYYMMDDhhmmss` and three digits
/// of milliseconds.
pub open spec fn compact_digits(fields: TimestampFields) -> Seq<char> {
    zero_padded(fields.year as nat, 4) + zero_padded(fields.month as nat, 2) + zero_padded(
        fields.day as nat,
        2,
    ) + zero_padded(fields.hour as nat, 2) + zero_padded(fields.minute as nat, 2) + zero_padded(
        written_second(fields) as nat,
        2,
    ) + zero_padded(written_millisecond(fields) as nat, 3)
}

/// The compact form is seventeen ASCII digits, whatever the fields.
pub proof fn lemma_compact_digits_shape(fields: TimestampFields)
    ensures
        compact_digits(fields).len() == 17,
        forall|i: int| 0 <= i < 17 ==> is_ascii_digit(#[trigger] compact_digits(fields)[i]),
{
    lemma_zero_padded_shape(fields.year as nat, 4);
    lemma_zero_padded_shape(fields.month as nat, 2);
    lemma_zero_padded_shape(fields.day as nat, 2);
    lemma_zero_padded_shape(fields.hour as nat, 2);
    lemma_zero_padded_shape(fields.minute as nat, 2);
    lemma_zero_padded_shape(written_second(fields) as nat, 2);
    lemma_zero_padded_shape(written_millisecond(fields) as nat, 3);
}

/// A local date and time of day with millisecond precision. Every value names
/// a moment that exists: see [`is_valid`].
#[derive(Debug, Clone, Copy, PartialEq, Eq)]
pub struct LocalTimestamp {
    year: i32,
    month: u32,
    day: u32,
    hour: u32,
    minute: u32,
    second: u32,
    millisecond: u32,
}

impl View for LocalTimestamp {
    type V = TimestampFields;

    closed spec fn view(&self) -> TimestampFields {
        TimestampFields {
            year: self.year as int,
            month: self.month as int,
            day: self.day as int,
            hour: self.hour as int,
            minute: self.minute as int,
            second: self.second as int,
            millisecond: self.millisecond as int,
        }
    }
}

/// The pattern for [`compact_digits`].
pub const COMPACT_PATTERN: &'static str = "%Y%m%d%H%M%S%3f";

/// The pattern for [`date_path`].
pub const DATE_PATH_PATTERN: &'static str = "%Y/%m/%d";

fn month_length(year: i32, month: u32) -> (days: u32)
    requires
        0 <= year <= 9999,
        1 <= month <= 12,
    ensures
        days == days_in_month(year as int, month as int),
{
    if month == 2 {
        if year % 4 == 0 && (year % 100 != 0 || year % 400 == 0) {
            29
        } else {
            28
        }
    } else if month == 4 || month == 6 || month == 9 || month == 11 {
        30
    } else {
        31
    }
}

impl LocalTimestamp {
    #[verifier::type_invariant]
    spec fn exists_in_calendar(self) -> bool {
        is_valid(self@)
    }

    /// The timestamp with the given fields, if they name a moment that exists.
    pub fn new(
        year: i32,
        month: u32,
        day: u32,
        hour: u32,
        minute: u32,
        second: u32,
        millisecond: u32,
    ) -> (made: Option<LocalTimestamp>)
        ensures
            made is Some <==> is_valid(
                TimestampFields {
                    year: year as int,
                    month: month as int,
                    day: day as int,
                    hour: hour as int,
                    minute: minute as int,
                    second: second as int,
                    millisecond: millisecond as int,
                },
            ),
            made matches Some(t) ==> t@ == (TimestampFields {
                year: year as int,
                month: month as int,
                day: day as int,
                hour: hour as int,
                minute: minute as int,
                second: second as int,
                millisecond: millisecond as int,
            }),
    {
        if year < 0 || year > 9999 || month < 1 || month > 12 || day < 1 {
            return None;
        }
        if day > month_length(year, month) {
            return None;
        }
        if hour >= 24 || minute >= 60 || second >= 60 || millisecond >= 2000 {
            return None;
        }
        if millisecond >= 1000 && second != 59 {
            return None;
        }
        Some(LocalTimestamp { year, month, day, hour, minute, second, millisecond })
    }

    /// `chrono::NaiveDateTime::format`, on the date and time that
    /// `chrono::NaiveDate::from_ymd_opt` and `and_hms_milli_opt` make of the
    /// fields. For fields that name an existing moment in the years 0 to 9999
    /// chrono makes that date and time, and writes `%Y` as four digits, `%m`,
    /// `%d`, `%H`, `%M` and `%S` as two digits each and `%3f` as the three
    /// digits of the milliseconds, all padded with zeros; `/` stands for
    /// itself. Milliseconds from 1000 on, which chrono takes after second 59
    /// only, stand for a leap second: chrono then writes the second as 60 and
    /// the milliseconds without their thousand.
    #[verifier::external_body]
    fn format(&self, pattern: &str) -> (text: Option<String>)
        requires
            pattern@ == COMPACT_PATTERN@ || pattern@ == DATE_PATH_PATTERN@,
        ensures
            is_valid(self@) && pattern@ == COMPACT_PATTERN@ ==> text is Some && text->0@
                == compact_digits(self@),
            is_valid(self@) && pattern@ == DATE_PATH_PATTERN@ ==> text is Some && text->0@
                == date_path(self@),
    {
        let date = chrono::NaiveDate::from_ymd_opt(self.year, self.month, self.day)?;
        let stamp = date.and_hms_milli_opt(self.hour, self.minute, self.second, self.millisecond)?;
        Some(stamp.format(pattern).to_string())
    }

    /// The seventeen digits of this timestamp: see [`compact_digits`].
    pub fn to_compact_digits(&self) -> (text: String)
        ensures
            text@ == compact_digits(self@),
    {
        proof {
            use_type_invariant(self);
        }
        match self.format(COMPACT_PATTERN) {
            Some(text) => text,
            None => String::new(),
        }
    }

    /// The date of this timestamp as `YYYY/MM/DD`: see [`date_path`].
    pub fn to_date_path(&self) -> (text: String)
        ensures
            text@ == date_path(self@),
    {
        proof {
            use_type_invariant(self);
        }
        match self.format(DATE_PATH_PATTERN) {
            Some(text) => text,
            None => String::new(),
        }
    }
}

} // verus!
