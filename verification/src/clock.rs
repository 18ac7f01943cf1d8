//! The clock worker's decisions: which calendar time an instant stands for
//! at a fixed offset from UTC, and what is drawn for it.

use chrono::{DateTime, Datelike, FixedOffset, NaiveDate, Timelike};
use vstd::prelude::*;

verus! {

/// The pause between two renders, in milliseconds.
pub const RENDER_PERIOD_MS: u64 = 100;

/// The offset from UTC that the clock shows, in seconds: nine hours east.
pub const UTC_OFFSET_SECS: i32 = 32_400;

/// The column where the clock text starts.
pub const CLOCK_X: i32 = 0;

/// The row where the clock text starts.
pub const CLOCK_Y: i32 = 0;

/// The colour of the clock text, as `0xRRGGBB`.
pub const CLOCK_FOREGROUND: u32 = 0x000000;

/// The colour behind the clock text, as `0xRRGGBB`.
pub const CLOCK_BACKGROUND: u32 = 0xFFFFFF;

/// The layout of the clock text: `YYYY-MM-DD HH:MM:SS`.
pub const CLOCK_FORMAT: &'static str = "%Y-%m-%d %H:%M:%S";

/// Whether `year` has a 29th of February in the proleptic Gregorian calendar.
pub open spec fn is_leap_year(year: int) -> bool {
    year % 4 == 0 && (year % 100 != 0 || year % 400 == 0)
}

/// The number of days of `month` in `year`, for a month from 1 to 12.
pub open spec fn days_in_month(year: int, month: int) -> int {
    if month == 2 {
        if is_leap_year(year) {
            29
        } else {
            28
        }
    } else if month == 4 || month == 6 || month == 9 || month == 11 {
        30
    } else {
        31
    }
}

/// Whether the fields name a day that exists, in a year from 0 to 9999, and
/// a time of that day, without a leap second.
pub open spec fn is_civil_time(
    year: int,
    month: int,
    day: int,
    hour: int,
    minute: int,
    second: int,
) -> bool {
    &&& 0 <= year <= 9999
    &&& 1 <= month <= 12
    &&& 1 <= day <= days_in_month(year, month)
    &&& 0 <= hour < 24
    &&& 0 <= minute < 60
    &&& 0 <= second < 60
}

/// What a [`ClockSample`] stands for: a calendar date and a time of day,
/// and the offset from UTC at which they were read.
pub struct ClockView {
    /// Year of the common era.
    pub year: int,
    /// Month of the year, from 1.
    pub month: int,
    /// Day of the month, from 1.
    pub day: int,
    /// Hour of the day.
    pub hour: int,
    /// Minute of the hour.
    pub minute: int,
    /// Second of the minute.
    pub second: int,
    /// Offset of local time from UTC, in seconds; positive to the east.
    pub offset_secs: int,
}

impl ClockView {
    /// The date exists, in a year of at most four digits, the time is a time
    /// of day, and the offset is less than a day either way.
    pub open spec fn wf(self) -> bool {
        &&& is_civil_time(self.year, self.month, self.day, self.hour, self.minute, self.second)
        &&& -86_400 < self.offset_secs < 86_400
    }

    /// The clock text: `YYYY-MM-DD HH:MM:SS`, every field padded with zeros.
    pub open spec fn text(self) -> Seq<char> {
        clock_text(self.year, self.month, self.day, self.hour, self.minute, self.second)
    }
}

/// The text `YYYY-MM-DD HH:MM:SS` for the given fields: the year in four
/// digits, every other field in two, all padded with zeros.
pub open spec fn clock_text(
    year: int,
    month: int,
    day: int,
    hour: int,
    minute: int,
    second: int,
) -> Seq<char> {
    seq![
        digit(year / 1000),
        digit(year / 100 % 10),
        digit(year / 10 % 10),
        digit(year % 10),
        '-',
        digit(month / 10),
        digit(month % 10),
        '-',
        digit(day / 10),
        digit(day % 10),
        ' ',
        digit(hour / 10),
        digit(hour % 10),
        ':',
        digit(minute / 10),
        digit(minute % 10),
        ':',
        digit(second / 10),
        digit(second % 10),
    ]
}

/// The character of one decimal digit.
#[verifier::opaque]
pub open spec fn digit(d: int) -> char {
    if d == 0 {
        '0'
    } else if d == 1 {
        '1'
    } else if d == 2 {
        '2'
    } else if d == 3 {
        '3'
    } else if d == 4 {
        '4'
    } else if d == 5 {
        '5'
    } else if d == 6 {
        '6'
    } else if d == 7 {
        '7'
    } else if d == 8 {
        '8'
    } else {
        '9'
    }
}

/// The calendar fields, in the order year, month, day, hour, minute and
/// second, that chrono gives the instant `unix_secs` seconds after the Unix
/// epoch at `offset_secs` seconds east of UTC; `None` where it has none.
pub uninterp spec fn local_calendar(unix_secs: i64, offset_secs: i32) -> Option<
    (i32, u32, u32, u32, u32, u32),
>;

/// Converts an instant to calendar fields with chrono: the zone comes from
/// `FixedOffset::east_opt`, the instant from `DateTime::from_timestamp_secs`,
/// it is moved to the zone with `DateTime::with_timezone`, and read with the
/// getters of `Datelike` and `Timelike`. The result is `None` where chrono
/// refuses the offset or the instant. Nothing is claimed of the fields but
/// that they depend on the two arguments alone.
#[verifier::external_body]
fn local_fields(unix_secs: i64, offset_secs: i32) -> (fields: Option<
    (i32, u32, u32, u32, u32, u32),
>)
    ensures
        fields == local_calendar(unix_secs, offset_secs),
{
    let zone = FixedOffset::east_opt(offset_secs)?;
    let local = DateTime::from_timestamp_secs(unix_secs)?.with_timezone(&zone);
    Some((local.year(), local.month(), local.day(), local.hour(), local.minute(), local.second()))
}

/// Formats a date and time with chrono: `NaiveDate::from_ymd_opt`, then
/// `NaiveDate::and_hms_opt`, then `NaiveDateTime::format` and `to_string`.
/// The claim is about a day that exists, in a year from 0 to 9999, with a
/// time of day: chrono builds the value, so the result is not `None`, and
/// with this pattern it writes the year in four digits and every other field
/// in two, padded with zeros, with `-`, a space and `:` between them. Of
/// other fields nothing is claimed.
#[verifier::external_body]
fn format_civil(
    pattern: &str,
    year: i32,
    month: u32,
    day: u32,
    hour: u32,
    minute: u32,
    second: u32,
) -> (text: Option<String>)
    requires
        pattern@ == CLOCK_FORMAT@,
    ensures
        match text {
            Some(t) => is_civil_time(
                year as int,
                month as int,
                day as int,
                hour as int,
                minute as int,
                second as int,
            ) ==> t@ == clock_text(
                year as int,
                month as int,
                day as int,
                hour as int,
                minute as int,
                second as int,
            ),
            None => !is_civil_time(
                year as int,
                month as int,
                day as int,
                hour as int,
                minute as int,
                second as int,
            ),
        },
{
    let date = NaiveDate::from_ymd_opt(year, month, day)?;
    let moment = date.and_hms_opt(hour, minute, second)?;
    Some(moment.format(pattern).to_string())
}

/// A calendar date and time of day, read at a fixed offset from UTC.
///
/// Every sample holds a date that exists, with a year from 0 to 9999.
#[derive(Clone, Copy, Debug)]
pub struct ClockSample {
    year: u16,
    month: u8,
    day: u8,
    hour: u8,
    minute: u8,
    second: u8,
    offset_secs: i32,
}

impl View for ClockSample {
    type V = ClockView;

    closed spec fn view(&self) -> ClockView {
        ClockView {
            year: self.year as int,
            month: self.month as int,
            day: self.day as int,
            hour: self.hour as int,
            minute: self.minute as int,
            second: self.second as int,
            offset_secs: self.offset_secs as int,
        }
    }
}

/// The sample with the given fields, if they make one.
pub open spec fn sample_spec(
    year: int,
    month: int,
    day: int,
    hour: int,
    minute: int,
    second: int,
    offset_secs: int,
) -> Option<ClockView> {
    let sample = ClockView { year, month, day, hour, minute, second, offset_secs };
    if sample.wf() {
        Some(sample)
    } else {
        None
    }
}

/// The sample for the calendar fields that came back for an instant.
pub open spec fn sample_of_fields(
    fields: Option<(i32, u32, u32, u32, u32, u32)>,
    offset_secs: int,
) -> Option<ClockView> {
    match fields {
        Some(f) => sample_spec(
            f.0 as int,
            f.1 as int,
            f.2 as int,
            f.3 as int,
            f.4 as int,
            f.5 as int,
            offset_secs,
        ),
        None => None,
    }
}

/// A sample or none, with the sample taken by its view.
pub open spec fn sample_view(sample: Option<ClockSample>) -> Option<ClockView> {
    match sample {
        Some(s) => Some(s@),
        None => None,
    }
}

/// Whether `year` has a 29th of February.
fn leap_year(year: i32) -> (leap: bool)
    requires
        0 <= year,
    ensures
        leap == is_leap_year(year as int),
{
    year % 4 == 0 && (year % 100 != 0 || year % 400 == 0)
}

/// The number of days of `month` in `year`.
fn month_len(year: i32, month: u32) -> (days: u32)
    requires
        0 <= year,
    ensures
        days == days_in_month(year as int, month as int),
{
    if month == 2 {
        if leap_year(year) {
            29
        } else {
            28
        }
    } else if month == 4 || month == 6 || month == 9 || month == 11 {
        30
    } else {
        31
    }
}

impl ClockSample {
    #[verifier::type_invariant]
    spec fn inv(self) -> bool {
        self@.wf()
    }

    /// Makes a sample from its fields.
    ///
    /// The result is `None` unless the year is from 0 to 9999, the day
    /// exists in that month of that year, the time is a time of day without
    /// a leap second, and the offset is less than a day either way.
    pub fn new(
        year: i32,
        month: u32,
        day: u32,
        hour: u32,
        minute: u32,
        second: u32,
        offset_secs: i32,
    ) -> (sample: Option<ClockSample>)
        ensures
            sample_view(sample) == sample_spec(
                year as int,
                month as int,
                day as int,
                hour as int,
                minute as int,
                second as int,
                offset_secs as int,
            ),
            sample matches Some(s) ==> s@.wf(),
    {
        if year < 0 || year > 9999 || month < 1 || month > 12 {
            return None;
        }
        if day < 1 || day > month_len(year, month) {
            return None;
        }
        if hour >= 24 || minute >= 60 || second >= 60 {
            return None;
        }
        if offset_secs <= -86_400 || offset_secs >= 86_400 {
            return None;
        }
        Some(
            ClockSample {
                year: year as u16,
                month: month as u8,
                day: day as u8,
                hour: hour as u8,
                minute: minute as u8,
                second: second as u8,
                offset_secs,
            },
        )
    }

    /// Reads the clock: the local date and time of the instant `unix_secs`
    /// seconds after the Unix epoch, `offset_secs` seconds east of UTC.
    ///
    /// The calendar arithmetic is chrono's. The result is `None` where
    /// chrono has no date for the instant, where the year is outside 0 to
    /// 9999, and where the offset is a day or more.
    pub fn at(unix_secs: i64, offset_secs: i32) -> (sample: Option<ClockSample>)
        ensures
            sample_view(sample) == sample_of_fields(
                local_calendar(unix_secs, offset_secs),
                offset_secs as int,
            ),
            sample matches Some(s) ==> s@.wf(),
            !(-86_400 < offset_secs < 86_400) ==> sample is None,
    {
        match local_fields(unix_secs, offset_secs) {
            Some((year, month, day, hour, minute, second)) => ClockSample::new(
                year,
                month,
                day,
                hour,
                minute,
                second,
                offset_secs,
            ),
            None => None,
        }
    }

    /// The clock text of this sample: `YYYY-MM-DD HH:MM:SS`.
    pub fn text(&self) -> (text: String)
        ensures
            text@ == self@.text(),
            text@.len() == 19,
    {
        proof {
            use_type_invariant(self);
        }
        let text = format_civil(
            CLOCK_FORMAT,
            self.year as i32,
            self.month as u32,
            self.day as u32,
            self.hour as u32,
            self.minute as u32,
            self.second as u32,
        );
        text.unwrap()
    }
}

/// What the clock worker draws on one tick: a text, where it starts, and
/// its colours as `0xRRGGBB`.
#[derive(Debug)]
pub struct ClockFrame {
    /// The text to draw.
    pub text: String,
    /// The column of the text's top-left corner.
    pub x: i32,
    /// The row of the text's top-left corner.
    pub y: i32,
    /// The colour of the text.
    pub foreground: u32,
    /// The colour behind the text.
    pub background: u32,
}

impl ClockFrame {
    /// The frame shows `sample` at the top-left corner of the display, in
    /// the clock's colours.
    pub open spec fn shows(self, sample: ClockView) -> bool {
        &&& self.text@ == sample.text()
        &&& self.x == CLOCK_X
        &&& self.y == CLOCK_Y
        &&& self.foreground == CLOCK_FOREGROUND
        &&& self.background == CLOCK_BACKGROUND
    }
}

impl ClockSample {
    /// Year of the common era, from 0 to 9999.
    pub fn year(&self) -> (year: u16)
        ensures
            year == self@.year,
    {
        self.year
    }

    /// Month of the year, from 1 to 12.
    pub fn month(&self) -> (month: u8)
        ensures
            month == self@.month,
    {
        self.month
    }

    /// Day of the month, from 1.
    pub fn day(&self) -> (day: u8)
        ensures
            day == self@.day,
    {
        self.day
    }

    /// Hour of the day, from 0 to 23.
    pub fn hour(&self) -> (hour: u8)
        ensures
            hour == self@.hour,
    {
        self.hour
    }

    /// Minute of the hour, from 0 to 59.
    pub fn minute(&self) -> (minute: u8)
        ensures
            minute == self@.minute,
    {
        self.minute
    }

    /// Second of the minute, from 0 to 59.
    pub fn second(&self) -> (second: u8)
        ensures
            second == self@.second,
    {
        self.second
    }

    /// Offset of local time from UTC, in seconds; positive to the east.
    pub fn offset_secs(&self) -> (offset_secs: i32)
        ensures
            offset_secs == self@.offset_secs,
    {
        self.offset_secs
    }

    /// The frame that shows this sample.
    pub fn frame(&self) -> (frame: ClockFrame)
        ensures
            frame.shows(self@),
    {
        ClockFrame {
            text: self.text(),
            x: CLOCK_X,
            y: CLOCK_Y,
            foreground: CLOCK_FOREGROUND,
            background: CLOCK_BACKGROUND,
        }
    }
}

/// Decides what the clock worker draws on a tick that falls `unix_secs`
/// seconds after the Unix epoch, for a clock `offset_secs` seconds east of
/// UTC.
///
/// The result is the frame for the sample that [`ClockSample::at`] reads, and
/// `None`, which leaves the display as it is, where there is no sample.
pub fn render_step(unix_secs: i64, offset_secs: i32) -> (frame: Option<ClockFrame>)
    ensures
        match sample_of_fields(local_calendar(unix_secs, offset_secs), offset_secs as int) {
            Some(sample) => frame matches Some(f) && f.shows(sample),
            None => frame is None,
        },
{
    match ClockSample::at(unix_secs, offset_secs) {
        Some(sample) => Some(sample.frame()),
        None => None,
    }
}

/// The number that a decimal digit stands for; -1 for any other character.
#[verifier::opaque]
pub open spec fn digit_value(c: char) -> int {
    if c == '0' {
        0
    } else if c == '1' {
        1
    } else if c == '2' {
        2
    } else if c == '3' {
        3
    } else if c == '4' {
        4
    } else if c == '5' {
        5
    } else if c == '6' {
        6
    } else if c == '7' {
        7
    } else if c == '8' {
        8
    } else if c == '9' {
        9
    } else {
        -1
    }
}

/// The number written in the two characters of `text` from `at` on.
pub open spec fn number2_at(text: Seq<char>, at: int) -> int {
    10 * digit_value(text[at]) + digit_value(text[at + 1])
}

/// The number written in the four characters of `text` from `at` on.
pub open spec fn number4_at(text: Seq<char>, at: int) -> int {
    100 * number2_at(text, at) + number2_at(text, at + 2)
}

/// A digit's character stands for that digit.
pub proof fn lemma_digit_reads_back(d: int)
    requires
        0 <= d <= 9,
    ensures
        digit_value(digit(d)) == d,
{
    reveal(digit);
    reveal(digit_value);
}

/// The clock text of a sample has 19 characters, with the separators of
/// `YYYY-MM-DD HH:MM:SS` between its fields, and every field reads back as
/// the number that the sample holds.
pub proof fn lemma_text_fields(sample: ClockView)
    requires
        sample.wf(),
    ensures
        sample.text().len() == 19,
        sample.text()[4] == '-',
        sample.text()[7] == '-',
        sample.text()[10] == ' ',
        sample.text()[13] == ':',
        sample.text()[16] == ':',
        number4_at(sample.text(), 0) == sample.year,
        number2_at(sample.text(), 5) == sample.month,
        number2_at(sample.text(), 8) == sample.day,
        number2_at(sample.text(), 11) == sample.hour,
        number2_at(sample.text(), 14) == sample.minute,
        number2_at(sample.text(), 17) == sample.second,
{
    lemma_digit_reads_back(sample.year / 1000);
    lemma_digit_reads_back(sample.year / 100 % 10);
    lemma_digit_reads_back(sample.year / 10 % 10);
    lemma_digit_reads_back(sample.year % 10);
    lemma_digit_reads_back(sample.month / 10);
    lemma_digit_reads_back(sample.month % 10);
    lemma_digit_reads_back(sample.day / 10);
    lemma_digit_reads_back(sample.day % 10);
    lemma_digit_reads_back(sample.hour / 10);
    lemma_digit_reads_back(sample.hour % 10);
    lemma_digit_reads_back(sample.minute / 10);
    lemma_digit_reads_back(sample.minute % 10);
    lemma_digit_reads_back(sample.second / 10);
    lemma_digit_reads_back(sample.second % 10);
}

/// Two samples that differ only in that the second is one second later in
/// the same minute have clock texts that agree up to the seconds field, and
/// whose seconds fields differ by exactly one.
pub proof fn lemma_one_second_later(first: ClockView, second: ClockView)
    requires
        first.wf(),
        second.wf(),
        second == (ClockView { second: first.second + 1, ..first }),
    ensures
        second.text().subrange(0, 17) == first.text().subrange(0, 17),
        number2_at(second.text(), 17) == number2_at(first.text(), 17) + 1,
{
    lemma_text_fields(first);
    lemma_text_fields(second);
    assert(second.text().subrange(0, 17) =~= first.text().subrange(0, 17));
}

} // verus!
