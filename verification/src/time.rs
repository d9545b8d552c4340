//! Points in time, as they stand in the database.
use chrono::{DateTime, Datelike, NaiveDate, SecondsFormat, Timelike, Utc};
use vstd::arithmetic::power::pow;
use vstd::prelude::*;
use vstd::string::StringExecFns;

use crate::error::{seen, StoreError, StoreErrorView};
use crate::order::{lemma_padded_order, lemma_precedes_asymmetric, lemma_precedes_parts, precedes};
use crate::text::{decimal, join, padded};

verus! {

/// A point in time by the calendar and the clock of UTC.
///
/// A leap second carries the nanoseconds past the last one of the second before it.
#[derive(Debug, Clone, Copy, PartialEq, Eq, PartialOrd, Ord, Hash, Structural)]
pub struct Timestamp {
    pub year: i32,
    pub month: u32,
    pub day: u32,
    pub hour: u32,
    pub minute: u32,
    pub second: u32,
    pub nanosecond: u32,
}

/// Whether February has a day more in the year.
pub open spec fn is_leap_year(year: int) -> bool {
    year % 4 == 0 && (year % 100 != 0 || year % 400 == 0)
}

/// The number of days of a month.
pub open spec fn days_in_month(year: int, month: int) -> int {
    if month == 2 {
        if is_leap_year(year) {
            29
        } else {
            28
        }
    } else if month == 4 || month == 6 || month == 9 || month == 11 {
        30
    } else {
        31
    }
}

impl Timestamp {
    /// Whether the fields name a point in time.
    pub open spec fn valid(self) -> bool {
        &&& -262143 <= self.year <= 262142
        &&& 1 <= self.month <= 12
        &&& 1 <= self.day <= days_in_month(self.year as int, self.month as int)
        &&& self.hour < 24
        &&& self.minute < 60
        &&& self.second < 60
        &&& self.nanosecond < 2_000_000_000
        &&& self.nanosecond >= 1_000_000_000 ==> self.second == 59
    }

    /// Whether the year is written with four digits and no sign.
    pub open spec fn has_plain_year(self) -> bool {
        0 <= self.year <= 9999
    }

    /// Whether the point in time lies before another one.
    pub open spec fn before(self, other: Timestamp) -> bool {
        ||| self.year < other.year
        ||| self.year == other.year && {
            ||| self.month < other.month
            ||| self.month == other.month && {
                ||| self.day < other.day
                ||| self.day == other.day && {
                    ||| self.hour < other.hour
                    ||| self.hour == other.hour && {
                        ||| self.minute < other.minute
                        ||| self.minute == other.minute && {
                            ||| self.second < other.second
                            ||| self.second == other.second && self.nanosecond
                                < other.nanosecond
                        }
                    }
                }
            }
        }
    }

    /// The second as a clock shows it: sixty in a leap second.
    pub open spec fn shown_second(self) -> nat {
        if self.nanosecond < 1_000_000_000 {
            self.second as nat
        } else {
            self.second as nat + 1
        }
    }

    /// The year as RFC 3339 writes it, and with a sign where it has no four digits.
    pub open spec fn year_text(self) -> Seq<char> {
        if self.has_plain_year() {
            padded(self.year as nat, 4)
        } else if self.year < 0 {
            "-"@ + (if self.year > -10000 {
                padded((-self.year) as nat, 4)
            } else {
                decimal((-self.year) as nat)
            })
        } else {
            "+"@ + decimal(self.year as nat)
        }
    }

    /// The point in time in the notation of RFC 3339, to the nanosecond, with `Z` for UTC.
    pub open spec fn text(self) -> Seq<char> {
        self.year_text() + ("-"@ + (padded(self.month as nat, 2) + ("-"@ + (padded(
            self.day as nat,
            2,
        ) + ("T"@ + (padded(self.hour as nat, 2) + (":"@ + (padded(self.minute as nat, 2) + (
        ":"@ + (padded(self.shown_second(), 2) + ("."@ + (padded(
            (self.nanosecond as nat) % 1_000_000_000,
            9,
        ) + "Z"@))))))))))))
    }
}

/// What `chrono::DateTime::parse_from_rfc3339` makes of a text, at UTC, or the words of its error.
pub uninterp spec fn rfc3339_parsed(text: Seq<char>) -> Result<Timestamp, Seq<char>>;

/// Whether a text is read as the given point in time.
pub open spec fn reads_as(text: Seq<char>, timestamp: Timestamp) -> bool {
    rfc3339_parsed(text) == Ok::<Timestamp, Seq<char>>(timestamp)
}

impl Timestamp {
    /// Whether the point in time is read back from its own text.
    pub open spec fn survives(self) -> bool {
        reads_as(self.text(), self)
    }
}

/// `DateTime::to_rfc3339_opts` with nanoseconds and `Z` writes the date and the time as
/// [`Timestamp::text`] says. `DateTime::parse_from_rfc3339` reads the same point in time back,
/// where the year is written with four digits.
#[verifier::external_body]
fn print_rfc3339(timestamp: &Timestamp) -> (text: String)
    requires
        timestamp.valid(),
    ensures
        text@ == timestamp.text(),
        timestamp.has_plain_year() ==> reads_as(text@, *timestamp),
{
    let t = timestamp;
    NaiveDate::from_ymd_opt(t.year, t.month, t.day)
        .and_then(|date| date.and_hms_nano_opt(t.hour, t.minute, t.second, t.nanosecond))
        .map(|moment| moment.and_utc().to_rfc3339_opts(SecondsFormat::Nanos, true))
        .unwrap()
}

/// `DateTime::parse_from_rfc3339` reads a point in time, and `with_timezone` moves it to UTC.
/// What comes of a text is a function of the text. A point in time that was read is valid.
#[verifier::external_body]
fn parse_rfc3339(text: &str) -> (parsed: Result<Timestamp, String>)
    ensures
        match parsed {
            Ok(timestamp) => rfc3339_parsed(text@) == Ok::<Timestamp, Seq<char>>(timestamp)
                && timestamp.valid(),
            Err(message) => rfc3339_parsed(text@) == Err::<Timestamp, Seq<char>>(message@),
        },
{
    let moment = DateTime::parse_from_rfc3339(text).map_err(|error| error.to_string())?;
    let t = moment.with_timezone(&Utc);
    Ok(Timestamp {
        year: t.year(),
        month: t.month(),
        day: t.day(),
        hour: t.hour(),
        minute: t.minute(),
        second: t.second(),
        nanosecond: t.nanosecond(),
    })
}

/// `Utc::now` reads the system clock, which counts from the beginning of 1970 and knows no
/// leap seconds.
#[verifier::external_body]
fn read_clock() -> (now: Timestamp)
    ensures
        now.valid(),
        now.year >= 1970,
        now.nanosecond < 1_000_000_000,
{
    let t = Utc::now();
    Timestamp {
        year: t.year(),
        month: t.month(),
        day: t.day(),
        hour: t.hour(),
        minute: t.minute(),
        second: t.second(),
        nanosecond: t.nanosecond(),
    }
}

impl Timestamp {
    /// Whether the system clock may have shown this point in time when it was read.
    pub closed spec fn shown(self) -> bool {
        call_ensures(read_clock, (), self)
    }

    /// The present.
    pub fn now() -> (now: Timestamp)
        ensures
            now.shown(),
            now.valid(),
            now.year >= 1970,
            now.nanosecond < 1_000_000_000,
    {
        read_clock()
    }
}

/// The present is a reading of the system clock, in every field and to the nanosecond: what
/// [`Timestamp::now`] returns is what the clock returned.
proof fn law_the_present_is_read_from_the_clock(now: Timestamp)
    ensures
        call_ensures(Timestamp::now, (), now) ==> call_ensures(read_clock, (), now),
        now.shown() <==> call_ensures(read_clock, (), now),
{
}

/// The text that the database keeps for a point in time.
///
/// Fixed-width fractional seconds preserve both round-trip equality and lexicographic ordering.
/// Both hold of the years from 0 to 9999, which RFC 3339 writes with four digits.
pub fn encode_timestamp(timestamp: Timestamp) -> (encoded: String)
    requires
        timestamp.valid(),
    ensures
        encoded@ == timestamp.text(),
        timestamp.has_plain_year() ==> timestamp.survives(),
        forall|field: Seq<char>|
            timestamp.has_plain_year() ==> #[trigger] timestamp_from(field, encoded@) == Ok::<
                Timestamp,
                StoreErrorView,
            >(timestamp),
{
    print_rfc3339(&timestamp)
}

/// What [`decoded_timestamp`] returns.
pub open spec fn timestamp_read(
    field: Seq<char>,
    encoded: Seq<char>,
    parsed: Result<Timestamp, Seq<char>>,
) -> Result<Timestamp, StoreErrorView> {
    match parsed {
        Ok(timestamp) => Ok(timestamp),
        Err(error) => Err(
            StoreErrorView::InvalidData(
                field + " contains invalid timestamp `"@ + encoded + "`: "@ + error,
            ),
        ),
    }
}

/// The point in time that was read of a text, or the error where none was.
pub fn decoded_timestamp(
    field: &str,
    encoded: &str,
    parsed: Result<Timestamp, String>,
) -> (decoded: Result<Timestamp, StoreError>)
    ensures
        seen(decoded) == timestamp_read(
            field@,
            encoded@,
            match parsed {
                Ok(timestamp) => Ok(timestamp),
                Err(error) => Err(error@),
            },
        ),
{
    match parsed {
        Ok(timestamp) => Ok(timestamp),
        Err(error) => {
            let mut message: String = join(field, " contains invalid timestamp `");
            message.append(encoded);
            message.append("`: ");
            message.append(error.as_str());
            Err(StoreError::InvalidData(message))
        },
    }
}

/// What [`decode_timestamp`] returns.
pub open spec fn timestamp_from(
    field: Seq<char>,
    encoded: Seq<char>,
) -> Result<Timestamp, StoreErrorView> {
    timestamp_read(field, encoded, rfc3339_parsed(encoded))
}

/// The point in time that the database kept as a text.
pub fn decode_timestamp(field: &str, encoded: &str) -> (decoded: Result<Timestamp, StoreError>)
    ensures
        seen(decoded) == timestamp_from(field@, encoded@),
        decoded matches Ok(timestamp) ==> timestamp.valid(),
{
    decoded_timestamp(field, encoded, parse_rfc3339(encoded))
}

impl View for Timestamp {
    type V = Timestamp;

    open spec fn view(&self) -> Timestamp {
        *self
    }
}

proof fn lemma_field_order(n: nat, m: nat, width: nat, r: Seq<char>, s: Seq<char>)
    requires
        n < pow(10, width),
        m < pow(10, width),
    ensures
        precedes(padded(n, width) + r, padded(m, width) + s) <==> n < m || (n == m && precedes(
            r,
            s,
        )),
        padded(n, width) + r == padded(m, width) + s <==> n == m && r == s,
{
    lemma_padded_order(n, m, width);
    lemma_precedes_parts(padded(n, width), padded(m, width), r, s);
}

proof fn lemma_separator_order(separator: Seq<char>, r: Seq<char>, s: Seq<char>)
    ensures
        precedes(separator + r, separator + s) <==> precedes(r, s),
        separator + r == separator + s <==> r == s,
{
    lemma_precedes_parts(separator, separator, r, s);
    lemma_precedes_asymmetric(separator, separator);
}

/// The texts that the database keeps for points in time sort as the points in time do, and
/// different points in time have different texts.
///
/// Years are taken from 0 to 9999: `+10000` sorts before `9999`.
pub proof fn law_timestamps_sort_as_text(t: Timestamp, u: Timestamp)
    requires
        t.valid(),
        u.valid(),
        t.has_plain_year(),
        u.has_plain_year(),
    ensures
        precedes(t.text(), u.text()) <==> t.before(u),
        t.text() == u.text() <==> t == u,
{
    assert(pow(10, 2) == 100 && pow(10, 4) == 10000 && pow(10, 9) == 1_000_000_000) by {
        reveal(pow);
        reveal_with_fuel(pow, 10);
    }
    let (tn, un) = (
        (t.nanosecond as nat) % 1_000_000_000,
        (u.nanosecond as nat) % 1_000_000_000,
    );
    lemma_precedes_asymmetric("Z"@, "Z"@);
    let (t0, u0) = (padded(tn, 9) + "Z"@, padded(un, 9) + "Z"@);
    lemma_field_order(tn, un, 9, "Z"@, "Z"@);
    let (t1, u1) = ("."@ + t0, "."@ + u0);
    lemma_separator_order("."@, t0, u0);
    let (t2, u2) = (padded(t.shown_second(), 2) + t1, padded(u.shown_second(), 2) + u1);
    lemma_field_order(t.shown_second(), u.shown_second(), 2, t1, u1);
    let (t3, u3) = (":"@ + t2, ":"@ + u2);
    lemma_separator_order(":"@, t2, u2);
    let (t4, u4) = (padded(t.minute as nat, 2) + t3, padded(u.minute as nat, 2) + u3);
    lemma_field_order(t.minute as nat, u.minute as nat, 2, t3, u3);
    let (t5, u5) = (":"@ + t4, ":"@ + u4);
    lemma_separator_order(":"@, t4, u4);
    let (t6, u6) = (padded(t.hour as nat, 2) + t5, padded(u.hour as nat, 2) + u5);
    lemma_field_order(t.hour as nat, u.hour as nat, 2, t5, u5);
    let (t7, u7) = ("T"@ + t6, "T"@ + u6);
    lemma_separator_order("T"@, t6, u6);
    let (t8, u8) = (padded(t.day as nat, 2) + t7, padded(u.day as nat, 2) + u7);
    lemma_field_order(t.day as nat, u.day as nat, 2, t7, u7);
    let (t9, u9) = ("-"@ + t8, "-"@ + u8);
    lemma_separator_order("-"@, t8, u8);
    let (t10, u10) = (padded(t.month as nat, 2) + t9, padded(u.month as nat, 2) + u9);
    lemma_field_order(t.month as nat, u.month as nat, 2, t9, u9);
    let (t11, u11) = ("-"@ + t10, "-"@ + u10);
    lemma_separator_order("-"@, t10, u10);
    lemma_field_order(t.year as nat, u.year as nat, 4, t11, u11);
}

} // verus!
