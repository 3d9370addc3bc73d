//! The day's sunrise and sunset: from the weather service's answer to the
//! rows that are stored for them.

use crate::clock::{now, Moment};
use crate::data::{Time, TimeKind, TimeOfDay};
use crate::decimal::{parse_u32, parsed_u32};
use crate::error::Error;
use vstd::prelude::*;
use vstd::string::StringExecFns;

verus! {

/// The text that `{:?}` prints for a text: quoted, with escapes.
pub uninterp spec fn quoted(text: Seq<char>) -> Seq<char>;

/// Prints a text as `{:?}` does.
///
/// Trusted: the result is a function of the text alone, named [`quoted`];
/// nothing more is claimed of it.
#[verifier::external_body]
fn quote(text: &str) -> (printed: String)
    ensures
        printed@ == quoted(text@),
{
    format!("{:?}", text)
}

/// A time of day as the weather service writes it: two decimal numbers.
pub struct WeatherTime {
    hour: String,
    minute: String,
}

/// The times at which the sun rises and sets.
pub struct SunPhase {
    sunrise: WeatherTime,
    sunset: WeatherTime,
}

/// What the weather service answers.
pub struct WeatherResponse {
    pub sun_phase: SunPhase,
}

/// The hour on the twelve-hour clock, 1 to 12, and whether it is in the
/// afternoon.
pub open spec fn hour12(hour: u32) -> (bool, u32) {
    (
        hour >= 12,
        if hour % 12 == 0 {
            12
        } else {
            hour % 12
        },
    )
}

/// The bit of a weekday in a stored time, the weekday counted in days since
/// Monday: 2 for Monday, doubling day by day, 128 for Sunday.
pub open spec fn weekday_bit(weekday: u32) -> int {
    if weekday == 0 {
        2
    } else if weekday == 1 {
        4
    } else if weekday == 2 {
        8
    } else if weekday == 3 {
        16
    } else if weekday == 4 {
        32
    } else if weekday == 5 {
        64
    } else {
        128
    }
}

impl Time {
    /// The stored form of the moment `at`, for a time of the given kind.
    pub open spec fn of_moment(at: Moment, kind: TimeKind) -> Time {
        Time {
            hour: hour12(at.hour).1 as i32,
            minute: at.minute as i32,
            tod: if hour12(at.hour).0 {
                TimeOfDay::Pm
            } else {
                TimeOfDay::Am
            },
            kind,
            day_of_week: weekday_bit(at.weekday) as i32,
        }
    }

    /// The stored form of the moment `at`, for a time of the given kind.
    pub fn from(at: &Moment, kind: TimeKind) -> (time: Time)
        requires
            at.wf(),
        ensures
            time == Time::of_moment(*at, kind),
            1 <= time.hour <= 12,
            0 <= time.minute <= 59,
    {
        let is_pm: bool = at.hour >= 12;
        let rest: u32 = at.hour % 12;
        let hour: u32 = if rest == 0 {
            12
        } else {
            rest
        };
        let tod = if is_pm {
            TimeOfDay::Pm
        } else {
            TimeOfDay::Am
        };
        let dow: i32 = match at.weekday {
            0 => 2,
            1 => 4,
            2 => 8,
            3 => 16,
            4 => 32,
            5 => 64,
            _ => 128,
        };
        Time::new(hour as i32, at.minute as i32, tod, kind, dow)
    }
}

impl WeatherTime {
    pub fn new(hour: String, minute: String) -> (time: WeatherTime)
        ensures
            time.hour_text() == hour@,
            time.minute_text() == minute@,
    {
        WeatherTime { hour, minute }
    }

    /// The hour, as written.
    pub closed spec fn hour_text(&self) -> Seq<char> {
        self.hour@
    }

    /// The minute, as written.
    pub closed spec fn minute_text(&self) -> Seq<char> {
        self.minute@
    }

    /// The hour and the minute that the texts stand for, if both are numbers
    /// and name a time of day.
    pub open spec fn reading(&self) -> Option<(u32, u32)> {
        match (parsed_u32(self.hour_text()), parsed_u32(self.minute_text())) {
            (Some(hour), Some(minute)) => if hour < 24 && minute < 60 {
                Some((hour, minute))
            } else {
                None
            },
            _ => None,
        }
    }

    /// The description of the failure to read the texts.
    pub open spec fn unreadable(&self) -> Seq<char> {
        "Unable to parse WeatherTime into NaiveDateTime WeatherTime { hour: "@ + quoted(
            self.hour_text(),
        ) + ", minute: "@ + quoted(self.minute_text()) + " }"@
    }

    /// The moment of the day `today` at the hour and minute that the texts
    /// stand for.
    pub fn into(self, today: &Moment) -> (r: Result<Moment, Error>)
        requires
            today.wf(),
        ensures
            match r {
                Ok(at) => self.reading() == Some((at.hour, at.minute)) && at == (Moment {
                    hour: at.hour,
                    minute: at.minute,
                    ..*today
                }),
                Err(e) => self.reading() is None && e.is_other(self.unreadable()),
            },
    {
        if let Some(hour) = parse_u32(self.hour.as_str()) {
            if let Some(minute) = parse_u32(self.minute.as_str()) {
                if hour < 24 && minute < 60 {
                    return Ok(
                        Moment { day: today.day, weekday: today.weekday, hour, minute },
                    );
                }
            }
        }
        let text = String::from_str(
            "Unable to parse WeatherTime into NaiveDateTime WeatherTime { hour: ",
        ).concat(quote(self.hour.as_str()).as_str()).concat(", minute: ").concat(
            quote(self.minute.as_str()).as_str(),
        ).concat(" }");
        Err(Error::Other(text))
    }
}

impl SunPhase {
    pub fn new(sunrise: WeatherTime, sunset: WeatherTime) -> (phase: SunPhase)
        ensures
            phase.rise() == sunrise,
            phase.set() == sunset,
    {
        SunPhase { sunrise, sunset }
    }

    /// When the sun rises.
    pub closed spec fn rise(&self) -> WeatherTime {
        self.sunrise
    }

    /// When the sun sets.
    pub closed spec fn set(&self) -> WeatherTime {
        self.sunset
    }
}

/// `r` is what reading the answer `ret` on the day `today` gives: the
/// sunrise and the sunset in stored form, or the failure to read the first
/// of the two that cannot be read, the sunrise coming first.
pub open spec fn daily_info(ret: WeatherResponse, today: Moment, r: Result<(Time, Time), Error>) -> bool {
    let rise = ret.sun_phase.rise();
    let set = ret.sun_phase.set();
    match r {
        Ok((sunrise, sunset)) => {
            &&& rise.reading() matches Some((hour, minute)) && sunrise == Time::of_moment(
                Moment { hour, minute, ..today },
                TimeKind::Sunrise,
            )
            &&& set.reading() matches Some((hour, minute)) && sunset == Time::of_moment(
                Moment { hour, minute, ..today },
                TimeKind::Sunset,
            )
        },
        Err(e) => if rise.reading() is None {
            e.is_other(rise.unreadable())
        } else {
            set.reading() is None && e.is_other(set.unreadable())
        },
    }
}

/// The sunrise and the sunset of the day `today` in stored form, from the
/// weather service's answer.
pub fn daily_info_on(ret: WeatherResponse, today: &Moment) -> (r: Result<(Time, Time), Error>)
    requires
        today.wf(),
    ensures
        daily_info(ret, *today, r),
{
    let phase = ret.sun_phase;
    let rise = match phase.sunrise.into(today) {
        Ok(at) => at,
        Err(e) => {
            return Err(e);
        },
    };
    let sunrise = Time::from(&rise, TimeKind::Sunrise);
    let set = match phase.sunset.into(today) {
        Ok(at) => at,
        Err(e) => {
            return Err(e);
        },
    };
    let sunset = Time::from(&set, TimeKind::Sunset);
    Ok((sunrise, sunset))
}

/// Today's sunrise and sunset in stored form, from the weather service's
/// answer; which day today is, the wall clock says.
pub fn get_daily_info(ret: WeatherResponse) -> (r: Result<(Time, Time), Error>)
    ensures
        exists|today: Moment| today.wf() && #[trigger] daily_info(ret, today, r),
{
    let today = now();
    daily_info_on(ret, &today)
}

/// Whether today's times are yet to be stored: there are four of them, so
/// any other number of stored rows says that they are.
pub fn check_for_daily_info(count: usize) -> (missing: bool)
    ensures
        missing == (count != 4),
{
    count != 4
}

/// One row of the key times of a day, as it is stored.
#[derive(Clone, Copy, Debug, PartialEq, Eq, Structural)]
pub struct KeyTimeRow {
    pub hour: i32,
    pub minute: i32,
    pub tod: i32,
    pub kind: i32,
    pub dow: i32,
}

impl KeyTimeRow {
    /// The row of a time, stored under the given kind and hour.
    pub open spec fn of_time(time: Time, hour: int, kind: TimeKind) -> KeyTimeRow {
        KeyTimeRow {
            hour: hour as i32,
            minute: time.minute,
            tod: time.tod.code() as i32,
            kind: kind.code() as i32,
            dow: time.day_of_week,
        }
    }
}

/// The four rows that are stored for a day: dawn, an hour before sunrise;
/// sunrise; dusk, an hour before sunset; sunset.
pub open spec fn key_times(sunrise: Time, sunset: Time) -> Seq<KeyTimeRow> {
    seq![
        KeyTimeRow::of_time(sunrise, sunrise.hour - 1, TimeKind::Dawn),
        KeyTimeRow::of_time(sunrise, sunrise.hour as int, sunrise.kind),
        KeyTimeRow::of_time(sunset, sunset.hour - 1, TimeKind::Dusk),
        KeyTimeRow::of_time(sunset, sunset.hour as int, sunset.kind),
    ]
}

/// The rows to store for a day's sunrise and sunset.
pub fn key_time_rows(sunrise: &Time, sunset: &Time) -> (rows: Vec<KeyTimeRow>)
    requires
        sunrise.hour > i32::MIN,
        sunset.hour > i32::MIN,
    ensures
        rows@ == key_times(*sunrise, *sunset),
{
    let mut rows: Vec<KeyTimeRow> = Vec::with_capacity(4);
    rows.push(
        KeyTimeRow {
            hour: sunrise.hour - 1,
            minute: sunrise.minute,
            tod: sunrise.tod.for_db(),
            kind: TimeKind::Dawn.for_db(),
            dow: sunrise.day_of_week,
        },
    );
    rows.push(
        KeyTimeRow {
            hour: sunrise.hour,
            minute: sunrise.minute,
            tod: sunrise.tod.for_db(),
            kind: sunrise.kind.for_db(),
            dow: sunrise.day_of_week,
        },
    );
    rows.push(
        KeyTimeRow {
            hour: sunset.hour - 1,
            minute: sunset.minute,
            tod: sunset.tod.for_db(),
            kind: TimeKind::Dusk.for_db(),
            dow: sunset.day_of_week,
        },
    );
    rows.push(
        KeyTimeRow {
            hour: sunset.hour,
            minute: sunset.minute,
            tod: sunset.tod.for_db(),
            kind: sunset.kind.for_db(),
            dow: sunset.day_of_week,
        },
    );
    rows
}

/// The sum of the numbers.
pub open spec fn total(counts: Seq<i32>) -> int
    decreases counts.len(),
{
    if counts.len() == 0 {
        0
    } else {
        total(counts.drop_last()) + counts.last()
    }
}

/// Every sum of the first so many numbers fits in an `i32`.
pub open spec fn sums_fit(counts: Seq<i32>) -> bool {
    forall|n: int| 0 <= n <= counts.len() ==> i32::MIN <= #[trigger] total(counts.take(n)) <= i32::MAX
}

/// The number of flips that storing the key times has updated: the sum of
/// the counts that the store reports, or nothing where the running sum
/// leaves the range of an `i32`.
pub fn updated_flips(counts: &Vec<i32>) -> (sum: Option<i32>)
    ensures
        match sum {
            Some(n) => sums_fit(counts@) && n == total(counts@),
            None => !sums_fit(counts@),
        },
{
    let mut count: i32 = 0;
    let mut i: usize = 0;
    while i < counts.len()
        invariant
            i <= counts@.len(),
            count == total(counts@.take(i as int)),
            forall|n: int| 0 <= n <= i ==> i32::MIN <= #[trigger] total(counts@.take(n)) <= i32::MAX,
        decreases counts@.len() - i,
    {
        proof {
            assert(counts@.take(i + 1).drop_last() =~= counts@.take(i as int));
        }
        match count.checked_add(counts[i]) {
            Some(next) => {
                count = next;
            },
            None => {
                assert(!(i32::MIN <= total(counts@.take(i + 1)) <= i32::MAX));
                return None;
            },
        }
        i += 1;
    }
    proof {
        assert(counts@.take(i as int) =~= counts@);
    }
    Some(count)
}

/// What to do about the next request to the weather service.
#[derive(Clone, Copy, Debug, PartialEq, Eq, Structural)]
pub enum Attempt {
    /// Wait this many milliseconds, then ask.
    After(u64),
    /// Ask no more: the attempts are used up.
    GiveUp,
}

/// The wait before the attempt that follows `attempts` failed ones: half a
/// minute for each of them, in milliseconds, and no more than a `u64` holds.
pub open spec fn backoff_millis(attempts: usize) -> int {
    if attempts * 30_000 <= u64::MAX {
        attempts * 30_000
    } else {
        u64::MAX as int
    }
}

/// Decides on the next request after `attempts` failed ones, of `limit`
/// allowed.
pub fn next_attempt(attempts: usize, limit: usize) -> (next: Attempt)
    ensures
        next == if attempts < limit {
            Attempt::After(backoff_millis(attempts) as u64)
        } else {
            Attempt::GiveUp
        },
{
    if attempts < limit {
        let wait: u64 = match (attempts as u64).checked_mul(30_000) {
            Some(w) => w,
            None => u64::MAX,
        };
        Attempt::After(wait)
    } else {
        Attempt::GiveUp
    }
}

/// The failure of a request that was given up.
pub fn attempts_exceeded() -> (e: Error)
    ensures
        e.is_other("exceeded total request attempts"@),
{
    Error::other("exceeded total request attempts")
}

} // verus!
