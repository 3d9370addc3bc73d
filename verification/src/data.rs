//! The stored schedule: times of day, switch states and flips.

use crate::clock::{now, Moment};
use crate::error::Error;
use vstd::prelude::*;

verus! {

/// Which half of the day a [`Time`] falls in.
#[derive(Clone, Copy, Debug, PartialEq, Eq, Structural)]
pub enum TimeOfDay {
    Am,
    Pm,
}

impl TimeOfDay {
    /// The number under which the variant is stored.
    pub open spec fn code(self) -> int {
        match self {
            TimeOfDay::Am => 0,
            TimeOfDay::Pm => 1,
        }
    }

    /// The variant stored under `i`, if there is one.
    pub open spec fn of_code(i: int) -> Option<TimeOfDay> {
        if i == 0 {
            Some(TimeOfDay::Am)
        } else if i == 1 {
            Some(TimeOfDay::Pm)
        } else {
            None
        }
    }

    /// Reading back what was stored gives the variant that was stored.
    pub proof fn lemma_code_round_trip(self)
        ensures
            TimeOfDay::of_code(self.code()) == Some(self),
    {
    }

    /// The number under which the variant is stored.
    pub fn for_db(&self) -> (i: i32)
        ensures
            i == self.code(),
    {
        match self {
            TimeOfDay::Am => 0,
            TimeOfDay::Pm => 1,
        }
    }

    /// The variant stored under `i`; a number that stands for none is
    /// refused by name and value.
    pub fn from_db(i: i32) -> (r: Result<TimeOfDay, Error>)
        ensures
            match r {
                Ok(tod) => TimeOfDay::of_code(i as int) == Some(tod),
                Err(e) => TimeOfDay::of_code(i as int) is None && e.is_bad_code("TimeOfDay"@, i),
            },
    {
        match i {
            0 => Ok(TimeOfDay::Am),
            1 => Ok(TimeOfDay::Pm),
            _ => Err(Error::_enum("TimeOfDay", i)),
        }
    }
}

/// What a [`Time`] was derived from.
#[derive(Clone, Copy, Debug, PartialEq, Eq, Structural)]
pub enum TimeKind {
    Custom,
    Dawn,
    Sunrise,
    Noon,
    Sunset,
    Dusk,
    Midnight,
}

impl TimeKind {
    /// The number under which the variant is stored.
    pub open spec fn code(self) -> int {
        match self {
            TimeKind::Custom => 0,
            TimeKind::Dawn => 1,
            TimeKind::Sunrise => 2,
            TimeKind::Noon => 3,
            TimeKind::Sunset => 4,
            TimeKind::Dusk => 5,
            TimeKind::Midnight => 6,
        }
    }

    /// The variant stored under `i`, if there is one.
    pub open spec fn of_code(i: int) -> Option<TimeKind> {
        if i == 0 {
            Some(TimeKind::Custom)
        } else if i == 1 {
            Some(TimeKind::Dawn)
        } else if i == 2 {
            Some(TimeKind::Sunrise)
        } else if i == 3 {
            Some(TimeKind::Noon)
        } else if i == 4 {
            Some(TimeKind::Sunset)
        } else if i == 5 {
            Some(TimeKind::Dusk)
        } else if i == 6 {
            Some(TimeKind::Midnight)
        } else {
            None
        }
    }

    /// Reading back what was stored gives the variant that was stored.
    pub proof fn lemma_code_round_trip(self)
        ensures
            TimeKind::of_code(self.code()) == Some(self),
    {
    }

    /// The number under which the variant is stored.
    pub fn for_db(&self) -> (i: i32)
        ensures
            i == self.code(),
    {
        match self {
            TimeKind::Custom => 0,
            TimeKind::Dawn => 1,
            TimeKind::Sunrise => 2,
            TimeKind::Noon => 3,
            TimeKind::Sunset => 4,
            TimeKind::Dusk => 5,
            TimeKind::Midnight => 6,
        }
    }

    /// The variant stored under `i`; a number that stands for none is
    /// refused by name and value.
    pub fn from_db(i: i32) -> (r: Result<TimeKind, Error>)
        ensures
            match r {
                Ok(kind) => TimeKind::of_code(i as int) == Some(kind),
                Err(e) => TimeKind::of_code(i as int) is None && e.is_bad_code("TimeKind"@, i),
            },
    {
        match i {
            0 => Ok(TimeKind::Custom),
            1 => Ok(TimeKind::Dawn),
            2 => Ok(TimeKind::Sunrise),
            3 => Ok(TimeKind::Noon),
            4 => Ok(TimeKind::Sunset),
            5 => Ok(TimeKind::Dusk),
            6 => Ok(TimeKind::Midnight),
            _ => Err(Error::_enum("TimeKind", i)),
        }
    }
}

/// The state a switch is put in.
#[derive(Clone, Copy, Debug, PartialEq, Eq, Structural)]
pub enum SwitchState {
    Off,
    On,
}

impl SwitchState {
    /// The number under which the variant is stored.
    pub open spec fn code(self) -> int {
        match self {
            SwitchState::Off => 0,
            SwitchState::On => 1,
        }
    }

    /// The variant stored under `i`, if there is one.
    pub open spec fn of_code(i: int) -> Option<SwitchState> {
        if i == 0 {
            Some(SwitchState::Off)
        } else if i == 1 {
            Some(SwitchState::On)
        } else {
            None
        }
    }

    /// Reading back what was stored gives the variant that was stored.
    pub proof fn lemma_code_round_trip(self)
        ensures
            SwitchState::of_code(self.code()) == Some(self),
    {
    }

    /// The number under which the variant is stored.
    pub fn for_db(&self) -> (i: i32)
        ensures
            i == self.code(),
    {
        match self {
            SwitchState::Off => 0,
            SwitchState::On => 1,
        }
    }

    /// The variant stored under `i`; a number that stands for none is
    /// refused by name and value.
    pub fn from_db(i: i32) -> (r: Result<SwitchState, Error>)
        ensures
            match r {
                Ok(state) => SwitchState::of_code(i as int) == Some(state),
                Err(e) => SwitchState::of_code(i as int) is None && e.is_bad_code(
                    "SwitchState"@,
                    i,
                ),
            },
    {
        match i {
            0 => Ok(SwitchState::Off),
            1 => Ok(SwitchState::On),
            _ => Err(Error::_enum("SwitchState", i)),
        }
    }
}

/// A time of day on the twelve-hour clock.
///
/// A stored time has its hour in 1 to 12 and its minute in 0 to 59; the type
/// does not enforce it, and every function here is defined on all values.
#[derive(Clone, Copy, Debug, PartialEq, Eq, Structural)]
pub struct Time {
    pub hour: i32,
    pub minute: i32,
    pub tod: TimeOfDay,
    pub kind: TimeKind,
    /// One bit per weekday on which the time applies.
    pub day_of_week: i32,
}

impl Time {
    /// The hour on the 24-hour clock: 12 more than `hour` in the afternoon.
    pub open spec fn hour24(self) -> int {
        if self.tod == TimeOfDay::Pm {
            self.hour + 12
        } else {
            self.hour as int
        }
    }

    /// The minutes from midnight to this time of day.
    pub open spec fn minute_of_day(self) -> int {
        self.hour24() * 60 + self.minute
    }

    /// The time is due at `now`: its 24-hour hour is no later than the hour
    /// of `now`, and its minute is no later than the minute of `now`.
    pub open spec fn due_by(self, now: Moment) -> bool {
        self.hour24() <= now.hour && self.minute <= now.minute
    }

    /// The time of day has been reached at `now`, by the minute.
    pub open spec fn elapsed_by(self, now: Moment) -> bool {
        self.minute_of_day() <= now.hour * 60 + now.minute
    }

    /// A time that is due has been reached. The converse fails: at 10:15 the
    /// time 9:30 has been reached and is not due, its minute being later than
    /// the clock's.
    pub proof fn lemma_due_has_elapsed(self, now: Moment)
        requires
            self.due_by(now),
        ensures
            self.elapsed_by(now),
    {
    }

    /// The time as read from its stored numbers, if `tod` and `kind` name
    /// variants.
    pub open spec fn of_codes(hour: i32, minute: i32, tod: i32, kind: i32, dow: i32) -> Option<
        Time,
    > {
        match (TimeOfDay::of_code(tod as int), TimeKind::of_code(kind as int)) {
            (Some(t), Some(k)) => Some(
                Time { hour, minute, tod: t, kind: k, day_of_week: dow },
            ),
            _ => None,
        }
    }

    /// The failure that reading the stored numbers ends in: the half of the
    /// day is read first, then the kind.
    pub open spec fn bad_codes(tod: i32, kind: i32, e: Error) -> bool {
        if TimeOfDay::of_code(tod as int) is None {
            e.is_bad_code("TimeOfDay"@, tod)
        } else {
            TimeKind::of_code(kind as int) is None && e.is_bad_code("TimeKind"@, kind)
        }
    }

    /// The time that the stored numbers stand for. The hour, the minute and
    /// the weekdays are taken as they are.
    pub fn from_db(hour: i32, minute: i32, tod: i32, kind: i32, dow: i32) -> (r: Result<
        Time,
        Error,
    >)
        ensures
            match r {
                Ok(time) => Time::of_codes(hour, minute, tod, kind, dow) == Some(time),
                Err(e) => Time::of_codes(hour, minute, tod, kind, dow) is None && Time::bad_codes(
                    tod,
                    kind,
                    e,
                ),
            },
    {
        let tod = match TimeOfDay::from_db(tod) {
            Ok(t) => t,
            Err(e) => {
                return Err(e);
            },
        };
        let kind = match TimeKind::from_db(kind) {
            Ok(k) => k,
            Err(e) => {
                return Err(e);
            },
        };
        Ok(Time::new(hour, minute, tod, kind, dow))
    }

    /// The time with the given fields.
    pub fn new(hour: i32, minute: i32, tod: TimeOfDay, kind: TimeKind, dow: i32) -> (time: Time)
        ensures
            time == (Time { hour, minute, tod, kind, day_of_week: dow }),
    {
        Time { hour, minute, tod, kind, day_of_week: dow }
    }

    /// Whether the time is due at `now`.
    pub fn lte(&self, now: &Moment) -> (due: bool)
        ensures
            due == self.due_by(*now),
    {
        let hour: i64 = if self.tod == TimeOfDay::Pm {
            self.hour as i64 + 12
        } else {
            self.hour as i64
        };
        hour <= now.hour as i64 && self.minute as i64 <= now.minute as i64
    }

    /// The minutes from midnight to this time of day.
    pub fn minutes(&self) -> (m: i64)
        ensures
            m == self.minute_of_day(),
    {
        let hour: i64 = if self.tod == TimeOfDay::Pm {
            self.hour as i64 + 12
        } else {
            self.hour as i64
        };
        hour * 60 + self.minute as i64
    }
}

/// One scheduled toggle of a switch.
#[derive(Clone, Copy, Debug, PartialEq, Eq, Structural)]
pub struct Flip {
    pub id: i32,
    pub direction: SwitchState,
    pub time: Time,
    pub switch_id: i32,
    pub remote_id: i32,
}

/// One pending flip as it is stored: numbers only.
#[derive(Clone, Copy, Debug, PartialEq, Eq, Structural)]
pub struct FlipRow {
    pub id: i32,
    pub direction: i32,
    pub hour: i32,
    pub min: i32,
    pub tod: i32,
    pub kind: i32,
    pub dow: i32,
    pub switch_id: i32,
    pub remote_id: i32,
}

impl Flip {
    /// The flip that the row stands for, if its numbers name variants.
    pub open spec fn of_row(row: FlipRow) -> Option<Flip> {
        match (
            Time::of_codes(row.hour, row.min, row.tod, row.kind, row.dow),
            SwitchState::of_code(row.direction as int),
        ) {
            (Some(time), Some(direction)) => Some(
                Flip {
                    id: row.id,
                    direction,
                    time,
                    switch_id: row.switch_id,
                    remote_id: row.remote_id,
                },
            ),
            _ => None,
        }
    }

    /// The failure that reading the row ends in: the time is read first,
    /// then the direction.
    pub open spec fn bad_row(row: FlipRow, e: Error) -> bool {
        if Time::of_codes(row.hour, row.min, row.tod, row.kind, row.dow) is None {
            Time::bad_codes(row.tod, row.kind, e)
        } else {
            SwitchState::of_code(row.direction as int) is None && e.is_bad_code(
                "SwitchState"@,
                row.direction,
            )
        }
    }

    /// The flip that the stored numbers stand for.
    pub fn from_db(
        id: i32,
        direction: i32,
        hour: i32,
        min: i32,
        tod: i32,
        time_kind: i32,
        dow: i32,
        switch_id: i32,
        remote_id: i32,
    ) -> (r: Result<Flip, Error>)
        ensures
            ({
                let row = FlipRow {
                    id,
                    direction,
                    hour,
                    min,
                    tod,
                    kind: time_kind,
                    dow,
                    switch_id,
                    remote_id,
                };
                match r {
                    Ok(flip) => Flip::of_row(row) == Some(flip),
                    Err(e) => Flip::of_row(row) is None && Flip::bad_row(row, e),
                }
            }),
    {
        let time = match Time::from_db(hour, min, tod, time_kind, dow) {
            Ok(t) => t,
            Err(e) => {
                return Err(e);
            },
        };
        let direction = match SwitchState::from_db(direction) {
            Ok(d) => d,
            Err(e) => {
                return Err(e);
            },
        };
        Ok(Flip { id, direction, time, switch_id, remote_id })
    }
}

/// The flips that the rows stand for, in the rows' order. The first row
/// that cannot be read ends the reading with its failure.
pub fn get_flips(rows: &Vec<FlipRow>) -> (r: Result<Vec<Flip>, Error>)
    ensures
        match r {
            Ok(flips) => {
                &&& flips@.len() == rows@.len()
                &&& forall|i: int|
                    0 <= i < rows@.len() ==> Flip::of_row(#[trigger] rows@[i]) == Some(flips@[i])
            },
            Err(e) => exists|i: int|
                {
                    &&& 0 <= i < rows@.len()
                    &&& forall|j: int| 0 <= j < i ==> Flip::of_row(#[trigger] rows@[j]) is Some
                    &&& Flip::of_row(#[trigger] rows@[i]) is None
                    &&& Flip::bad_row(rows@[i], e)
                },
        },
{
    let mut ret: Vec<Flip> = Vec::with_capacity(rows.len());
    let mut i: usize = 0;
    while i < rows.len()
        invariant
            i <= rows@.len(),
            ret@.len() == i,
            forall|j: int| 0 <= j < i ==> Flip::of_row(#[trigger] rows@[j]) == Some(ret@[j]),
        decreases rows@.len() - i,
    {
        let row = rows[i];
        match Flip::from_db(
            row.id,
            row.direction,
            row.hour,
            row.min,
            row.tod,
            row.kind,
            row.dow,
            row.switch_id,
            row.remote_id,
        ) {
            Ok(flip) => {
                ret.push(flip);
            },
            Err(e) => {
                return Err(e);
            },
        }
        i += 1;
    }
    Ok(ret)
}

/// The bit that selects the flips of a weekday, the weekday counted in days
/// since Monday: 1 for Sunday, 2 for Monday, and so on to 64 for Saturday.
pub open spec fn dow_bit(weekday: u32) -> int {
    if weekday == 0 {
        2
    } else if weekday == 1 {
        4
    } else if weekday == 2 {
        8
    } else if weekday == 3 {
        16
    } else if weekday == 4 {
        32
    } else if weekday == 5 {
        64
    } else {
        1
    }
}

/// The bit that selects the flips of the weekday of `today`.
pub fn dow_of(today: &Moment) -> (bit: i32)
    ensures
        bit == dow_bit(today.weekday),
{
    match today.weekday {
        0 => 2,
        1 => 4,
        2 => 8,
        3 => 16,
        4 => 32,
        5 => 64,
        _ => 1,
    }
}

/// The bit that selects today's flips, by the wall clock.
pub fn get_dow() -> (bit: i32)
    ensures
        exists|weekday: u32| weekday < 7 && bit == #[trigger] dow_bit(weekday),
{
    let today = now();
    dow_of(&today)
}

} // verus!
