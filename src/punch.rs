use vstd::prelude::*;

use crate::card::CardType;
use crate::error::DecoderError;
use crate::time::{TimeOfDay, MILLIS_PER_DAY};

verus! {

#[derive(Debug, Clone, Copy, PartialEq, Eq, PartialOrd, Ord, Hash, Structural)]
pub enum DayOfWeek {
    Monday,
    Tuesday,
    Wednesday,
    Thursday,
    Friday,
    Saturday,
    Sunday,
}

/// The weekday numbered `i`, counting Monday as 0.
pub open spec fn day_of_week_of(i: int) -> Option<DayOfWeek> {
    if i == 0 {
        Some(DayOfWeek::Monday)
    } else if i == 1 {
        Some(DayOfWeek::Tuesday)
    } else if i == 2 {
        Some(DayOfWeek::Wednesday)
    } else if i == 3 {
        Some(DayOfWeek::Thursday)
    } else if i == 4 {
        Some(DayOfWeek::Friday)
    } else if i == 5 {
        Some(DayOfWeek::Saturday)
    } else if i == 6 {
        Some(DayOfWeek::Sunday)
    } else {
        None
    }
}

impl DayOfWeek {
    /// The weekday numbered `v` from Monday as 0; `None` past Sunday.
    pub fn from_repr(v: u8) -> (r: Option<DayOfWeek>)
        ensures
            r == day_of_week_of(v as int),
    {
        match v {
            0 => Some(DayOfWeek::Monday),
            1 => Some(DayOfWeek::Tuesday),
            2 => Some(DayOfWeek::Wednesday),
            3 => Some(DayOfWeek::Thursday),
            4 => Some(DayOfWeek::Friday),
            5 => Some(DayOfWeek::Saturday),
            6 => Some(DayOfWeek::Sunday),
            _ => None,
        }
    }
}

/// Which of four rolling weeks a punch belongs to.
#[derive(Debug, Clone, Copy, PartialEq, Eq, PartialOrd, Ord, Hash, Structural)]
pub enum WeekCounter {
    First,
    Second,
    Third,
    Fourth,
}

/// The week counter numbered `i`, counting the first as 0.
pub open spec fn week_counter_of(i: int) -> Option<WeekCounter> {
    if i == 0 {
        Some(WeekCounter::First)
    } else if i == 1 {
        Some(WeekCounter::Second)
    } else if i == 2 {
        Some(WeekCounter::Third)
    } else if i == 3 {
        Some(WeekCounter::Fourth)
    } else {
        None
    }
}

impl WeekCounter {
    /// The week counter numbered `v` from 0; `None` past the fourth.
    pub fn from_repr(v: u8) -> (r: Option<WeekCounter>)
        ensures
            r == week_counter_of(v as int),
    {
        match v {
            0 => Some(WeekCounter::First),
            1 => Some(WeekCounter::Second),
            2 => Some(WeekCounter::Third),
            3 => Some(WeekCounter::Fourth),
            _ => None,
        }
    }
}

/// A control punch: when, and at which control.
#[derive(Debug, Clone, Copy, PartialEq, Eq, PartialOrd, Ord, Hash, Structural)]
pub struct Punch {
    pub time: TimeOfDay,
    pub day_of_week: DayOfWeek,
    pub week_counter: WeekCounter,
    pub code: u16,
}

/// A punch recorded to the millisecond, without a control code.
#[derive(Debug, Clone, Copy, PartialEq, Eq, PartialOrd, Ord, Hash, Structural)]
pub struct SubSecondPunch {
    pub time: TimeOfDay,
    pub day_of_week: DayOfWeek,
    pub week_counter: WeekCounter,
}

/// A start or finish record; the top bit of its first byte tells which layout
/// it has.
#[derive(Debug, Clone, Copy, PartialEq, Eq, PartialOrd, Ord, Hash, Structural)]
pub enum StartOrFinishPunch {
    Normal(Punch),
    SubSecond(SubSecondPunch),
}

/// The raw seconds field of a packed time: bytes 2 and 3, big-endian.
pub open spec fn raw_seconds(data: Seq<u8>) -> int {
    data[2] as int * 256 + data[3] as int
}

/// A packed time whose seconds field is `0xEEEE` marks an unused slot.
pub open spec fn is_absent_punch(data: Seq<u8>) -> bool {
    raw_seconds(data) == 0xEEEE
}

/// Seconds from midnight: the raw seconds, with twelve hours added when the
/// low bit of byte 0 (afternoon) is set.
pub open spec fn punch_seconds(data: Seq<u8>) -> int {
    raw_seconds(data) + if data[0] & 1u8 == 1u8 {
        43_200int
    } else {
        0int
    }
}

/// The weekday number in bits 1 to 3 of byte 0, minus one, modulo seven.
pub open spec fn day_index(b0: u8) -> int {
    (((b0 & 0x0Eu8) >> 1u8) as int - 1) % 7
}

/// The week counter in bits 4 and 5 of byte 0.
pub open spec fn week_index(b0: u8) -> int {
    ((b0 & 0x30u8) >> 4u8) as int
}

/// The control code: byte 1, with bits 6 and 7 of byte 0 as its bits 8 and 9.
pub open spec fn punch_code(data: Seq<u8>) -> int {
    data[1] as int + (data[0] & 0xC0u8) as int * 4
}

/// The fraction of a second in byte 1 of a sub-second record, in milliseconds.
pub open spec fn sub_second_millis(b1: u8) -> int {
    b1 as int * 1000 / 255
}

/// What a control punch record (four bytes) decodes to.
pub open spec fn punch_spec(data: Seq<u8>) -> Result<Option<Punch>, DecoderError> {
    if is_absent_punch(data) {
        Ok(None)
    } else if raw_seconds(data) >= 43_200 {
        Err(DecoderError::InvalidPunchTime)
    } else {
        Ok(
            Some(
                Punch {
                    time: TimeOfDay { millis: (punch_seconds(data) * 1000) as u32 },
                    day_of_week: day_of_week_of(day_index(data[0])).unwrap(),
                    week_counter: week_counter_of(week_index(data[0])).unwrap(),
                    code: punch_code(data) as u16,
                },
            ),
        )
    }
}

/// What a sub-second record (four bytes) decodes to; the fraction of byte 1
/// is added to the time of day, which wraps at midnight.
pub open spec fn sub_second_punch_spec(data: Seq<u8>) -> Result<Option<SubSecondPunch>, DecoderError> {
    if is_absent_punch(data) {
        Ok(None)
    } else if raw_seconds(data) >= 43_200 {
        Err(DecoderError::InvalidPunchTime)
    } else {
        Ok(
            Some(
                SubSecondPunch {
                    time: TimeOfDay {
                        millis: ((punch_seconds(data) * 1000 + sub_second_millis(data[1]))
                            % MILLIS_PER_DAY as int) as u32,
                    },
                    day_of_week: day_of_week_of(day_index(data[0])).unwrap(),
                    week_counter: week_counter_of(week_index(data[0])).unwrap(),
                },
            ),
        )
    }
}

/// What a start or finish record decodes to.
pub open spec fn start_or_finish_spec(data: Seq<u8>) -> Result<Option<StartOrFinishPunch>, DecoderError> {
    if data[0] & 0x80u8 == 0 {
        match punch_spec(data) {
            Ok(Some(p)) => Ok(Some(StartOrFinishPunch::Normal(p))),
            Ok(None) => Ok(None),
            Err(e) => Err(e),
        }
    } else {
        match sub_second_punch_spec(data) {
            Ok(Some(p)) => Ok(Some(StartOrFinishPunch::SubSecond(p))),
            Ok(None) => Ok(None),
            Err(e) => Err(e),
        }
    }
}

/// The parts that all punch layouts share: seconds from midnight, weekday and
/// week counter.
fn decode_base(data: [u8; 4]) -> (r: Result<Option<(u32, DayOfWeek, WeekCounter)>, DecoderError>)
    ensures
        is_absent_punch(data@) ==> r == Ok::<Option<(u32, DayOfWeek, WeekCounter)>, DecoderError>(
            None,
        ),
        !is_absent_punch(data@) && raw_seconds(data@) >= 43_200 ==> r == Err::<
            Option<(u32, DayOfWeek, WeekCounter)>,
            DecoderError,
        >(DecoderError::InvalidPunchTime),
        !is_absent_punch(data@) && raw_seconds(data@) < 43_200 ==> (r matches Ok(Some(
            (seconds, day, week),
        )) && seconds == punch_seconds(data@) && Some(day) == day_of_week_of(day_index(data@[0]))
            && Some(week) == week_counter_of(week_index(data@[0]))),
{
    let seconds: u16 = (data[2] as u16) * 256 + (data[3] as u16);
    if seconds == 0xEEEE {
        return Ok(None);
    } else if seconds >= 43_200 {
        return Err(DecoderError::InvalidPunchTime);
    }
    let b0 = data[0];
    let mut total: u32 = seconds as u32;
    if b0 & 1 == 1 {
        total = total + 43_200;
    }
    let day_field: u8 = (b0 & 0x0E) >> 1;
    let week_field: u8 = (b0 & 0x30) >> 4;
    assert(day_field <= 7) by {
        assert((b0 & 0x0Eu8) >> 1u8 <= 7u8) by (bit_vector);
    }
    assert(week_field <= 3) by {
        assert((b0 & 0x30u8) >> 4u8 <= 3u8) by (bit_vector);
    }
    // The masks keep both fields in range: the weekday index is taken modulo
    // seven and the week counter has two bits, so both lookups succeed.
    let day = DayOfWeek::from_repr((day_field + 6) % 7).unwrap();
    let week = WeekCounter::from_repr(week_field).unwrap();
    Ok(Some((total, day, week)))
}

impl Punch {
    /// Decodes a control punch record; `None` for an unused slot.
    pub fn decode_punch(card_type: CardType, data: [u8; 4]) -> (r: Result<Option<Punch>, DecoderError>)
        ensures
            r == punch_spec(data@),
    {
        match decode_base(data) {
            Err(e) => Err(e),
            Ok(None) => Ok(None),
            Ok(Some((seconds, day_of_week, week_counter))) => {
                let b0 = data[0];
                assert(b0 & 0xC0u8 <= 0xC0u8) by (bit_vector);
                let code: u16 = (data[1] as u16) + ((b0 & 0xC0) as u16) * 4;
                Ok(Some(Punch { time: TimeOfDay { millis: seconds * 1000 }, day_of_week, week_counter, code }))
            },
        }
    }
}

impl SubSecondPunch {
    /// Decodes a sub-second record; `None` for an unused slot.
    pub fn decode_punch(card_type: CardType, data: [u8; 4]) -> (r: Result<
        Option<SubSecondPunch>,
        DecoderError,
    >)
        ensures
            r == sub_second_punch_spec(data@),
    {
        match decode_base(data) {
            Err(e) => Err(e),
            Ok(None) => Ok(None),
            Ok(Some((seconds, day_of_week, week_counter))) => {
                let fraction: u32 = (data[1] as u32) * 1000 / 255;
                let millis: u32 = (seconds * 1000 + fraction) % MILLIS_PER_DAY;
                Ok(Some(SubSecondPunch { time: TimeOfDay { millis }, day_of_week, week_counter }))
            },
        }
    }
}

impl StartOrFinishPunch {
    /// Decodes a start or finish record by the layout that its top bit names.
    pub fn decode_punch(card_type: CardType, data: [u8; 4]) -> (r: Result<
        Option<StartOrFinishPunch>,
        DecoderError,
    >)
        ensures
            r == start_or_finish_spec(data@),
    {
        if data[0] & 0x80 == 0 {
            match Punch::decode_punch(card_type, data) {
                Ok(Some(p)) => Ok(Some(StartOrFinishPunch::Normal(p))),
                Ok(None) => Ok(None),
                Err(e) => Err(e),
            }
        } else {
            match SubSecondPunch::decode_punch(card_type, data) {
                Ok(Some(p)) => Ok(Some(StartOrFinishPunch::SubSecond(p))),
                Ok(None) => Ok(None),
                Err(e) => Err(e),
            }
        }
    }
}

/// A record whose seconds field is `0xEEEE` decodes to no punch in every
/// layout, whatever its other bytes hold.
pub proof fn lemma_absent_punch(data: Seq<u8>)
    requires
        data.len() == 4,
        data[2] == 0xEE,
        data[3] == 0xEE,
    ensures
        punch_spec(data) == Ok::<Option<Punch>, DecoderError>(None),
        sub_second_punch_spec(data) == Ok::<Option<SubSecondPunch>, DecoderError>(None),
        start_or_finish_spec(data) == Ok::<Option<StartOrFinishPunch>, DecoderError>(None),
{
}

/// Every decoded punch lies within the day, and its time is the raw seconds
/// (below twelve hours) plus twelve hours when the afternoon bit is set.
pub proof fn lemma_punch_time_bounds(data: Seq<u8>)
    requires
        data.len() == 4,
    ensures
        punch_spec(data) matches Ok(Some(p)) ==> {
            &&& p.time.is_valid()
            &&& raw_seconds(data) < 43_200
            &&& p.time.millis == (raw_seconds(data) + if data[0] & 1u8 == 1u8 {
                43_200int
            } else {
                0int
            }) * 1000
        },
        sub_second_punch_spec(data) matches Ok(Some(p)) ==> p.time.is_valid(),
        start_or_finish_spec(data) matches Ok(Some(StartOrFinishPunch::Normal(p))) ==> p.time.is_valid(),
        start_or_finish_spec(data) matches Ok(Some(StartOrFinishPunch::SubSecond(p))) ==> p.time.is_valid(),
{
}

} // verus!
