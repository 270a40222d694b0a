//! Alarm support: the two alarms' parameters, their register encoding and decoding,
//! and the driver operations that set and read them.

use vstd::prelude::*;
use crate::bcd::{bcd_value, decimal_to_packed_bcd, packed_bcd, packed_bcd_to_decimal};
use crate::device::{
    read_error, reads_in_order, reads_succeeded, values_read, Ds323x,
};
use crate::error::Error;
use crate::hours::{hour_in_range, hours_from_register, hours_of_register, hours_register_value, hours_to_register, Hours};
use crate::interface::{ReadData, WriteData};
use crate::registers::{
    ALARM1_DAY_DATE, ALARM1_HOURS, ALARM1_INT_EN, ALARM1_MINUTES, ALARM1_SECONDS, ALARM2_DAY_DATE,
    ALARM2_HOURS, ALARM2_INT_EN, ALARM2_MINUTES, ALARM_MATCH, CONTROL, WEEKDAY,
};
use crate::time::TimeOfDay;

verus! {

/// Parameters for setting Alarm1 on a day of the month
///
/// Depending on the matching strategy, some fields may not be relevant. In this
/// case, invalid values are ignored and the minimum valid values are used instead to
/// configure the alarm:
/// - Second, minute and hour: 0
/// - Day: 1
#[derive(Debug, Clone, Copy, PartialEq)]
pub struct DayAlarm1 {
    /// Day of the month [1-31]
    pub day: u8,
    /// Hour
    pub hour: Hours,
    /// Minute [0-59]
    pub minute: u8,
    /// Second [0-59]
    pub second: u8,
}

/// Parameters for setting Alarm1 on a weekday
///
/// Depending on the matching strategy, some fields may not be relevant. In this
/// case, invalid values are ignored and the minimum valid values are used instead to
/// configure the alarm:
/// - Second, minute and hour: 0
/// - Weekday: 1
#[derive(Debug, Clone, Copy, PartialEq)]
pub struct WeekdayAlarm1 {
    /// Weekday [1-7]
    pub weekday: u8,
    /// Hour
    pub hour: Hours,
    /// Minute [0-59]
    pub minute: u8,
    /// Second [0-59]
    pub second: u8,
}

/// Alarm1 trigger rate
#[derive(Debug, Clone, Copy, PartialEq, Eq, Structural)]
pub enum Alarm1Matching {
    /// Alarm once per second.
    OncePerSecond,
    /// Alarm when seconds match.
    SecondsMatch,
    /// Alarm when minutes and seconds match.
    MinutesAndSecondsMatch,
    /// Alarm when hours, minutes and seconds match.
    HoursMinutesAndSecondsMatch,
    /// Alarm when date/weekday, hours, minutes and seconds match.
    AllMatch,
}

/// Parameters for setting Alarm2 on a day of the month
///
/// Depending on the matching strategy, some fields may not be relevant. In this
/// case, invalid values are ignored and the minimum valid values are used instead to
/// configure the alarm:
/// - Minute and hour: 0
/// - Day: 1
#[derive(Debug, Clone, Copy, PartialEq)]
pub struct DayAlarm2 {
    /// Day of month [1-31]
    pub day: u8,
    /// Hour
    pub hour: Hours,
    /// Minute [0-59]
    pub minute: u8,
}

/// Parameters for setting Alarm2 on a weekday
///
/// Depending on the matching strategy, some fields may not be relevant. In this
/// case, invalid values are ignored and the minimum valid values are used instead to
/// configure the alarm:
/// - Minute and hour: 0
/// - Weekday: 1
#[derive(Debug, Clone, Copy, PartialEq)]
pub struct WeekdayAlarm2 {
    /// Weekday [1-7]
    pub weekday: u8,
    /// Hour
    pub hour: Hours,
    /// Minute [0-59]
    pub minute: u8,
}

/// Alarm2 trigger rate
#[derive(Debug, Clone, Copy, PartialEq, Eq, Structural)]
pub enum Alarm2Matching {
    /// Alarm once per minute. (00 seconds of every minute)
    OncePerMinute,
    /// Alarm when minutes match.
    MinutesMatch,
    /// Alarm when hours and minutes match.
    HoursAndMinutesMatch,
    /// Alarm when date/weekday, hours and minutes match.
    AllMatch,
}

// ---------------------------------------------------------------------------
// The model: which fields a matching strategy compares, and the register bytes.
// ---------------------------------------------------------------------------

/// How many of alarm 1's fields (second, minute, hour, day/weekday, in this
/// order) take part in the match.
pub open spec fn alarm1_fields_compared(matching: Alarm1Matching) -> int {
    match matching {
        Alarm1Matching::OncePerSecond => 0,
        Alarm1Matching::SecondsMatch => 1,
        Alarm1Matching::MinutesAndSecondsMatch => 2,
        Alarm1Matching::HoursMinutesAndSecondsMatch => 3,
        Alarm1Matching::AllMatch => 4,
    }
}

/// How many of alarm 2's fields (minute, hour, day/weekday, in this order)
/// take part in the match.
pub open spec fn alarm2_fields_compared(matching: Alarm2Matching) -> int {
    match matching {
        Alarm2Matching::OncePerMinute => 0,
        Alarm2Matching::MinutesMatch => 1,
        Alarm2Matching::HoursAndMinutesMatch => 2,
        Alarm2Matching::AllMatch => 3,
    }
}

/// The mask bit of a field's register: clear when the field is compared.
pub open spec fn mask_bit(compared: bool) -> u8 {
    if compared {
        0
    } else {
        ALARM_MATCH
    }
}

/// A minute or second as it is written: itself in [0-59], else 0.
pub open spec fn amended_minute_or_second(value: u8) -> u8 {
    if value > 59 {
        0
    } else {
        value
    }
}

/// A day of the month as it is written: itself in [1-31], else 1.
pub open spec fn amended_day(day: u8) -> u8 {
    if day < 1 || day > 31 {
        1
    } else {
        day
    }
}

/// A weekday as it is written: itself in [1-7], else 1.
pub open spec fn amended_weekday(weekday: u8) -> u8 {
    if weekday < 1 || weekday > 7 {
        1
    } else {
        weekday
    }
}

/// An hour as it is written: itself when in range, else the least hour of its format.
pub open spec fn amended_hour(hours: Hours) -> Hours {
    if hour_in_range(hours) {
        hours
    } else {
        match hours {
            Hours::H24(_) => Hours::H24(0),
            Hours::AM(_) => Hours::AM(1),
            Hours::PM(_) => Hours::PM(1),
        }
    }
}

/// Whether alarm 1 is refused: a field that `matching` compares is out of range.
pub open spec fn alarm1_refused(second: u8, minute: u8, hour: Hours, day_in_range: bool, matching: Alarm1Matching) -> bool {
    let compared = alarm1_fields_compared(matching);
    ||| (compared > 0 && second > 59)
    ||| (compared > 1 && minute > 59)
    ||| (compared > 2 && !hour_in_range(hour))
    ||| (compared > 3 && !day_in_range)
}

/// Whether alarm 2 is refused: a field that `matching` compares is out of range.
pub open spec fn alarm2_refused(minute: u8, hour: Hours, day_in_range: bool, matching: Alarm2Matching) -> bool {
    let compared = alarm2_fields_compared(matching);
    ||| (compared > 0 && minute > 59)
    ||| (compared > 1 && !hour_in_range(hour))
    ||| (compared > 2 && !day_in_range)
}

/// The bytes written for alarm 1: the address of its first register, then the
/// seconds, minutes, hours and day/date registers, each with its mask bit;
/// `day_register` is the day/date register without its mask bit.
pub open spec fn alarm1_payload(second: u8, minute: u8, hour: Hours, day_register: u8, matching: Alarm1Matching) -> Seq<u8> {
    let compared = alarm1_fields_compared(matching);
    seq![
        ALARM1_SECONDS,
        packed_bcd(amended_minute_or_second(second)) | mask_bit(0 < compared),
        packed_bcd(amended_minute_or_second(minute)) | mask_bit(1 < compared),
        hours_register_value(amended_hour(hour)) | mask_bit(2 < compared),
        day_register | mask_bit(3 < compared),
    ]
}

/// The bytes written for alarm 2: the address of its first register, then the
/// minutes, hours and day/date registers, each with its mask bit;
/// `day_register` is the day/date register without its mask bit.
pub open spec fn alarm2_payload(minute: u8, hour: Hours, day_register: u8, matching: Alarm2Matching) -> Seq<u8> {
    let compared = alarm2_fields_compared(matching);
    seq![
        ALARM2_MINUTES,
        packed_bcd(amended_minute_or_second(minute)) | mask_bit(0 < compared),
        hours_register_value(amended_hour(hour)) | mask_bit(1 < compared),
        day_register | mask_bit(2 < compared),
    ]
}

/// Whether `set_alarm1_day` refuses `when` under `matching`.
pub open spec fn day_alarm1_refused(when: DayAlarm1, matching: Alarm1Matching) -> bool {
    alarm1_refused(when.second, when.minute, when.hour, 1 <= when.day <= 31, matching)
}

/// The bytes that `set_alarm1_day` writes.
pub open spec fn day_alarm1_payload(when: DayAlarm1, matching: Alarm1Matching) -> Seq<u8> {
    alarm1_payload(when.second, when.minute, when.hour, packed_bcd(amended_day(when.day)), matching)
}

/// Whether `set_alarm1_weekday` refuses `when` under `matching`.
pub open spec fn weekday_alarm1_refused(when: WeekdayAlarm1, matching: Alarm1Matching) -> bool {
    alarm1_refused(when.second, when.minute, when.hour, 1 <= when.weekday <= 7, matching)
}

/// The bytes that `set_alarm1_weekday` writes: the day/date register holds the
/// weekday with the weekday flag.
pub open spec fn weekday_alarm1_payload(when: WeekdayAlarm1, matching: Alarm1Matching) -> Seq<u8> {
    alarm1_payload(when.second, when.minute, when.hour, packed_bcd(amended_weekday(when.weekday)) | WEEKDAY, matching)
}

/// Whether `set_alarm2_day` refuses `when` under `matching`.
pub open spec fn day_alarm2_refused(when: DayAlarm2, matching: Alarm2Matching) -> bool {
    alarm2_refused(when.minute, when.hour, 1 <= when.day <= 31, matching)
}

/// The bytes that `set_alarm2_day` writes.
pub open spec fn day_alarm2_payload(when: DayAlarm2, matching: Alarm2Matching) -> Seq<u8> {
    alarm2_payload(when.minute, when.hour, packed_bcd(amended_day(when.day)), matching)
}

/// Whether `set_alarm2_weekday` refuses `when` under `matching`.
pub open spec fn weekday_alarm2_refused(when: WeekdayAlarm2, matching: Alarm2Matching) -> bool {
    alarm2_refused(when.minute, when.hour, 1 <= when.weekday <= 7, matching)
}

/// The bytes that `set_alarm2_weekday` writes: the day/date register holds the
/// weekday with the weekday flag.
pub open spec fn weekday_alarm2_payload(when: WeekdayAlarm2, matching: Alarm2Matching) -> Seq<u8> {
    alarm2_payload(when.minute, when.hour, packed_bcd(amended_weekday(when.weekday)) | WEEKDAY, matching)
}

/// The alarm at a time of day, as `set_alarm1_hms` and `set_alarm2_hm` build it.
pub open spec fn time_alarm1(when: TimeOfDay) -> DayAlarm1 {
    DayAlarm1 { day: 1, hour: Hours::H24(when.hour() as u8), minute: when.minute() as u8, second: when.second() as u8 }
}

/// The alarm at a time of day (without its seconds), as `set_alarm2_hm` builds it.
pub open spec fn time_alarm2(when: TimeOfDay) -> DayAlarm2 {
    DayAlarm2 { day: 1, hour: Hours::H24(when.hour() as u8), minute: when.minute() as u8 }
}

/// Whether a register's mask bit is set.
pub open spec fn is_masked(register: u8) -> bool {
    register & ALARM_MATCH != 0
}

/// The matching strategy that alarm 1's mask bits (seconds, minutes, hours,
/// day/date) stand for; `None` when all four are set.
pub open spec fn alarm1_matching_of_masks(seconds: bool, minutes: bool, hours: bool, day_date: bool) -> Option<Alarm1Matching> {
    if seconds && minutes && hours && day_date {
        None
    } else if seconds && minutes && hours {
        Some(Alarm1Matching::OncePerSecond)
    } else if minutes && hours {
        Some(Alarm1Matching::SecondsMatch)
    } else if hours {
        Some(Alarm1Matching::MinutesAndSecondsMatch)
    } else if day_date {
        Some(Alarm1Matching::HoursMinutesAndSecondsMatch)
    } else {
        Some(Alarm1Matching::AllMatch)
    }
}

/// The matching strategy that alarm 2's mask bits (minutes, hours, day/date)
/// stand for; `None` when all three are set.
pub open spec fn alarm2_matching_of_masks(minutes: bool, hours: bool, day_date: bool) -> Option<Alarm2Matching> {
    if minutes && hours && day_date {
        None
    } else if minutes && hours {
        Some(Alarm2Matching::OncePerMinute)
    } else if hours {
        Some(Alarm2Matching::MinutesMatch)
    } else if day_date {
        Some(Alarm2Matching::HoursAndMinutesMatch)
    } else {
        Some(Alarm2Matching::AllMatch)
    }
}

/// Alarm 1's configuration as its registers (seconds, minutes, hours,
/// day/date) hold it. Each field is read without its mask bit; the day is
/// read from the low six bits of the day/date register, whether that holds a
/// date or a weekday.
pub open spec fn alarm1_config_of(regs: Seq<u8>) -> Option<(DayAlarm1, Alarm1Matching)> {
    match alarm1_matching_of_masks(is_masked(regs[0]), is_masked(regs[1]), is_masked(regs[2]), is_masked(regs[3])) {
        None => None,
        Some(matching) => Some((
            DayAlarm1 {
                day: bcd_value(regs[3] & 0x3F),
                hour: hours_of_register(regs[2] & 0x7F),
                minute: bcd_value(regs[1] & 0x7F),
                second: bcd_value(regs[0] & 0x7F),
            },
            matching,
        )),
    }
}

/// Alarm 2's configuration as its registers (minutes, hours, day/date) hold it,
/// read as for alarm 1.
pub open spec fn alarm2_config_of(regs: Seq<u8>) -> Option<(DayAlarm2, Alarm2Matching)> {
    match alarm2_matching_of_masks(is_masked(regs[0]), is_masked(regs[1]), is_masked(regs[2])) {
        None => None,
        Some(matching) => Some((
            DayAlarm2 {
                day: bcd_value(regs[2] & 0x3F),
                hour: hours_of_register(regs[1] & 0x7F),
                minute: bcd_value(regs[0] & 0x7F),
            },
            matching,
        )),
    }
}

/// Alarm 1's registers in the order they are read: seconds, minutes, hours, day/date.
pub open spec fn alarm1_registers() -> Seq<u8> {
    seq![ALARM1_SECONDS, ALARM1_MINUTES, ALARM1_HOURS, ALARM1_DAY_DATE]
}

/// Alarm 2's registers in the order they are read: minutes, hours, day/date.
pub open spec fn alarm2_registers() -> Seq<u8> {
    seq![ALARM2_MINUTES, ALARM2_HOURS, ALARM2_DAY_DATE]
}

// ---------------------------------------------------------------------------
// Helpers
// ---------------------------------------------------------------------------

fn get_matching_mask_alarm1(matching: Alarm1Matching) -> (mask: [u8; 4])
    ensures
        forall|i: int| 0 <= i < 4 ==> #[trigger] mask@[i] == mask_bit(i < alarm1_fields_compared(matching)),
{
    let am: u8 = ALARM_MATCH;
    match matching {
        Alarm1Matching::OncePerSecond => [am, am, am, am],
        Alarm1Matching::SecondsMatch => [0, am, am, am],
        Alarm1Matching::MinutesAndSecondsMatch => [0, 0, am, am],
        Alarm1Matching::HoursMinutesAndSecondsMatch => [0, 0, 0, am],
        Alarm1Matching::AllMatch => [0, 0, 0, 0],
    }
}

fn get_matching_mask_alarm2(matching: Alarm2Matching) -> (mask: [u8; 3])
    ensures
        forall|i: int| 0 <= i < 3 ==> #[trigger] mask@[i] == mask_bit(i < alarm2_fields_compared(matching)),
{
    let am: u8 = ALARM_MATCH;
    match matching {
        Alarm2Matching::OncePerMinute => [am, am, am],
        Alarm2Matching::MinutesMatch => [0, am, am],
        Alarm2Matching::HoursAndMinutesMatch => [0, 0, am],
        Alarm2Matching::AllMatch => [0, 0, 0],
    }
}

/// The hour range and the hour amendment, written out by format.
proof fn lemma_hour_by_format(hours: Hours)
    ensures
        ((hours matches Hours::H24(h) && h <= 23) || (hours matches Hours::AM(h) && 1 <= h <= 12) || (hours matches Hours::PM(h) && 1 <= h <= 12)) == hour_in_range(hours),
        (if ((hours matches Hours::H24(h) && h <= 23) || (hours matches Hours::AM(h) && 1 <= h <= 12) || (hours matches Hours::PM(h) && 1 <= h <= 12)) { hours } else { match hours { Hours::H24(_) => Hours::H24(0), Hours::AM(_) => Hours::AM(1), Hours::PM(_) => Hours::PM(1) } }) == amended_hour(hours),
{
}

/// A register's mask bit is its top bit; clearing it, or the top two bits,
/// keeps the value modulo 128, or 64.
proof fn lemma_register_bits(x: u8)
    ensures
        (x & ALARM_MATCH != 0) == (x >= 0x80),
        x & 0x7F == x % 128,
        x & 0x3F == x % 64,
{
    assert((x & 0x80u8 != 0) == (x >= 0x80) && x & 0x7F == x % 128 && x & 0x3F == x % 64) by (bit_vector);
}

/// Or-ing in no bits leaves a byte as it is.
pub(crate) proof fn lemma_or_zero(x: u8)
    ensures
        x | 0u8 == x,
{
    assert(x | 0u8 == x) by (bit_vector);
}

/// Test if hour value is valid
pub fn is_hour_valid(hours: Hours) -> (valid: bool)
    ensures
        valid == hour_in_range(hours),
{
    match hours {
        Hours::H24(h) if h > 23 => false,
        Hours::AM(h) if !(1 <= h && h <= 12) => false,
        Hours::PM(h) if !(1 <= h && h <= 12) => false,
        _ => true,
    }
}

/// Amend invalid hour values
pub fn amend_hour(hours: Hours) -> (amended: Hours)
    ensures
        amended == amended_hour(hours),
        hour_in_range(amended),
{
    match hours {
        Hours::H24(h) if h > 23 => Hours::H24(0),
        Hours::H24(h) => Hours::H24(h),
        Hours::AM(h) if !(1 <= h && h <= 12) => Hours::AM(1),
        Hours::AM(h) => Hours::AM(h),
        Hours::PM(h) if !(1 <= h && h <= 12) => Hours::PM(1),
        Hours::PM(h) => Hours::PM(h),
    }
}


impl<DI, IC, E> Ds323x<DI, IC> where DI: ReadData<Error = Error<E>> + WriteData<Error = Error<E>> {
    /// Set Alarm1 for day of the month.
    ///
    /// Will return an `Error::InvalidInputData` if any of the used parameters
    /// (depending on the matching startegy) is out of range. Any unused
    /// parameter is set to the corresponding minimum valid value:
    /// - Second, minute, hour: 0
    /// - Day: 1
    pub fn set_alarm1_day(&mut self, when: DayAlarm1, matching: Alarm1Matching) -> (r: Result<(), Error<E>>)
        ensures
            day_alarm1_refused(when, matching) ==> {
                &&& r == Err::<(), Error<E>>(Error::InvalidInputData)
                &&& *final(self) == *old(self)
            },
            !day_alarm1_refused(when, matching) ==> {
                &&& final(self).writes() == old(self).writes().push((day_alarm1_payload(when, matching), r))
                &&& final(self).reads() == old(self).reads()
            },
            // A field that the matching compares and that is out of range is refused.
            (matching == Alarm1Matching::AllMatch && !(1 <= when.day <= 31)) ==> {
                &&& r == Err::<(), Error<E>>(Error::InvalidInputData)
                &&& *final(self) == *old(self)
            },
            ((matching == Alarm1Matching::AllMatch || matching == Alarm1Matching::HoursMinutesAndSecondsMatch) && !((when.hour matches Hours::H24(h) && h <= 23) || (when.hour matches Hours::AM(h) && 1 <= h <= 12) || (when.hour matches Hours::PM(h) && 1 <= h <= 12))) ==> {
                &&& r == Err::<(), Error<E>>(Error::InvalidInputData)
                &&& *final(self) == *old(self)
            },
            (matching != Alarm1Matching::OncePerSecond && matching != Alarm1Matching::SecondsMatch && when.minute > 59) ==> {
                &&& r == Err::<(), Error<E>>(Error::InvalidInputData)
                &&& *final(self) == *old(self)
            },
            (matching != Alarm1Matching::OncePerSecond && when.second > 59) ==> {
                &&& r == Err::<(), Error<E>>(Error::InvalidInputData)
                &&& *final(self) == *old(self)
            },
            // Otherwise the alarm is accepted, and the registers get the fields, each
            // masked where the matching ignores it; a field out of range, which the
            // matching then ignores, is written as its least valid value.
            !(matching == Alarm1Matching::AllMatch && !(1 <= when.day <= 31))
                && !((matching == Alarm1Matching::AllMatch || matching == Alarm1Matching::HoursMinutesAndSecondsMatch) && !((when.hour matches Hours::H24(h) && h <= 23) || (when.hour matches Hours::AM(h) && 1 <= h <= 12) || (when.hour matches Hours::PM(h) && 1 <= h <= 12)))
                && !(matching != Alarm1Matching::OncePerSecond && matching != Alarm1Matching::SecondsMatch && when.minute > 59)
                && !(matching != Alarm1Matching::OncePerSecond && when.second > 59) ==> {
                &&& final(self).writes() == old(self).writes().push((
                    seq![
                        ALARM1_SECONDS,
                        packed_bcd(if when.second <= 59 { when.second } else { 0u8 })
                            | (if matching == Alarm1Matching::OncePerSecond { 0x80u8 } else { 0u8 }),
                        packed_bcd(if when.minute <= 59 { when.minute } else { 0u8 })
                            | (if matching == Alarm1Matching::OncePerSecond || matching == Alarm1Matching::SecondsMatch { 0x80u8 } else { 0u8 }),
                        hours_register_value((if ((when.hour matches Hours::H24(h) && h <= 23) || (when.hour matches Hours::AM(h) && 1 <= h <= 12) || (when.hour matches Hours::PM(h) && 1 <= h <= 12)) { when.hour } else { match when.hour { Hours::H24(_) => Hours::H24(0), Hours::AM(_) => Hours::AM(1), Hours::PM(_) => Hours::PM(1) } }))
                            | (if matching == Alarm1Matching::AllMatch || matching == Alarm1Matching::HoursMinutesAndSecondsMatch { 0u8 } else { 0x80u8 }),
                        packed_bcd(if 1 <= when.day <= 31 { when.day } else { 1u8 }) | (if matching == Alarm1Matching::AllMatch { 0u8 } else { 0x80u8 }),
                    ],
                    r,
                ))
                &&& final(self).reads() == old(self).reads()
            },
    {
        proof {
            lemma_hour_by_format(when.hour);
        }
        let day_invalid = when.day < 1 || when.day > 31;
        let hour_invalid = !is_hour_valid(when.hour);
        let minute_invalid = when.minute > 59;
        let second_invalid = when.second > 59;

        let day = if day_invalid { 1 } else { when.day };
        let hour = amend_hour(when.hour);
        let minute = if minute_invalid { 0 } else { when.minute };
        let second = if second_invalid { 0 } else { when.second };

        if (matching == Alarm1Matching::AllMatch && (day_invalid || hour_invalid))
            || (hour_invalid && matching == Alarm1Matching::HoursMinutesAndSecondsMatch)
            || ((matching != Alarm1Matching::SecondsMatch
                && matching != Alarm1Matching::OncePerSecond)
                && minute_invalid)
            || (second_invalid && matching != Alarm1Matching::OncePerSecond)
        {
            return Err(Error::InvalidInputData);
        }

        let match_mask = get_matching_mask_alarm1(matching);
        let hours_register = match hours_to_register::<E>(hour) {
            Ok(v) => v,
            Err(e) => {
                return Err(e);
            },
        };
        let mut data = [
            ALARM1_SECONDS,
            decimal_to_packed_bcd(second) | match_mask[0],
            decimal_to_packed_bcd(minute) | match_mask[1],
            hours_register | match_mask[2],
            decimal_to_packed_bcd(day) | match_mask[3],
        ];
        assert(data@ =~= seq![
            ALARM1_SECONDS,
            packed_bcd(if when.second <= 59 { when.second } else { 0u8 })
                | (if matching == Alarm1Matching::OncePerSecond { 0x80u8 } else { 0u8 }),
            packed_bcd(if when.minute <= 59 { when.minute } else { 0u8 })
                | (if matching == Alarm1Matching::OncePerSecond || matching == Alarm1Matching::SecondsMatch { 0x80u8 } else { 0u8 }),
            hours_register_value((if ((when.hour matches Hours::H24(h) && h <= 23) || (when.hour matches Hours::AM(h) && 1 <= h <= 12) || (when.hour matches Hours::PM(h) && 1 <= h <= 12)) { when.hour } else { match when.hour { Hours::H24(_) => Hours::H24(0), Hours::AM(_) => Hours::AM(1), Hours::PM(_) => Hours::PM(1) } }))
                | (if matching == Alarm1Matching::AllMatch || matching == Alarm1Matching::HoursMinutesAndSecondsMatch { 0u8 } else { 0x80u8 }),
            packed_bcd(if 1 <= when.day <= 31 { when.day } else { 1u8 }) | (if matching == Alarm1Matching::AllMatch { 0u8 } else { 0x80u8 }),
        ]);
        assert(data@ =~= day_alarm1_payload(when, matching));
        self.write_data(&mut data)
    }

    /// Set Alarm1 for a time (fires when hours, minutes and seconds match).
    ///
    /// Will return an `Error::InvalidInputData` if any of the parameters is out of range.
    /// The day is not used by this matching strategy and is set to 1.
    pub fn set_alarm1_hms(&mut self, when: TimeOfDay) -> (r: Result<(), Error<E>>)
        ensures
            !day_alarm1_refused(time_alarm1(when), Alarm1Matching::HoursMinutesAndSecondsMatch),
            final(self).writes() == old(self).writes().push(
                (day_alarm1_payload(time_alarm1(when), Alarm1Matching::HoursMinutesAndSecondsMatch), r),
            ),
            final(self).reads() == old(self).reads(),
            // The alarm fires at the time itself, in the 24-hour format, on any day.
            final(self).writes() == old(self).writes().push((
                seq![
                    ALARM1_SECONDS,
                    packed_bcd(when.second() as u8),
                    packed_bcd(when.minute() as u8),
                    packed_bcd(when.hour() as u8),
                    0x81u8,
                ],
                r,
            )),
    {
        let alarm = DayAlarm1 {
            day: 1,
            hour: Hours::H24(when.hour() as u8),
            minute: when.minute() as u8,
            second: when.second() as u8,
        };
        let r = self.set_alarm1_day(alarm, Alarm1Matching::HoursMinutesAndSecondsMatch);
        proof {
            lemma_or_zero(packed_bcd(alarm.second));
            lemma_or_zero(packed_bcd(alarm.minute));
            lemma_or_zero(packed_bcd(alarm.hour->H24_0));
            assert(packed_bcd(1u8) | 0x80u8 == 0x81u8) by (bit_vector);
        }
        r
    }

    /// Set Alarm1 for weekday.
    ///
    /// Will return an `Error::InvalidInputData` if any of the used parameters
    /// (depending on the matching startegy) is out of range. Any unused
    /// parameter is set to the corresponding minimum valid value:
    /// - Second, minute, hour: 0
    /// - Weekday: 1
    pub fn set_alarm1_weekday(&mut self, when: WeekdayAlarm1, matching: Alarm1Matching) -> (r: Result<(), Error<E>>)
        ensures
            weekday_alarm1_refused(when, matching) ==> {
                &&& r == Err::<(), Error<E>>(Error::InvalidInputData)
                &&& *final(self) == *old(self)
            },
            !weekday_alarm1_refused(when, matching) ==> {
                &&& final(self).writes() == old(self).writes().push((weekday_alarm1_payload(when, matching), r))
                &&& final(self).reads() == old(self).reads()
            },
            // A field that the matching compares and that is out of range is refused.
            (matching == Alarm1Matching::AllMatch && !(1 <= when.weekday <= 7)) ==> {
                &&& r == Err::<(), Error<E>>(Error::InvalidInputData)
                &&& *final(self) == *old(self)
            },
            ((matching == Alarm1Matching::AllMatch || matching == Alarm1Matching::HoursMinutesAndSecondsMatch) && !((when.hour matches Hours::H24(h) && h <= 23) || (when.hour matches Hours::AM(h) && 1 <= h <= 12) || (when.hour matches Hours::PM(h) && 1 <= h <= 12))) ==> {
                &&& r == Err::<(), Error<E>>(Error::InvalidInputData)
                &&& *final(self) == *old(self)
            },
            (matching != Alarm1Matching::OncePerSecond && matching != Alarm1Matching::SecondsMatch && when.minute > 59) ==> {
                &&& r == Err::<(), Error<E>>(Error::InvalidInputData)
                &&& *final(self) == *old(self)
            },
            (matching != Alarm1Matching::OncePerSecond && when.second > 59) ==> {
                &&& r == Err::<(), Error<E>>(Error::InvalidInputData)
                &&& *final(self) == *old(self)
            },
            // Otherwise the alarm is accepted, and the registers get the fields, each
            // masked where the matching ignores it; a field out of range, which the
            // matching then ignores, is written as its least valid value.
            !(matching == Alarm1Matching::AllMatch && !(1 <= when.weekday <= 7))
                && !((matching == Alarm1Matching::AllMatch || matching == Alarm1Matching::HoursMinutesAndSecondsMatch) && !((when.hour matches Hours::H24(h) && h <= 23) || (when.hour matches Hours::AM(h) && 1 <= h <= 12) || (when.hour matches Hours::PM(h) && 1 <= h <= 12)))
                && !(matching != Alarm1Matching::OncePerSecond && matching != Alarm1Matching::SecondsMatch && when.minute > 59)
                && !(matching != Alarm1Matching::OncePerSecond && when.second > 59) ==> {
                &&& final(self).writes() == old(self).writes().push((
                    seq![
                        ALARM1_SECONDS,
                        packed_bcd(if when.second <= 59 { when.second } else { 0u8 })
                            | (if matching == Alarm1Matching::OncePerSecond { 0x80u8 } else { 0u8 }),
                        packed_bcd(if when.minute <= 59 { when.minute } else { 0u8 })
                            | (if matching == Alarm1Matching::OncePerSecond || matching == Alarm1Matching::SecondsMatch { 0x80u8 } else { 0u8 }),
                        hours_register_value((if ((when.hour matches Hours::H24(h) && h <= 23) || (when.hour matches Hours::AM(h) && 1 <= h <= 12) || (when.hour matches Hours::PM(h) && 1 <= h <= 12)) { when.hour } else { match when.hour { Hours::H24(_) => Hours::H24(0), Hours::AM(_) => Hours::AM(1), Hours::PM(_) => Hours::PM(1) } }))
                            | (if matching == Alarm1Matching::AllMatch || matching == Alarm1Matching::HoursMinutesAndSecondsMatch { 0u8 } else { 0x80u8 }),
                        packed_bcd(if 1 <= when.weekday <= 7 { when.weekday } else { 1u8 }) | WEEKDAY | (if matching == Alarm1Matching::AllMatch { 0u8 } else { 0x80u8 }),
                    ],
                    r,
                ))
                &&& final(self).reads() == old(self).reads()
            },
    {
        proof {
            lemma_hour_by_format(when.hour);
        }
        let weekday_invalid = when.weekday < 1 || when.weekday > 7;
        let hour_invalid = !is_hour_valid(when.hour);
        let minute_invalid = when.minute > 59;
        let second_invalid = when.second > 59;

        let weekday = if weekday_invalid { 1 } else { when.weekday };
        let hour = amend_hour(when.hour);
        let minute = if minute_invalid { 0 } else { when.minute };
        let second = if second_invalid { 0 } else { when.second };

        if ((hour_invalid || weekday_invalid) && matching == Alarm1Matching::AllMatch)
            || (hour_invalid && matching == Alarm1Matching::HoursMinutesAndSecondsMatch)
            || (minute_invalid
                && (matching != Alarm1Matching::OncePerSecond
                    && matching != Alarm1Matching::SecondsMatch))
            || (second_invalid && matching != Alarm1Matching::OncePerSecond)
        {
            return Err(Error::InvalidInputData);
        }
        let match_mask = get_matching_mask_alarm1(matching);
        let hours_register = match hours_to_register::<E>(hour) {
            Ok(v) => v,
            Err(e) => {
                return Err(e);
            },
        };
        let mut data = [
            ALARM1_SECONDS,
            decimal_to_packed_bcd(second) | match_mask[0],
            decimal_to_packed_bcd(minute) | match_mask[1],
            hours_register | match_mask[2],
            decimal_to_packed_bcd(weekday) | match_mask[3] | WEEKDAY,
        ];
        proof {
            let w = packed_bcd(weekday);
            let m = match_mask@[3];
            assert(w | m | 0x40u8 == (w | 0x40u8) | m) by (bit_vector);
        }
        assert(data@ =~= seq![
            ALARM1_SECONDS,
            packed_bcd(if when.second <= 59 { when.second } else { 0u8 })
                | (if matching == Alarm1Matching::OncePerSecond { 0x80u8 } else { 0u8 }),
            packed_bcd(if when.minute <= 59 { when.minute } else { 0u8 })
                | (if matching == Alarm1Matching::OncePerSecond || matching == Alarm1Matching::SecondsMatch { 0x80u8 } else { 0u8 }),
            hours_register_value((if ((when.hour matches Hours::H24(h) && h <= 23) || (when.hour matches Hours::AM(h) && 1 <= h <= 12) || (when.hour matches Hours::PM(h) && 1 <= h <= 12)) { when.hour } else { match when.hour { Hours::H24(_) => Hours::H24(0), Hours::AM(_) => Hours::AM(1), Hours::PM(_) => Hours::PM(1) } }))
                | (if matching == Alarm1Matching::AllMatch || matching == Alarm1Matching::HoursMinutesAndSecondsMatch { 0u8 } else { 0x80u8 }),
            packed_bcd(if 1 <= when.weekday <= 7 { when.weekday } else { 1u8 }) | WEEKDAY | (if matching == Alarm1Matching::AllMatch { 0u8 } else { 0x80u8 }),
        ]);
        assert(data@ =~= weekday_alarm1_payload(when, matching));
        self.write_data(&mut data)
    }

    /// Set Alarm2 for date (day of month).
    ///
    /// Will return an `Error::InvalidInputData` if any of the used parameters
    /// (depending on the matching startegy) is out of range. Any unused
    /// parameter is set to the corresponding minimum valid value:
    /// - Minute, hour: 0
    /// - Day: 1
    pub fn set_alarm2_day(&mut self, when: DayAlarm2, matching: Alarm2Matching) -> (r: Result<(), Error<E>>)
        ensures
            day_alarm2_refused(when, matching) ==> {
                &&& r == Err::<(), Error<E>>(Error::InvalidInputData)
                &&& *final(self) == *old(self)
            },
            !day_alarm2_refused(when, matching) ==> {
                &&& final(self).writes() == old(self).writes().push((day_alarm2_payload(when, matching), r))
                &&& final(self).reads() == old(self).reads()
            },
            // A field that the matching compares and that is out of range is refused.
            (matching == Alarm2Matching::AllMatch && !(1 <= when.day <= 31)) ==> {
                &&& r == Err::<(), Error<E>>(Error::InvalidInputData)
                &&& *final(self) == *old(self)
            },
            ((matching == Alarm2Matching::AllMatch || matching == Alarm2Matching::HoursAndMinutesMatch) && !((when.hour matches Hours::H24(h) && h <= 23) || (when.hour matches Hours::AM(h) && 1 <= h <= 12) || (when.hour matches Hours::PM(h) && 1 <= h <= 12))) ==> {
                &&& r == Err::<(), Error<E>>(Error::InvalidInputData)
                &&& *final(self) == *old(self)
            },
            (matching != Alarm2Matching::OncePerMinute && when.minute > 59) ==> {
                &&& r == Err::<(), Error<E>>(Error::InvalidInputData)
                &&& *final(self) == *old(self)
            },
            // Otherwise the alarm is accepted, and the registers get the fields, each
            // masked where the matching ignores it; a field out of range, which the
            // matching then ignores, is written as its least valid value.
            !(matching == Alarm2Matching::AllMatch && !(1 <= when.day <= 31))
                && !((matching == Alarm2Matching::AllMatch || matching == Alarm2Matching::HoursAndMinutesMatch) && !((when.hour matches Hours::H24(h) && h <= 23) || (when.hour matches Hours::AM(h) && 1 <= h <= 12) || (when.hour matches Hours::PM(h) && 1 <= h <= 12)))
                && !(matching != Alarm2Matching::OncePerMinute && when.minute > 59) ==> {
                &&& final(self).writes() == old(self).writes().push((
                    seq![
                        ALARM2_MINUTES,
                        packed_bcd(if when.minute <= 59 { when.minute } else { 0u8 })
                            | (if matching == Alarm2Matching::OncePerMinute { 0x80u8 } else { 0u8 }),
                        hours_register_value((if ((when.hour matches Hours::H24(h) && h <= 23) || (when.hour matches Hours::AM(h) && 1 <= h <= 12) || (when.hour matches Hours::PM(h) && 1 <= h <= 12)) { when.hour } else { match when.hour { Hours::H24(_) => Hours::H24(0), Hours::AM(_) => Hours::AM(1), Hours::PM(_) => Hours::PM(1) } }))
                            | (if matching == Alarm2Matching::AllMatch || matching == Alarm2Matching::HoursAndMinutesMatch { 0u8 } else { 0x80u8 }),
                        packed_bcd(if 1 <= when.day <= 31 { when.day } else { 1u8 }) | (if matching == Alarm2Matching::AllMatch { 0u8 } else { 0x80u8 }),
                    ],
                    r,
                ))
                &&& final(self).reads() == old(self).reads()
            },
    {
        proof {
            lemma_hour_by_format(when.hour);
        }
        let day_invalid = when.day < 1 || when.day > 31;
        let hour_invalid = !is_hour_valid(when.hour);
        let minute_invalid = when.minute > 59;

        let day = if day_invalid { 1 } else { when.day };
        let hour = amend_hour(when.hour);
        let minute = if minute_invalid { 0 } else { when.minute };

        if ((day_invalid || hour_invalid) && matching == Alarm2Matching::AllMatch)
            || (hour_invalid && matching == Alarm2Matching::HoursAndMinutesMatch)
            || (matching != Alarm2Matching::OncePerMinute && minute_invalid)
        {
            return Err(Error::InvalidInputData);
        }

        let match_mask = get_matching_mask_alarm2(matching);
        let hours_register = match hours_to_register::<E>(hour) {
            Ok(v) => v,
            Err(e) => {
                return Err(e);
            },
        };
        let mut data = [
            ALARM2_MINUTES,
            decimal_to_packed_bcd(minute) | match_mask[0],
            hours_register | match_mask[1],
            decimal_to_packed_bcd(day) | match_mask[2],
        ];
        assert(data@ =~= seq![
            ALARM2_MINUTES,
            packed_bcd(if when.minute <= 59 { when.minute } else { 0u8 })
                | (if matching == Alarm2Matching::OncePerMinute { 0x80u8 } else { 0u8 }),
            hours_register_value((if ((when.hour matches Hours::H24(h) && h <= 23) || (when.hour matches Hours::AM(h) && 1 <= h <= 12) || (when.hour matches Hours::PM(h) && 1 <= h <= 12)) { when.hour } else { match when.hour { Hours::H24(_) => Hours::H24(0), Hours::AM(_) => Hours::AM(1), Hours::PM(_) => Hours::PM(1) } }))
                | (if matching == Alarm2Matching::AllMatch || matching == Alarm2Matching::HoursAndMinutesMatch { 0u8 } else { 0x80u8 }),
            packed_bcd(if 1 <= when.day <= 31 { when.day } else { 1u8 }) | (if matching == Alarm2Matching::AllMatch { 0u8 } else { 0x80u8 }),
        ]);
        assert(data@ =~= day_alarm2_payload(when, matching));
        self.write_data(&mut data)
    }

    /// Set Alarm2 for a time (fires when hours and minutes match).
    ///
    /// Will return an `Error::InvalidInputData` if any of the parameters is out of range.
    /// The day is not used by this matching strategy and is set to 1.
    pub fn set_alarm2_hm(&mut self, when: TimeOfDay) -> (r: Result<(), Error<E>>)
        ensures
            !day_alarm2_refused(time_alarm2(when), Alarm2Matching::HoursAndMinutesMatch),
            final(self).writes() == old(self).writes().push(
                (day_alarm2_payload(time_alarm2(when), Alarm2Matching::HoursAndMinutesMatch), r),
            ),
            final(self).reads() == old(self).reads(),
            // The alarm fires at the hour and minute themselves, in the 24-hour format, on any day.
            final(self).writes() == old(self).writes().push((
                seq![
                    ALARM2_MINUTES,
                    packed_bcd(when.minute() as u8),
                    packed_bcd(when.hour() as u8),
                    0x81u8,
                ],
                r,
            )),
    {
        let alarm = DayAlarm2 {
            day: 1,
            hour: Hours::H24(when.hour() as u8),
            minute: when.minute() as u8,
        };
        let r = self.set_alarm2_day(alarm, Alarm2Matching::HoursAndMinutesMatch);
        proof {
            lemma_or_zero(packed_bcd(alarm.minute));
            lemma_or_zero(packed_bcd(alarm.hour->H24_0));
            assert(packed_bcd(1u8) | 0x80u8 == 0x81u8) by (bit_vector);
        }
        r
    }

    /// Set Alarm2 for weekday.
    ///
    /// Will return an `Error::InvalidInputData` if any of the used parameters
    /// (depending on the matching startegy) is out of range. Any unused
    /// parameter is set to the corresponding minimum valid value:
    /// - Minute, hour: 0
    /// - Weekday: 1
    pub fn set_alarm2_weekday(&mut self, when: WeekdayAlarm2, matching: Alarm2Matching) -> (r: Result<(), Error<E>>)
        ensures
            weekday_alarm2_refused(when, matching) ==> {
                &&& r == Err::<(), Error<E>>(Error::InvalidInputData)
                &&& *final(self) == *old(self)
            },
            !weekday_alarm2_refused(when, matching) ==> {
                &&& final(self).writes() == old(self).writes().push((weekday_alarm2_payload(when, matching), r))
                &&& final(self).reads() == old(self).reads()
            },
            // A field that the matching compares and that is out of range is refused.
            (matching == Alarm2Matching::AllMatch && !(1 <= when.weekday <= 7)) ==> {
                &&& r == Err::<(), Error<E>>(Error::InvalidInputData)
                &&& *final(self) == *old(self)
            },
            ((matching == Alarm2Matching::AllMatch || matching == Alarm2Matching::HoursAndMinutesMatch) && !((when.hour matches Hours::H24(h) && h <= 23) || (when.hour matches Hours::AM(h) && 1 <= h <= 12) || (when.hour matches Hours::PM(h) && 1 <= h <= 12))) ==> {
                &&& r == Err::<(), Error<E>>(Error::InvalidInputData)
                &&& *final(self) == *old(self)
            },
            (matching != Alarm2Matching::OncePerMinute && when.minute > 59) ==> {
                &&& r == Err::<(), Error<E>>(Error::InvalidInputData)
                &&& *final(self) == *old(self)
            },
            // Otherwise the alarm is accepted, and the registers get the fields, each
            // masked where the matching ignores it; a field out of range, which the
            // matching then ignores, is written as its least valid value.
            !(matching == Alarm2Matching::AllMatch && !(1 <= when.weekday <= 7))
                && !((matching == Alarm2Matching::AllMatch || matching == Alarm2Matching::HoursAndMinutesMatch) && !((when.hour matches Hours::H24(h) && h <= 23) || (when.hour matches Hours::AM(h) && 1 <= h <= 12) || (when.hour matches Hours::PM(h) && 1 <= h <= 12)))
                && !(matching != Alarm2Matching::OncePerMinute && when.minute > 59) ==> {
                &&& final(self).writes() == old(self).writes().push((
                    seq![
                        ALARM2_MINUTES,
                        packed_bcd(if when.minute <= 59 { when.minute } else { 0u8 })
                            | (if matching == Alarm2Matching::OncePerMinute { 0x80u8 } else { 0u8 }),
                        hours_register_value((if ((when.hour matches Hours::H24(h) && h <= 23) || (when.hour matches Hours::AM(h) && 1 <= h <= 12) || (when.hour matches Hours::PM(h) && 1 <= h <= 12)) { when.hour } else { match when.hour { Hours::H24(_) => Hours::H24(0), Hours::AM(_) => Hours::AM(1), Hours::PM(_) => Hours::PM(1) } }))
                            | (if matching == Alarm2Matching::AllMatch || matching == Alarm2Matching::HoursAndMinutesMatch { 0u8 } else { 0x80u8 }),
                        packed_bcd(if 1 <= when.weekday <= 7 { when.weekday } else { 1u8 }) | WEEKDAY | (if matching == Alarm2Matching::AllMatch { 0u8 } else { 0x80u8 }),
                    ],
                    r,
                ))
                &&& final(self).reads() == old(self).reads()
            },
    {
        proof {
            lemma_hour_by_format(when.hour);
        }
        let weekday_invalid = when.weekday < 1 || when.weekday > 7;
        let hour_invalid = !is_hour_valid(when.hour);
        let minute_invalid = when.minute > 59;

        let weekday = if weekday_invalid { 1 } else { when.weekday };
        let hour = amend_hour(when.hour);
        let minute = if minute_invalid { 0 } else { when.minute };

        if (matching == Alarm2Matching::AllMatch && (weekday_invalid || hour_invalid))
            || (matching == Alarm2Matching::HoursAndMinutesMatch && hour_invalid)
            || (minute_invalid && matching != Alarm2Matching::OncePerMinute)
        {
            return Err(Error::InvalidInputData);
        }
        let match_mask = get_matching_mask_alarm2(matching);
        let hours_register = match hours_to_register::<E>(hour) {
            Ok(v) => v,
            Err(e) => {
                return Err(e);
            },
        };
        let mut data = [
            ALARM2_MINUTES,
            decimal_to_packed_bcd(minute) | match_mask[0],
            hours_register | match_mask[1],
            decimal_to_packed_bcd(weekday) | match_mask[2] | WEEKDAY,
        ];
        proof {
            let w = packed_bcd(weekday);
            let m = match_mask@[2];
            assert(w | m | 0x40u8 == (w | 0x40u8) | m) by (bit_vector);
        }
        assert(data@ =~= seq![
            ALARM2_MINUTES,
            packed_bcd(if when.minute <= 59 { when.minute } else { 0u8 })
                | (if matching == Alarm2Matching::OncePerMinute { 0x80u8 } else { 0u8 }),
            hours_register_value((if ((when.hour matches Hours::H24(h) && h <= 23) || (when.hour matches Hours::AM(h) && 1 <= h <= 12) || (when.hour matches Hours::PM(h) && 1 <= h <= 12)) { when.hour } else { match when.hour { Hours::H24(_) => Hours::H24(0), Hours::AM(_) => Hours::AM(1), Hours::PM(_) => Hours::PM(1) } }))
                | (if matching == Alarm2Matching::AllMatch || matching == Alarm2Matching::HoursAndMinutesMatch { 0u8 } else { 0x80u8 }),
            packed_bcd(if 1 <= when.weekday <= 7 { when.weekday } else { 1u8 }) | WEEKDAY | (if matching == Alarm2Matching::AllMatch { 0u8 } else { 0x80u8 }),
        ]);
        assert(data@ =~= weekday_alarm2_payload(when, matching));
        self.write_data(&mut data)
    }

    /// Read Alarm1 configuration from DS3231 registers (addresses 07h-0Ah)
    ///
    /// Returns the current Alarm1 configuration if enabled, or None if disabled.
    ///
    /// # DS3231 Alarm Behavior
    ///
    /// - **Alarm registers always contain values** - they cannot be "empty"
    /// - **Mask bits** (bit 7 in each register) determine which fields are compared:
    ///   - 0 = field is compared (alarm enabled for this field)
    ///   - 1 = field is ignored (mask bit set)
    /// - **All mask bits set** = alarm effectively disabled
    /// - **Interrupt enable** (separate from this function) controls if alarm can fire
    ///
    /// # Alarm Types Detected
    ///
    /// Based on mask bit patterns:
    /// - `HoursMinutesAndSecondsMatch`: Daily alarm (fires every day at specific time)
    /// - `AllMatch`: Day-specific or weekday alarm (determined by DY/DT bit)
    /// - Other patterns: Special matching strategies
    ///
    /// # Returns
    ///
    /// - `Ok(Some((alarm, matching)))` - Alarm configuration and matching strategy
    /// - `Ok(None)` - All mask bits set (alarm disabled)
    /// - `Err(_)` - I2C communication error
    pub fn read_alarm1_config(&mut self) -> (r: Result<Option<(DayAlarm1, Alarm1Matching)>, Error<E>>)
        ensures
            final(self).writes() == old(self).writes(),
            reads_in_order(old(self).reads(), final(self).reads(), alarm1_registers()),
            r is Ok <==> reads_succeeded(old(self).reads(), final(self).reads()),
            r matches Ok(config) ==> config == alarm1_config_of(values_read(old(self).reads(), final(self).reads())),
            r matches Err(e) ==> e == read_error(old(self).reads(), final(self).reads()),
    {
        let registers = [ALARM1_SECONDS, ALARM1_MINUTES, ALARM1_HOURS, ALARM1_DAY_DATE];
        assert(registers@ =~= alarm1_registers());
        let values = self.read_registers(&registers)?;
        let alarm_regs = [values[0], values[1], values[2], values[3]];
        assert(alarm_regs@ =~= values@);
        self.parse_alarm1_registers(&alarm_regs)
    }

    /// Read Alarm2 configuration from DS3231 registers (addresses 0Bh-0Dh)
    ///
    /// Returns the current Alarm2 configuration if enabled, or None if disabled.
    ///
    /// # DS3231 Alarm2 Behavior
    ///
    /// Alarm2 is similar to Alarm1 but **has no seconds precision** - only minutes and hours.
    ///
    /// - **Alarm registers always contain values** - they cannot be "empty"
    /// - **Mask bits** (bit 7 in each register) determine which fields are compared
    /// - **All mask bits set** = alarm effectively disabled
    /// - **Interrupt enable** (separate from this function) controls if alarm can fire
    ///
    /// # Alarm Types Detected
    ///
    /// Based on mask bit patterns:
    /// - `HoursAndMinutesMatch`: Daily alarm (fires every day at specific time)
    /// - `AllMatch`: Day-specific or weekday alarm (determined by DY/DT bit)
    /// - Other patterns: Special matching strategies
    ///
    /// # Returns
    ///
    /// - `Ok(Some((alarm, matching)))` - Alarm configuration and matching strategy
    /// - `Ok(None)` - All mask bits set (alarm disabled)
    /// - `Err(_)` - I2C communication error
    pub fn read_alarm2_config(&mut self) -> (r: Result<Option<(DayAlarm2, Alarm2Matching)>, Error<E>>)
        ensures
            final(self).writes() == old(self).writes(),
            reads_in_order(old(self).reads(), final(self).reads(), alarm2_registers()),
            r is Ok <==> reads_succeeded(old(self).reads(), final(self).reads()),
            r matches Ok(config) ==> config == alarm2_config_of(values_read(old(self).reads(), final(self).reads())),
            r matches Err(e) ==> e == read_error(old(self).reads(), final(self).reads()),
    {
        let registers = [ALARM2_MINUTES, ALARM2_HOURS, ALARM2_DAY_DATE];
        assert(registers@ =~= alarm2_registers());
        let values = self.read_registers(&registers)?;
        let alarm_regs = [values[0], values[1], values[2]];
        assert(alarm_regs@ =~= values@);
        self.parse_alarm2_registers(&alarm_regs)
    }

    /// Parse Alarm1 register data into structured configuration
    pub fn parse_alarm1_registers(&self, regs: &[u8; 4]) -> (r: Result<Option<(DayAlarm1, Alarm1Matching)>, Error<E>>)
        ensures
            r == Ok::<Option<(DayAlarm1, Alarm1Matching)>, Error<E>>(alarm1_config_of(regs@)),
            // All four mask bits set: the alarm is disabled.
            (regs@[0] >= 0x80 && regs@[1] >= 0x80 && regs@[2] >= 0x80 && regs@[3] >= 0x80)
                ==> r == Ok::<Option<(DayAlarm1, Alarm1Matching)>, Error<E>>(None),
            // Otherwise each field is read without its mask bit, the day without the
            // day/weekday flag as well; the documented mask patterns give their matching.
            !(regs@[0] >= 0x80 && regs@[1] >= 0x80 && regs@[2] >= 0x80 && regs@[3] >= 0x80) ==> {
                &&& r matches Ok(Some((alarm, matching)))
                &&& alarm.second == bcd_value(regs@[0] % 128)
                &&& alarm.minute == bcd_value(regs@[1] % 128)
                &&& alarm.hour == hours_of_register(regs@[2] % 128)
                &&& alarm.day == bcd_value(regs@[3] % 64)
                &&& (regs@[0] >= 0x80 && regs@[1] >= 0x80 && regs@[2] >= 0x80 && regs@[3] < 0x80) ==> matching == Alarm1Matching::OncePerSecond
                &&& (regs@[0] < 0x80 && regs@[1] >= 0x80 && regs@[2] >= 0x80 && regs@[3] >= 0x80) ==> matching == Alarm1Matching::SecondsMatch
                &&& (regs@[0] < 0x80 && regs@[1] < 0x80 && regs@[2] >= 0x80 && regs@[3] >= 0x80) ==> matching == Alarm1Matching::MinutesAndSecondsMatch
                &&& (regs@[0] < 0x80 && regs@[1] < 0x80 && regs@[2] < 0x80 && regs@[3] >= 0x80) ==> matching == Alarm1Matching::HoursMinutesAndSecondsMatch
                &&& (regs@[0] < 0x80 && regs@[1] < 0x80 && regs@[2] < 0x80 && regs@[3] < 0x80) ==> matching == Alarm1Matching::AllMatch
            },
    {
        proof {
            lemma_register_bits(regs@[0]);
            lemma_register_bits(regs@[1]);
            lemma_register_bits(regs@[2]);
            lemma_register_bits(regs@[3]);
        }
        let seconds_reg = regs[0];
        let minutes_reg = regs[1];
        let hours_reg = regs[2];
        let day_date_reg = regs[3];

        // Check mask bits to determine matching strategy
        let seconds_mask = (seconds_reg & ALARM_MATCH) != 0;
        let minutes_mask = (minutes_reg & ALARM_MATCH) != 0;
        let hours_mask = (hours_reg & ALARM_MATCH) != 0;
        let day_date_mask = (day_date_reg & ALARM_MATCH) != 0;

        // Determine matching strategy from mask pattern; all masks set means disabled
        let matching = match (seconds_mask, minutes_mask, hours_mask, day_date_mask) {
            (true, true, true, true) => {
                return Ok(None);
            },
            (true, true, true, false) => Alarm1Matching::OncePerSecond,
            (false, true, true, true) => Alarm1Matching::SecondsMatch,
            (false, false, true, true) => Alarm1Matching::MinutesAndSecondsMatch,
            (false, false, false, true) => Alarm1Matching::HoursMinutesAndSecondsMatch,
            (false, false, false, false) => Alarm1Matching::AllMatch,
            // Other mask combinations: the matching closest to the set masks
            _ => {
                if seconds_mask && minutes_mask && hours_mask {
                    Alarm1Matching::OncePerSecond
                } else if minutes_mask && hours_mask {
                    Alarm1Matching::SecondsMatch
                } else if hours_mask {
                    Alarm1Matching::MinutesAndSecondsMatch
                } else if day_date_mask {
                    Alarm1Matching::HoursMinutesAndSecondsMatch
                } else {
                    Alarm1Matching::AllMatch
                }
            },
        };

        // Parse time values from BCD
        let second = packed_bcd_to_decimal(seconds_reg & 0x7F);
        let minute = packed_bcd_to_decimal(minutes_reg & 0x7F);
        let hour = hours_from_register(hours_reg & 0x7F);

        // Parse day/date: a date and a weekday both go to the day field
        let day = packed_bcd_to_decimal(day_date_reg & 0x3F);

        let alarm = DayAlarm1 { day, hour, minute, second };

        Ok(Some((alarm, matching)))
    }

    /// Parse Alarm2 register data into structured configuration
    pub fn parse_alarm2_registers(&self, regs: &[u8; 3]) -> (r: Result<Option<(DayAlarm2, Alarm2Matching)>, Error<E>>)
        ensures
            r == Ok::<Option<(DayAlarm2, Alarm2Matching)>, Error<E>>(alarm2_config_of(regs@)),
            // All three mask bits set: the alarm is disabled.
            (regs@[0] >= 0x80 && regs@[1] >= 0x80 && regs@[2] >= 0x80)
                ==> r == Ok::<Option<(DayAlarm2, Alarm2Matching)>, Error<E>>(None),
            // Otherwise each field is read without its mask bit, the day without the
            // day/weekday flag as well; the documented mask patterns give their matching.
            !(regs@[0] >= 0x80 && regs@[1] >= 0x80 && regs@[2] >= 0x80) ==> {
                &&& r matches Ok(Some((alarm, matching)))
                &&& alarm.minute == bcd_value(regs@[0] % 128)
                &&& alarm.hour == hours_of_register(regs@[1] % 128)
                &&& alarm.day == bcd_value(regs@[2] % 64)
                &&& (regs@[0] >= 0x80 && regs@[1] >= 0x80 && regs@[2] < 0x80) ==> matching == Alarm2Matching::OncePerMinute
                &&& (regs@[0] < 0x80 && regs@[1] >= 0x80 && regs@[2] >= 0x80) ==> matching == Alarm2Matching::MinutesMatch
                &&& (regs@[0] < 0x80 && regs@[1] < 0x80 && regs@[2] >= 0x80) ==> matching == Alarm2Matching::HoursAndMinutesMatch
                &&& (regs@[0] < 0x80 && regs@[1] < 0x80 && regs@[2] < 0x80) ==> matching == Alarm2Matching::AllMatch
            },
    {
        proof {
            lemma_register_bits(regs@[0]);
            lemma_register_bits(regs@[1]);
            lemma_register_bits(regs@[2]);
        }
        let minutes_reg = regs[0];
        let hours_reg = regs[1];
        let day_date_reg = regs[2];

        // Check mask bits to determine matching strategy
        let minutes_mask = (minutes_reg & ALARM_MATCH) != 0;
        let hours_mask = (hours_reg & ALARM_MATCH) != 0;
        let day_date_mask = (day_date_reg & ALARM_MATCH) != 0;

        // Determine matching strategy from mask pattern; all masks set means disabled
        let matching = match (minutes_mask, hours_mask, day_date_mask) {
            (true, true, true) => {
                return Ok(None);
            },
            (true, true, false) => Alarm2Matching::OncePerMinute,
            (false, true, true) => Alarm2Matching::MinutesMatch,
            (false, false, true) => Alarm2Matching::HoursAndMinutesMatch,
            (false, false, false) => Alarm2Matching::AllMatch,
            // Other mask combinations: the matching closest to the set masks
            _ => {
                if minutes_mask && hours_mask {
                    Alarm2Matching::OncePerMinute
                } else if hours_mask {
                    Alarm2Matching::MinutesMatch
                } else if day_date_mask {
                    Alarm2Matching::HoursAndMinutesMatch
                } else {
                    Alarm2Matching::AllMatch
                }
            },
        };

        // Parse time values from BCD
        let minute = packed_bcd_to_decimal(minutes_reg & 0x7F);
        let hour = hours_from_register(hours_reg & 0x7F);

        // Parse day/date: a date and a weekday both go to the day field
        let day = packed_bcd_to_decimal(day_date_reg & 0x3F);

        let alarm = DayAlarm2 { day, hour, minute };

        Ok(Some((alarm, matching)))
    }

    /// Read Alarm1 interrupt enable status from DS3231 Control register
    ///
    /// Returns true if Alarm1 interrupts are enabled, false if disabled.
    /// This determines whether the alarm can actually trigger an interrupt.
    ///
    /// Note: An alarm can be configured but won't fire unless interrupts are enabled.
    pub fn read_alarm1_interrupt_enabled(&mut self) -> (r: Result<bool, Error<E>>)
        ensures
            final(self).writes() == old(self).writes(),
            reads_in_order(old(self).reads(), final(self).reads(), seq![CONTROL]),
            r is Ok <==> reads_succeeded(old(self).reads(), final(self).reads()),
            r matches Ok(enabled) ==> enabled == (values_read(old(self).reads(), final(self).reads())[0] & ALARM1_INT_EN != 0),
            r matches Err(e) ==> e == read_error(old(self).reads(), final(self).reads()),
    {
        let registers = [CONTROL];
        let values = self.read_registers(&registers)?;
        Ok((values[0] & ALARM1_INT_EN) != 0)
    }

    /// Read Alarm2 interrupt enable status from DS3231 Control register
    ///
    /// Returns true if Alarm2 interrupts are enabled, false if disabled.
    /// This determines whether the alarm can actually trigger an interrupt.
    ///
    /// Note: An alarm can be configured but won't fire unless interrupts are enabled.
    pub fn read_alarm2_interrupt_enabled(&mut self) -> (r: Result<bool, Error<E>>)
        ensures
            final(self).writes() == old(self).writes(),
            reads_in_order(old(self).reads(), final(self).reads(), seq![CONTROL]),
            r is Ok <==> reads_succeeded(old(self).reads(), final(self).reads()),
            r matches Ok(enabled) ==> enabled == (values_read(old(self).reads(), final(self).reads())[0] & ALARM2_INT_EN != 0),
            r matches Err(e) ==> e == read_error(old(self).reads(), final(self).reads()),
    {
        let registers = [CONTROL];
        let values = self.read_registers(&registers)?;
        Ok((values[0] & ALARM2_INT_EN) != 0)
    }
}

} // verus!
