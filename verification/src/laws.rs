//! What reading the alarm registers gives back of what setting an alarm wrote.

use vstd::prelude::*;
use crate::alarms::{
    alarm1_config_of, alarm1_fields_compared, alarm1_matching_of_masks, alarm1_payload, alarm2_config_of,
    alarm2_fields_compared, alarm2_matching_of_masks, alarm2_payload, amended_day, amended_hour,
    amended_minute_or_second, amended_weekday, day_alarm1_payload, day_alarm2_payload, is_masked, mask_bit,
    day_alarm1_refused, day_alarm2_refused, lemma_or_zero, time_alarm1, time_alarm2, weekday_alarm1_payload,
    weekday_alarm1_refused, weekday_alarm2_payload, weekday_alarm2_refused, Alarm1Matching, Alarm2Matching,
    DayAlarm1, DayAlarm2, WeekdayAlarm1, WeekdayAlarm2,
};
use crate::bcd::{lemma_bcd_round_trip, packed_bcd};
use crate::hours::{hour_in_range, hours_register_value, lemma_hours_register_round_trip, Hours};
use crate::time::TimeOfDay;

verus! {

/// A register byte `low | mask_bit(compared)` with `low` below 0x80: its mask
/// bit is set exactly when the field is not compared, and the mask bit does
/// not disturb the low bits.
proof fn lemma_mask_bit(low: u8, compared: bool)
    requires
        low < 0x80,
    ensures
        is_masked(low | mask_bit(compared)) == !compared,
        (low | mask_bit(compared)) & 0x7F == low,
        low < 0x40 ==> (low | mask_bit(compared)) & 0x3F == low,
        low < 0x40 ==> is_masked((low | 0x40u8) | mask_bit(compared)) == !compared,
        low < 0x40 ==> ((low | 0x40u8) | mask_bit(compared)) & 0x3F == low,
{
    let m = mask_bit(compared);
    assert(m == 0 || m == 0x80);
    assert(m == 0x80 <==> !compared);
    assert(((low | m) & 0x80 != 0) == (m == 0x80)) by (bit_vector)
        requires
            low < 0x80,
            m == 0 || m == 0x80,
    ;
    assert((low | m) & 0x7F == low) by (bit_vector)
        requires
            low < 0x80,
            m == 0 || m == 0x80,
    ;
    assert(low < 0x40 ==> (low | m) & 0x3F == low) by (bit_vector)
        requires
            m == 0 || m == 0x80,
    ;
    assert(low < 0x40 ==> (((low | 0x40u8) | m) & 0x80 != 0) == (m == 0x80)) by (bit_vector)
        requires
            m == 0 || m == 0x80,
    ;
    assert(low < 0x40 ==> ((low | 0x40u8) | m) & 0x3F == low) by (bit_vector)
        requires
            m == 0 || m == 0x80,
    ;
}

/// The mask pattern written for an alarm 1 matching is read back as that
/// matching, except that once per second, where all four fields are masked,
/// is read back as a disabled alarm.
pub proof fn lemma_alarm1_masks_round_trip(matching: Alarm1Matching)
    ensures
        ({
            let c = alarm1_fields_compared(matching);
            alarm1_matching_of_masks(!(0 < c), !(1 < c), !(2 < c), !(3 < c))
                == if matching == Alarm1Matching::OncePerSecond { None } else { Some(matching) }
        }),
{
}

/// The mask pattern written for an alarm 2 matching is read back as that
/// matching, except that once per minute, where all three fields are masked,
/// is read back as a disabled alarm.
pub proof fn lemma_alarm2_masks_round_trip(matching: Alarm2Matching)
    ensures
        ({
            let c = alarm2_fields_compared(matching);
            alarm2_matching_of_masks(!(0 < c), !(1 < c), !(2 < c))
                == if matching == Alarm2Matching::OncePerMinute { None } else { Some(matching) }
        }),
{
}

/// What alarm 1's registers give back of an alarm written with these fields:
/// the amended fields and the matching; nothing for once per second.
pub open spec fn alarm1_read_back(second: u8, minute: u8, hour: Hours, day: u8, matching: Alarm1Matching) -> Option<(DayAlarm1, Alarm1Matching)> {
    if matching == Alarm1Matching::OncePerSecond {
        None
    } else {
        Some((
            DayAlarm1 {
                day,
                hour: amended_hour(hour),
                minute: amended_minute_or_second(minute),
                second: amended_minute_or_second(second),
            },
            matching,
        ))
    }
}

/// What alarm 2's registers give back of an alarm written with these fields:
/// the amended fields and the matching; nothing for once per minute.
pub open spec fn alarm2_read_back(minute: u8, hour: Hours, day: u8, matching: Alarm2Matching) -> Option<(DayAlarm2, Alarm2Matching)> {
    if matching == Alarm2Matching::OncePerMinute {
        None
    } else {
        Some((
            DayAlarm2 { day, hour: amended_hour(hour), minute: amended_minute_or_second(minute) },
            matching,
        ))
    }
}

proof fn lemma_alarm1_payload_read_back(second: u8, minute: u8, hour: Hours, day: u8, weekday_flag: bool, matching: Alarm1Matching)
    requires
        day <= 31,
    ensures
        ({
            let low = packed_bcd(day);
            let day_register = if weekday_flag { low | 0x40u8 } else { low };
            alarm1_config_of(alarm1_payload(second, minute, hour, day_register, matching).subrange(1, 5))
                == alarm1_read_back(second, minute, hour, day, matching)
        }),
{
    let c = alarm1_fields_compared(matching);
    let s = amended_minute_or_second(second);
    let m = amended_minute_or_second(minute);
    let h = amended_hour(hour);
    lemma_bcd_round_trip(s);
    lemma_bcd_round_trip(m);
    lemma_bcd_round_trip(day);
    assert(packed_bcd(day) < 0x40);
    lemma_hours_register_round_trip(h);
    lemma_mask_bit(packed_bcd(s), 0 < c);
    lemma_mask_bit(packed_bcd(m), 1 < c);
    lemma_mask_bit(hours_register_value(h), 2 < c);
    lemma_mask_bit(packed_bcd(day), 3 < c);
    lemma_alarm1_masks_round_trip(matching);
    let low = packed_bcd(day);
    let day_register = if weekday_flag { low | 0x40u8 } else { low };
    let regs = alarm1_payload(second, minute, hour, day_register, matching).subrange(1, 5);
    assert(regs[0] == packed_bcd(s) | mask_bit(0 < c));
    assert(regs[1] == packed_bcd(m) | mask_bit(1 < c));
    assert(regs[2] == hours_register_value(h) | mask_bit(2 < c));
    assert(regs[3] == day_register | mask_bit(3 < c));
}

proof fn lemma_alarm2_payload_read_back(minute: u8, hour: Hours, day: u8, weekday_flag: bool, matching: Alarm2Matching)
    requires
        day <= 31,
    ensures
        ({
            let low = packed_bcd(day);
            let day_register = if weekday_flag { low | 0x40u8 } else { low };
            alarm2_config_of(alarm2_payload(minute, hour, day_register, matching).subrange(1, 4))
                == alarm2_read_back(minute, hour, day, matching)
        }),
{
    let c = alarm2_fields_compared(matching);
    let m = amended_minute_or_second(minute);
    let h = amended_hour(hour);
    lemma_bcd_round_trip(m);
    lemma_bcd_round_trip(day);
    assert(packed_bcd(day) < 0x40);
    lemma_hours_register_round_trip(h);
    lemma_mask_bit(packed_bcd(m), 0 < c);
    lemma_mask_bit(hours_register_value(h), 1 < c);
    lemma_mask_bit(packed_bcd(day), 2 < c);
    lemma_alarm2_masks_round_trip(matching);
    let low = packed_bcd(day);
    let day_register = if weekday_flag { low | 0x40u8 } else { low };
    let regs = alarm2_payload(minute, hour, day_register, matching).subrange(1, 4);
    assert(regs[0] == packed_bcd(m) | mask_bit(0 < c));
    assert(regs[1] == hours_register_value(h) | mask_bit(1 < c));
    assert(regs[2] == day_register | mask_bit(2 < c));
}

/// Reading alarm 1's registers (the bytes after the address) back after
/// `set_alarm1_day` wrote them gives the alarm with its amended fields and the
/// matching, or `None` for once per second.
pub proof fn lemma_day_alarm1_round_trip(alarm: DayAlarm1, matching: Alarm1Matching)
    requires
    ensures
        alarm1_config_of(day_alarm1_payload(alarm, matching).subrange(1, 5))
            == alarm1_read_back(alarm.second, alarm.minute, alarm.hour, amended_day(alarm.day), matching),
{
    lemma_alarm1_payload_read_back(alarm.second, alarm.minute, alarm.hour, amended_day(alarm.day), false, matching);
}

/// Reading alarm 1's registers back after `set_alarm1_weekday` wrote them
/// gives the alarm with the amended weekday in its day field, or `None` for
/// once per second.
pub proof fn lemma_weekday_alarm1_round_trip(alarm: WeekdayAlarm1, matching: Alarm1Matching)
    requires
    ensures
        alarm1_config_of(weekday_alarm1_payload(alarm, matching).subrange(1, 5))
            == alarm1_read_back(alarm.second, alarm.minute, alarm.hour, amended_weekday(alarm.weekday), matching),
{
    lemma_alarm1_payload_read_back(alarm.second, alarm.minute, alarm.hour, amended_weekday(alarm.weekday), true, matching);
}

/// Reading alarm 2's registers back after `set_alarm2_day` wrote them gives
/// the alarm with its amended fields and the matching, or `None` for once per
/// minute.
pub proof fn lemma_day_alarm2_round_trip(alarm: DayAlarm2, matching: Alarm2Matching)
    requires
    ensures
        alarm2_config_of(day_alarm2_payload(alarm, matching).subrange(1, 4))
            == alarm2_read_back(alarm.minute, alarm.hour, amended_day(alarm.day), matching),
{
    lemma_alarm2_payload_read_back(alarm.minute, alarm.hour, amended_day(alarm.day), false, matching);
}

/// Reading alarm 2's registers back after `set_alarm2_weekday` wrote them
/// gives the alarm with the amended weekday in its day field, or `None` for
/// once per minute.
pub proof fn lemma_weekday_alarm2_round_trip(alarm: WeekdayAlarm2, matching: Alarm2Matching)
    requires
    ensures
        alarm2_config_of(weekday_alarm2_payload(alarm, matching).subrange(1, 4))
            == alarm2_read_back(alarm.minute, alarm.hour, amended_weekday(alarm.weekday), matching),
{
    lemma_alarm2_payload_read_back(alarm.minute, alarm.hour, amended_weekday(alarm.weekday), true, matching);
}

/// Reading alarm 1's registers back after `set_alarm1_hms` wrote a time gives
/// that time, on day 1, matching hours, minutes and seconds.
pub proof fn lemma_time_alarm1_round_trip(time: TimeOfDay)
    requires
        time.hour() < 24,
        time.minute() < 60,
        time.second() < 60,
    ensures
        alarm1_config_of(day_alarm1_payload(time_alarm1(time), Alarm1Matching::HoursMinutesAndSecondsMatch).subrange(1, 5))
            == Some((time_alarm1(time), Alarm1Matching::HoursMinutesAndSecondsMatch)),
{
    let a = time_alarm1(time);
    lemma_day_alarm1_round_trip(a, Alarm1Matching::HoursMinutesAndSecondsMatch);
    assert(hour_in_range(a.hour));
}

/// Reading alarm 2's registers back after `set_alarm2_hm` wrote a time gives
/// its hour and minute, on day 1, matching hours and minutes.
pub proof fn lemma_time_alarm2_round_trip(time: TimeOfDay)
    requires
        time.hour() < 24,
        time.minute() < 60,
    ensures
        alarm2_config_of(day_alarm2_payload(time_alarm2(time), Alarm2Matching::HoursAndMinutesMatch).subrange(1, 4))
            == Some((time_alarm2(time), Alarm2Matching::HoursAndMinutesMatch)),
{
    let a = time_alarm2(time);
    lemma_day_alarm2_round_trip(a, Alarm2Matching::HoursAndMinutesMatch);
    assert(hour_in_range(a.hour));
}

/// An alarm 1 for a day of the month whose day is in 1..=31, whose hour is in
/// the range of its format and whose minute and second are in 0..=59 is
/// accepted under every matching; one whose day is outside 1..=31 is refused
/// when the date is matched.
pub proof fn lemma_day_alarm1_acceptance(alarm: DayAlarm1, matching: Alarm1Matching)
    ensures
        (1 <= alarm.day <= 31 && ((alarm.hour matches Hours::H24(h) && h <= 23) || (alarm.hour matches Hours::AM(h) && 1 <= h <= 12) || (alarm.hour matches Hours::PM(h) && 1 <= h <= 12)) && alarm.minute <= 59 && alarm.second <= 59)
            ==> !day_alarm1_refused(alarm, matching),
        (matching == Alarm1Matching::AllMatch && !(1 <= alarm.day <= 31)) ==> day_alarm1_refused(alarm, matching),
{
}

/// An alarm 1 for a weekday whose weekday is in 1..=7, whose hour is in the
/// range of its format and whose minute and second are in 0..=59 is accepted
/// under every matching; one whose weekday is outside 1..=7 is refused when
/// the weekday is matched.
pub proof fn lemma_weekday_alarm1_acceptance(alarm: WeekdayAlarm1, matching: Alarm1Matching)
    ensures
        (1 <= alarm.weekday <= 7 && ((alarm.hour matches Hours::H24(h) && h <= 23) || (alarm.hour matches Hours::AM(h) && 1 <= h <= 12) || (alarm.hour matches Hours::PM(h) && 1 <= h <= 12)) && alarm.minute <= 59 && alarm.second <= 59)
            ==> !weekday_alarm1_refused(alarm, matching),
        (matching == Alarm1Matching::AllMatch && !(1 <= alarm.weekday <= 7)) ==> weekday_alarm1_refused(alarm, matching),
{
}

/// An alarm 2 for a day of the month whose day is in 1..=31, whose hour is in
/// the range of its format and whose minute is in 0..=59 is accepted under
/// every matching; one whose day is outside 1..=31 is refused when the date is
/// matched.
pub proof fn lemma_day_alarm2_acceptance(alarm: DayAlarm2, matching: Alarm2Matching)
    ensures
        (1 <= alarm.day <= 31 && ((alarm.hour matches Hours::H24(h) && h <= 23) || (alarm.hour matches Hours::AM(h) && 1 <= h <= 12) || (alarm.hour matches Hours::PM(h) && 1 <= h <= 12)) && alarm.minute <= 59)
            ==> !day_alarm2_refused(alarm, matching),
        (matching == Alarm2Matching::AllMatch && !(1 <= alarm.day <= 31)) ==> day_alarm2_refused(alarm, matching),
{
}

/// An alarm 2 for a weekday whose weekday is in 1..=7, whose hour is in the
/// range of its format and whose minute is in 0..=59 is accepted under every
/// matching; one whose weekday is outside 1..=7 (0 included) is refused when
/// the weekday is matched.
pub proof fn lemma_weekday_alarm2_acceptance(alarm: WeekdayAlarm2, matching: Alarm2Matching)
    ensures
        (1 <= alarm.weekday <= 7 && ((alarm.hour matches Hours::H24(h) && h <= 23) || (alarm.hour matches Hours::AM(h) && 1 <= h <= 12) || (alarm.hour matches Hours::PM(h) && 1 <= h <= 12)) && alarm.minute <= 59)
            ==> !weekday_alarm2_refused(alarm, matching),
        (matching == Alarm2Matching::AllMatch && !(1 <= alarm.weekday <= 7)) ==> weekday_alarm2_refused(alarm, matching),
{
}

/// The alarm 1 registers written for a time of day hold its second, minute and
/// hour themselves, the hour in the 24-hour format, and a masked day.
pub proof fn lemma_time_alarm1_registers(time: TimeOfDay)
    requires
        time.hour() < 24,
        time.minute() < 60,
        time.second() < 60,
    ensures
        day_alarm1_payload(time_alarm1(time), Alarm1Matching::HoursMinutesAndSecondsMatch) == seq![
            0x07u8,
            packed_bcd(time.second() as u8),
            packed_bcd(time.minute() as u8),
            packed_bcd(time.hour() as u8),
            0x81u8,
        ],
{
    let a = time_alarm1(time);
    lemma_or_zero(packed_bcd(a.second));
    lemma_or_zero(packed_bcd(a.minute));
    lemma_or_zero(packed_bcd(a.hour->H24_0));
    assert(packed_bcd(1u8) | 0x80u8 == 0x81u8) by (bit_vector);
    assert(day_alarm1_payload(a, Alarm1Matching::HoursMinutesAndSecondsMatch) =~= seq![
        0x07u8,
        packed_bcd(time.second() as u8),
        packed_bcd(time.minute() as u8),
        packed_bcd(time.hour() as u8),
        0x81u8,
    ]);
}

/// The alarm 2 registers written for a time of day hold its minute and hour
/// themselves, the hour in the 24-hour format, and a masked day.
pub proof fn lemma_time_alarm2_registers(time: TimeOfDay)
    requires
        time.hour() < 24,
        time.minute() < 60,
    ensures
        day_alarm2_payload(time_alarm2(time), Alarm2Matching::HoursAndMinutesMatch) == seq![
            0x0Bu8,
            packed_bcd(time.minute() as u8),
            packed_bcd(time.hour() as u8),
            0x81u8,
        ],
{
    let a = time_alarm2(time);
    lemma_or_zero(packed_bcd(a.minute));
    lemma_or_zero(packed_bcd(a.hour->H24_0));
    assert(packed_bcd(1u8) | 0x80u8 == 0x81u8) by (bit_vector);
    assert(day_alarm2_payload(a, Alarm2Matching::HoursAndMinutesMatch) =~= seq![
        0x0Bu8,
        packed_bcd(time.minute() as u8),
        packed_bcd(time.hour() as u8),
        0x81u8,
    ]);
}

} // verus!
