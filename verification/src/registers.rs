//! Register addresses and bit flags of the clock.

use vstd::prelude::*;

verus! {

/// Seconds register of alarm 1.
pub const ALARM1_SECONDS: u8 = 0x07;
/// Minutes register of alarm 1.
pub const ALARM1_MINUTES: u8 = 0x08;
/// Hours register of alarm 1.
pub const ALARM1_HOURS: u8 = 0x09;
/// Day/date register of alarm 1.
pub const ALARM1_DAY_DATE: u8 = 0x0A;
/// Minutes register of alarm 2.
pub const ALARM2_MINUTES: u8 = 0x0B;
/// Hours register of alarm 2.
pub const ALARM2_HOURS: u8 = 0x0C;
/// Day/date register of alarm 2.
pub const ALARM2_DAY_DATE: u8 = 0x0D;
/// Control register.
pub const CONTROL: u8 = 0x0E;

/// Hours register: set for the 12-hour format, clear for the 24-hour format.
pub const H24_H12: u8 = 0b0100_0000;
/// Hours register in the 12-hour format: set for PM.
pub const AM_PM: u8 = 0b0010_0000;
/// Alarm day/date register: set when the alarm matches the weekday, clear for the date.
pub const WEEKDAY: u8 = 0b0100_0000;
/// Alarm registers: the mask bit; set when the field takes no part in the match.
pub const ALARM_MATCH: u8 = 0b1000_0000;
/// Control register: alarm 1 interrupt enable.
pub const ALARM1_INT_EN: u8 = 0b0000_0001;
/// Control register: alarm 2 interrupt enable.
pub const ALARM2_INT_EN: u8 = 0b0000_0010;

} // verus!
