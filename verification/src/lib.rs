//! Alarm handling for the DS3231 / DS3232 / DS3234 real-time clocks.

pub mod alarms;
pub mod bcd;
pub mod device;
pub mod error;
pub mod hours;
pub mod ic;
pub mod interface;
pub mod laws;
pub mod registers;
pub mod time;

pub use alarms::{Alarm1Matching, Alarm2Matching, DayAlarm1, DayAlarm2, WeekdayAlarm1, WeekdayAlarm2};
pub use device::Ds323x;
pub use error::Error;
pub use hours::Hours;
pub use interface::{ReadData, WriteData};
pub use time::TimeOfDay;
