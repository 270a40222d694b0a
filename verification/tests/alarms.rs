use ds323x::alarms::{amend_hour, is_hour_valid};
use ds323x::ic::DS3231;
use ds323x::{
    Alarm1Matching, Alarm2Matching, DayAlarm1, DayAlarm2, Ds323x, Error, Hours, ReadData, TimeOfDay, WeekdayAlarm1,
    WeekdayAlarm2, WriteData,
};

#[derive(Debug, PartialEq)]
struct BusError;

/// A register file standing in for the device.
struct FakeDevice {
    regs: [u8; 0x13],
    payloads: Vec<Vec<u8>>,
    failing: bool,
}

impl FakeDevice {
    fn new() -> Self {
        FakeDevice { regs: [0; 0x13], payloads: Vec::new(), failing: false }
    }
}

impl ReadData for FakeDevice {
    type Error = Error<BusError>;
    fn read_register(&mut self, register: u8) -> Result<u8, Error<BusError>> {
        if self.failing {
            return Err(Error::Comm(BusError));
        }
        Ok(self.regs[register as usize])
    }
}

impl WriteData for FakeDevice {
    type Error = Error<BusError>;
    fn write_data(&mut self, payload: &mut [u8]) -> Result<(), Error<BusError>> {
        if self.failing {
            return Err(Error::Comm(BusError));
        }
        self.payloads.push(payload.to_vec());
        let start = payload[0] as usize;
        for (i, b) in payload[1..].iter().enumerate() {
            self.regs[start + i] = *b;
        }
        Ok(())
    }
}

fn device() -> Ds323x<FakeDevice, DS3231> {
    Ds323x::new(FakeDevice::new())
}

fn device_with(regs: &[(u8, u8)]) -> Ds323x<FakeDevice, DS3231> {
    let mut fake = FakeDevice::new();
    for (r, v) in regs {
        fake.regs[*r as usize] = *v;
    }
    Ds323x::new(fake)
}

fn written(dev: Ds323x<FakeDevice, DS3231>) -> Vec<Vec<u8>> {
    dev.destroy().payloads
}

// ---------------------------------------------------------------------------
// Alarm 1, day of the month
// ---------------------------------------------------------------------------

#[test]
fn set_alarm1_day_all_match() {
    let mut dev = device();
    let when = DayAlarm1 { day: 15, hour: Hours::H24(12), minute: 30, second: 45 };
    assert_eq!(dev.set_alarm1_day(when, Alarm1Matching::AllMatch), Ok(()));
    assert_eq!(written(dev), vec![vec![0x07, 0x45, 0x30, 0x12, 0x15]]);
}

#[test]
fn set_alarm1_day_each_matching_sets_its_masks() {
    let when = DayAlarm1 { day: 31, hour: Hours::H24(23), minute: 59, second: 59 };
    let cases = [
        (Alarm1Matching::OncePerSecond, [0xD9, 0xD9, 0xA3, 0xB1]),
        (Alarm1Matching::SecondsMatch, [0x59, 0xD9, 0xA3, 0xB1]),
        (Alarm1Matching::MinutesAndSecondsMatch, [0x59, 0x59, 0xA3, 0xB1]),
        (Alarm1Matching::HoursMinutesAndSecondsMatch, [0x59, 0x59, 0x23, 0xB1]),
        (Alarm1Matching::AllMatch, [0x59, 0x59, 0x23, 0x31]),
    ];
    for (matching, regs) in cases {
        let mut dev = device();
        assert_eq!(dev.set_alarm1_day(when, matching), Ok(()));
        let mut expected = vec![0x07];
        expected.extend_from_slice(&regs);
        assert_eq!(written(dev), vec![expected]);
    }
}

#[test]
fn set_alarm1_day_invalid_day_refused_when_matched() {
    let mut dev = device();
    let when = DayAlarm1 { day: 32, hour: Hours::H24(1), minute: 2, second: 3 };
    assert_eq!(dev.set_alarm1_day(when, Alarm1Matching::AllMatch), Err(Error::InvalidInputData));
    let when = DayAlarm1 { day: 0, hour: Hours::H24(1), minute: 2, second: 3 };
    assert_eq!(dev.set_alarm1_day(when, Alarm1Matching::AllMatch), Err(Error::InvalidInputData));
    assert!(written(dev).is_empty());
}

#[test]
fn set_alarm1_day_unused_invalid_day_becomes_one() {
    let mut dev = device();
    let when = DayAlarm1 { day: 32, hour: Hours::H24(12), minute: 30, second: 45 };
    assert_eq!(dev.set_alarm1_day(when, Alarm1Matching::HoursMinutesAndSecondsMatch), Ok(()));
    assert_eq!(written(dev), vec![vec![0x07, 0x45, 0x30, 0x12, 0x81]]);
}

#[test]
fn set_alarm1_day_invalid_hour() {
    let when = DayAlarm1 { day: 1, hour: Hours::H24(24), minute: 0, second: 0 };
    let mut dev = device();
    assert_eq!(dev.set_alarm1_day(when, Alarm1Matching::AllMatch), Err(Error::InvalidInputData));
    assert_eq!(
        dev.set_alarm1_day(when, Alarm1Matching::HoursMinutesAndSecondsMatch),
        Err(Error::InvalidInputData)
    );
    assert_eq!(dev.set_alarm1_day(when, Alarm1Matching::MinutesAndSecondsMatch), Ok(()));
    assert_eq!(written(dev), vec![vec![0x07, 0x00, 0x00, 0x80, 0x81]]);
}

#[test]
fn set_alarm1_day_invalid_twelve_hour_values() {
    let mut dev = device();
    let am = DayAlarm1 { day: 1, hour: Hours::AM(0), minute: 0, second: 0 };
    let pm = DayAlarm1 { day: 1, hour: Hours::PM(13), minute: 0, second: 0 };
    assert_eq!(dev.set_alarm1_day(am, Alarm1Matching::AllMatch), Err(Error::InvalidInputData));
    assert_eq!(dev.set_alarm1_day(pm, Alarm1Matching::AllMatch), Err(Error::InvalidInputData));
    assert_eq!(dev.set_alarm1_day(am, Alarm1Matching::SecondsMatch), Ok(()));
    assert_eq!(dev.set_alarm1_day(pm, Alarm1Matching::SecondsMatch), Ok(()));
    assert_eq!(
        written(dev),
        vec![vec![0x07, 0x00, 0x80, 0xC1, 0x81], vec![0x07, 0x00, 0x80, 0xE1, 0x81]]
    );
}

#[test]
fn set_alarm1_day_twelve_hour_format() {
    let mut dev = device();
    let when = DayAlarm1 { day: 5, hour: Hours::PM(3), minute: 4, second: 5 };
    assert_eq!(dev.set_alarm1_day(when, Alarm1Matching::AllMatch), Ok(()));
    let when = DayAlarm1 { day: 5, hour: Hours::AM(12), minute: 4, second: 5 };
    assert_eq!(dev.set_alarm1_day(when, Alarm1Matching::AllMatch), Ok(()));
    assert_eq!(
        written(dev),
        vec![vec![0x07, 0x05, 0x04, 0x63, 0x05], vec![0x07, 0x05, 0x04, 0x52, 0x05]]
    );
}

#[test]
fn set_alarm1_day_invalid_minute() {
    let when = DayAlarm1 { day: 1, hour: Hours::H24(0), minute: 60, second: 0 };
    let mut dev = device();
    assert_eq!(
        dev.set_alarm1_day(when, Alarm1Matching::MinutesAndSecondsMatch),
        Err(Error::InvalidInputData)
    );
    assert_eq!(dev.set_alarm1_day(when, Alarm1Matching::SecondsMatch), Ok(()));
    assert_eq!(written(dev), vec![vec![0x07, 0x00, 0x80, 0x80, 0x81]]);
}

#[test]
fn set_alarm1_day_invalid_second() {
    let when = DayAlarm1 { day: 1, hour: Hours::H24(0), minute: 0, second: 60 };
    let mut dev = device();
    assert_eq!(dev.set_alarm1_day(when, Alarm1Matching::SecondsMatch), Err(Error::InvalidInputData));
    assert_eq!(dev.set_alarm1_day(when, Alarm1Matching::AllMatch), Err(Error::InvalidInputData));
    // Once per second compares no field: the second is unused and written as 0.
    assert_eq!(dev.set_alarm1_day(when, Alarm1Matching::OncePerSecond), Ok(()));
    assert_eq!(written(dev), vec![vec![0x07, 0x80, 0x80, 0x80, 0x81]]);
}

#[test]
fn set_alarm1_day_bus_error_is_passed_on() {
    let mut fake = FakeDevice::new();
    fake.failing = true;
    let mut dev: Ds323x<FakeDevice, DS3231> = Ds323x::new(fake);
    let when = DayAlarm1 { day: 1, hour: Hours::H24(0), minute: 0, second: 0 };
    assert_eq!(dev.set_alarm1_day(when, Alarm1Matching::AllMatch), Err(Error::Comm(BusError)));
}

// ---------------------------------------------------------------------------
// Alarm 1, time of day and weekday
// ---------------------------------------------------------------------------

#[test]
fn set_alarm1_hms_writes_time_on_day_one() {
    let mut dev = device();
    let t = TimeOfDay::from_hms(13, 14, 15).unwrap();
    assert_eq!(dev.set_alarm1_hms(t), Ok(()));
    assert_eq!(written(dev), vec![vec![0x07, 0x15, 0x14, 0x13, 0x81]]);
}

#[test]
fn set_alarm1_weekday_all_match() {
    let mut dev = device();
    let when = WeekdayAlarm1 { weekday: 3, hour: Hours::H24(7), minute: 8, second: 9 };
    assert_eq!(dev.set_alarm1_weekday(when, Alarm1Matching::AllMatch), Ok(()));
    assert_eq!(written(dev), vec![vec![0x07, 0x09, 0x08, 0x07, 0x43]]);
}

#[test]
fn set_alarm1_weekday_invalid_weekday() {
    let mut dev = device();
    let when = WeekdayAlarm1 { weekday: 8, hour: Hours::H24(7), minute: 8, second: 9 };
    assert_eq!(dev.set_alarm1_weekday(when, Alarm1Matching::AllMatch), Err(Error::InvalidInputData));
    let when = WeekdayAlarm1 { weekday: 0, hour: Hours::H24(7), minute: 8, second: 9 };
    assert_eq!(dev.set_alarm1_weekday(when, Alarm1Matching::AllMatch), Err(Error::InvalidInputData));
    assert_eq!(dev.set_alarm1_weekday(when, Alarm1Matching::HoursMinutesAndSecondsMatch), Ok(()));
    assert_eq!(written(dev), vec![vec![0x07, 0x09, 0x08, 0x07, 0xC1]]);
}

#[test]
fn set_alarm1_weekday_invalid_second_and_minute() {
    let mut dev = device();
    let when = WeekdayAlarm1 { weekday: 1, hour: Hours::H24(0), minute: 60, second: 60 };
    assert_eq!(dev.set_alarm1_weekday(when, Alarm1Matching::SecondsMatch), Err(Error::InvalidInputData));
    assert_eq!(
        dev.set_alarm1_weekday(when, Alarm1Matching::MinutesAndSecondsMatch),
        Err(Error::InvalidInputData)
    );
    assert_eq!(dev.set_alarm1_weekday(when, Alarm1Matching::OncePerSecond), Ok(()));
    assert_eq!(written(dev), vec![vec![0x07, 0x80, 0x80, 0x80, 0xC1]]);
}

// ---------------------------------------------------------------------------
// Alarm 2
// ---------------------------------------------------------------------------

#[test]
fn set_alarm2_day_all_match() {
    let mut dev = device();
    let when = DayAlarm2 { day: 20, hour: Hours::H24(21), minute: 22 };
    assert_eq!(dev.set_alarm2_day(when, Alarm2Matching::AllMatch), Ok(()));
    assert_eq!(written(dev), vec![vec![0x0B, 0x22, 0x21, 0x20]]);
}

#[test]
fn set_alarm2_day_each_matching_sets_its_masks() {
    let when = DayAlarm2 { day: 9, hour: Hours::PM(11), minute: 58 };
    let cases = [
        (Alarm2Matching::OncePerMinute, [0xD8, 0xF1, 0x89]),
        (Alarm2Matching::MinutesMatch, [0x58, 0xF1, 0x89]),
        (Alarm2Matching::HoursAndMinutesMatch, [0x58, 0x71, 0x89]),
        (Alarm2Matching::AllMatch, [0x58, 0x71, 0x09]),
    ];
    for (matching, regs) in cases {
        let mut dev = device();
        assert_eq!(dev.set_alarm2_day(when, matching), Ok(()));
        let mut expected = vec![0x0B];
        expected.extend_from_slice(&regs);
        assert_eq!(written(dev), vec![expected]);
    }
}

#[test]
fn set_alarm2_day_invalid_inputs() {
    let mut dev = device();
    let bad_day = DayAlarm2 { day: 32, hour: Hours::H24(1), minute: 1 };
    let bad_hour = DayAlarm2 { day: 1, hour: Hours::H24(24), minute: 1 };
    let bad_minute = DayAlarm2 { day: 1, hour: Hours::H24(1), minute: 60 };
    assert_eq!(dev.set_alarm2_day(bad_day, Alarm2Matching::AllMatch), Err(Error::InvalidInputData));
    assert_eq!(dev.set_alarm2_day(bad_hour, Alarm2Matching::HoursAndMinutesMatch), Err(Error::InvalidInputData));
    assert_eq!(dev.set_alarm2_day(bad_minute, Alarm2Matching::MinutesMatch), Err(Error::InvalidInputData));
    assert!(dev.destroy().payloads.is_empty());
    let mut dev = device();
    assert_eq!(dev.set_alarm2_day(bad_day, Alarm2Matching::HoursAndMinutesMatch), Ok(()));
    assert_eq!(dev.set_alarm2_day(bad_hour, Alarm2Matching::MinutesMatch), Ok(()));
    assert_eq!(dev.set_alarm2_day(bad_minute, Alarm2Matching::OncePerMinute), Ok(()));
    assert_eq!(
        written(dev),
        vec![
            vec![0x0B, 0x01, 0x01, 0x81],
            vec![0x0B, 0x01, 0x80, 0x81],
            vec![0x0B, 0x80, 0x81, 0x81],
        ]
    );
}

#[test]
fn set_alarm2_hm_writes_time_on_day_one() {
    let mut dev = device();
    let t = TimeOfDay::from_hms(6, 45, 59).unwrap();
    assert_eq!(dev.set_alarm2_hm(t), Ok(()));
    assert_eq!(written(dev), vec![vec![0x0B, 0x45, 0x06, 0x81]]);
}

#[test]
fn set_alarm2_weekday_all_match_and_invalid() {
    let mut dev = device();
    let when = WeekdayAlarm2 { weekday: 7, hour: Hours::AM(1), minute: 0 };
    assert_eq!(dev.set_alarm2_weekday(when, Alarm2Matching::AllMatch), Ok(()));
    let bad = WeekdayAlarm2 { weekday: 8, hour: Hours::AM(1), minute: 0 };
    assert_eq!(dev.set_alarm2_weekday(bad, Alarm2Matching::AllMatch), Err(Error::InvalidInputData));
    assert_eq!(dev.set_alarm2_weekday(bad, Alarm2Matching::HoursAndMinutesMatch), Ok(()));
    assert_eq!(written(dev), vec![vec![0x0B, 0x00, 0x41, 0x47], vec![0x0B, 0x00, 0x41, 0xC1]]);
}

// ---------------------------------------------------------------------------
// Reading the configuration back
// ---------------------------------------------------------------------------

#[test]
fn read_alarm1_config_all_match() {
    let mut dev = device_with(&[(0x07, 0x45), (0x08, 0x30), (0x09, 0x12), (0x0A, 0x15)]);
    let expected = DayAlarm1 { day: 15, hour: Hours::H24(12), minute: 30, second: 45 };
    assert_eq!(dev.read_alarm1_config(), Ok(Some((expected, Alarm1Matching::AllMatch))));
}

#[test]
fn read_alarm1_config_all_masks_set_is_disabled() {
    let mut dev = device_with(&[(0x07, 0x80), (0x08, 0x80), (0x09, 0x80), (0x0A, 0x81)]);
    assert_eq!(dev.read_alarm1_config(), Ok(None));
}

#[test]
fn read_alarm1_config_mask_patterns() {
    let cases: [([u8; 4], Alarm1Matching); 9] = [
        ([0x80, 0x80, 0x80, 0x01], Alarm1Matching::OncePerSecond),
        ([0x00, 0x80, 0x80, 0x81], Alarm1Matching::SecondsMatch),
        ([0x00, 0x00, 0x80, 0x81], Alarm1Matching::MinutesAndSecondsMatch),
        ([0x00, 0x00, 0x00, 0x81], Alarm1Matching::HoursMinutesAndSecondsMatch),
        ([0x00, 0x00, 0x00, 0x01], Alarm1Matching::AllMatch),
        // Other patterns
        ([0x00, 0x80, 0x80, 0x01], Alarm1Matching::SecondsMatch),
        ([0x80, 0x00, 0x80, 0x01], Alarm1Matching::MinutesAndSecondsMatch),
        ([0x80, 0x80, 0x00, 0x81], Alarm1Matching::HoursMinutesAndSecondsMatch),
        ([0x80, 0x00, 0x00, 0x01], Alarm1Matching::AllMatch),
    ];
    for (regs, matching) in cases {
        let mut dev = device_with(&[(0x07, regs[0]), (0x08, regs[1]), (0x09, regs[2]), (0x0A, regs[3])]);
        let config = dev.read_alarm1_config().unwrap().unwrap();
        assert_eq!(config.1, matching);
        assert_eq!(config.0, DayAlarm1 { day: 1, hour: Hours::H24(0), minute: 0, second: 0 });
    }
}

#[test]
fn read_alarm1_config_weekday_goes_to_day() {
    let mut dev = device_with(&[(0x07, 0x01), (0x08, 0x02), (0x09, 0x03), (0x0A, 0x44)]);
    let expected = DayAlarm1 { day: 4, hour: Hours::H24(3), minute: 2, second: 1 };
    assert_eq!(dev.read_alarm1_config(), Ok(Some((expected, Alarm1Matching::AllMatch))));
}

#[test]
fn read_alarm1_config_twelve_hour_format() {
    let mut dev = device_with(&[(0x07, 0x00), (0x08, 0x30), (0x09, 0x65), (0x0A, 0x95)]);
    let expected = DayAlarm1 { day: 15, hour: Hours::PM(5), minute: 30, second: 0 };
    assert_eq!(dev.read_alarm1_config(), Ok(Some((expected, Alarm1Matching::HoursMinutesAndSecondsMatch))));
}

#[test]
fn read_alarm2_config_twelve_hour_format() {
    let mut dev = device_with(&[(0x0B, 0x30), (0x0C, 0x52), (0x0D, 0x81)]);
    let expected = DayAlarm2 { day: 1, hour: Hours::AM(12), minute: 30 };
    assert_eq!(dev.read_alarm2_config(), Ok(Some((expected, Alarm2Matching::HoursAndMinutesMatch))));
}

#[test]
fn twelve_hour_alarms_round_trip() {
    let mut dev = device();
    for hour in [Hours::AM(1), Hours::AM(12), Hours::PM(1), Hours::PM(5), Hours::PM(12)] {
        let when = DayAlarm1 { day: 9, hour, minute: 10, second: 11 };
        dev.set_alarm1_day(when, Alarm1Matching::AllMatch).unwrap();
        assert_eq!(dev.read_alarm1_config(), Ok(Some((when, Alarm1Matching::AllMatch))));
        let when = WeekdayAlarm2 { weekday: 4, hour, minute: 10 };
        dev.set_alarm2_weekday(when, Alarm2Matching::AllMatch).unwrap();
        let expected = DayAlarm2 { day: 4, hour, minute: 10 };
        assert_eq!(dev.read_alarm2_config(), Ok(Some((expected, Alarm2Matching::AllMatch))));
    }
}

#[test]
fn bus_errors_are_passed_on_by_every_setter() {
    let mut fake = FakeDevice::new();
    fake.failing = true;
    let mut dev: Ds323x<FakeDevice, DS3231> = Ds323x::new(fake);
    let t = TimeOfDay::from_hms(1, 2, 3).unwrap();
    assert_eq!(dev.set_alarm1_hms(t), Err(Error::Comm(BusError)));
    assert_eq!(dev.set_alarm2_hm(t), Err(Error::Comm(BusError)));
    let w1 = WeekdayAlarm1 { weekday: 1, hour: Hours::H24(0), minute: 0, second: 0 };
    assert_eq!(dev.set_alarm1_weekday(w1, Alarm1Matching::AllMatch), Err(Error::Comm(BusError)));
    let d2 = DayAlarm2 { day: 1, hour: Hours::H24(0), minute: 0 };
    assert_eq!(dev.set_alarm2_day(d2, Alarm2Matching::AllMatch), Err(Error::Comm(BusError)));
    let w2 = WeekdayAlarm2 { weekday: 1, hour: Hours::H24(0), minute: 0 };
    assert_eq!(dev.set_alarm2_weekday(w2, Alarm2Matching::AllMatch), Err(Error::Comm(BusError)));
    assert_eq!(dev.read_alarm2_interrupt_enabled(), Err(Error::Comm(BusError)));
}

#[test]
fn read_alarm1_config_bus_error() {
    let mut fake = FakeDevice::new();
    fake.failing = true;
    let mut dev: Ds323x<FakeDevice, DS3231> = Ds323x::new(fake);
    assert_eq!(dev.read_alarm1_config(), Err(Error::Comm(BusError)));
    assert_eq!(dev.read_alarm2_config(), Err(Error::Comm(BusError)));
    assert_eq!(dev.read_alarm1_interrupt_enabled(), Err(Error::Comm(BusError)));
}

#[test]
fn read_alarm2_config_patterns() {
    let cases: [([u8; 3], Option<Alarm2Matching>); 7] = [
        ([0x80, 0x80, 0x81], None),
        ([0x80, 0x80, 0x01], Some(Alarm2Matching::OncePerMinute)),
        ([0x00, 0x80, 0x81], Some(Alarm2Matching::MinutesMatch)),
        ([0x00, 0x00, 0x81], Some(Alarm2Matching::HoursAndMinutesMatch)),
        ([0x00, 0x00, 0x01], Some(Alarm2Matching::AllMatch)),
        ([0x80, 0x00, 0x81], Some(Alarm2Matching::HoursAndMinutesMatch)),
        ([0x80, 0x00, 0x01], Some(Alarm2Matching::AllMatch)),
    ];
    for (regs, matching) in cases {
        let mut dev = device_with(&[(0x0B, regs[0]), (0x0C, regs[1]), (0x0D, regs[2])]);
        let config = dev.read_alarm2_config().unwrap();
        assert_eq!(config.map(|c| c.1), matching);
    }
}

#[test]
fn read_alarm2_config_values() {
    let mut dev = device_with(&[(0x0B, 0x59), (0x0C, 0x23), (0x0D, 0x31)]);
    let expected = DayAlarm2 { day: 31, hour: Hours::H24(23), minute: 59 };
    assert_eq!(dev.read_alarm2_config(), Ok(Some((expected, Alarm2Matching::AllMatch))));
}

#[test]
fn parse_registers_directly() {
    let dev = device();
    let r1 = dev.parse_alarm1_registers(&[0x30, 0x20, 0x10, 0x05]);
    let expected1 = DayAlarm1 { day: 5, hour: Hours::H24(10), minute: 20, second: 30 };
    assert_eq!(r1, Ok(Some((expected1, Alarm1Matching::AllMatch))));
    let r2 = dev.parse_alarm2_registers(&[0x20, 0x10, 0x85]);
    let expected2 = DayAlarm2 { day: 5, hour: Hours::H24(10), minute: 20 };
    assert_eq!(r2, Ok(Some((expected2, Alarm2Matching::HoursAndMinutesMatch))));
}

#[test]
fn interrupt_enable_flags() {
    let mut dev = device_with(&[(0x0E, 0x05)]);
    assert_eq!(dev.read_alarm1_interrupt_enabled(), Ok(true));
    assert_eq!(dev.read_alarm2_interrupt_enabled(), Ok(false));
    let mut dev = device_with(&[(0x0E, 0x1E)]);
    assert_eq!(dev.read_alarm1_interrupt_enabled(), Ok(false));
    assert_eq!(dev.read_alarm2_interrupt_enabled(), Ok(true));
}

// ---------------------------------------------------------------------------
// Reading back what was written
// ---------------------------------------------------------------------------

#[test]
fn alarm1_day_round_trip() {
    let mut dev = device();
    let when = DayAlarm1 { day: 28, hour: Hours::H24(17), minute: 5, second: 58 };
    for matching in [
        Alarm1Matching::SecondsMatch,
        Alarm1Matching::MinutesAndSecondsMatch,
        Alarm1Matching::HoursMinutesAndSecondsMatch,
        Alarm1Matching::AllMatch,
    ] {
        dev.set_alarm1_day(when, matching).unwrap();
        assert_eq!(dev.read_alarm1_config(), Ok(Some((when, matching))));
    }
    dev.set_alarm1_day(when, Alarm1Matching::OncePerSecond).unwrap();
    assert_eq!(dev.read_alarm1_config(), Ok(None));
}

#[test]
fn alarm1_weekday_round_trip() {
    let mut dev = device();
    let when = WeekdayAlarm1 { weekday: 6, hour: Hours::H24(0), minute: 0, second: 1 };
    dev.set_alarm1_weekday(when, Alarm1Matching::AllMatch).unwrap();
    let expected = DayAlarm1 { day: 6, hour: Hours::H24(0), minute: 0, second: 1 };
    assert_eq!(dev.read_alarm1_config(), Ok(Some((expected, Alarm1Matching::AllMatch))));
}

#[test]
fn alarm1_amended_fields_round_trip() {
    let mut dev = device();
    let when = DayAlarm1 { day: 40, hour: Hours::H24(30), minute: 61, second: 7 };
    dev.set_alarm1_day(when, Alarm1Matching::SecondsMatch).unwrap();
    let expected = DayAlarm1 { day: 1, hour: Hours::H24(0), minute: 0, second: 7 };
    assert_eq!(dev.read_alarm1_config(), Ok(Some((expected, Alarm1Matching::SecondsMatch))));
}

#[test]
fn alarm1_hms_round_trip() {
    let mut dev = device();
    let t = TimeOfDay::from_hms(23, 59, 58).unwrap();
    dev.set_alarm1_hms(t).unwrap();
    let expected = DayAlarm1 { day: 1, hour: Hours::H24(23), minute: 59, second: 58 };
    assert_eq!(
        dev.read_alarm1_config(),
        Ok(Some((expected, Alarm1Matching::HoursMinutesAndSecondsMatch)))
    );
}

#[test]
fn alarm2_round_trips() {
    let mut dev = device();
    let when = DayAlarm2 { day: 3, hour: Hours::H24(4), minute: 5 };
    for matching in [Alarm2Matching::MinutesMatch, Alarm2Matching::HoursAndMinutesMatch, Alarm2Matching::AllMatch] {
        dev.set_alarm2_day(when, matching).unwrap();
        assert_eq!(dev.read_alarm2_config(), Ok(Some((when, matching))));
    }
    dev.set_alarm2_day(when, Alarm2Matching::OncePerMinute).unwrap();
    assert_eq!(dev.read_alarm2_config(), Ok(None));

    let wd = WeekdayAlarm2 { weekday: 2, hour: Hours::H24(22), minute: 33 };
    dev.set_alarm2_weekday(wd, Alarm2Matching::AllMatch).unwrap();
    let expected = DayAlarm2 { day: 2, hour: Hours::H24(22), minute: 33 };
    assert_eq!(dev.read_alarm2_config(), Ok(Some((expected, Alarm2Matching::AllMatch))));

    dev.set_alarm2_hm(TimeOfDay::from_hms(8, 9, 10).unwrap()).unwrap();
    let expected = DayAlarm2 { day: 1, hour: Hours::H24(8), minute: 9 };
    assert_eq!(dev.read_alarm2_config(), Ok(Some((expected, Alarm2Matching::HoursAndMinutesMatch))));
}

// ---------------------------------------------------------------------------
// Hour helpers
// ---------------------------------------------------------------------------

#[test]
fn hour_validity() {
    assert!(is_hour_valid(Hours::H24(0)));
    assert!(is_hour_valid(Hours::H24(23)));
    assert!(!is_hour_valid(Hours::H24(24)));
    assert!(is_hour_valid(Hours::AM(1)));
    assert!(is_hour_valid(Hours::PM(12)));
    assert!(!is_hour_valid(Hours::AM(0)));
    assert!(!is_hour_valid(Hours::PM(13)));
}

#[test]
fn hour_amendment() {
    assert_eq!(amend_hour(Hours::H24(24)), Hours::H24(0));
    assert_eq!(amend_hour(Hours::H24(5)), Hours::H24(5));
    assert_eq!(amend_hour(Hours::AM(0)), Hours::AM(1));
    assert_eq!(amend_hour(Hours::AM(12)), Hours::AM(12));
    assert_eq!(amend_hour(Hours::PM(200)), Hours::PM(1));
    assert_eq!(amend_hour(Hours::PM(7)), Hours::PM(7));
}

#[test]
fn time_of_day_range() {
    assert!(TimeOfDay::from_hms(24, 0, 0).is_none());
    assert!(TimeOfDay::from_hms(0, 60, 0).is_none());
    assert!(TimeOfDay::from_hms(0, 0, 60).is_none());
    let t = TimeOfDay::from_hms(23, 59, 59).unwrap();
    assert_eq!((t.hour(), t.minute(), t.second()), (23, 59, 59));
}
