# ds323x alarms

Verified alarm handling for the DS3231 / DS3232 / DS3234 real-time clocks,
written in Verus.

- `src/bcd.rs` — packed BCD conversion.
- `src/hours.rs` — the `Hours` type and the hours-register encoding.
- `src/registers.rs` — register addresses and bit flags.
- `src/interface.rs` — the `ReadData` / `WriteData` traits a bus interface implements.
- `src/ic.rs` — the device model markers `DS3231`, `DS3232`, `DS3234`.
- `src/device.rs` — the `Ds323x` driver; in ghost state it records every payload
  handed to the interface and every register read, each with the result the
  interface gave, which the contracts speak of.
- `src/time.rs` — `TimeOfDay`, the time the hour/minute/second setters take.
- `src/alarms.rs` — alarm parameters, which fields each matching strategy
  compares, the bytes written for an alarm, the decoding of the alarm
  registers, and the driver operations.
- `src/laws.rs` — read-back laws: decoding the registers an alarm setter wrote
  gives the alarm back.

`tests/` runs the driver against an in-memory register file.
