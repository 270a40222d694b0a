//! Hours in the 24-hour and the 12-hour format, and their register encoding.

use vstd::prelude::*;
use crate::bcd::{bcd_value, decimal_to_packed_bcd, packed_bcd, packed_bcd_to_decimal, lemma_bcd_round_trip};
use crate::error::Error;
use crate::registers::{AM_PM, H24_H12};

verus! {

/// An hour of the day.
#[derive(Debug, Clone, Copy, PartialEq, Eq)]
pub enum Hours {
    /// Hour in the morning, 12-hour format [1-12].
    AM(u8),
    /// Hour in the afternoon, 12-hour format [1-12].
    PM(u8),
    /// Hour in the 24-hour format [0-23].
    H24(u8),
}

/// Whether the hour lies in the range of its format.
pub open spec fn hour_in_range(hours: Hours) -> bool {
    match hours {
        Hours::H24(h) => h <= 23,
        Hours::AM(h) => 1 <= h <= 12,
        Hours::PM(h) => 1 <= h <= 12,
    }
}

/// The hours register value for an hour in range: packed BCD, with the
/// 12-hour flag and, for the afternoon, the PM flag.
pub open spec fn hours_register_value(hours: Hours) -> u8 {
    match hours {
        Hours::H24(h) => packed_bcd(h),
        Hours::AM(h) => (0x40 + packed_bcd(h)) as u8,
        Hours::PM(h) => (0x60 + packed_bcd(h)) as u8,
    }
}

/// The hour that an hours register value encodes.
pub open spec fn hours_of_register(data: u8) -> Hours {
    if data & H24_H12 == 0 {
        Hours::H24(bcd_value(data & !H24_H12))
    } else if data & AM_PM == 0 {
        Hours::AM(bcd_value(data & !(H24_H12 | AM_PM)))
    } else {
        Hours::PM(bcd_value(data & !(H24_H12 | AM_PM)))
    }
}

/// Encodes an hour for the hours register; `InvalidInputData` if it is out of range.
pub fn hours_to_register<E>(hours: Hours) -> (r: Result<u8, Error<E>>)
    ensures
        hour_in_range(hours) ==> r == Ok::<u8, Error<E>>(hours_register_value(hours)),
        !hour_in_range(hours) ==> r == Err::<u8, Error<E>>(Error::InvalidInputData),
{
    match hours {
        Hours::H24(h) => {
            if h > 23 {
                Err(Error::InvalidInputData)
            } else {
                let bcd = decimal_to_packed_bcd(h);
                assert(hour_in_range(hours));
                assert(bcd == hours_register_value(hours));
                Ok(bcd)
            }
        },
        Hours::AM(h) => {
            if h < 1 || h > 12 {
                Err(Error::InvalidInputData)
            } else {
                let bcd = decimal_to_packed_bcd(h);
                proof {
                    lemma_bcd_round_trip(h);
                    lemma_flag_or_is_sum(H24_H12, bcd);
                }
                Ok(H24_H12 | bcd)
            }
        },
        Hours::PM(h) => {
            if h < 1 || h > 12 {
                Err(Error::InvalidInputData)
            } else {
                let bcd = decimal_to_packed_bcd(h);
                proof {
                    lemma_bcd_round_trip(h);
                    assert(0x40u8 | 0x20u8 == 0x60u8) by (bit_vector);
                    lemma_flag_or_is_sum(H24_H12 | AM_PM, bcd);
                }
                Ok(H24_H12 | AM_PM | bcd)
            }
        },
    }
}

proof fn lemma_flag_or_is_sum(flags: u8, low: u8)
    requires
        flags == 0x40 || flags == 0x60,
        low < 0x20,
    ensures
        flags | low == flags + low,
{
    assert(flags | low == flags + low) by (bit_vector)
        requires
            flags == 0x40 || flags == 0x60,
            low < 0x20,
    ;
}

/// Whether an hours register value is in the 24-hour format.
pub fn is_24h_format(hour_register: u8) -> (r: bool)
    ensures
        r == (hour_register & H24_H12 == 0),
{
    (hour_register & H24_H12) == 0
}

/// Whether an hours register value in the 12-hour format is in the morning.
pub fn is_am(hour_register: u8) -> (r: bool)
    ensures
        r == (hour_register & AM_PM == 0),
{
    (hour_register & AM_PM) == 0
}

/// Decodes an hours register value.
pub fn hours_from_register(data: u8) -> (hours: Hours)
    ensures
        hours == hours_of_register(data),
{
    if is_24h_format(data) {
        Hours::H24(packed_bcd_to_decimal(data & !H24_H12))
    } else if is_am(data) {
        Hours::AM(packed_bcd_to_decimal(data & !(H24_H12 | AM_PM)))
    } else {
        Hours::PM(packed_bcd_to_decimal(data & !(H24_H12 | AM_PM)))
    }
}

/// Decoding the register value of an hour in range gives the hour back.
pub proof fn lemma_hours_register_round_trip(hours: Hours)
    requires
        hour_in_range(hours),
    ensures
        hours_of_register(hours_register_value(hours)) == hours,
        hours_register_value(hours) <= 0x72,
{
    match hours {
        Hours::H24(h) => {
            lemma_bcd_round_trip(h);
            let b = packed_bcd(h);
            assert(b & 0x40 == 0 && b & !0x40u8 == b) by (bit_vector)
                requires
                    b <= 0x23,
            ;
        },
        Hours::AM(h) => {
            lemma_bcd_round_trip(h);
            let b = packed_bcd(h);
            let v = (0x40 + b) as u8;
            assert(v & 0x40 != 0 && v & 0x20 == 0 && v & !(0x40u8 | 0x20u8) == b) by (bit_vector)
                requires
                    b <= 0x12,
                    v == 0x40 + b,
            ;
        },
        Hours::PM(h) => {
            lemma_bcd_round_trip(h);
            let b = packed_bcd(h);
            let v = (0x60 + b) as u8;
            assert(v & 0x40 != 0 && v & 0x20 != 0 && v & !(0x40u8 | 0x20u8) == b) by (bit_vector)
                requires
                    b <= 0x12,
                    v == 0x60 + b,
            ;
        },
    }
}

} // verus!
