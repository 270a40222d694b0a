//! Packed binary-coded decimal, the number format of the clock's registers.

use vstd::prelude::*;

verus! {

/// The packed BCD byte for `dec`: tens in the high nibble, units in the low
/// nibble. The tens digit is kept modulo 16, as an 8-bit shift keeps it.
pub open spec fn packed_bcd(dec: u8) -> u8 {
    (((dec / 10) % 16) * 16 + dec % 10) as u8
}

/// The decimal value of a packed BCD byte: high nibble times ten plus low nibble.
pub open spec fn bcd_value(bcd: u8) -> u8 {
    ((bcd / 16) * 10 + bcd % 16) as u8
}

/// Converts a decimal number to packed BCD.
pub fn decimal_to_packed_bcd(dec: u8) -> (bcd: u8)
    ensures
        bcd == packed_bcd(dec),
{
    let tens: u8 = dec / 10;
    let units: u8 = dec % 10;
    assert(((tens << 4u8) | units) == (((tens % 16) * 16 + units) as u8)) by (bit_vector)
        requires
            units < 10,
    ;
    (tens << 4u8) | units
}

/// Converts a packed BCD byte to its decimal value.
pub fn packed_bcd_to_decimal(bcd: u8) -> (dec: u8)
    ensures
        dec == bcd_value(bcd),
        dec <= 165,
{
    let high: u8 = bcd >> 4u8;
    let low: u8 = bcd & 0xF;
    assert(high == bcd / 16 && low == bcd % 16) by (bit_vector)
        requires
            high == bcd >> 4u8,
            low == bcd & 0xF,
    ;
    high * 10 + low
}

/// Encoding a two-digit decimal number and decoding it again gives the number back.
pub proof fn lemma_bcd_round_trip(dec: u8)
    requires
        dec <= 99,
    ensures
        bcd_value(packed_bcd(dec)) == dec,
        packed_bcd(dec) == (dec / 10) * 16 + dec % 10,
        packed_bcd(dec) <= 0x99,
{
    let b: int = (dec / 10) * 16 + dec % 10;
    assert(b / 16 == dec / 10);
    assert(b % 16 == dec % 10);
}

} // verus!
