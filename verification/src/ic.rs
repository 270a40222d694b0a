//! The device models the driver tells apart by a type parameter.

use vstd::prelude::*;

verus! {

/// DS3231
pub struct DS3231;

/// DS3232
pub struct DS3232;

/// DS3234
pub struct DS3234;

} // verus!
