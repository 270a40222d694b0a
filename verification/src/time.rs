//! A time of day, as the hour-minute-second alarm setters take it.

use vstd::prelude::*;

verus! {

/// A time of day with whole seconds: hour [0-23], minute [0-59], second [0-59].
#[derive(Debug, Clone, Copy, PartialEq, Eq)]
pub struct TimeOfDay {
    hour: u32,
    minute: u32,
    second: u32,
}

impl TimeOfDay {
    #[verifier::type_invariant]
    spec fn in_range(self) -> bool {
        self.hour < 24 && self.minute < 60 && self.second < 60
    }

    /// The hour.
    pub closed spec fn spec_hour(&self) -> u32 {
        self.hour
    }

    /// The minute.
    pub closed spec fn spec_minute(&self) -> u32 {
        self.minute
    }

    /// The second.
    pub closed spec fn spec_second(&self) -> u32 {
        self.second
    }

    /// The time `hour:minute:second`, or `None` where a field is out of range.
    pub fn from_hms(hour: u32, minute: u32, second: u32) -> (t: Option<TimeOfDay>)
        ensures
            (hour < 24 && minute < 60 && second < 60) <==> t is Some,
            t matches Some(t) ==> t.hour() == hour && t.minute() == minute && t.second() == second,
    {
        if hour < 24 && minute < 60 && second < 60 {
            Some(TimeOfDay { hour, minute, second })
        } else {
            None
        }
    }

    /// The hour [0-23].
    #[verifier::when_used_as_spec(spec_hour)]
    pub fn hour(&self) -> (h: u32)
        ensures
            h == self.spec_hour(),
            h < 24,
    {
        proof {
            use_type_invariant(self);
        }
        self.hour
    }

    /// The minute [0-59].
    #[verifier::when_used_as_spec(spec_minute)]
    pub fn minute(&self) -> (m: u32)
        ensures
            m == self.spec_minute(),
            m < 60,
    {
        proof {
            use_type_invariant(self);
        }
        self.minute
    }

    /// The second [0-59].
    #[verifier::when_used_as_spec(spec_second)]
    pub fn second(&self) -> (s: u32)
        ensures
            s == self.spec_second(),
            s < 60,
    {
        proof {
            use_type_invariant(self);
        }
        self.second
    }
}

} // verus!
