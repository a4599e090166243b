//! The time of day on the machine's clock.

use chrono::Timelike;
use vstd::prelude::*;

verus! {

/// A time of day.
#[derive(Clone, Copy, Debug, PartialEq, Eq, Structural)]
pub struct TimeOfDay {
    pub hour: u32,
    pub minute: u32,
    pub second: u32,
}

impl TimeOfDay {
    /// The hour is below 24, the minute and the second below 60.
    pub open spec fn is_on_the_dial(self) -> bool {
        self.hour < 24 && self.minute < 60 && self.second < 60
    }
}

/// Reads `chrono::Local::now()` and takes its `hour`, `minute` and `second`
/// (`chrono::Timelike`): the hour from 0 to 23, minute and second from 0 to
/// 59, in the machine's time zone.
#[verifier::external_body]
pub(crate) fn local_time() -> (now: TimeOfDay)
    ensures
        now.is_on_the_dial(),
{
    let now = chrono::Local::now();
    TimeOfDay { hour: now.hour(), minute: now.minute(), second: now.second() }
}

} // verus!
