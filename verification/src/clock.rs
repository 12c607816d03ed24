//! Wall-clock readings, taken through the `chrono` crate and handed to the
//! rest of the library as plain values.

use vstd::prelude::*;
use chrono::Datelike;
use chrono::Timelike;
use crate::logline::Timestamp;

verus! {

/// One reading of the local wall clock, as plain values.
pub struct ClockReading {
    /// Non-leap seconds since 1970-01-01 00:00:00 UTC; negative before it.
    pub unix_secs: i64,
    /// Calendar year of the local date.
    pub year: i32,
    /// Month, 1 to 12.
    pub month: u32,
    /// Day of month, 1 to 31.
    pub day: u32,
    /// Hour, 0 to 23.
    pub hour: u32,
    /// Minute, 0 to 59.
    pub minute: u32,
    /// Second, 0 to 59.
    pub second: u32,
}

impl ClockReading {
    /// The field ranges the calendar accessors document. The instant itself
    /// is whatever the machine's clock said: nothing more can be promised
    /// of it.
    pub open spec fn wf(self) -> bool {
        &&& 1 <= self.month <= 12
        &&& 1 <= self.day <= 31
        &&& self.hour <= 23
        &&& self.minute <= 59
        &&& self.second <= 59
    }
}

/// Relies on `chrono::Local::now` for the current local time, on
/// `chrono::DateTime::timestamp` for its non-leap seconds since the epoch,
/// and on the `chrono::Datelike` / `chrono::Timelike` accessors for the
/// calendar fields, whose documented ranges the contract restates.
#[verifier::external_body]
fn read_local_clock() -> (r: ClockReading)
    ensures
        r.wf(),
{
    let now = chrono::Local::now();
    ClockReading {
        unix_secs: now.timestamp(),
        year: now.year(),
        month: now.month(),
        day: now.day(),
        hour: now.hour(),
        minute: now.minute(),
        second: now.second(),
    }
}

/// The current wall-clock time as whole seconds since the epoch, for
/// deadline bookkeeping; an instant before the epoch reads as 0.
pub(crate) fn clock_secs() -> u64 {
    let r = read_local_clock();
    if r.unix_secs < 0 {
        0
    } else {
        r.unix_secs as u64
    }
}

/// The current local calendar time, bounded field by field, ready for the
/// activity-log record. `None` only for a clock reading whose year falls
/// outside the four digits the record format allots (before year 0 or
/// after 9999).
pub fn now_timestamp() -> (r: Option<Timestamp>)
    ensures
        r is Some ==> r->Some_0.wf(),
{
    let c = read_local_clock();
    Timestamp::new(c.year, c.month, c.day, c.hour, c.minute, c.second)
}

} // verus!
