//! The activity-log record appended for every completed work phase.
//!
//! The record is one line, `pomodoro - YYYY-MM-DD HH:MM:SS`, built here as
//! plain ASCII bytes without the line terminator. The surrounding binary
//! appends it (plus a newline) to the log file; a failure to do so is not
//! fatal to the timer.

use vstd::prelude::*;

verus! {

/// A calendar timestamp the log record can carry. Every field is within
/// its calendar range, so each formats to a fixed number of digits.
#[derive(Clone, Copy, Debug, PartialEq, Eq, Structural)]
pub struct Timestamp {
    pub year: u16,
    pub month: u8,
    pub day: u8,
    pub hour: u8,
    pub minute: u8,
    pub second: u8,
}

impl Timestamp {
    /// Every field lies within its calendar range (the year within the four
    /// digits the record format allots it).
    pub open spec fn wf(self) -> bool {
        &&& self.year <= 9999
        &&& 1 <= self.month <= 12
        &&& 1 <= self.day <= 31
        &&& self.hour <= 23
        &&& self.minute <= 59
        &&& self.second <= 59
    }

    /// Builds a timestamp from raw calendar fields; succeeds exactly when
    /// every field lies within its range.
    pub fn new(year: i32, month: u32, day: u32, hour: u32, minute: u32, second: u32) -> (r:
        Option<Timestamp>)
        ensures
            match r {
                Some(ts) => {
                    &&& 0 <= year <= 9999
                    &&& 1 <= month <= 12
                    &&& 1 <= day <= 31
                    &&& hour <= 23
                    &&& minute <= 59
                    &&& second <= 59
                    &&& ts == (Timestamp {
                        year: year as u16,
                        month: month as u8,
                        day: day as u8,
                        hour: hour as u8,
                        minute: minute as u8,
                        second: second as u8,
                    })
                    &&& ts.wf()
                },
                None => !(0 <= year <= 9999 && 1 <= month <= 12 && 1 <= day <= 31 && hour <= 23
                    && minute <= 59 && second <= 59),
            },
    {
        if 0 <= year && year <= 9999 && 1 <= month && month <= 12 && 1 <= day && day <= 31
            && hour <= 23 && minute <= 59 && second <= 59 {
            Some(
                Timestamp {
                    year: year as u16,
                    month: month as u8,
                    day: day as u8,
                    hour: hour as u8,
                    minute: minute as u8,
                    second: second as u8,
                },
            )
        } else {
            None
        }
    }
}

/// The ASCII digit for `d`.
pub open spec fn spec_digit(d: int) -> u8
    recommends
        0 <= d <= 9,
{
    (48 + d) as u8
}

/// `n` zero-padded to two ASCII digits.
pub open spec fn spec_two_digits(n: int) -> Seq<u8> {
    seq![spec_digit(n / 10), spec_digit(n % 10)]
}

/// `n` zero-padded to four ASCII digits.
pub open spec fn spec_four_digits(n: int) -> Seq<u8> {
    seq![
        spec_digit(n / 1000),
        spec_digit((n / 100) % 10),
        spec_digit((n / 10) % 10),
        spec_digit(n % 10),
    ]
}

/// The bytes of one log record: the fixed label `pomodoro - ` followed by
/// the timestamp as `YYYY-MM-DD HH:MM:SS`, without a line terminator.
pub open spec fn spec_log_line(ts: Timestamp) -> Seq<u8> {
    seq![112u8, 111u8, 109u8, 111u8, 100u8, 111u8, 114u8, 111u8, 32u8, 45u8, 32u8]
        + spec_four_digits(ts.year as int) + seq![45u8] + spec_two_digits(ts.month as int)
        + seq![45u8] + spec_two_digits(ts.day as int) + seq![32u8] + spec_two_digits(
        ts.hour as int,
    ) + seq![58u8] + spec_two_digits(ts.minute as int) + seq![58u8] + spec_two_digits(
        ts.second as int,
    )
}

/// Appends `n` as two zero-padded ASCII digits.
fn push_two_digits(v: &mut Vec<u8>, n: u8)
    requires
        n <= 99,
    ensures
        final(v)@ == old(v)@ + spec_two_digits(n as int),
{
    v.push(48 + n / 10);
    v.push(48 + n % 10);
    proof {
        assert(v@ =~= old(v)@ + spec_two_digits(n as int));
    }
}

/// Appends `n` as four zero-padded ASCII digits.
fn push_four_digits(v: &mut Vec<u8>, n: u16)
    requires
        n <= 9999,
    ensures
        final(v)@ == old(v)@ + spec_four_digits(n as int),
{
    v.push((48 + n / 1000) as u8);
    v.push((48 + (n / 100) % 10) as u8);
    v.push((48 + (n / 10) % 10) as u8);
    v.push((48 + n % 10) as u8);
    proof {
        assert(v@ =~= old(v)@ + spec_four_digits(n as int));
    }
}

/// The bytes of the log record for `ts`: `pomodoro - YYYY-MM-DD HH:MM:SS`.
pub fn log_line(ts: &Timestamp) -> (r: Vec<u8>)
    requires
        ts.wf(),
    ensures
        r@ == spec_log_line(*ts),
{
    let mut v: Vec<u8> = Vec::new();
    v.push(112);
    v.push(111);
    v.push(109);
    v.push(111);
    v.push(100);
    v.push(111);
    v.push(114);
    v.push(111);
    v.push(32);
    v.push(45);
    v.push(32);
    push_four_digits(&mut v, ts.year);
    v.push(45);
    push_two_digits(&mut v, ts.month);
    v.push(45);
    push_two_digits(&mut v, ts.day);
    v.push(32);
    push_two_digits(&mut v, ts.hour);
    v.push(58);
    push_two_digits(&mut v, ts.minute);
    v.push(58);
    push_two_digits(&mut v, ts.second);
    proof {
        assert(v@ =~= spec_log_line(*ts));
    }
    v
}

} // verus!
