//! The failures surfaced to the user, with their exit codes and
//! diagnostics.
//!
//! Protocol noise (a garbled or short acknowledgment payload) is not here:
//! the listener swallows it silently and keeps accepting. What is here are
//! the environment and connection failures that end the process: each gets
//! a distinct non-zero exit code and a user-facing message with a
//! remediation hint. A logging failure belongs to neither kind — the timer
//! warns and continues.

use vstd::prelude::*;

verus! {

/// A failure that ends the process.
#[derive(Clone, Copy, Debug, PartialEq, Eq, Structural)]
pub enum RunError {
    /// The well-known endpoint is already bound: another timer instance is
    /// running.
    AlreadyRunning,
    /// The sender found no listener at the endpoint: no timer is running.
    NoListener,
    /// The audio device for the alert could not be acquired.
    AudioUnavailable,
}

impl RunError {
    /// The process exit code for this failure.
    pub open spec fn spec_exit_code(self) -> i32 {
        match self {
            RunError::AlreadyRunning => 1,
            RunError::NoListener => 2,
            RunError::AudioUnavailable => 3,
        }
    }

    /// The user-facing diagnostic for this failure.
    pub open spec fn spec_message(self) -> Seq<char> {
        match self {
            RunError::AlreadyRunning => "a pomodoro timer is already running: its acknowledgment endpoint is taken"@,
            RunError::NoListener => "could not reach the timer: make sure the pomodoro timer is running"@,
            RunError::AudioUnavailable => "no audio output device is available for the alert"@,
        }
    }

    /// The exit code the process ends with: never 0 (0 is reserved for a
    /// normal end), and distinct for each failure.
    pub fn exit_code(self) -> (r: i32)
        ensures
            r == self.spec_exit_code(),
            r != 0,
    {
        match self {
            RunError::AlreadyRunning => 1,
            RunError::NoListener => 2,
            RunError::AudioUnavailable => 3,
        }
    }

    /// The diagnostic shown to the user before the process ends.
    pub fn message(self) -> (r: &'static str)
        ensures
            r@ == self.spec_message(),
    {
        match self {
            RunError::AlreadyRunning => "a pomodoro timer is already running: its acknowledgment endpoint is taken",
            RunError::NoListener => "could not reach the timer: make sure the pomodoro timer is running",
            RunError::AudioUnavailable => "no audio output device is available for the alert",
        }
    }
}

/// Exit codes never collide: every failure is told apart from a normal end
/// and from every other failure by its exit code alone.
pub proof fn lemma_exit_codes_distinct(a: RunError, b: RunError)
    ensures
        a.spec_exit_code() != 0,
        a != b ==> a.spec_exit_code() != b.spec_exit_code(),
{
}

} // verus!
