//! Core of an interval timer that alternates a long work phase and a short
//! break phase. A phase ends at a wall-clock deadline; the end is announced
//! by an alert that keeps sounding until a separate invocation of the program
//! acknowledges it over a local endpoint. This crate holds the verified
//! logic: the phase cycle, the deadline bookkeeping, the shared alert flag's
//! transition rules, and the acknowledgment wire protocol. The surrounding
//! binary supplies the threads, the socket, the audio device and the log
//! file, and drives this logic with plain values.

pub mod ack;
pub mod clock;
pub mod errors;
pub mod logline;
pub mod phase;
pub mod sched;
