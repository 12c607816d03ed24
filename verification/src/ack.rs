//! The acknowledgment wire protocol and the shared alert flag's transition
//! rules.
//!
//! The flag is a single boolean shared by the scheduler and the listener.
//! `true` means a phase has ended and the alert is sounding, awaiting
//! acknowledgment; `false` means no alert is pending. The scheduler is the
//! only writer that raises it, at a deadline; the listener is the only
//! writer that clears it, on receipt of the exact 4-byte token.

use vstd::prelude::*;

verus! {

/// The exact acknowledgment payload: the ASCII bytes of `ack` followed by a
/// newline.
pub open spec fn spec_ack_token() -> Seq<u8> {
    seq![97u8, 99u8, 107u8, 10u8]
}

/// Whether `bytes` is exactly the 4-byte acknowledgment token.
pub open spec fn is_ack_token(bytes: Seq<u8>) -> bool {
    bytes == spec_ack_token()
}

/// The flag value after the listener handles one delivered payload: the
/// exact token clears the flag, any other byte sequence (garbled or short)
/// is silently discarded and leaves the flag untouched.
pub open spec fn spec_flag_after_payload(flag: bool, bytes: Seq<u8>) -> bool {
    if is_ack_token(bytes) {
        false
    } else {
        flag
    }
}

/// The token the sender role transmits, as bytes ready for the wire.
pub fn ack_token_bytes() -> (r: Vec<u8>)
    ensures
        r@ == spec_ack_token(),
{
    let mut v: Vec<u8> = Vec::new();
    v.push(97);
    v.push(99);
    v.push(107);
    v.push(10);
    proof {
        assert(v@ =~= spec_ack_token());
    }
    v
}

/// Whether a received payload is exactly the acknowledgment token.
pub fn payload_is_ack(buf: &[u8]) -> (r: bool)
    ensures
        r == is_ack_token(buf@),
{
    if buf.len() == 4 {
        let r = buf[0] == 97 && buf[1] == 99 && buf[2] == 107 && buf[3] == 10;
        proof {
            if buf@[0] == 97u8 && buf@[1] == 99u8 && buf@[2] == 107u8 && buf@[3] == 10u8 {
                assert(buf@ =~= spec_ack_token());
            }
        }
        r
    } else {
        false
    }
}

/// The listener's decision for one delivered payload: the new flag value.
pub fn flag_after_payload(flag: bool, buf: &[u8]) -> (r: bool)
    ensures
        r == spec_flag_after_payload(flag, buf@),
{
    if payload_is_ack(buf) {
        false
    } else {
        flag
    }
}

/// An occurrence that may change the shared alert flag.
pub enum FlagEvent {
    /// The scheduler reached the current phase's deadline and raises the
    /// flag.
    DeadlineReached,
    /// The listener received one payload over the local endpoint.
    PayloadDelivered(Seq<u8>),
}

/// The flag value after one event.
pub open spec fn spec_flag_after_event(flag: bool, e: FlagEvent) -> bool {
    match e {
        FlagEvent::DeadlineReached => true,
        FlagEvent::PayloadDelivered(bytes) => spec_flag_after_payload(flag, bytes),
    }
}

/// The shared alert flag changes in only two ways: it rises from `false` to
/// `true` when the scheduler reaches a deadline, and it falls from `true` to
/// `false` when the listener receives the exact acknowledgment token. No
/// event makes any other change.
pub proof fn lemma_flag_transitions(flag: bool, e: FlagEvent)
    ensures
        spec_flag_after_event(flag, e) != flag ==> {
            ||| (!flag && spec_flag_after_event(flag, e) && e == FlagEvent::DeadlineReached)
            ||| (flag && !spec_flag_after_event(flag, e)
                && (e matches FlagEvent::PayloadDelivered(bytes) && is_ack_token(bytes)))
        },
{
}

/// A valid acknowledgment always leaves the flag down, whatever it was:
/// the token the sender transmits is exactly the one the listener accepts.
pub proof fn lemma_ack_clears(flag: bool)
    ensures
        !spec_flag_after_payload(flag, spec_ack_token()),
{
}

/// Handling the same payload twice in a row leaves the flag exactly where
/// one handling left it: a second acknowledgment sent while the flag is
/// already down is a harmless no-op.
pub proof fn lemma_payload_idempotent(flag: bool, bytes: Seq<u8>)
    ensures
        spec_flag_after_payload(spec_flag_after_payload(flag, bytes), bytes)
            == spec_flag_after_payload(flag, bytes),
{
}

} // verus!
