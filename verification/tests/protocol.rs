//! The acknowledgment wire protocol and the flag transition rules, on
//! concrete payloads.

use pomodoro::ack::ack_token_bytes;
use pomodoro::ack::flag_after_payload;
use pomodoro::ack::payload_is_ack;

#[test]
fn token_bytes_are_the_wire_format() {
    assert_eq!(ack_token_bytes(), vec![0x61u8, 0x63, 0x6b, 0x0a]);
    assert_eq!(ack_token_bytes(), b"ack\n".to_vec());
}

#[test]
fn sender_token_is_accepted_by_listener() {
    let token = ack_token_bytes();
    assert!(payload_is_ack(&token));
}

#[test]
fn valid_ack_clears_raised_flag() {
    assert_eq!(flag_after_payload(true, b"ack\n"), false);
}

#[test]
fn malformed_payload_leaves_flag_unchanged() {
    assert_eq!(flag_after_payload(true, b"abcd"), true);
    assert_eq!(flag_after_payload(false, b"abcd"), false);
}

#[test]
fn short_read_leaves_flag_unchanged() {
    assert_eq!(flag_after_payload(true, b"ack"), true);
    assert_eq!(flag_after_payload(true, b""), true);
    assert_eq!(flag_after_payload(true, b"ac"), true);
}

#[test]
fn overlong_payload_is_not_the_token() {
    assert!(!payload_is_ack(b"ack\n\n"));
    assert_eq!(flag_after_payload(true, b"ack\n\n"), true);
}

#[test]
fn near_miss_payloads_are_rejected() {
    assert!(!payload_is_ack(b"ack\r"));
    assert!(!payload_is_ack(b"ACK\n"));
    assert!(!payload_is_ack(b"kca\n"));
    assert!(!payload_is_ack(b"\nack"));
}

#[test]
fn listener_stays_available_after_noise() {
    // Noise on the channel is swallowed; the very next valid token still
    // clears the flag.
    let mut flag = true;
    flag = flag_after_payload(flag, b"abcd");
    assert_eq!(flag, true);
    flag = flag_after_payload(flag, b"ack");
    assert_eq!(flag, true);
    flag = flag_after_payload(flag, b"ack\n");
    assert_eq!(flag, false);
}

#[test]
fn double_ack_is_a_no_op() {
    // A second acknowledgment while the flag is already down changes
    // nothing.
    let mut flag = true;
    flag = flag_after_payload(flag, b"ack\n");
    assert_eq!(flag, false);
    flag = flag_after_payload(flag, b"ack\n");
    assert_eq!(flag, false);
}

#[test]
fn ack_while_flag_down_keeps_it_down() {
    assert_eq!(flag_after_payload(false, b"ack\n"), false);
}
