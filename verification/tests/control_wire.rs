use reverse_internet::control::{
    decode_signal, encode_signal, heartbeat_byte, heartbeat_stale, SignalCounter,
    HEARTBEAT_INTERVAL_SECS,
};

#[test]
fn signal_encoding_first_value() {
    assert_eq!(encode_signal(1), vec![0u8, 0u8, 0u8, 1u8]);
}

#[test]
fn signal_encoding_all_four_bytes() {
    assert_eq!(encode_signal(0x0102_0304), vec![1u8, 2u8, 3u8, 4u8]);
    assert_eq!(encode_signal(i32::MAX), vec![127u8, 255u8, 255u8, 255u8]);
    assert_eq!(encode_signal(0), vec![0u8, 0u8, 0u8, 0u8]);
}

#[test]
fn signal_round_trip_values() {
    for v in [0i32, 1, 2, 255, 256, 65_535, 65_536, 1_000_000, i32::MAX] {
        assert_eq!(decode_signal(&encode_signal(v)), v);
    }
}

#[test]
fn signal_decoding_exact() {
    assert_eq!(decode_signal(&vec![0u8, 0u8, 1u8, 44u8]), 300);
}

#[test]
fn counter_starts_at_one_and_increments() {
    let mut c = SignalCounter::new();
    assert_eq!(c.emit(), 1);
    assert_eq!(c.emit(), 2);
    assert_eq!(c.emit(), 3);
    assert_eq!(c.next, 4);
}

#[test]
fn heartbeat_byte_is_one() {
    assert_eq!(heartbeat_byte(), 1u8);
}

#[test]
fn heartbeat_interval_is_ten_seconds() {
    assert_eq!(HEARTBEAT_INTERVAL_SECS, 10);
}

#[test]
fn heartbeat_staleness_boundary() {
    // One interval of silence plus the grace margin is still healthy; one
    // millisecond beyond proves the link dead.  A reader without a read
    // timeout never evaluates this rule and waits indefinitely.
    let interval_ms = HEARTBEAT_INTERVAL_SECS * 1000;
    let grace_ms = 2_000;
    assert!(!heartbeat_stale(0, interval_ms, grace_ms));
    assert!(!heartbeat_stale(interval_ms + grace_ms, interval_ms, grace_ms));
    assert!(heartbeat_stale(interval_ms + grace_ms + 1, interval_ms, grace_ms));
}
