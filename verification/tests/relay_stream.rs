use reverse_internet::relay::{RelayDirection, RelayPair, RelayStatus};

#[test]
fn relay_forwards_bytes_unmodified() {
    let mut d = RelayDirection::new();
    d.on_chunk(&b"hel".to_vec());
    d.on_chunk(&b"lo".to_vec());
    assert_eq!(d.forwarded, b"hello".to_vec());
    assert_eq!(d.status, RelayStatus::Open);
}

#[test]
fn two_hop_delivery_preserves_stream() {
    // Inside relay: the client's stream arrives in arbitrary chunks.
    let mut first = RelayDirection::new();
    first.on_chunk(&b"GET / HT".to_vec());
    first.on_chunk(&b"TP/1.1".to_vec());
    // Outside relay: the TCP hop re-chunks; feed what the first forwarded.
    let mut second = RelayDirection::new();
    second.on_chunk(&first.forwarded);
    assert_eq!(second.forwarded, b"GET / HTTP/1.1".to_vec());
}

#[test]
fn half_close_leaves_reverse_direction_untouched() {
    let mut pair = RelayPair::new();
    pair.client_to_egress.on_chunk(&b"request".to_vec());
    pair.egress_to_client.on_chunk(&b"resp".to_vec());
    pair.client_write_closed();
    assert_eq!(pair.client_to_egress.status, RelayStatus::Done);
    // The reverse direction still flows.
    assert_eq!(pair.egress_to_client.status, RelayStatus::Open);
    pair.egress_to_client.on_chunk(&b"onse".to_vec());
    assert_eq!(pair.egress_to_client.forwarded, b"response".to_vec());
}

#[test]
fn ping_echo_round_trip() {
    // A raw TCP client writes "ping"; the egress side is an echo service.
    let mut pair = RelayPair::new();
    pair.client_to_egress.on_chunk(&b"ping".to_vec());
    assert_eq!(pair.client_to_egress.forwarded, b"ping".to_vec());
    let echoed = pair.client_to_egress.forwarded.clone();
    pair.egress_to_client.on_chunk(&echoed);
    // The client reads back exactly what it wrote.
    assert_eq!(pair.egress_to_client.forwarded, b"ping".to_vec());
    // Both sides close cleanly.
    pair.client_write_closed();
    pair.egress_write_closed();
    assert_eq!(pair.client_to_egress.status, RelayStatus::Done);
    assert_eq!(pair.egress_to_client.status, RelayStatus::Done);
    assert_eq!(pair.egress_to_client.forwarded, b"ping".to_vec());
}

#[test]
fn error_stops_one_direction_only() {
    let mut pair = RelayPair::new();
    pair.client_to_egress.on_chunk(&b"abc".to_vec());
    pair.egress_to_client.on_error();
    assert_eq!(pair.egress_to_client.status, RelayStatus::Failed);
    assert_eq!(pair.client_to_egress.status, RelayStatus::Open);
    assert_eq!(pair.client_to_egress.forwarded, b"abc".to_vec());
}

#[test]
fn eof_keeps_forwarded_bytes() {
    let mut d = RelayDirection::new();
    d.on_chunk(&b"tail".to_vec());
    d.on_eof();
    assert_eq!(d.status, RelayStatus::Done);
    assert_eq!(d.forwarded, b"tail".to_vec());
}
