use reverse_internet::inside::InsideParams;
use reverse_internet::outside::{loopback_addr, Egress, OutsideParams, OutsideState};

#[test]
fn inside_params_keep_both_ports() {
    let p = InsideParams::new(50001, 50000);
    assert_eq!(p.inside_outside_port, 50001);
    assert_eq!(p.proxy_port, 50000);
}

#[test]
fn outside_params_copy_duplicates_fields() {
    let p = OutsideParams::new("10.0.0.2:50001".to_string(), 60000, "localhost:60003".to_string());
    let q = p.copy();
    assert_eq!(q.inside_addr, "10.0.0.2:50001");
    assert_eq!(q.proxy_port, 60000);
    assert_eq!(q.proxy_out_addr, "localhost:60003");
    // The original is untouched.
    assert_eq!(p.inside_addr, "10.0.0.2:50001");
}

#[test]
fn egress_prefers_configured_external_proxy() {
    let p = OutsideParams::new("h:1".to_string(), 60000, "localhost:60003".to_string());
    assert!(!p.use_builtin_proxy());
    match p.egress() {
        Egress::External(addr) => assert_eq!(addr, "localhost:60003"),
        Egress::Builtin(_) => panic!("expected the external proxy"),
    }
}

#[test]
fn egress_falls_back_to_builtin_engine() {
    let p = OutsideParams::new("h:1".to_string(), 60000, String::new());
    assert!(p.use_builtin_proxy());
    match p.egress() {
        Egress::Builtin(port) => assert_eq!(port, 60000),
        Egress::External(_) => panic!("expected the built-in engine"),
    }
}

#[test]
fn loopback_address_renders_port_in_decimal() {
    assert_eq!(loopback_addr(60000), b"127.0.0.1:60000".to_vec());
    assert_eq!(loopback_addr(0), b"127.0.0.1:0".to_vec());
    assert_eq!(loopback_addr(7), b"127.0.0.1:7".to_vec());
    assert_eq!(loopback_addr(65535), b"127.0.0.1:65535".to_vec());
}

#[test]
fn outside_starts_one_dial_per_signal() {
    let mut st = OutsideState::new();
    st.signal_received(1);
    st.signal_received(2);
    st.signal_received(3);
    assert_eq!(st.signals_received, 3);
    assert_eq!(st.dials_started, 3);
    st.heartbeat_sent();
    assert_eq!(st.heartbeats_sent, 1);
    assert_eq!(st.dials_started, 3);
}

#[test]
fn outside_control_failure_keeps_counts() {
    let mut st = OutsideState::new();
    st.signal_received(1);
    st.control_failed();
    assert!(st.link_broken);
    assert_eq!(st.signals_received, 1);
    assert_eq!(st.dials_started, 1);
}
