use reverse_internet::http::{
    connect_established_response, plan_request, replace_pattern, rewrite_request, should_serve,
    trimmed_request, HttpAction, HttpArgs,
};

#[test]
fn forward_plan_rewrites_proxy_keepalive() {
    let raw =
        b"GET http://example.com/ HTTP/1.1\r\nHost: example.com\r\nProxy-Connection: keep-alive\r\n\r\n"
            .to_vec();
    let plan = plan_request(&raw, &Vec::new());
    match plan {
        HttpAction::Forward { target, payload } => {
            assert_eq!(target, b"example.com:80".to_vec());
            assert_eq!(
                payload,
                b"GET http://example.com/ HTTP/1.1\r\nHost: example.com\r\nConnection: close\r\n\r\n"
                    .to_vec()
            );
        }
        _ => panic!("expected a forward plan"),
    }
}

#[test]
fn connect_plan_tunnels_to_host() {
    let raw = b"CONNECT example.com:443 HTTP/1.1\r\nHost: example.com:443\r\n\r\n".to_vec();
    let plan = plan_request(&raw, &Vec::new());
    match plan {
        HttpAction::ConnectTunnel { target } => {
            assert_eq!(target, b"example.com:443".to_vec());
        }
        _ => panic!("expected a tunnel plan"),
    }
    assert_eq!(
        connect_established_response(),
        b"HTTP/1.0 200 Connection Established\r\n\r\n".to_vec()
    );
}

#[test]
fn chained_plan_ignores_host_header() {
    let raw = b"GET / HTTP/1.1\r\nHost: example.com\r\nConnection: keep-alive\r\n\r\n".to_vec();
    let next = b"localhost:60003".to_vec();
    let plan = plan_request(&raw, &next);
    match plan {
        HttpAction::Chained { payload } => {
            assert_eq!(
                payload,
                b"GET / HTTP/1.1\r\nHost: example.com\r\nConnection: close\r\n\r\n".to_vec()
            );
        }
        _ => panic!("expected a chained plan"),
    }
}

#[test]
fn empty_request_is_dropped() {
    assert!(matches!(plan_request(&Vec::new(), &Vec::new()), HttpAction::Drop));
    assert!(matches!(plan_request(&b"\r\n\r\n".to_vec(), &Vec::new()), HttpAction::Drop));
}

#[test]
fn request_without_host_is_dropped() {
    let raw = b"GET / HTTP/1.1\r\nAccept: text/html\r\n\r\n".to_vec();
    assert!(matches!(plan_request(&raw, &Vec::new()), HttpAction::Drop));
}

#[test]
fn host_name_is_matched_case_insensitively() {
    let raw = b"GET / HTTP/1.1\r\nhOsT: foo\r\n\r\n".to_vec();
    match plan_request(&raw, &Vec::new()) {
        HttpAction::Forward { target, .. } => {
            // The value names no port, so the default HTTP port is added.
            assert_eq!(target, b"foo:80".to_vec());
        }
        _ => panic!("expected a forward plan"),
    }
}

#[test]
fn host_with_port_is_kept_as_is() {
    let raw = b"GET / HTTP/1.1\r\nHost: foo:8080\r\n\r\n".to_vec();
    match plan_request(&raw, &Vec::new()) {
        HttpAction::Forward { target, .. } => {
            assert_eq!(target, b"foo:8080".to_vec());
        }
        _ => panic!("expected a forward plan"),
    }
}

#[test]
fn replacement_is_left_to_right_and_exhaustive() {
    let s = b"abcabc".to_vec();
    let pat = b"b".to_vec();
    let sub = b"XY".to_vec();
    assert_eq!(replace_pattern(&s, &pat, &sub), b"aXYcaXYc".to_vec());
    let none = b"hello".to_vec();
    assert_eq!(replace_pattern(&none, &pat, &sub), b"hello".to_vec());
}

#[test]
fn rewrite_handles_both_keepalive_forms() {
    let s = b"A\r\nProxy-Connection: keep-alive\r\nB\r\nConnection: keep-alive\r\nC".to_vec();
    assert_eq!(
        rewrite_request(&s),
        b"A\r\nConnection: close\r\nB\r\nConnection: close\r\nC".to_vec()
    );
}

#[test]
fn trimming_removes_only_trailing_crlf_pairs() {
    assert_eq!(trimmed_request(&b"x\r\n\r\n".to_vec()), b"x".to_vec());
    assert_eq!(trimmed_request(&b"\r\n".to_vec()), b"".to_vec());
    assert_eq!(trimmed_request(&b"a\r\nb".to_vec()), b"a\r\nb".to_vec());
    assert_eq!(trimmed_request(&b"".to_vec()), b"".to_vec());
}

#[test]
fn engine_serves_only_on_nonzero_port() {
    let off = HttpArgs { port: 0, next_http: String::new() };
    assert!(!should_serve(&off));
    let on = HttpArgs { port: 60000, next_http: String::new() };
    assert!(should_serve(&on));
}
