use proxy_gateway::trojan::TrojanProxy;

#[test]
fn greeting_is_password_then_connect_and_host_lines() {
    let t = TrojanProxy::new(
        "t".to_string(),
        "srv.example".to_string(),
        443,
        "letmein".to_string(),
        None,
    );
    let got = t.greeting(b"example.com", 8443);
    let expected = format!(
        "letmein\r\nCONNECT example.com:8443 HTTP/1.1\r\nHost: example.com:8443\r\n\r\n"
    );
    assert_eq!(got, expected.into_bytes());
}

#[test]
fn greeting_renders_small_and_large_ports() {
    let t = TrojanProxy::new(
        "t".to_string(),
        "srv".to_string(),
        443,
        "pw".to_string(),
        None,
    );
    assert_eq!(
        t.greeting(b"h", 1),
        b"pw\r\nCONNECT h:1 HTTP/1.1\r\nHost: h:1\r\n\r\n".to_vec()
    );
    assert_eq!(
        t.greeting(b"h", 65535),
        b"pw\r\nCONNECT h:65535 HTTP/1.1\r\nHost: h:65535\r\n\r\n".to_vec()
    );
}

#[test]
fn tls_server_name_prefers_the_sni() {
    let with_sni = TrojanProxy::new(
        "t".to_string(),
        "srv.example".to_string(),
        443,
        "pw".to_string(),
        Some("sni.example".to_string()),
    );
    assert_eq!(with_sni.tls_server_name(), "sni.example");
    let without = TrojanProxy::new(
        "t".to_string(),
        "srv.example".to_string(),
        443,
        "pw".to_string(),
        None,
    );
    assert_eq!(without.tls_server_name(), "srv.example");
}
