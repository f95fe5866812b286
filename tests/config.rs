use etcd_rs::{ClientConfig, Endpoint};

#[test]
fn config_defaults_and_builders() {
    let c = ClientConfig::new(vec![Endpoint::new("http://127.0.0.1:2379".to_string())]);
    assert_eq!(c.connect_timeout_ms, 30000);
    assert_eq!(c.http2_keep_alive_interval_ms, 5000);
    assert!(c.auth.is_none());
    assert!(c.authenticate_request().is_none());
    let c = c
        .auth("root".to_string(), "pw".to_string())
        .connect_timeout(1000)
        .http2_keep_alive_interval(200);
    assert_eq!((c.connect_timeout_ms, c.http2_keep_alive_interval_ms), (1000, 200));
    let req = c.authenticate_request().unwrap();
    assert_eq!((req.name.as_str(), req.password.as_str()), ("root", "pw"));
}

#[test]
fn endpoint_tls_material() {
    let e = Endpoint::new("https://a:2379".to_string()).tls_raw(
        "a".to_string(),
        b"ca".to_vec(),
        b"cert".to_vec(),
        b"key".to_vec(),
    );
    let tls = e.tls.unwrap();
    assert_eq!(tls.domain_name, "a");
    assert_eq!(tls.client_key, b"key".to_vec());
}
