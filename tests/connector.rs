use swagger::connector::DEFAULT_DNS_THREADS;
use swagger::{ApiError, Connector};

#[test]
fn builder_settings() {
    let b = Connector::builder();
    assert_eq!(b.dns_threads, DEFAULT_DNS_THREADS);
    assert_eq!(DEFAULT_DNS_THREADS, 4);
    let h = b.dns_threads(8).https().pin_server_certificate("ca.pem").client_authentication("key.pem", "cert.pem");
    assert_eq!(h.dns_threads, 8);
    assert_eq!(h.server_cert.as_deref(), Some("ca.pem"));
    assert_eq!(h.client_cert, Some(("key.pem".to_string(), "cert.pem".to_string())));
    let h = h.dns_threads(2);
    assert_eq!(h.dns_threads, 2);
    assert!(h.server_cert.is_some());
}

#[test]
fn api_error_holds_its_description() {
    assert_eq!(ApiError::from("boom").0, "boom");
    assert_eq!(ApiError::from("x".to_string()).to_string(), "x");
}
