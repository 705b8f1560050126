use rosthem::CoapError;
use rosthem::CoapUri;

#[test]
fn parses_secured_locator_with_path() {
    let uri = CoapUri::new("coaps://192.168.1.50/15001/65539".to_string()).unwrap();
    assert!(uri.is_secure());
    assert_eq!(uri.host().as_str(), "192.168.1.50");
    assert_eq!(uri.port(), 5684);
    assert_eq!(uri.path().as_str(), "15001/65539");
    assert_eq!(uri.as_str().as_str(), "coaps://192.168.1.50/15001/65539");
}

#[test]
fn parses_plain_locator_with_default_port() {
    let uri = CoapUri::new("coap://gateway.local/status".to_string()).unwrap();
    assert!(!uri.is_secure());
    assert_eq!(uri.port(), 5683);
    assert_eq!(uri.host().as_str(), "gateway.local");
    assert_eq!(uri.path().as_str(), "status");
}

#[test]
fn parses_explicit_port() {
    let uri = CoapUri::new("coaps://gw:1234/a/b".to_string()).unwrap();
    assert_eq!(uri.port(), 1234);
    assert_eq!(uri.host().as_str(), "gw");
    assert_eq!(uri.path().as_str(), "a/b");
}

#[test]
fn parses_host_only_locator() {
    let uri = CoapUri::new("coaps://gw".to_string()).unwrap();
    assert_eq!(uri.host().as_str(), "gw");
    assert_eq!(uri.port(), 5684);
    assert_eq!(uri.path().as_str(), "");
}

#[test]
fn parses_port_without_path() {
    let uri = CoapUri::new("coaps://gw:65535".to_string()).unwrap();
    assert_eq!(uri.port(), 65535);
    assert_eq!(uri.path().as_str(), "");
}

#[test]
fn rejects_unknown_scheme() {
    assert!(matches!(
        CoapUri::new("http://gw/a".to_string()),
        Err(CoapError::InvalidUri)
    ));
    assert!(matches!(CoapUri::new("gw/a".to_string()), Err(CoapError::InvalidUri)));
    assert!(matches!(CoapUri::new("".to_string()), Err(CoapError::InvalidUri)));
}

#[test]
fn rejects_empty_host() {
    assert!(matches!(
        CoapUri::new("coaps:///15001".to_string()),
        Err(CoapError::InvalidUri)
    ));
}

#[test]
fn rejects_malformed_port() {
    assert!(matches!(
        CoapUri::new("coaps://gw:12a4/x".to_string()),
        Err(CoapError::InvalidUri)
    ));
    assert!(matches!(
        CoapUri::new("coaps://gw:/x".to_string()),
        Err(CoapError::InvalidUri)
    ));
}

#[test]
fn rejects_out_of_range_port() {
    assert!(matches!(
        CoapUri::new("coaps://gw:65536/x".to_string()),
        Err(CoapError::InvalidUri)
    ));
    assert!(matches!(
        CoapUri::new("coaps://gw:99999999999999999999/x".to_string()),
        Err(CoapError::InvalidUri)
    ));
}
