use wsproxy::errors::{is_benign_error, is_warning_error, ProxyError};

#[test]
fn benign_lifecycle_messages() {
    assert!(is_benign_error("broken pipe"));
    assert!(is_benign_error("Connection Reset by peer"));
    assert!(is_benign_error("unexpected EOF while reading"));
    assert!(is_benign_error("WritableStream has been closed"));
    assert!(is_benign_error("network connection lost"));
    assert!(is_benign_error("stream closed"));
    assert!(is_benign_error("socket closed"));
    assert!(is_benign_error("operation canceled"));
    assert!(is_benign_error("request cancelled"));
}

#[test]
fn benign_timeouts_and_limits() {
    assert!(is_benign_error("connection timed out"));
    assert!(is_benign_error("TIMEOUT"));
    assert!(is_benign_error("deadline exceeded"));
    assert!(is_benign_error("rate limit hit"));
    assert!(is_benign_error("quota reached"));
    assert!(is_benign_error("buffer overrun"));
    assert!(is_benign_error("not enough data"));
    assert!(is_benign_error("payload too large"));
    assert!(is_benign_error("line too long"));
}

#[test]
fn benign_network_conditions() {
    assert!(is_benign_error("DNS lookup error"));
    assert!(is_benign_error("host not found"));
    assert!(is_benign_error("network unreachable"));
    assert!(is_benign_error("protocol not implemented"));
    assert!(is_benign_error("TLS handshake interrupted"));
    assert!(is_benign_error("connection failed"));
    assert!(is_benign_error("WebSocket frame error"));
    assert!(is_benign_error("request hung"));
    assert!(is_benign_error("body never generate"));
    assert!(is_benign_error("HTTP service detected"));
    assert!(is_benign_error("https target refused"));
}

#[test]
fn benign_conjunction_all_failed() {
    assert!(is_benign_error("all upstream connections failed"));
    assert!(!is_benign_error("upstream connections degraded"));
}

#[test]
fn non_benign_messages() {
    assert!(!is_benign_error("index out of bounds"));
    assert!(!is_benign_error("invalid opcode"));
    assert!(!is_benign_error(""));
}

#[test]
fn warning_messages() {
    assert!(is_warning_error("backpressure applied"));
    assert!(is_warning_error("Buffer Full"));
    assert!(is_warning_error("max iterations reached"));
    assert!(is_warning_error("CPU limit approached"));
    assert!(!is_warning_error("broken pipe"));
    assert!(!is_warning_error(""));
}

#[test]
fn error_messages_name_their_kind() {
    assert_eq!(ProxyError::MalformedFrame.message(), "malformed frame");
    assert_eq!(ProxyError::UnsupportedAddressType.message(), "unsupported address type");
    assert_eq!(ProxyError::InvalidPort.message(), "invalid port");
    assert_eq!(ProxyError::InvalidVersion.message(), "invalid version");
    assert_eq!(ProxyError::AuthFailed.message(), "auth failed");
}
