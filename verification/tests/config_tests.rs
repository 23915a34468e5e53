use wsproxy::config::{
    fallback_override, is_country_code_format, is_proxyip_format, select_index,
};

#[test]
fn proxyip_format_shapes() {
    assert!(is_proxyip_format("1.2.3.4-443"));
    assert!(is_proxyip_format("example.com-8080"));
    assert!(is_proxyip_format("a-1"));
    assert!(!is_proxyip_format(""));
    assert!(!is_proxyip_format("1.2.3.4"));
    assert!(!is_proxyip_format("-443"));
    assert!(!is_proxyip_format("host-"));
    assert!(!is_proxyip_format("host-44x"));
}

#[test]
fn country_code_shapes() {
    assert!(is_country_code_format("US"));
    assert!(is_country_code_format("DE,FR"));
    assert!(!is_country_code_format("us"));
    assert!(!is_country_code_format("U"));
    assert!(!is_country_code_format("1A"));
}

#[test]
fn fallback_override_parses_host_and_port() {
    let (host, port) = fallback_override("1.2.3.4-443").unwrap();
    assert_eq!(host, "1.2.3.4");
    assert_eq!(port, 443);
    // the split happens at the first dash, as the router does it; a
    // second dash makes the port part unparsable and the override is
    // silently dropped
    assert!(fallback_override("foo-bar-123").is_none());
    assert!(fallback_override("1.2.3.4-70000").is_none());
    assert!(fallback_override("plainhost").is_none());
}

#[test]
fn random_selection_reduces_the_byte() {
    assert_eq!(select_index(0, 3), 0);
    assert_eq!(select_index(7, 3), 1);
    assert_eq!(select_index(255, 10), 5);
}
