use wsproxy::addr::{host_bytes, parse_addr, parse_port, serialise_addr, Address};
use wsproxy::errors::ProxyError;

#[test]
fn parse_ipv4_record() {
    let bytes = vec![1u8, 8, 8, 8, 8, 0xAA];
    let (addr, next) = parse_addr(&bytes, 0).unwrap();
    assert_eq!(next, 5);
    match &addr {
        Address::V4 { octets } => assert_eq!(octets.as_slice(), &[8, 8, 8, 8]),
        _ => panic!("expected an IPv4 record"),
    }
    assert_eq!(host_bytes(&addr), b"8.8.8.8".to_vec());
}

#[test]
fn parse_domain_records_under_both_tags() {
    let mut bytes = vec![2u8, 11];
    bytes.extend_from_slice(b"example.com");
    let (addr, next) = parse_addr(&bytes, 0).unwrap();
    assert_eq!(next, 13);
    match &addr {
        Address::Domain { name } => assert_eq!(name.as_slice(), b"example.com"),
        _ => panic!("expected a domain record"),
    }

    let mut alt = vec![3u8, 11];
    alt.extend_from_slice(b"example.com");
    let (addr2, next2) = parse_addr(&alt, 0).unwrap();
    assert_eq!(next2, 13);
    match &addr2 {
        Address::DomainAlt { name } => assert_eq!(name.as_slice(), b"example.com"),
        _ => panic!("expected the alternate domain record"),
    }
    assert_eq!(host_bytes(&addr2), b"example.com".to_vec());
}

#[test]
fn parse_ipv6_record_and_format() {
    let mut bytes = vec![4u8];
    bytes.extend_from_slice(&[
        0x20, 0x01, 0x0d, 0xb8, 0, 0, 0, 0, 0, 0, 0, 0, 0, 0, 0x00, 0x01,
    ]);
    let (addr, next) = parse_addr(&bytes, 0).unwrap();
    assert_eq!(next, 17);
    assert_eq!(host_bytes(&addr), b"2001:db8:0:0:0:0:0:1".to_vec());
}

#[test]
fn parse_addr_errors() {
    assert_eq!(parse_addr(&[], 0).unwrap_err(), ProxyError::MalformedFrame);
    assert_eq!(parse_addr(&[1u8, 8, 8], 0).unwrap_err(), ProxyError::MalformedFrame);
    assert_eq!(parse_addr(&[2u8], 0).unwrap_err(), ProxyError::MalformedFrame);
    assert_eq!(parse_addr(&[2u8, 5, b'a'], 0).unwrap_err(), ProxyError::MalformedFrame);
    assert_eq!(parse_addr(&[9u8, 0, 0], 0).unwrap_err(), ProxyError::UnsupportedAddressType);
}

#[test]
fn address_round_trips_to_original_bytes() {
    let cases: Vec<Vec<u8>> = vec![
        vec![1u8, 127, 0, 0, 1],
        {
            let mut v = vec![2u8, 3];
            v.extend_from_slice(b"abc");
            v
        },
        {
            let mut v = vec![3u8, 11];
            v.extend_from_slice(b"example.com");
            v
        },
        {
            let mut v = vec![4u8];
            v.extend_from_slice(&[0u8; 16]);
            v
        },
    ];
    for original in cases {
        let (addr, next) = parse_addr(&original, 0).unwrap();
        assert_eq!(next, original.len());
        assert_eq!(serialise_addr(&addr), original);
    }
}

#[test]
fn port_parsing_and_zero_rejection() {
    let (port, next) = parse_port(&[0x01, 0xBB], 0).unwrap();
    assert_eq!(port, 443);
    assert_eq!(next, 2);
    assert_eq!(parse_port(&[0, 0], 0).unwrap_err(), ProxyError::InvalidPort);
    assert_eq!(parse_port(&[1], 0).unwrap_err(), ProxyError::MalformedFrame);
}

#[test]
fn host_bytes_decimal_edges() {
    let a = Address::V4 { octets: vec![0, 10, 100, 255] };
    assert_eq!(host_bytes(&a), b"0.10.100.255".to_vec());
}
