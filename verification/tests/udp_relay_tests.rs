use wsproxy::addr::Address;
use wsproxy::udp_relay::{build_relay_handshake, UdpRelayHandler};

#[test]
fn test_parse_target() {
    let handler = UdpRelayHandler::new("example.com:53").unwrap();
    assert_eq!(handler.target_addr, "example.com");
    assert_eq!(handler.target_port, 53);

    let handler = UdpRelayHandler::new("8.8.8.8:443").unwrap();
    assert_eq!(handler.target_addr, "8.8.8.8");
    assert_eq!(handler.target_port, 443);

    assert!(UdpRelayHandler::new("invalid").is_err());
    assert!(UdpRelayHandler::new("example.com:abc").is_err());
}

#[test]
fn handshake_bytes() {
    let v4 = Address::V4 { octets: vec![8, 8, 4, 4] };
    assert_eq!(build_relay_handshake(&v4, 53), vec![0x01, 8, 8, 4, 4, 0x00, 0x35]);

    let domain = Address::Domain { name: b"example.com".to_vec() };
    let mut expected = vec![0x03, 11];
    expected.extend_from_slice(b"example.com");
    expected.extend_from_slice(&[0x01, 0xBB]);
    assert_eq!(build_relay_handshake(&domain, 443), expected);

    let v6 = Address::V6 { octets: vec![0u8; 16] };
    let mut expected6 = vec![0x04];
    expected6.extend_from_slice(&[0u8; 16]);
    expected6.extend_from_slice(&[0x1F, 0x40]);
    assert_eq!(build_relay_handshake(&v6, 8000), expected6);
}
