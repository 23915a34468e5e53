use wsproxy::errors::ProxyError;
use wsproxy::protocols::{
    detect_protocol, parse_shadowsocks, parse_trojan, parse_vless, user_id_matches, Protocol,
};
use wsproxy::session::{plan_shadowsocks, plan_trojan, plan_vless, HandlerPlan};

fn vless_frame() -> Vec<u8> {
    // version, 16-byte user id, empty metadata, TCP, port 443, IPv4 8.8.8.8
    let mut frame = vec![0x00u8];
    frame.extend_from_slice(&[
        0x00, 0x11, 0x22, 0x33, 0x44, 0x55, 0x66, 0x77, 0x88, 0x99, 0xAA, 0xBB, 0xCC, 0xDD, 0xEE,
        0xFF,
    ]);
    frame.push(0x00);
    frame.push(0x01);
    frame.extend_from_slice(&[0x01, 0xBB]);
    frame.extend_from_slice(&[0x01, 0x08, 0x08, 0x08, 0x08]);
    frame
}

#[test]
fn vless_minimal_tcp() {
    let frame = vless_frame();
    let header = parse_vless(&frame).unwrap();
    assert_eq!(header.command, 1);
    assert_eq!(header.port, 443);
    assert_eq!(header.consumed, frame.len());
    match plan_vless(&frame).unwrap() {
        HandlerPlan::Tcp { host, port, reply, consumed } => {
            assert_eq!(host, b"8.8.8.8".to_vec());
            assert_eq!(port, 443);
            assert_eq!(reply, vec![0u8, 0u8]);
            assert_eq!(consumed, frame.len());
        },
        _ => panic!("expected a TCP plan"),
    }
}

#[test]
fn trojan_to_domain() {
    let mut frame = Vec::new();
    frame.extend_from_slice(&[b'a'; 56]);
    frame.extend_from_slice(&[0x0D, 0x0A]);
    frame.push(0x01);
    frame.push(0x03);
    frame.push(0x0B);
    frame.extend_from_slice(b"example.com");
    frame.extend_from_slice(&[0x01, 0xBB]);
    frame.extend_from_slice(&[0x0D, 0x0A]);
    let header = parse_trojan(&frame).unwrap();
    assert_eq!(header.command, 1);
    assert_eq!(header.port, 443);
    assert_eq!(header.consumed, frame.len());
    match plan_trojan(&frame).unwrap() {
        HandlerPlan::Tcp { host, port, reply, consumed } => {
            assert_eq!(host, b"example.com".to_vec());
            assert_eq!(port, 443);
            assert!(reply.is_empty());
            assert_eq!(consumed, frame.len());
        },
        _ => panic!("expected a TCP plan"),
    }
}

#[test]
fn shadowsocks_ipv4_forwards_ciphertext() {
    let mut frame = vec![0x01u8, 0x7F, 0x00, 0x00, 0x01, 0x1F, 0x40];
    let ciphertext: Vec<u8> = vec![0xDE, 0xAD, 0xBE, 0xEF, 0x42];
    frame.extend_from_slice(&ciphertext);
    let header = parse_shadowsocks(&frame).unwrap();
    assert_eq!(header.port, 8000);
    assert_eq!(header.consumed, 7);
    match plan_shadowsocks(&frame).unwrap() {
        HandlerPlan::Tcp { host, port, reply, consumed } => {
            assert_eq!(host, b"127.0.0.1".to_vec());
            assert_eq!(port, 8000);
            assert!(reply.is_empty());
            // everything after the header is forwarded unchanged
            assert_eq!(&frame[consumed..], ciphertext.as_slice());
        },
        _ => panic!("expected a TCP plan"),
    }
}

#[test]
fn detection_order_and_thresholds() {
    // fewer than 31 bytes: the session ends silently
    assert_eq!(detect_protocol(&[0u8; 30]), None);
    // a zero first byte selects VLESS
    let mut vless = vless_frame();
    vless.resize(62, 0);
    assert_eq!(detect_protocol(&vless), Some(Protocol::Vless));
    // a Shadowsocks IPv4 head with a non-zero port selects Shadowsocks
    let mut ss = vec![0x01u8, 0x7F, 0x00, 0x00, 0x01, 0x1F, 0x40];
    ss.resize(62, 0);
    assert_eq!(detect_protocol(&ss), Some(Protocol::Shadowsocks));
    // a CRLF at offset 56 selects Trojan
    let mut trojan = vec![b'f'; 62];
    trojan[0] = b'f';
    trojan[56] = 0x0D;
    trojan[57] = 0x0A;
    assert_eq!(detect_protocol(&trojan), Some(Protocol::Trojan));
    // anything else falls back to VMess
    let other = vec![0x99u8; 62];
    assert_eq!(detect_protocol(&other), Some(Protocol::Vmess));
}

#[test]
fn port_zero_rejected_for_every_protocol() {
    // VLESS with port 0
    let mut vless = vec![0x00u8];
    vless.extend_from_slice(&[0u8; 16]);
    vless.push(0x00);
    vless.push(0x01);
    vless.extend_from_slice(&[0x00, 0x00]);
    vless.extend_from_slice(&[0x01, 8, 8, 8, 8]);
    assert_eq!(parse_vless(&vless).unwrap_err(), ProxyError::InvalidPort);

    // Trojan with port 0
    let mut trojan = Vec::new();
    trojan.extend_from_slice(&[b'a'; 56]);
    trojan.extend_from_slice(&[0x0D, 0x0A]);
    trojan.push(0x01);
    trojan.extend_from_slice(&[0x01, 127, 0, 0, 1]);
    trojan.extend_from_slice(&[0x00, 0x00]);
    trojan.extend_from_slice(&[0x0D, 0x0A]);
    assert_eq!(parse_trojan(&trojan).unwrap_err(), ProxyError::InvalidPort);

    // Shadowsocks with port 0
    let ss = vec![0x01u8, 127, 0, 0, 1, 0x00, 0x00];
    assert_eq!(parse_shadowsocks(&ss).unwrap_err(), ProxyError::InvalidPort);
}

#[test]
fn user_id_comparison() {
    let configured = [0x42u8; 16];
    assert!(user_id_matches(&configured, &[0x42u8; 16]));
    let mut other = [0x42u8; 16];
    other[15] = 0x43;
    assert!(!user_id_matches(&configured, &other));
    assert!(!user_id_matches(&configured, &[0x42u8; 15]));
}

#[test]
fn non_tcp_commands_take_the_udp_path() {
    let mut frame = vless_frame();
    // network-type byte 2 selects UDP; it sits right after the empty
    // metadata block
    frame[18] = 0x02;
    match plan_vless(&frame).unwrap() {
        HandlerPlan::Udp { reply, consumed } => {
            assert_eq!(reply, vec![0u8, 0u8]);
            assert_eq!(consumed, frame.len());
        },
        _ => panic!("expected a UDP plan"),
    }

    let mut trojan = Vec::new();
    trojan.extend_from_slice(&[b'a'; 56]);
    trojan.extend_from_slice(&[0x0D, 0x0A]);
    trojan.push(0x03);
    trojan.extend_from_slice(&[0x01, 127, 0, 0, 1]);
    trojan.extend_from_slice(&[0x00, 0x35]);
    trojan.extend_from_slice(&[0x0D, 0x0A]);
    match plan_trojan(&trojan).unwrap() {
        HandlerPlan::Udp { reply, consumed } => {
            assert!(reply.is_empty());
            assert_eq!(consumed, trojan.len());
        },
        _ => panic!("expected a UDP plan"),
    }
}

#[test]
fn truncated_frames_are_malformed() {
    assert_eq!(parse_vless(&[0u8; 10]).unwrap_err(), ProxyError::MalformedFrame);
    assert_eq!(parse_trojan(&[b'a'; 58]).unwrap_err(), ProxyError::MalformedFrame);
    assert_eq!(parse_shadowsocks(&[0x01u8, 127]).unwrap_err(), ProxyError::MalformedFrame);
}
