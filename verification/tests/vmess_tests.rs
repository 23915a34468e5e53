use aes_gcm::aead::{Aead, Payload};
use aes_gcm::{Aes128Gcm, KeyInit};
use sha2::Digest;
use wsproxy::addr::Address;
use wsproxy::errors::ProxyError;
use wsproxy::session::{plan_vmess, HandlerPlan};
use wsproxy::vmess::{
    kdf, parse_vmess_command, vmess_auth_key, vmess_open_session, vmess_response_roundtrip,
};

fn seal(key: &[u8], nonce: &[u8], aad: &[u8], pt: &[u8]) -> Vec<u8> {
    let cipher = Aes128Gcm::new_from_slice(key).unwrap();
    cipher
        .encrypt(aes_gcm::Nonce::from_slice(nonce), Payload { msg: pt, aad })
        .unwrap()
}

fn open(key: &[u8], nonce: &[u8], aad: &[u8], ct: &[u8]) -> Option<Vec<u8>> {
    let cipher = Aes128Gcm::new_from_slice(key).unwrap();
    cipher
        .decrypt(aes_gcm::Nonce::from_slice(nonce), Payload { msg: ct, aad })
        .ok()
}

fn derive(key: &[u8], path: &[&[u8]], outlen: usize) -> Vec<u8> {
    let mut tags: Vec<Vec<u8>> = Vec::new();
    for t in path {
        tags.push(t.to_vec());
    }
    let mut out = kdf(key, tags);
    out.truncate(outlen);
    out
}

#[test]
fn auth_key_is_md5_of_uuid_and_suffix() {
    let uuid = [0x12u8; 16];
    let mut input = uuid.to_vec();
    input.extend_from_slice(b"c48619fe-8f02-49e0-b9e9-edf763e17e21");
    let expected = md5::compute(&input).0.to_vec();
    assert_eq!(vmess_auth_key(&uuid), expected);
}

#[test]
fn kdf_differs_from_its_input() {
    let key = [7u8; 16];
    let out = derive(&key, &[b"VMess Header AEAD Key"], 16);
    assert_eq!(out.len(), 16);
    assert_ne!(out, key.to_vec());
    // a different tag gives different material
    let other = derive(&key, &[b"VMess Header AEAD Nonce"], 16);
    assert_ne!(out, other);
}

#[test]
fn vmess_command_parsing() {
    let mut block = vec![0x01u8];
    block.extend_from_slice(&[0xA1; 16]);
    block.extend_from_slice(&[0xB2; 16]);
    block.extend_from_slice(&[0x05, 0, 0, 0]);
    block.push(0x01);
    block.extend_from_slice(&[0x00, 0x50]);
    block.extend_from_slice(&[0x01, 1, 2, 3, 4]);
    let cmd = parse_vmess_command(&block).unwrap();
    assert_eq!(cmd.command, 1);
    assert_eq!(cmd.port, 80);
    assert_eq!(cmd.options[0], 5);
    match &cmd.addr {
        Address::V4 { octets } => assert_eq!(octets.as_slice(), &[1, 2, 3, 4]),
        _ => panic!("expected an IPv4 record"),
    }

    let mut bad_version = block.clone();
    bad_version[0] = 2;
    assert_eq!(parse_vmess_command(&bad_version).unwrap_err(), ProxyError::InvalidVersion);
    assert_eq!(parse_vmess_command(&block[..20]).unwrap_err(), ProxyError::MalformedFrame);
}

fn craft_session(uuid: &[u8; 16], command_block: &[u8]) -> Vec<u8> {
    let key = vmess_auth_key(uuid);
    let auth_id = [0x44u8; 16];
    let nonce = [0x55u8; 8];
    let len_key = derive(&key, &[b"VMess Header AEAD Key_Length", &auth_id, &nonce], 16);
    let len_iv = derive(&key, &[b"VMess Header AEAD Nonce_Length", &auth_id, &nonce], 12);
    let pay_key = derive(&key, &[b"VMess Header AEAD Key", &auth_id, &nonce], 16);
    let pay_iv = derive(&key, &[b"VMess Header AEAD Nonce", &auth_id, &nonce], 12);
    let len_bytes = (command_block.len() as u16).to_be_bytes();
    let len_ct = seal(&len_key, &len_iv, &auth_id, &len_bytes);
    let cmd_ct = seal(&pay_key, &pay_iv, &auth_id, command_block);
    let mut data = auth_id.to_vec();
    data.extend_from_slice(&len_ct);
    data.extend_from_slice(&nonce);
    data.extend_from_slice(&cmd_ct);
    data
}

#[test]
fn vmess_session_round_trip() {
    let uuid = [0x12u8; 16];
    // command: TCP to 1.2.3.4:80 with option byte 5
    let data_iv = [0xA1u8; 16];
    let data_key = [0xB2u8; 16];
    let mut block = vec![0x01u8];
    block.extend_from_slice(&data_iv);
    block.extend_from_slice(&data_key);
    block.extend_from_slice(&[0x05, 0, 0, 0]);
    block.push(0x01);
    block.extend_from_slice(&[0x00, 0x50]);
    block.extend_from_slice(&[0x01, 1, 2, 3, 4]);
    // random padding and checksum, ignored by the parser
    block.extend_from_slice(&[0x77, 0x66, 0xAA, 0xBB, 0xCC, 0xDD]);

    let data = craft_session(&uuid, &block);
    let session = vmess_open_session(&uuid, &data).unwrap();
    assert_eq!(session.command.command, 1);
    assert_eq!(session.command.port, 80);
    assert_eq!(session.command.options[0], 5);
    assert_eq!(session.consumed, data.len());

    // the two response ciphertexts decrypt, under the derived response
    // keys, to the length 4 and the header [options[0], 0, 0, 0]
    let key_half = sha2::Sha256::digest(&data_key)[..16].to_vec();
    let iv_half = sha2::Sha256::digest(&data_iv)[..16].to_vec();
    let rl_key = derive(&key_half, &[b"AEAD Resp Header Len Key"], 16);
    let rl_iv = derive(&iv_half, &[b"AEAD Resp Header Len IV"], 12);
    let rh_key = derive(&key_half, &[b"AEAD Resp Header Key"], 16);
    let rh_iv = derive(&iv_half, &[b"AEAD Resp Header IV"], 12);
    let len_pt = open(&rl_key, &rl_iv, b"", &session.resp_len_ct).unwrap();
    assert_eq!(len_pt, vec![0x00, 0x04]);
    let hdr_pt = open(&rh_key, &rh_iv, b"", &session.resp_hdr_ct).unwrap();
    assert_eq!(hdr_pt, vec![0x05, 0, 0, 0]);

    // the plan carries both ciphertexts as the reply, in order
    let mut expected_reply = session.resp_len_ct.clone();
    expected_reply.extend_from_slice(&session.resp_hdr_ct);
    let session2 = vmess_open_session(&uuid, &data).unwrap();
    match plan_vmess(session2) {
        HandlerPlan::Tcp { host, port, reply, consumed } => {
            assert_eq!(host, b"1.2.3.4".to_vec());
            assert_eq!(port, 80);
            assert_eq!(reply, expected_reply);
            assert_eq!(consumed, data.len());
        },
        _ => panic!("expected a TCP plan"),
    }
}

#[test]
fn vmess_auth_failure_is_one_error() {
    let uuid = [0x12u8; 16];
    let mut block = vec![0x01u8];
    block.extend_from_slice(&[0u8; 37]);
    block.extend_from_slice(&[0x00, 0x50]);
    block.extend_from_slice(&[0x01, 1, 2, 3, 4]);
    let mut data = craft_session(&uuid, &block);
    // flip one ciphertext bit: the session must fail with AuthFailed
    data[20] ^= 1;
    assert_eq!(vmess_open_session(&uuid, &data).unwrap_err(), ProxyError::AuthFailed);
    // truncation fails before any decryption
    assert_eq!(vmess_open_session(&uuid, &data[..30]).unwrap_err(), ProxyError::MalformedFrame);
}

#[test]
fn response_header_round_trip() {
    let key = [0x10u8; 16];
    let iv = [0x20u8; 16];
    let (len, hdr) = vmess_response_roundtrip(&key, &iv, 0x07).unwrap();
    assert_eq!(len, 4);
    assert_eq!(hdr, vec![0x07, 0, 0, 0]);
}
