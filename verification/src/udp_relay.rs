//! The UDP relay gateway client: a `host:port` target and the handshake
//! record sent to the gateway before bytes are piped through it.
use crate::addr::{addr_wf, AddrModel, Address};
use crate::config::{dec_val, last_index_of, valid_u16_digits, find_last, parse_u16_digits};
use crate::errors::ProxyError;
use vstd::prelude::*;
use vstd::string::StrSliceExecFns;

verus! {

/// A UDP relay target, split out of a `host:port` string.
#[derive(Debug)]
pub struct UdpRelayHandler {
    pub target_addr: String,
    pub target_port: u16,
}

/// Splitting a target at its last colon: the host before it and the
/// port digits after it, when the digits parse as a `u16`.
pub open spec fn spec_parse_target(s: Seq<char>) -> Result<(Seq<char>, u16), ProxyError> {
    match last_index_of(s, ':') {
        None => Err(ProxyError::MalformedFrame),
        Some(i) => if valid_u16_digits(s.skip(i + 1)) {
            Ok((s.take(i), dec_val(s.skip(i + 1)) as u16))
        } else {
            Err(ProxyError::InvalidPort)
        },
    }
}

impl UdpRelayHandler {
    /// Create a relay handler for a `host:port` target: the part after
    /// the last colon must parse as a port number.
    pub fn new(target: &str) -> (r: Result<Self, ProxyError>)
        ensures
            match r {
                Ok(h) => spec_parse_target(target@) == Ok::<(Seq<char>, u16), ProxyError>(
                    (h.target_addr@, h.target_port),
                ),
                Err(e) => spec_parse_target(target@) == Err::<(Seq<char>, u16), ProxyError>(e),
            },
    {
        let n = target.unicode_len();
        let i = match find_last(target, ':') {
            Some(i) => i,
            None => {
                return Err(ProxyError::MalformedFrame);
            },
        };
        let port = match parse_u16_digits(target, i + 1) {
            Some(p) => p,
            None => {
                return Err(ProxyError::InvalidPort);
            },
        };
        let addr = target.substring_char(0, i);
        Ok(UdpRelayHandler { target_addr: addr.to_owned(), target_port: port })
    }
}

/// The handshake record sent to the relay gateway before piping bytes:
/// a one-byte address type (1 for IPv4, 3 for a domain under either of
/// its wire tags, 4 for IPv6), the host, and the big-endian port.
pub open spec fn spec_relay_handshake(a: AddrModel, port: u16) -> Seq<u8> {
    let port_bytes = seq![(port / 256) as u8, (port % 256) as u8];
    match a {
        AddrModel::V4(o) => seq![1u8] + o + port_bytes,
        AddrModel::Domain(n) => seq![3u8, n.len() as u8] + n + port_bytes,
        AddrModel::DomainAlt(n) => seq![3u8, n.len() as u8] + n + port_bytes,
        AddrModel::V6(o) => seq![4u8] + o + port_bytes,
    }
}

/// Build the handshake record for a target address and port.
pub fn build_relay_handshake(a: &Address, port: u16) -> (v: Vec<u8>)
    requires
        addr_wf(a@),
    ensures
        v@ == spec_relay_handshake(a@, port),
{
    let mut v: Vec<u8> = Vec::new();
    match a {
        Address::V4 { octets } => {
            v.push(1);
            v.extend_from_slice(octets.as_slice());
        },
        Address::Domain { name } => {
            v.push(3);
            v.push(name.len() as u8);
            v.extend_from_slice(name.as_slice());
        },
        Address::DomainAlt { name } => {
            v.push(3);
            v.push(name.len() as u8);
            v.extend_from_slice(name.as_slice());
        },
        Address::V6 { octets } => {
            v.push(4);
            v.extend_from_slice(octets.as_slice());
        },
    }
    v.push((port / 256) as u8);
    v.push((port % 256) as u8);
    assert(v@ =~= spec_relay_handshake(a@, port));
    v
}

} // verus!
