//! Protocol detection over the peeked bytes and the three plaintext
//! front-ends: VLESS, Trojan and Shadowsocks framing. Each parser reads a
//! request from the front of the byte stream and reports how many bytes
//! it consumed; the remainder belongs to the relay.
use crate::addr::{
    addr_wf, spec_parse_addr, spec_parse_port, AddrModel, Address, parse_addr, parse_port,
};
use crate::errors::ProxyError;
use vstd::prelude::*;
use vstd::slice::{slice_subrange, slice_to_vec};

verus! {

/// The protocol selected by sniffing the first bytes of a session.
#[derive(Clone, Copy, PartialEq, Eq, Structural, Debug)]
pub enum Protocol {
    Vless,
    Shadowsocks,
    Trojan,
    Vmess,
}

/// VLESS sessions start with a zero version byte.
pub open spec fn spec_is_vless(s: Seq<u8>) -> bool {
    s.len() >= 1 && s[0] == 0
}

/// Shadowsocks sessions start with one of its address tags, with a
/// non-zero port at the offset that the tag implies.
pub open spec fn spec_is_shadowsocks(s: Seq<u8>) -> bool {
    if s.len() < 1 {
        false
    } else if s[0] == 1 {
        s.len() >= 7 && crate::be16(s[5], s[6]) != 0
    } else if s[0] == 3 {
        s.len() >= 2 && s.len() >= 2 + s[1] as int + 2 && crate::be16(
            s[2 + s[1] as int],
            s[2 + s[1] as int + 1],
        ) != 0
    } else if s[0] == 4 {
        s.len() >= 19 && crate::be16(s[17], s[18]) != 0
    } else {
        false
    }
}

/// Trojan sessions carry a CRLF right after the 56-byte user id.
pub open spec fn spec_is_trojan(s: Seq<u8>) -> bool {
    s.len() > 57 && s[56] == 13 && s[57] == 10
}

/// VMess is the fallback for any non-empty peek.
pub open spec fn spec_is_vmess(s: Seq<u8>) -> bool {
    s.len() > 0
}

/// Whether the peeked bytes select the VLESS handler.
pub fn is_vless(buffer: &[u8]) -> (r: bool)
    requires
        buffer@.len() >= 1,
    ensures
        r == spec_is_vless(buffer@),
{
    *vstd::slice::slice_index_get(buffer, 0) == 0
}

/// Whether the peeked bytes select the Shadowsocks handler.
pub fn is_shadowsocks(buffer: &[u8]) -> (r: bool)
    requires
        buffer@.len() >= 1,
    ensures
        r == spec_is_shadowsocks(buffer@),
{
    let len = buffer.len();
    let tag = *vstd::slice::slice_index_get(buffer, 0);
    if tag == 1 {
        len >= 7 && crate::read_be16(
            *vstd::slice::slice_index_get(buffer, 5),
            *vstd::slice::slice_index_get(buffer, 6),
        ) != 0
    } else if tag == 3 {
        if len < 2 {
            return false;
        }
        let dl = *vstd::slice::slice_index_get(buffer, 1) as usize;
        len >= 2 + dl + 2 && crate::read_be16(
            *vstd::slice::slice_index_get(buffer, 2 + dl),
            *vstd::slice::slice_index_get(buffer, 2 + dl + 1),
        ) != 0
    } else if tag == 4 {
        len >= 19 && crate::read_be16(
            *vstd::slice::slice_index_get(buffer, 17),
            *vstd::slice::slice_index_get(buffer, 18),
        ) != 0
    } else {
        false
    }
}

/// Whether the peeked bytes select the Trojan handler.
pub fn is_trojan(buffer: &[u8]) -> (r: bool)
    ensures
        r == spec_is_trojan(buffer@),
{
    buffer.len() > 57 && *vstd::slice::slice_index_get(buffer, 56) == 13
        && *vstd::slice::slice_index_get(buffer, 57) == 10
}

/// Whether the peeked bytes select the VMess handler.
pub fn is_vmess(buffer: &[u8]) -> (r: bool)
    ensures
        r == spec_is_vmess(buffer@),
{
    buffer.len() > 0
}

/// The session driver's dispatch: fewer than 31 peeked bytes end the
/// session silently; otherwise the predicates are evaluated in a fixed
/// order and the first match wins.
pub open spec fn spec_detect(s: Seq<u8>) -> Option<Protocol> {
    if s.len() < 31 {
        None
    } else if spec_is_vless(s) {
        Some(Protocol::Vless)
    } else if spec_is_shadowsocks(s) {
        Some(Protocol::Shadowsocks)
    } else if spec_is_trojan(s) {
        Some(Protocol::Trojan)
    } else {
        Some(Protocol::Vmess)
    }
}

/// Classify the peeked bytes; `None` means the client went away during
/// the handshake and the session ends as a success.
pub fn detect_protocol(peeked: &[u8]) -> (r: Option<Protocol>)
    ensures
        r == spec_detect(peeked@),
{
    if peeked.len() < 31 {
        return None;
    }
    if is_vless(peeked) {
        Some(Protocol::Vless)
    } else if is_shadowsocks(peeked) {
        Some(Protocol::Shadowsocks)
    } else if is_trojan(peeked) {
        Some(Protocol::Trojan)
    } else {
        Some(Protocol::Vmess)
    }
}

/// Compare a request's user id with the configured one without an early
/// exit: the whole id is always scanned, so the time taken does not
/// reveal where the first difference sits.
pub fn user_id_matches(a: &[u8], b: &[u8]) -> (r: bool)
    ensures
        r <==> a@ == b@,
{
    let n = a.len();
    if n != b.len() {
        proof {
            assert(a@.len() != b@.len());
        }
        return false;
    }
    let mut diff: u8 = 0;
    let mut i: usize = 0;
    while i < n
        invariant
            i <= n,
            n == a@.len() == b@.len(),
            diff == 0 <==> (forall|j: int| 0 <= j < i ==> a@[j] == b@[j]),
        decreases n - i,
    {
        let x = *vstd::slice::slice_index_get(a, i);
        let y = *vstd::slice::slice_index_get(b, i);
        let ghost d0 = diff;
        diff = diff | (x ^ y);
        proof {
            let d1 = diff;
            assert(d1 == 0 <==> d0 == 0 && x == y) by (bit_vector)
                requires
                    d1 == d0 | (x ^ y),
            ;
        }
        i += 1;
    }
    if diff == 0 {
        proof {
            assert(a@ =~= b@);
        }
        true
    } else {
        false
    }
}

/// Model of a parsed VLESS request.
pub struct VlessHeaderModel {
    pub user_id: Seq<u8>,
    pub command: u8,
    pub port: u16,
    pub addr: AddrModel,
    pub consumed: int,
}

/// A parsed VLESS request: version ignored, the 16-byte user id kept for
/// the caller to compare, a length-prefixed metadata block skipped, then
/// command, port and address.
#[derive(Debug)]
pub struct VlessHeader {
    pub user_id: Vec<u8>,
    pub command: u8,
    pub port: u16,
    pub addr: Address,
    pub consumed: usize,
}

impl View for VlessHeader {
    type V = VlessHeaderModel;

    open spec fn view(&self) -> VlessHeaderModel {
        VlessHeaderModel {
            user_id: self.user_id@,
            command: self.command,
            port: self.port,
            addr: self.addr@,
            consumed: self.consumed as int,
        }
    }
}

/// Parse a VLESS request from the front of `s`.
pub open spec fn spec_parse_vless(s: Seq<u8>) -> Result<VlessHeaderModel, ProxyError> {
    if s.len() < 18 {
        Err(ProxyError::MalformedFrame)
    } else {
        let p = 18 + s[17] as int;
        if s.len() < p + 1 {
            Err(ProxyError::MalformedFrame)
        } else {
            match spec_parse_port(s.skip(p + 1)) {
                Err(e) => Err(e),
                Ok(port) => match spec_parse_addr(s.skip(p + 3)) {
                    Err(e) => Err(e),
                    Ok((a, n)) => Ok(
                        VlessHeaderModel {
                            user_id: s.subrange(1, 17),
                            command: s[p],
                            port,
                            addr: a,
                            consumed: p + 3 + n,
                        },
                    ),
                },
            }
        }
    }
}

/// Parse a VLESS request: one version byte (ignored), sixteen user-id
/// bytes, a length-prefixed metadata block (contents ignored), the
/// network-type byte, the port and the address.
pub fn parse_vless(buf: &[u8]) -> (r: Result<VlessHeader, ProxyError>)
    ensures
        ({
            let sp = spec_parse_vless(buf@);
            match r {
                Ok(h) => sp is Ok && h@ == sp->Ok_0 && addr_wf(h.addr@) && h.consumed
                    <= buf@.len(),
                Err(e) => sp == Err::<VlessHeaderModel, ProxyError>(e),
            }
        }),
{
    let len = buf.len();
    if len < 18 {
        return Err(ProxyError::MalformedFrame);
    }
    let user_id = slice_to_vec(slice_subrange(buf, 1, 17));
    let mlen = *vstd::slice::slice_index_get(buf, 17) as usize;
    if len < 18 + mlen + 1 {
        return Err(ProxyError::MalformedFrame);
    }
    let p = 18 + mlen;
    let command = *vstd::slice::slice_index_get(buf, p);
    let (port, after_port) = match parse_port(buf, p + 1) {
        Ok(x) => x,
        Err(e) => {
            assert(buf@.skip(p + 1) =~= buf@.skip(p + 1 as int));
            return Err(e);
        },
    };
    assert(after_port == p + 3);
    let (address, consumed) = match parse_addr(buf, p + 3) {
        Ok(x) => x,
        Err(e) => {
            return Err(e);
        },
    };
    assert(user_id@ =~= buf@.subrange(1, 17));
    Ok(VlessHeader { user_id, command, port, addr: address, consumed })
}

/// The two-byte zero response header a VLESS server sends before relaying.
pub fn vless_response_header() -> (v: Vec<u8>)
    ensures
        v@ == seq![0u8, 0u8],
{
    let mut v: Vec<u8> = Vec::new();
    v.push(0);
    v.push(0);
    assert(v@ =~= seq![0u8, 0u8]);
    v
}

/// Model of a parsed Trojan request.
pub struct TrojanHeaderModel {
    pub user_id: Seq<u8>,
    pub command: u8,
    pub addr: AddrModel,
    pub port: u16,
    pub consumed: int,
}

/// A parsed Trojan request: the 56-byte hex user id is consumed but not
/// validated, then CRLF, the network-type byte, the address, the port and
/// a final CRLF.
#[derive(Debug)]
pub struct TrojanHeader {
    pub user_id: Vec<u8>,
    pub command: u8,
    pub addr: Address,
    pub port: u16,
    pub consumed: usize,
}

impl View for TrojanHeader {
    type V = TrojanHeaderModel;

    open spec fn view(&self) -> TrojanHeaderModel {
        TrojanHeaderModel {
            user_id: self.user_id@,
            command: self.command,
            addr: self.addr@,
            port: self.port,
            consumed: self.consumed as int,
        }
    }
}

/// Parse a Trojan request from the front of `s`. The address precedes the
/// port in this framing.
pub open spec fn spec_parse_trojan(s: Seq<u8>) -> Result<TrojanHeaderModel, ProxyError> {
    if s.len() < 59 {
        Err(ProxyError::MalformedFrame)
    } else {
        match spec_parse_addr(s.skip(59)) {
            Err(e) => Err(e),
            Ok((a, n)) => match spec_parse_port(s.skip(59 + n)) {
                Err(e) => Err(e),
                Ok(port) => if s.len() < 59 + n + 2 + 2 {
                    Err(ProxyError::MalformedFrame)
                } else {
                    Ok(
                        TrojanHeaderModel {
                            user_id: s.subrange(0, 56),
                            command: s[58],
                            addr: a,
                            port,
                            consumed: 59 + n + 2 + 2,
                        },
                    )
                },
            },
        }
    }
}

/// Parse a Trojan request: 56 user-id bytes (not validated), a CRLF, the
/// network-type byte, the address, the port, and a trailing CRLF whose
/// bytes are consumed without being checked.
pub fn parse_trojan(buf: &[u8]) -> (r: Result<TrojanHeader, ProxyError>)
    ensures
        ({
            let sp = spec_parse_trojan(buf@);
            match r {
                Ok(h) => sp is Ok && h@ == sp->Ok_0 && addr_wf(h.addr@) && h.consumed
                    <= buf@.len(),
                Err(e) => sp == Err::<TrojanHeaderModel, ProxyError>(e),
            }
        }),
{
    let len = buf.len();
    if len < 59 {
        return Err(ProxyError::MalformedFrame);
    }
    let user_id = slice_to_vec(slice_subrange(buf, 0, 56));
    let command = *vstd::slice::slice_index_get(buf, 58);
    let (address, after_addr) = match parse_addr(buf, 59) {
        Ok(x) => x,
        Err(e) => {
            return Err(e);
        },
    };
    let (port, after_port) = match parse_port(buf, after_addr) {
        Ok(x) => x,
        Err(e) => {
            return Err(e);
        },
    };
    if len < after_port + 2 {
        return Err(ProxyError::MalformedFrame);
    }
    assert(user_id@ =~= buf@.subrange(0, 56));
    Ok(TrojanHeader { user_id, command, addr: address, port, consumed: after_port + 2 })
}

/// Model of a parsed Shadowsocks request.
pub struct SsHeaderModel {
    pub addr: AddrModel,
    pub port: u16,
    pub consumed: int,
}

/// A parsed Shadowsocks request: address then port, nothing else; every
/// byte after `consumed` is payload to forward verbatim.
#[derive(Debug)]
pub struct SsHeader {
    pub addr: Address,
    pub port: u16,
    pub consumed: usize,
}

impl View for SsHeader {
    type V = SsHeaderModel;

    open spec fn view(&self) -> SsHeaderModel {
        SsHeaderModel { addr: self.addr@, port: self.port, consumed: self.consumed as int }
    }
}

/// Parse a Shadowsocks request from the front of `s`.
pub open spec fn spec_parse_shadowsocks(s: Seq<u8>) -> Result<SsHeaderModel, ProxyError> {
    match spec_parse_addr(s) {
        Err(e) => Err(e),
        Ok((a, n)) => match spec_parse_port(s.skip(n)) {
            Err(e) => Err(e),
            Ok(port) => Ok(SsHeaderModel { addr: a, port, consumed: n + 2 }),
        },
    }
}

/// Parse a Shadowsocks request: the address record and the port; the
/// remainder of the stream is ciphertext forwarded unchanged.
pub fn parse_shadowsocks(buf: &[u8]) -> (r: Result<SsHeader, ProxyError>)
    ensures
        ({
            let sp = spec_parse_shadowsocks(buf@);
            match r {
                Ok(h) => sp is Ok && h@ == sp->Ok_0 && addr_wf(h.addr@) && h.consumed
                    <= buf@.len(),
                Err(e) => sp == Err::<SsHeaderModel, ProxyError>(e),
            }
        }),
{
    let ghost s = buf@;
    assert(buf@.skip(0) =~= buf@);
    let (address, after_addr) = match parse_addr(buf, 0) {
        Ok(x) => x,
        Err(e) => {
            return Err(e);
        },
    };
    let (port, after_port) = match parse_port(buf, after_addr) {
        Ok(x) => x,
        Err(e) => {
            return Err(e);
        },
    };
    Ok(SsHeader { addr: address, port, consumed: after_port })
}

} // verus!
