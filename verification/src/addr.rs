//! The address-type/host/port encoding shared by the protocol front-ends:
//! a one-byte tag, a fixed-size or length-prefixed host, and a big-endian
//! 16-bit port for which zero is invalid.
use crate::errors::ProxyError;
use vstd::prelude::*;
use vstd::slice::{slice_subrange, slice_to_vec};

verus! {

/// Wire tag of an IPv4 address record: four raw octets follow.
pub const TAG_IPV4: u8 = 1;

/// Wire tag of a length-prefixed domain record.
pub const TAG_DOMAIN: u8 = 2;

/// Alternate wire tag of a length-prefixed domain record, used by the
/// protocols that number domains differently.
pub const TAG_DOMAIN_ALT: u8 = 3;

/// Wire tag of an IPv6 address record: sixteen raw octets follow.
pub const TAG_IPV6: u8 = 4;

/// Mathematical model of an address record.
pub enum AddrModel {
    V4(Seq<u8>),
    Domain(Seq<u8>),
    DomainAlt(Seq<u8>),
    V6(Seq<u8>),
}

/// An address record as carried by the protocol frames: an IPv4 address,
/// a domain name under one of its two wire tags, or an IPv6 address.
#[derive(Debug)]
pub enum Address {
    V4 { octets: Vec<u8> },
    Domain { name: Vec<u8> },
    DomainAlt { name: Vec<u8> },
    V6 { octets: Vec<u8> },
}

impl View for Address {
    type V = AddrModel;

    open spec fn view(&self) -> AddrModel {
        match self {
            Address::V4 { octets } => AddrModel::V4(octets@),
            Address::Domain { name } => AddrModel::Domain(name@),
            Address::DomainAlt { name } => AddrModel::DomainAlt(name@),
            Address::V6 { octets } => AddrModel::V6(octets@),
        }
    }
}

/// Well-formedness of an address record: the host payload has the size
/// that its wire form can carry.
pub open spec fn addr_wf(a: AddrModel) -> bool {
    match a {
        AddrModel::V4(o) => o.len() == 4,
        AddrModel::Domain(n) => n.len() <= 255,
        AddrModel::DomainAlt(n) => n.len() <= 255,
        AddrModel::V6(o) => o.len() == 16,
    }
}

/// The wire bytes of an address record (tag, length prefix where the host
/// is a domain, host payload; the port is not part of the record).
pub open spec fn spec_addr_bytes(a: AddrModel) -> Seq<u8> {
    match a {
        AddrModel::V4(o) => seq![TAG_IPV4] + o,
        AddrModel::Domain(n) => seq![TAG_DOMAIN, n.len() as u8] + n,
        AddrModel::DomainAlt(n) => seq![TAG_DOMAIN_ALT, n.len() as u8] + n,
        AddrModel::V6(o) => seq![TAG_IPV6] + o,
    }
}

/// Parse one address record from the front of `s`: the record and the
/// number of bytes it occupies, or the error that the wire form forces.
pub open spec fn spec_parse_addr(s: Seq<u8>) -> Result<(AddrModel, int), ProxyError> {
    if s.len() < 1 {
        Err(ProxyError::MalformedFrame)
    } else if s[0] == TAG_IPV4 {
        if s.len() >= 5 {
            Ok((AddrModel::V4(s.subrange(1, 5)), 5))
        } else {
            Err(ProxyError::MalformedFrame)
        }
    } else if s[0] == TAG_DOMAIN || s[0] == TAG_DOMAIN_ALT {
        if s.len() < 2 {
            Err(ProxyError::MalformedFrame)
        } else if s.len() >= 2 + s[1] as int {
            let name = s.subrange(2, 2 + s[1] as int);
            if s[0] == TAG_DOMAIN {
                Ok((AddrModel::Domain(name), 2 + s[1] as int))
            } else {
                Ok((AddrModel::DomainAlt(name), 2 + s[1] as int))
            }
        } else {
            Err(ProxyError::MalformedFrame)
        }
    } else if s[0] == TAG_IPV6 {
        if s.len() >= 17 {
            Ok((AddrModel::V6(s.subrange(1, 17)), 17))
        } else {
            Err(ProxyError::MalformedFrame)
        }
    } else {
        Err(ProxyError::UnsupportedAddressType)
    }
}

/// Parse one address record from `buf` starting at `pos`. On success the
/// returned position points just past the record.
pub fn parse_addr(buf: &[u8], pos: usize) -> (r: Result<(Address, usize), ProxyError>)
    requires
        pos <= buf@.len(),
    ensures
        ({
            let sp = spec_parse_addr(buf@.skip(pos as int));
            match r {
                Ok((a, newpos)) => sp is Ok && a@ == sp->Ok_0.0 && newpos == pos + sp->Ok_0.1
                    && addr_wf(a@) && pos < newpos <= buf@.len(),
                Err(e) => sp == Err::<(AddrModel, int), ProxyError>(e),
            }
        }),
{
    let ghost s = buf@.skip(pos as int);
    let len = buf.len();
    if pos >= len {
        return Err(ProxyError::MalformedFrame);
    }
    let tag = *vstd::slice::slice_index_get(buf, pos);
    assert(tag == s[0]);
    if tag == TAG_IPV4 {
        if len - pos >= 5 {
            let octets = slice_to_vec(slice_subrange(buf, pos + 1, pos + 5));
            assert(octets@ =~= s.subrange(1, 5));
            Ok((Address::V4 { octets }, pos + 5))
        } else {
            Err(ProxyError::MalformedFrame)
        }
    } else if tag == TAG_DOMAIN || tag == TAG_DOMAIN_ALT {
        if len - pos < 2 {
            return Err(ProxyError::MalformedFrame);
        }
        let nlen = *vstd::slice::slice_index_get(buf, pos + 1) as usize;
        assert(nlen == s[1] as int);
        if len - pos >= 2 + nlen {
            let name = slice_to_vec(slice_subrange(buf, pos + 2, pos + 2 + nlen));
            assert(name@ =~= s.subrange(2, 2 + s[1] as int));
            if tag == TAG_DOMAIN {
                Ok((Address::Domain { name }, pos + 2 + nlen))
            } else {
                Ok((Address::DomainAlt { name }, pos + 2 + nlen))
            }
        } else {
            Err(ProxyError::MalformedFrame)
        }
    } else if tag == TAG_IPV6 {
        if len - pos >= 17 {
            let octets = slice_to_vec(slice_subrange(buf, pos + 1, pos + 17));
            assert(octets@ =~= s.subrange(1, 17));
            Ok((Address::V6 { octets }, pos + 17))
        } else {
            Err(ProxyError::MalformedFrame)
        }
    } else {
        Err(ProxyError::UnsupportedAddressType)
    }
}

/// Serialise an address record into its wire bytes.
pub fn serialise_addr(a: &Address) -> (v: Vec<u8>)
    requires
        addr_wf(a@),
    ensures
        v@ == spec_addr_bytes(a@),
{
    let mut v: Vec<u8> = Vec::new();
    match a {
        Address::V4 { octets } => {
            v.push(TAG_IPV4);
            v.extend_from_slice(octets.as_slice());
            assert(v@ =~= spec_addr_bytes(a@));
        },
        Address::Domain { name } => {
            v.push(TAG_DOMAIN);
            v.push(name.len() as u8);
            v.extend_from_slice(name.as_slice());
            assert(v@ =~= spec_addr_bytes(a@));
        },
        Address::DomainAlt { name } => {
            v.push(TAG_DOMAIN_ALT);
            v.push(name.len() as u8);
            v.extend_from_slice(name.as_slice());
            assert(v@ =~= spec_addr_bytes(a@));
        },
        Address::V6 { octets } => {
            v.push(TAG_IPV6);
            v.extend_from_slice(octets.as_slice());
            assert(v@ =~= spec_addr_bytes(a@));
        },
    }
    v
}

/// Law: parsing a valid wire record and serialising the result reproduces
/// exactly the bytes the record occupied.
pub proof fn lemma_parse_then_serialise(s: Seq<u8>)
    requires
        spec_parse_addr(s) is Ok,
    ensures
        spec_addr_bytes(spec_parse_addr(s)->Ok_0.0) == s.take(spec_parse_addr(s)->Ok_0.1),
{
    let (a, n) = spec_parse_addr(s)->Ok_0;
    assert(spec_addr_bytes(a) =~= s.take(n));
}

/// Law: serialising a well-formed address record and parsing the result,
/// with any continuation appended, yields the record back and consumes
/// exactly its bytes.
pub proof fn lemma_serialise_then_parse(a: AddrModel, rest: Seq<u8>)
    requires
        addr_wf(a),
    ensures
        spec_parse_addr(spec_addr_bytes(a) + rest) == Ok::<(AddrModel, int), ProxyError>(
            (a, spec_addr_bytes(a).len() as int),
        ),
{
    let s = spec_addr_bytes(a) + rest;
    match a {
        AddrModel::V4(o) => {
            assert(s.subrange(1, 5) =~= o);
        },
        AddrModel::Domain(n) => {
            assert(s.subrange(2, 2 + s[1] as int) =~= n);
        },
        AddrModel::DomainAlt(n) => {
            assert(s.subrange(2, 2 + s[1] as int) =~= n);
        },
        AddrModel::V6(o) => {
            assert(s.subrange(1, 17) =~= o);
        },
    }
}

/// The ASCII digit of a value below ten.
pub open spec fn dec_digit(x: u8) -> u8 {
    (48 + x) as u8
}

/// The shortest decimal rendering of one byte.
pub open spec fn spec_dec_byte(n: u8) -> Seq<u8> {
    if n < 10 {
        seq![dec_digit(n)]
    } else if n < 100 {
        seq![dec_digit(n / 10), dec_digit(n % 10)]
    } else {
        seq![dec_digit(n / 100), dec_digit((n / 10) % 10), dec_digit(n % 10)]
    }
}

/// The lowercase ASCII hex digit of a value below sixteen.
pub open spec fn hex_digit(x: u8) -> u8 {
    if x < 10 {
        (48 + x) as u8
    } else {
        (87 + x) as u8
    }
}

/// The shortest lowercase hex rendering of the 16-bit group with bytes
/// `h` and `l`, as an IPv6 group is written.
pub open spec fn spec_hex_group(h: u8, l: u8) -> Seq<u8> {
    if h == 0 {
        if l < 16 {
            seq![hex_digit(l)]
        } else {
            seq![hex_digit(l / 16), hex_digit(l % 16)]
        }
    } else if h < 16 {
        seq![hex_digit(h), hex_digit(l / 16), hex_digit(l % 16)]
    } else {
        seq![hex_digit(h / 16), hex_digit(h % 16), hex_digit(l / 16), hex_digit(l % 16)]
    }
}

/// ASCII code of the dot separating IPv4 octets.
pub const DOT: u8 = 46;

/// ASCII code of the colon separating IPv6 groups.
pub const COLON: u8 = 58;

/// The host name to dial for an address record: dotted decimal for IPv4,
/// the name itself for domains, colon-separated lowercase hex groups
/// (without zero compression) for IPv6.
pub open spec fn spec_host_bytes(a: AddrModel) -> Seq<u8> {
    match a {
        AddrModel::V4(o) => spec_dec_byte(o[0]) + seq![DOT] + spec_dec_byte(o[1]) + seq![DOT]
            + spec_dec_byte(o[2]) + seq![DOT] + spec_dec_byte(o[3]),
        AddrModel::Domain(n) => n,
        AddrModel::DomainAlt(n) => n,
        AddrModel::V6(o) => spec_hex_group(o[0], o[1]) + seq![COLON] + spec_hex_group(o[2], o[3])
            + seq![COLON] + spec_hex_group(o[4], o[5]) + seq![COLON] + spec_hex_group(o[6], o[7])
            + seq![COLON] + spec_hex_group(o[8], o[9]) + seq![COLON] + spec_hex_group(o[10], o[11])
            + seq![COLON] + spec_hex_group(o[12], o[13]) + seq![COLON] + spec_hex_group(
            o[14],
            o[15],
        ),
    }
}

/// Append the decimal rendering of one byte.
fn push_dec_byte(v: &mut Vec<u8>, n: u8)
    ensures
        final(v)@ == old(v)@ + spec_dec_byte(n),
{
    if n >= 100 {
        v.push(48 + n / 100);
        v.push(48 + (n / 10) % 10);
        v.push(48 + n % 10);
    } else if n >= 10 {
        v.push(48 + n / 10);
        v.push(48 + n % 10);
    } else {
        v.push(48 + n);
    }
    assert(v@ =~= old(v)@ + spec_dec_byte(n));
}

fn hex_digit_exec(x: u8) -> (r: u8)
    requires
        x < 16,
    ensures
        r == hex_digit(x),
{
    if x < 10 {
        48 + x
    } else {
        87 + x
    }
}

/// Append the shortest hex rendering of one 16-bit group.
fn push_hex_group(v: &mut Vec<u8>, h: u8, l: u8)
    ensures
        final(v)@ == old(v)@ + spec_hex_group(h, l),
{
    if h == 0 {
        if l < 16 {
            v.push(hex_digit_exec(l));
        } else {
            v.push(hex_digit_exec(l / 16));
            v.push(hex_digit_exec(l % 16));
        }
    } else if h < 16 {
        v.push(hex_digit_exec(h));
        v.push(hex_digit_exec(l / 16));
        v.push(hex_digit_exec(l % 16));
    } else {
        v.push(hex_digit_exec(h / 16));
        v.push(hex_digit_exec(h % 16));
        v.push(hex_digit_exec(l / 16));
        v.push(hex_digit_exec(l % 16));
    }
    assert(v@ =~= old(v)@ + spec_hex_group(h, l));
}

/// The host name to dial for an address record, as ASCII bytes.
pub fn host_bytes(a: &Address) -> (v: Vec<u8>)
    requires
        addr_wf(a@),
    ensures
        v@ == spec_host_bytes(a@),
{
    match a {
        Address::V4 { octets } => {
            let mut v: Vec<u8> = Vec::new();
            push_dec_byte(&mut v, octets[0]);
            v.push(DOT);
            push_dec_byte(&mut v, octets[1]);
            v.push(DOT);
            push_dec_byte(&mut v, octets[2]);
            v.push(DOT);
            push_dec_byte(&mut v, octets[3]);
            assert(v@ =~= spec_host_bytes(a@));
            v
        },
        Address::Domain { name } => {
            let v = slice_to_vec(name.as_slice());
            v
        },
        Address::DomainAlt { name } => {
            let v = slice_to_vec(name.as_slice());
            v
        },
        Address::V6 { octets } => {
            let mut v: Vec<u8> = Vec::new();
            push_hex_group(&mut v, octets[0], octets[1]);
            v.push(COLON);
            push_hex_group(&mut v, octets[2], octets[3]);
            v.push(COLON);
            push_hex_group(&mut v, octets[4], octets[5]);
            v.push(COLON);
            push_hex_group(&mut v, octets[6], octets[7]);
            v.push(COLON);
            push_hex_group(&mut v, octets[8], octets[9]);
            v.push(COLON);
            push_hex_group(&mut v, octets[10], octets[11]);
            v.push(COLON);
            push_hex_group(&mut v, octets[12], octets[13]);
            v.push(COLON);
            push_hex_group(&mut v, octets[14], octets[15]);
            assert(v@ =~= spec_host_bytes(a@));
            v
        },
    }
}

/// Parse a big-endian 16-bit port from `buf` at `pos`; zero is invalid.
pub open spec fn spec_parse_port(s: Seq<u8>) -> Result<u16, ProxyError> {
    if s.len() < 2 {
        Err(ProxyError::MalformedFrame)
    } else if crate::be16(s[0], s[1]) == 0 {
        Err(ProxyError::InvalidPort)
    } else {
        Ok(crate::be16(s[0], s[1]))
    }
}

/// Read the big-endian 16-bit port at `pos`; ports are two bytes and port
/// zero is rejected for every protocol.
pub fn parse_port(buf: &[u8], pos: usize) -> (r: Result<(u16, usize), ProxyError>)
    requires
        pos <= buf@.len(),
    ensures
        ({
            let sp = spec_parse_port(buf@.skip(pos as int));
            match r {
                Ok((p, newpos)) => sp == Ok::<u16, ProxyError>(p) && newpos == pos + 2 && p != 0
                    && newpos <= buf@.len(),
                Err(e) => sp == Err::<u16, ProxyError>(e),
            }
        }),
{
    let len = buf.len();
    if len - pos < 2 {
        return Err(ProxyError::MalformedFrame);
    }
    let hi = *vstd::slice::slice_index_get(buf, pos);
    let lo = *vstd::slice::slice_index_get(buf, pos + 1);
    let port = crate::read_be16(hi, lo);
    if port == 0 {
        Err(ProxyError::InvalidPort)
    } else {
        Ok((port, pos + 2))
    }
}

} // verus!
