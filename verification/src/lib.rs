//! The connection-processing core of a multiplexing proxy gateway:
//! clients arrive over one WebSocket channel carrying an embedded proxy
//! request (VLESS, VMess, Trojan or Shadowsocks); the gateway parses the
//! request, dials the target — falling back to a configured proxy — and
//! relays bytes both ways under iteration, CPU and wall-clock budgets.
//! Everything here is transport-free: the surrounding runtime performs
//! the reads, writes and waits, and this crate takes every decision.
pub mod addr;
pub mod config;
pub mod errors;
pub mod protocols;
pub mod relay;
pub mod session;
pub mod stream;
pub mod udp_relay;
pub mod vmess;

use vstd::prelude::*;
use vstd::string::StrSliceExecFns;

verus! {

/// Largest number of bytes the stream adaptor may stage at any time.
pub const BUFFER_CAP: usize = 32768;

/// Big-endian 16-bit value read from two bytes.
pub open spec fn be16(hi: u8, lo: u8) -> u16 {
    (hi as u16 * 256 + lo as u16) as u16
}

/// Combine two bytes into a big-endian 16-bit port value.
pub fn read_be16(hi: u8, lo: u8) -> (r: u16)
    ensures
        r == be16(hi, lo),
{
    (hi as u16) * 256 + (lo as u16)
}

/// The bytes of a character sequence, one byte per character; exact for
/// ASCII text, which is all this library feeds it.
pub open spec fn str_bytes(s: Seq<char>) -> Seq<u8> {
    s.map_values(|c: char| c as u8)
}

/// The bytes of a string, one byte per character.
pub fn ascii_bytes(s: &str) -> (v: Vec<u8>)
    ensures
        v@ == str_bytes(s@),
{
    let n = s.unicode_len();
    let mut v: Vec<u8> = Vec::new();
    let mut i: usize = 0;
    while i < n
        invariant
            n == s@.len(),
            i <= n,
            v@.len() == i,
            forall|j: int| 0 <= j < i ==> v@[j] == s@[j] as u8,
        decreases n - i,
    {
        let c = s.get_char(i);
        v.push(c as u8);
        i += 1;
    }
    assert(v@ =~= str_bytes(s@));
    v
}

} // verus!
