//! Error kinds surfaced by the protocol handlers, and the classifiers that
//! decide whether an error message denotes a normal connection-lifecycle
//! event (benign) or a transient resource condition (warning).
use vstd::prelude::*;
use vstd::string::StrSliceExecFns;

verus! {

/// Error kinds that a protocol handler can surface to the session driver.
/// All of them are fatal for the session and none is benign.
#[derive(Clone, Copy, PartialEq, Eq, Structural, Debug)]
pub enum ProxyError {
    /// A frame was truncated or otherwise not as the protocol prescribes.
    MalformedFrame,
    /// An address record carried a tag outside the supported set.
    UnsupportedAddressType,
    /// A port field held zero.
    InvalidPort,
    /// A VMess command block carried a version other than 1.
    InvalidVersion,
    /// AEAD authentication failed while opening a VMess header.
    AuthFailed,
}

impl ProxyError {
    /// A short description of the error kind, for logs.
    pub fn message(&self) -> (r: &'static str)
        ensures
            *self is MalformedFrame ==> r@ == "malformed frame"@,
            *self is UnsupportedAddressType ==> r@ == "unsupported address type"@,
            *self is InvalidPort ==> r@ == "invalid port"@,
            *self is InvalidVersion ==> r@ == "invalid version"@,
            *self is AuthFailed ==> r@ == "auth failed"@,
    {
        match self {
            ProxyError::MalformedFrame => "malformed frame",
            ProxyError::UnsupportedAddressType => "unsupported address type",
            ProxyError::InvalidPort => "invalid port",
            ProxyError::InvalidVersion => "invalid version",
            ProxyError::AuthFailed => "auth failed",
        }
    }
}

/// ASCII lowering of one character; anything outside 'A'..'Z' is unchanged.
pub open spec fn lower_char(c: char) -> char {
    if 'A' <= c && c <= 'Z' {
        ((c as u8) + 32) as char
    } else {
        c
    }
}

/// ASCII lowering of a whole character sequence.
pub open spec fn lower_seq(s: Seq<char>) -> Seq<char> {
    s.map_values(|c: char| lower_char(c))
}

/// `needle` occurs in `hay` starting at position `i`.
pub open spec fn contains_at(hay: Seq<char>, needle: Seq<char>, i: int) -> bool {
    0 <= i && i + needle.len() <= hay.len() && hay.subrange(i, i + needle.len() as int) == needle
}

/// `needle` occurs somewhere in `hay`.
pub open spec fn seq_contains(hay: Seq<char>, needle: Seq<char>) -> bool {
    exists|i: int| contains_at(hay, needle, i)
}

/// `needle` (given already lowercased) occurs in `msg` regardless of ASCII case.
pub open spec fn contains_ci(msg: Seq<char>, needle: Seq<char>) -> bool {
    seq_contains(lower_seq(msg), needle)
}

fn lower_char_exec(c: char) -> (r: char)
    ensures
        r == lower_char(c),
{
    if 'A' <= c && c <= 'Z' {
        ((c as u8) + 32) as char
    } else {
        c
    }
}

/// The ASCII-lowered characters of `s`.
fn lowered_chars(s: &str) -> (v: Vec<char>)
    ensures
        v@ == lower_seq(s@),
{
    let n = s.unicode_len();
    let mut v: Vec<char> = Vec::new();
    let mut i: usize = 0;
    while i < n
        invariant
            n == s@.len(),
            i <= n,
            v@.len() == i,
            forall|j: int| 0 <= j < i ==> v@[j] == lower_char(s@[j]),
        decreases n - i,
    {
        let c = s.get_char(i);
        v.push(lower_char_exec(c));
        i += 1;
    }
    assert(v@ =~= lower_seq(s@));
    v
}

/// `needle` matches `hay` at position `i`.
fn match_at(hay: &Vec<char>, needle: &str, i: usize) -> (r: bool)
    requires
        i + needle@.len() <= hay@.len(),
    ensures
        r == contains_at(hay@, needle@, i as int),
{
    let n = hay.len();
    let m = needle.unicode_len();
    let mut j: usize = 0;
    while j < m
        invariant
            n == hay@.len(),
            m == needle@.len(),
            i + m <= n,
            j <= m,
            forall|k: int| 0 <= k < j ==> hay@[i + k] == needle@[k],
        decreases m - j,
    {
        if hay[i + j] != needle.get_char(j) {
            assert(hay@.subrange(i as int, i + m as int)[j as int] != needle@[j as int]);
            return false;
        }
        j += 1;
    }
    assert(hay@.subrange(i as int, i + m as int) =~= needle@);
    true
}

/// Whether `needle` occurs anywhere in `hay`.
fn chars_contain(hay: &Vec<char>, needle: &str) -> (r: bool)
    ensures
        r == seq_contains(hay@, needle@),
{
    let n = hay.len();
    let m = needle.unicode_len();
    if m > n {
        assert(forall|i: int| !contains_at(hay@, needle@, i));
        return false;
    }
    if m == 0 {
        assert(contains_at(hay@, needle@, 0)) by {
            assert(hay@.subrange(0, 0) =~= needle@);
        }
        return true;
    }
    let mut i: usize = 0;
    while i <= n - m
        invariant
            n == hay@.len(),
            m == needle@.len(),
            0 < m <= n,
            i <= n - m + 1,
            forall|k: int| 0 <= k < i ==> !contains_at(hay@, needle@, k),
        decreases n - i,
    {
        if match_at(hay, needle, i) {
            return true;
        }
        i += 1;
    }
    assert(forall|k: int| i <= k ==> !contains_at(hay@, needle@, k));
    false
}

/// The benign-error predicate over a message's characters: the message
/// contains one of the lifecycle substrings, regardless of ASCII case.
pub open spec fn spec_is_benign(msg: Seq<char>) -> bool {
    ||| contains_ci(msg, "writablestream has been closed"@)
    ||| contains_ci(msg, "broken pipe"@)
    ||| contains_ci(msg, "connection reset"@)
    ||| contains_ci(msg, "connection closed"@)
    ||| contains_ci(msg, "network connection lost"@)
    ||| contains_ci(msg, "stream closed"@)
    ||| contains_ci(msg, "eof"@)
    ||| contains_ci(msg, "connection aborted"@)
    ||| contains_ci(msg, "network error"@)
    ||| contains_ci(msg, "socket closed"@)
    ||| contains_ci(msg, "transfer error"@)
    ||| contains_ci(msg, "canceled"@)
    ||| contains_ci(msg, "cancelled"@)
    ||| contains_ci(msg, "timed out"@)
    ||| contains_ci(msg, "timeout"@)
    ||| contains_ci(msg, "deadline"@)
    ||| contains_ci(msg, "http"@)
    ||| contains_ci(msg, "https"@)
    ||| contains_ci(msg, "buffer"@)
    ||| contains_ci(msg, "not enough"@)
    ||| contains_ci(msg, "too large"@)
    ||| contains_ci(msg, "too long"@)
    ||| contains_ci(msg, "rate limit"@)
    ||| contains_ci(msg, "quota"@)
    ||| contains_ci(msg, "exceeded"@)
    ||| contains_ci(msg, "dns"@)
    ||| contains_ci(msg, "host not found"@)
    ||| contains_ci(msg, "unreachable"@)
    ||| contains_ci(msg, "protocol not implemented"@)
    ||| contains_ci(msg, "handshake"@)
    ||| contains_ci(msg, "connection failed"@)
    ||| contains_ci(msg, "websocket"@)
    ||| contains_ci(msg, "hung"@)
    ||| contains_ci(msg, "never generate"@)
    ||| (contains_ci(msg, "all"@) && contains_ci(msg, "failed"@))
}

/// Check if an error message is benign: expected during normal operation
/// (client disconnects, timeouts, resource limits) and to be handled
/// silently rather than surfaced as an incident.
pub fn is_benign_error(error_msg: &str) -> (r: bool)
    ensures
        r == spec_is_benign(error_msg@),
{
    let low = lowered_chars(error_msg);
    chars_contain(&low, "writablestream has been closed")
        || chars_contain(&low, "broken pipe")
        || chars_contain(&low, "connection reset")
        || chars_contain(&low, "connection closed")
        || chars_contain(&low, "network connection lost")
        || chars_contain(&low, "stream closed")
        || chars_contain(&low, "eof")
        || chars_contain(&low, "connection aborted")
        || chars_contain(&low, "network error")
        || chars_contain(&low, "socket closed")
        || chars_contain(&low, "transfer error")
        || chars_contain(&low, "canceled")
        || chars_contain(&low, "cancelled")
        || chars_contain(&low, "timed out")
        || chars_contain(&low, "timeout")
        || chars_contain(&low, "deadline")
        || chars_contain(&low, "http")
        || chars_contain(&low, "https")
        || chars_contain(&low, "buffer")
        || chars_contain(&low, "not enough")
        || chars_contain(&low, "too large")
        || chars_contain(&low, "too long")
        || chars_contain(&low, "rate limit")
        || chars_contain(&low, "quota")
        || chars_contain(&low, "exceeded")
        || chars_contain(&low, "dns")
        || chars_contain(&low, "host not found")
        || chars_contain(&low, "unreachable")
        || chars_contain(&low, "protocol not implemented")
        || chars_contain(&low, "handshake")
        || chars_contain(&low, "connection failed")
        || chars_contain(&low, "websocket")
        || chars_contain(&low, "hung")
        || chars_contain(&low, "never generate")
        || (chars_contain(&low, "all") && chars_contain(&low, "failed"))
}

/// The warning predicate over a message's characters: transient resource
/// conditions that are logged at warn level and treated as success.
pub open spec fn spec_is_warning(msg: Seq<char>) -> bool {
    ||| contains_ci(msg, "backpressure"@)
    ||| contains_ci(msg, "buffer full"@)
    ||| contains_ci(msg, "max iterations"@)
    ||| contains_ci(msg, "cpu limit"@)
}

/// Check if an error message denotes a transient, recoverable resource
/// condition that should be logged as a warning rather than an error.
pub fn is_warning_error(error_msg: &str) -> (r: bool)
    ensures
        r == spec_is_warning(error_msg@),
{
    let low = lowered_chars(error_msg);
    chars_contain(&low, "backpressure")
        || chars_contain(&low, "buffer full")
        || chars_contain(&low, "max iterations")
        || chars_contain(&low, "cpu limit")
}

} // verus!
