//! Per-session configuration and the interpretation of the request's
//! path parameter: a `<host>-<port>` override of the fallback target, or
//! a comma-separated list of two-letter country codes that selects a
//! proxy from a configured table.
use vstd::prelude::*;
use vstd::string::StrSliceExecFns;

verus! {

/// Per-connection configuration, immutable once the session starts: the
/// expected user id as its sixteen UUID bytes, and the fallback target
/// dialled when the parsed target refuses.
pub struct Config {
    pub uuid: Vec<u8>,
    pub proxy_addr: Vec<u8>,
    pub proxy_port: u16,
}

impl Config {
    /// A configuration is well-formed when the user id has the size of
    /// a UUID.
    pub open spec fn wf(&self) -> bool {
        self.uuid@.len() == 16
    }

    /// Build a configuration from the UUID bytes and the fallback
    /// host and port.
    pub fn new(uuid: Vec<u8>, proxy_addr: Vec<u8>, proxy_port: u16) -> (c: Config)
        requires
            uuid@.len() == 16,
        ensures
            c.wf(),
            c.uuid@ == uuid@,
            c.proxy_addr@ == proxy_addr@,
            c.proxy_port == proxy_port,
    {
        Config { uuid, proxy_addr, proxy_port }
    }
}

/// An ASCII decimal digit.
pub open spec fn is_digit(c: char) -> bool {
    '0' <= c && c <= '9'
}

/// The value of a digit string, most significant first.
pub open spec fn dec_val(s: Seq<char>) -> int
    decreases s.len(),
{
    if s.len() == 0 {
        0
    } else {
        dec_val(s.drop_last()) * 10 + (s.last() as int - 48)
    }
}

/// A string that `u16` accepts: non-empty, all digits, value in range.
pub open spec fn valid_u16_digits(s: Seq<char>) -> bool {
    s.len() > 0 && (forall|i: int| 0 <= i < s.len() ==> is_digit(#[trigger] s[i])) && dec_val(s)
        <= 65535
}

/// A digit string's value is never negative.
proof fn lemma_dec_val_nonneg(s: Seq<char>)
    requires
        forall|j: int| 0 <= j < s.len() ==> is_digit(#[trigger] s[j]),
    ensures
        dec_val(s) >= 0,
    decreases s.len(),
{
    if s.len() > 0 {
        lemma_dec_val_nonneg(s.drop_last());
    }
}

/// Extending a digit string never shrinks its value.
proof fn lemma_dec_val_monotone(s: Seq<char>, i: int)
    requires
        0 <= i <= s.len(),
        forall|j: int| 0 <= j < s.len() ==> is_digit(#[trigger] s[j]),
    ensures
        dec_val(s.take(i)) <= dec_val(s),
    decreases s.len() - i,
{
    if i == s.len() {
        assert(s.take(i) =~= s);
    } else {
        lemma_dec_val_monotone(s, i + 1);
        let t = s.take(i + 1);
        assert(t.drop_last() =~= s.take(i));
        assert(t.last() == s[i]);
        lemma_dec_val_nonneg(s.take(i));
        assert(dec_val(t) == dec_val(s.take(i)) * 10 + (s[i] as int - 48));
    }
}

/// Parse the characters of `s` from `from` to the end as a decimal
/// `u16`; the result is `Some` exactly when they are all digits, there
/// is at least one, and the value fits.
pub fn parse_u16_digits(s: &str, from: usize) -> (r: Option<u16>)
    requires
        from <= s@.len(),
    ensures
        r is Some <==> valid_u16_digits(s@.skip(from as int)),
        r is Some ==> r->Some_0 == dec_val(s@.skip(from as int)),
{
    let ghost t = s@.skip(from as int);
    let n = s.unicode_len();
    if from == n {
        return None;
    }
    let mut acc: u32 = 0;
    let mut i: usize = from;
    while i < n
        invariant
            from <= i <= n,
            from < n,
            n == s@.len(),
            t == s@.skip(from as int),
            acc as int == dec_val(t.take(i - from)),
            acc <= 65535,
            forall|j: int| 0 <= j < i - from ==> is_digit(#[trigger] t[j]),
        decreases n - i,
    {
        let c = s.get_char(i);
        if !(c >= '0' && c <= '9') {
            assert(!valid_u16_digits(t)) by {
                assert(t[i - from] == c);
            }
            return None;
        }
        let d: u32 = (c as u32) - 48;
        let next: u32 = acc * 10 + d;
        proof {
            assert(t.take(i - from + 1).drop_last() =~= t.take(i - from));
            assert(t.take(i - from + 1).last() == t[i - from]);
        }
        if next > 65535 {
            assert(!valid_u16_digits(t)) by {
                if valid_u16_digits(t) {
                    lemma_dec_val_monotone(t, i - from + 1);
                }
            }
            return None;
        }
        acc = next;
        i += 1;
    }
    proof {
        assert(t.take(n - from) =~= t);
    }
    Some(acc as u16)
}

/// The last position of `c` in `s`, if any.
pub open spec fn last_index_of(s: Seq<char>, c: char) -> Option<int>
    decreases s.len(),
{
    if s.len() == 0 {
        None
    } else if s.last() == c {
        Some(s.len() - 1)
    } else {
        last_index_of(s.drop_last(), c)
    }
}

/// Find the last position of `c` in `s` by scanning from the end.
pub fn find_last(s: &str, c: char) -> (r: Option<usize>)
    ensures
        match r {
            Some(i) => last_index_of(s@, c) == Some(i as int) && i < s@.len(),
            None => last_index_of(s@, c) is None,
        },
{
    let n = s.unicode_len();
    let mut i: usize = n;
    proof {
        assert(s@.take(n as int) =~= s@);
    }
    while i > 0
        invariant
            i <= n,
            n == s@.len(),
            last_index_of(s@, c) == last_index_of(s@.take(i as int), c),
        decreases i,
    {
        let d = s.get_char(i - 1);
        proof {
            assert(s@.take(i as int).last() == s@[i - 1]);
            assert(s@.take(i as int).drop_last() =~= s@.take(i - 1));
        }
        if d == c {
            return Some(i - 1);
        }
        i -= 1;
    }
    proof {
        assert(s@.take(0) =~= Seq::<char>::empty());
    }
    None
}

/// The `<host>-<port>` path-parameter shape: there is a dash, the last
/// dash is neither first nor last, and only digits follow it.
pub open spec fn spec_is_proxyip(s: Seq<char>) -> bool {
    match last_index_of(s, '-') {
        Some(i) => 0 < i < s.len() - 1 && (forall|j: int|
            i < j < s.len() ==> is_digit(#[trigger] s[j])),
        None => false,
    }
}

/// Whether a path parameter has the `<host>-<port>` shape.
pub fn is_proxyip_format(s: &str) -> (r: bool)
    ensures
        r == spec_is_proxyip(s@),
{
    let n = s.unicode_len();
    let i = match find_last(s, '-') {
        Some(i) => i,
        None => {
            return false;
        },
    };
    if i == 0 || i >= n - 1 {
        return false;
    }
    let mut j: usize = i + 1;
    while j < n
        invariant
            i < j <= n,
            n == s@.len(),
            0 < i < n - 1,
            last_index_of(s@, '-') == Some(i as int),
            forall|k: int| i < k < j ==> is_digit(#[trigger] s@[k]),
        decreases n - j,
    {
        let c = s.get_char(j);
        if !(c >= '0' && c <= '9') {
            assert(!is_digit(s@[j as int]));
            return false;
        }
        j += 1;
    }
    true
}

/// The country-code shape: at least two characters and the first two
/// are uppercase ASCII letters.
pub open spec fn spec_is_country_code(s: Seq<char>) -> bool {
    s.len() >= 2 && 'A' <= s[0] <= 'Z' && 'A' <= s[1] <= 'Z'
}

/// Whether a path parameter starts like a two-letter country code.
pub fn is_country_code_format(s: &str) -> (r: bool)
    ensures
        r == spec_is_country_code(s@),
{
    if s.unicode_len() < 2 {
        return false;
    }
    let c0 = s.get_char(0);
    let c1 = s.get_char(1);
    c0 >= 'A' && c0 <= 'Z' && c1 >= 'A' && c1 <= 'Z'
}

/// The fallback override encoded in a `<host>-<port>` path parameter:
/// the host before the first dash and the port after it, kept only when
/// the part after the first dash parses as a `u16`.
pub open spec fn spec_fallback_override(s: Seq<char>) -> Option<(Seq<char>, u16)> {
    if !spec_is_proxyip(s) {
        None
    } else {
        let i = first_index_of(s, '-');
        if valid_u16_digits(s.skip(i + 1)) {
            Some((s.take(i), dec_val(s.skip(i + 1)) as u16))
        } else {
            None
        }
    }
}

/// The first position of `c` in `s`; meaningful only when present.
pub open spec fn first_index_of(s: Seq<char>, c: char) -> int
    decreases s.len(),
{
    if s.len() == 0 {
        -1
    } else if s[0] == c {
        0
    } else {
        1 + first_index_of(s.skip(1), c)
    }
}

/// Find the first position of `c` in `s`.
pub fn find_first(s: &str, c: char) -> (r: Option<usize>)
    ensures
        match r {
            Some(i) => first_index_of(s@, c) == i as int && i < s@.len() && s@[i as int] == c,
            None => forall|j: int| 0 <= j < s@.len() ==> s@[j] != c,
        },
{
    let n = s.unicode_len();
    let mut i: usize = 0;
    while i < n
        invariant
            i <= n,
            n == s@.len(),
            forall|j: int| 0 <= j < i ==> s@[j] != c,
        decreases n - i,
    {
        let d = s.get_char(i);
        if d == c {
            proof {
                lemma_first_index_of(s@, c, i as int);
            }
            return Some(i);
        }
        i += 1;
    }
    None
}

proof fn lemma_first_index_of(s: Seq<char>, c: char, i: int)
    requires
        0 <= i < s.len(),
        s[i] == c,
        forall|j: int| 0 <= j < i ==> s[j] != c,
    ensures
        first_index_of(s, c) == i,
    decreases i,
{
    if i == 0 {
    } else {
        lemma_first_index_of(s.skip(1), c, i - 1);
    }
}

/// Interpret a `<host>-<port>` path parameter: the fallback host and
/// port it selects, or nothing when the shape or the port is not right.
pub fn fallback_override<'a>(s: &'a str) -> (r: Option<(&'a str, u16)>)
    ensures
        match r {
            Some((host, port)) => spec_fallback_override(s@) == Some((host@, port)),
            None => spec_fallback_override(s@) is None,
        },
{
    if !is_proxyip_format(s) {
        return None;
    }
    let n = s.unicode_len();
    let i = match find_first(s, '-') {
        Some(i) => i,
        None => {
            proof {
                lemma_last_index_in_range(s@, '-');
                assert(false);
            }
            return None;
        },
    };
    let port = match parse_u16_digits(s, i + 1) {
        Some(p) => p,
        None => {
            return None;
        },
    };
    let host = s.substring_char(0, i);
    Some((host, port))
}

proof fn lemma_last_index_in_range(s: Seq<char>, c: char)
    ensures
        match last_index_of(s, c) {
            Some(i) => 0 <= i < s.len() && s[i] == c,
            None => forall|j: int| 0 <= j < s.len() ==> s[j] != c,
        },
    decreases s.len(),
{
    if s.len() > 0 {
        lemma_last_index_in_range(s.drop_last(), c);
        if s.last() != c {
            match last_index_of(s.drop_last(), c) {
                Some(i) => {
                    assert(s[i] == s.drop_last()[i]);
                },
                None => {
                    assert forall|j: int| 0 <= j < s.len() implies s[j] != c by {
                        if j < s.len() - 1 {
                            assert(s[j] == s.drop_last()[j]);
                        }
                    }
                },
            }
        }
    }
}

/// Pick an entry of a non-empty table with a random byte, as the
/// country selector does: the byte reduced by the table's size.
pub fn select_index(rand: u8, len: usize) -> (r: usize)
    requires
        len > 0,
    ensures
        r == rand as int % len as int,
        r < len,
{
    (rand as usize) % len
}

} // verus!
