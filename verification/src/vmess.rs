//! The VMess AEAD command-header subsystem: the auth-id key, the tagged
//! keyed-hash derivation that yields every sub-key, AES-128-GCM opening
//! of the command header, parsing of the command block, and AEAD sealing
//! of the response header.
use crate::addr::{addr_wf, spec_parse_addr, spec_parse_port, AddrModel, Address};
use crate::errors::ProxyError;
use crate::str_bytes;
use aes_gcm::aead::{Aead, Payload};
use aes_gcm::{Aes128Gcm, KeyInit};
use sha2::Digest;
use vstd::prelude::*;
use vstd::slice::slice_subrange;

verus! {

/// What `md5::compute` returns for the given bytes.
pub uninterp spec fn md5_of(data: Seq<u8>) -> Seq<u8>;

/// What `sha2::Sha256::digest` returns for the given bytes.
pub uninterp spec fn sha256_of(data: Seq<u8>) -> Seq<u8>;

/// What AES-128-GCM sealing returns for the given key, nonce, associated
/// data and plaintext: the ciphertext with the 16-byte tag appended.
pub uninterp spec fn gcm_seal(key: Seq<u8>, nonce: Seq<u8>, aad: Seq<u8>, pt: Seq<u8>) -> Seq<u8>;

/// Relies on md5::compute: the 16-byte MD5 digest of the input, a
/// function of the input bytes alone.
#[verifier::external_body]
fn md5_digest(data: &[u8]) -> (r: Vec<u8>)
    ensures
        r@ == md5_of(data@),
        r@.len() == 16,
{
    md5::compute(data).0.to_vec()
}

/// Relies on sha2::Sha256::digest: the 32-byte SHA-256 digest of the
/// input, a function of the input bytes alone.
#[verifier::external_body]
fn sha256_digest(data: &[u8]) -> (r: Vec<u8>)
    ensures
        r@ == sha256_of(data@),
        r@.len() == 32,
{
    sha2::Sha256::digest(data).to_vec()
}

/// Relies on aes_gcm::Aes128Gcm (Aead::encrypt): sealing is a function of
/// key, nonce, associated data and plaintext; the result appends a
/// 16-byte tag, and encryption succeeds for any message these sizes.
#[verifier::external_body]
fn aes128gcm_seal(key: &[u8], nonce: &[u8], aad: &[u8], pt: &[u8]) -> (r: Vec<u8>)
    requires
        key@.len() == 16,
        nonce@.len() == 12,
        pt@.len() <= 0xFFFF_FFFF,
        aad@.len() <= 0xFFFF_FFFF,
    ensures
        r@ == gcm_seal(key@, nonce@, aad@, pt@),
        r@.len() == pt@.len() + 16,
{
    let cipher = Aes128Gcm::new_from_slice(key).unwrap();
    cipher.encrypt(aes_gcm::Nonce::from_slice(nonce), Payload { msg: pt, aad }).unwrap()
}

/// Relies on aes_gcm::Aes128Gcm (Aead::decrypt): opening returns the
/// unique plaintext whose sealing under the same key, nonce and
/// associated data gives this ciphertext, and fails otherwise.
#[verifier::external_body]
fn aes128gcm_open(key: &[u8], nonce: &[u8], aad: &[u8], ct: &[u8]) -> (r: Option<Vec<u8>>)
    requires
        key@.len() == 16,
        nonce@.len() == 12,
        ct@.len() <= 0xFFFF_FFFF,
        aad@.len() <= 0xFFFF_FFFF,
    ensures
        r is Some ==> r->Some_0@.len() + 16 == ct@.len() && ct@ == gcm_seal(
            key@,
            nonce@,
            aad@,
            r->Some_0@,
        ),
        forall|pt: Seq<u8>|
            pt.len() + 16 == ct@.len() && ct@ == #[trigger] gcm_seal(key@, nonce@, aad@, pt)
                ==> r is Some && r->Some_0@ == pt,
{
    let cipher = Aes128Gcm::new_from_slice(key).unwrap();
    cipher.decrypt(aes_gcm::Nonce::from_slice(nonce), Payload { msg: ct, aad }).ok()
}

/// A 64-byte HMAC block: the key zero-padded to the block size, each
/// byte XORed with the pad byte.
pub open spec fn xor_pad(key: Seq<u8>, x: u8) -> Seq<u8> {
    Seq::new(
        64,
        |i: int|
            if i < key.len() {
                (key[i] ^ x) as u8
            } else {
                x
            },
    )
}

/// The nested keyed hash behind the VMess KDF. With no tags it is plain
/// SHA-256; each tag wraps the previous hash in an HMAC keyed by that
/// tag, the last tag outermost.
pub open spec fn kdf_hash(tags: Seq<Seq<u8>>, msg: Seq<u8>) -> Seq<u8>
    decreases tags.len(),
{
    if tags.len() == 0 {
        sha256_of(msg)
    } else {
        let k = tags.last();
        kdf_hash(
            tags.drop_last(),
            xor_pad(k, 0x5c) + kdf_hash(tags.drop_last(), xor_pad(k, 0x36) + msg),
        )
    }
}

/// The VMess key derivation: the nested hash rooted at the fixed salt,
/// wrapped once per path tag, applied to the key material.
pub open spec fn spec_kdf(key: Seq<u8>, path: Seq<Seq<u8>>) -> Seq<u8> {
    kdf_hash(seq![str_bytes("VMess AEAD KDF"@)] + path, key)
}

fn xor_pad_exec(key: &[u8], x: u8) -> (v: Vec<u8>)
    requires
        key@.len() <= 64,
    ensures
        v@ == xor_pad(key@, x),
{
    let mut v: Vec<u8> = Vec::new();
    let klen = key.len();
    let mut i: usize = 0;
    while i < 64
        invariant
            klen == key@.len() <= 64,
            i <= 64,
            v@.len() == i,
            forall|j: int|
                0 <= j < i ==> v@[j] == if j < key@.len() {
                    (key@[j] ^ x) as u8
                } else {
                    x
                },
        decreases 64 - i,
    {
        if i < klen {
            v.push(*vstd::slice::slice_index_get(key, i) ^ x);
        } else {
            v.push(x);
        }
        i += 1;
    }
    assert(v@ =~= xor_pad(key@, x));
    v
}

/// The nested hash over the first `n` tags.
fn kdf_hash_at(tags: &Vec<Vec<u8>>, n: usize, msg: Vec<u8>) -> (r: Vec<u8>)
    requires
        n <= tags@.len(),
        forall|i: int| 0 <= i < n ==> tags@[i]@.len() <= 64,
    ensures
        r@ == kdf_hash(tags.deep_view().take(n as int), msg@),
        r@.len() == 32,
    decreases n,
{
    if n == 0 {
        let r = sha256_digest(msg.as_slice());
        assert(tags.deep_view().take(0) =~= Seq::<Seq<u8>>::empty());
        r
    } else {
        let k = &tags[n - 1];
        let mut m1 = xor_pad_exec(k.as_slice(), 0x36);
        let mut msg_owned = msg;
        m1.append(&mut msg_owned);
        let mut inner = kdf_hash_at(tags, n - 1, m1);
        let mut m2 = xor_pad_exec(k.as_slice(), 0x5c);
        m2.append(&mut inner);
        let r = kdf_hash_at(tags, n - 1, m2);
        proof {
            let t = tags.deep_view().take(n as int);
            assert(t.last() == tags.deep_view()[n - 1]);
            assert(tags.deep_view()[n - 1] =~= tags@[n - 1]@);
            assert(t.drop_last() =~= tags.deep_view().take(n - 1));
        }
        r
    }
}

/// The VMess KDF over the given key material and derivation path. Every
/// tag must fit in one HMAC block.
pub fn kdf(key: &[u8], path: Vec<Vec<u8>>) -> (r: Vec<u8>)
    requires
        forall|i: int| 0 <= i < path@.len() ==> path@[i]@.len() <= 64,
    ensures
        r@ == spec_kdf(key@, path.deep_view()),
        r@.len() == 32,
{
    let root = crate::ascii_bytes("VMess AEAD KDF");
    proof {
        reveal_strlit("VMess AEAD KDF");
        assert(root@.len() == 14);
    }
    let mut tags: Vec<Vec<u8>> = Vec::new();
    tags.push(root);
    let mut path_owned = path;
    tags.append(&mut path_owned);
    let n = tags.len();
    let key_vec = vstd::slice::slice_to_vec(key);
    let r = kdf_hash_at(&tags, n, key_vec);
    proof {
        assert(tags.deep_view().take(n as int) =~= tags.deep_view());
        assert(tags.deep_view() =~~= seq![str_bytes("VMess AEAD KDF"@)] + path.deep_view());
    }
    r
}

/// Derive `outlen` bytes from `key` under a one-tag path.
fn kdf1(key: &[u8], salt: &str, outlen: usize) -> (r: Vec<u8>)
    requires
        salt@.len() <= 64,
        outlen <= 32,
    ensures
        r@ == spec_kdf(key@, seq![str_bytes(salt@)]).take(outlen as int),
        r@.len() == outlen,
{
    let mut path: Vec<Vec<u8>> = Vec::new();
    path.push(crate::ascii_bytes(salt));
    let ghost dv = seq![str_bytes(salt@)];
    proof {
        assert(path.deep_view() =~~= dv);
    }
    let mut r = kdf(key, path);
    r.truncate(outlen);
    r
}

/// Derive `outlen` bytes from `key` under a three-tag path.
fn kdf3(key: &[u8], salt: &str, a: &[u8], b: &[u8], outlen: usize) -> (r: Vec<u8>)
    requires
        salt@.len() <= 64,
        a@.len() <= 64,
        b@.len() <= 64,
        outlen <= 32,
    ensures
        r@ == spec_kdf(key@, seq![str_bytes(salt@), a@, b@]).take(outlen as int),
        r@.len() == outlen,
{
    let mut path: Vec<Vec<u8>> = Vec::new();
    path.push(crate::ascii_bytes(salt));
    path.push(vstd::slice::slice_to_vec(a));
    path.push(vstd::slice::slice_to_vec(b));
    let ghost dv = seq![str_bytes(salt@), a@, b@];
    proof {
        assert(path.deep_view() =~~= dv);
    }
    let mut r = kdf(key, path);
    r.truncate(outlen);
    r
}

/// The AES key that opens the command-length ciphertext.
pub open spec fn header_len_key(key: Seq<u8>, auth_id: Seq<u8>, nonce: Seq<u8>) -> Seq<u8> {
    spec_kdf(key, seq![str_bytes("VMess Header AEAD Key_Length"@), auth_id, nonce]).take(16)
}

/// The AES nonce that opens the command-length ciphertext.
pub open spec fn header_len_iv(key: Seq<u8>, auth_id: Seq<u8>, nonce: Seq<u8>) -> Seq<u8> {
    spec_kdf(key, seq![str_bytes("VMess Header AEAD Nonce_Length"@), auth_id, nonce]).take(12)
}

/// The AES key that opens the command ciphertext.
pub open spec fn header_payload_key(key: Seq<u8>, auth_id: Seq<u8>, nonce: Seq<u8>) -> Seq<u8> {
    spec_kdf(key, seq![str_bytes("VMess Header AEAD Key"@), auth_id, nonce]).take(16)
}

/// The AES nonce that opens the command ciphertext.
pub open spec fn header_payload_iv(key: Seq<u8>, auth_id: Seq<u8>, nonce: Seq<u8>) -> Seq<u8> {
    spec_kdf(key, seq![str_bytes("VMess Header AEAD Nonce"@), auth_id, nonce]).take(12)
}

/// The AES key that seals the response-length ciphertext, derived from
/// the first half of the SHA-256 of the command's data key.
pub open spec fn resp_len_key(cmd_key: Seq<u8>) -> Seq<u8> {
    spec_kdf(sha256_of(cmd_key).take(16), seq![str_bytes("AEAD Resp Header Len Key"@)]).take(16)
}

/// The AES nonce that seals the response-length ciphertext.
pub open spec fn resp_len_iv(cmd_iv: Seq<u8>) -> Seq<u8> {
    spec_kdf(sha256_of(cmd_iv).take(16), seq![str_bytes("AEAD Resp Header Len IV"@)]).take(12)
}

/// The AES key that seals the response-header ciphertext.
pub open spec fn resp_key(cmd_key: Seq<u8>) -> Seq<u8> {
    spec_kdf(sha256_of(cmd_key).take(16), seq![str_bytes("AEAD Resp Header Key"@)]).take(16)
}

/// The AES nonce that seals the response-header ciphertext.
pub open spec fn resp_iv(cmd_iv: Seq<u8>) -> Seq<u8> {
    spec_kdf(sha256_of(cmd_iv).take(16), seq![str_bytes("AEAD Resp Header IV"@)]).take(12)
}

/// The auth-id key of a user: the MD5 of the UUID bytes and the fixed
/// suffix.
pub open spec fn spec_auth_key(uuid: Seq<u8>) -> Seq<u8> {
    md5_of(uuid + str_bytes("c48619fe-8f02-49e0-b9e9-edf763e17e21"@))
}

/// Compute the auth-id key of a user from the 16 UUID bytes.
pub fn vmess_auth_key(uuid: &[u8]) -> (r: Vec<u8>)
    requires
        uuid@.len() == 16,
    ensures
        r@ == spec_auth_key(uuid@),
        r@.len() == 16,
{
    let mut data = vstd::slice::slice_to_vec(uuid);
    let mut suffix = crate::ascii_bytes("c48619fe-8f02-49e0-b9e9-edf763e17e21");
    data.append(&mut suffix);
    md5_digest(data.as_slice())
}

/// Open the 18-byte command-length ciphertext. Success happens exactly
/// when the ciphertext is a genuine seal under the derived key and
/// nonce with the auth id as associated data; the value is the
/// big-endian 16-bit command length, and any failure is reported as one
/// undifferentiated decryption error.
pub fn decrypt_header_length(key: &[u8], auth_id: &[u8], nonce: &[u8], len_ct: &[u8]) -> (r: Result<
    u16,
    ProxyError,
>)
    requires
        key@.len() == 16,
        auth_id@.len() == 16,
        nonce@.len() == 8,
        len_ct@.len() == 18,
    ensures
        r is Ok ==> exists|pt: Seq<u8>|
            pt.len() == 2 && len_ct@ == #[trigger] gcm_seal(
                header_len_key(key@, auth_id@, nonce@),
                header_len_iv(key@, auth_id@, nonce@),
                auth_id@,
                pt,
            ) && r->Ok_0 == crate::be16(pt[0], pt[1]),
        forall|pt: Seq<u8>|
            pt.len() == 2 && len_ct@ == #[trigger] gcm_seal(
                header_len_key(key@, auth_id@, nonce@),
                header_len_iv(key@, auth_id@, nonce@),
                auth_id@,
                pt,
            ) ==> r == Ok::<u16, ProxyError>(crate::be16(pt[0], pt[1])),
        r is Err ==> r == Err::<u16, ProxyError>(ProxyError::AuthFailed),
{
    proof {
        reveal_strlit("VMess Header AEAD Key_Length");
        reveal_strlit("VMess Header AEAD Nonce_Length");
    }
    let k = kdf3(key, "VMess Header AEAD Key_Length", auth_id, nonce, 16);
    let iv = kdf3(key, "VMess Header AEAD Nonce_Length", auth_id, nonce, 12);
    match aes128gcm_open(k.as_slice(), iv.as_slice(), auth_id, len_ct) {
        Some(pt) => {
            proof {
                assert(len_ct@ == gcm_seal(
                    header_len_key(key@, auth_id@, nonce@),
                    header_len_iv(key@, auth_id@, nonce@),
                    auth_id@,
                    pt@,
                ));
            }
            Ok(crate::read_be16(pt[0], pt[1]))
        },
        None => Err(ProxyError::AuthFailed),
    }
}

/// Open the command ciphertext. Success happens exactly when the
/// ciphertext is a genuine seal under the derived key and nonce with the
/// auth id as associated data, and yields the command plaintext.
pub fn decrypt_command(key: &[u8], auth_id: &[u8], nonce: &[u8], cmd_ct: &[u8]) -> (r: Result<
    Vec<u8>,
    ProxyError,
>)
    requires
        key@.len() == 16,
        auth_id@.len() == 16,
        nonce@.len() == 8,
        cmd_ct@.len() <= 0xFFFF_FFFF,
    ensures
        r is Ok ==> r->Ok_0@.len() + 16 == cmd_ct@.len() && cmd_ct@ == gcm_seal(
            header_payload_key(key@, auth_id@, nonce@),
            header_payload_iv(key@, auth_id@, nonce@),
            auth_id@,
            r->Ok_0@,
        ),
        forall|pt: Seq<u8>|
            pt.len() + 16 == cmd_ct@.len() && cmd_ct@ == #[trigger] gcm_seal(
                header_payload_key(key@, auth_id@, nonce@),
                header_payload_iv(key@, auth_id@, nonce@),
                auth_id@,
                pt,
            ) ==> r is Ok && r->Ok_0@ == pt,
        r is Err ==> r == Err::<Vec<u8>, ProxyError>(ProxyError::AuthFailed),
{
    proof {
        reveal_strlit("VMess Header AEAD Key");
        reveal_strlit("VMess Header AEAD Nonce");
    }
    let k = kdf3(key, "VMess Header AEAD Key", auth_id, nonce, 16);
    let iv = kdf3(key, "VMess Header AEAD Nonce", auth_id, nonce, 12);
    match aes128gcm_open(k.as_slice(), iv.as_slice(), auth_id, cmd_ct) {
        Some(pt) => Ok(pt),
        None => Err(ProxyError::AuthFailed),
    }
}

/// Model of a parsed VMess command block.
pub struct VmessCommandModel {
    pub data_iv: Seq<u8>,
    pub data_key: Seq<u8>,
    pub options: Seq<u8>,
    pub command: u8,
    pub port: u16,
    pub addr: AddrModel,
}

/// A parsed VMess command block: the data-encryption IV and key, the
/// four option bytes, the command byte, the port and the address. The
/// random padding and the checksum that follow the address are ignored.
#[derive(Debug)]
pub struct VmessCommand {
    pub data_iv: Vec<u8>,
    pub data_key: Vec<u8>,
    pub options: Vec<u8>,
    pub command: u8,
    pub port: u16,
    pub addr: Address,
}

impl View for VmessCommand {
    type V = VmessCommandModel;

    open spec fn view(&self) -> VmessCommandModel {
        VmessCommandModel {
            data_iv: self.data_iv@,
            data_key: self.data_key@,
            options: self.options@,
            command: self.command,
            port: self.port,
            addr: self.addr@,
        }
    }
}

/// Parse a decrypted VMess command block: a version byte that must be 1,
/// sixteen IV bytes, sixteen key bytes, four option bytes, the command
/// byte, the port and the address.
pub open spec fn spec_parse_vmess_command(s: Seq<u8>) -> Result<VmessCommandModel, ProxyError> {
    if s.len() < 1 {
        Err(ProxyError::MalformedFrame)
    } else if s[0] != 1 {
        Err(ProxyError::InvalidVersion)
    } else if s.len() < 40 {
        Err(ProxyError::MalformedFrame)
    } else {
        match spec_parse_port(s.skip(38)) {
            Err(e) => Err(e),
            Ok(port) => match spec_parse_addr(s.skip(40)) {
                Err(e) => Err(e),
                Ok((a, n)) => Ok(
                    VmessCommandModel {
                        data_iv: s.subrange(1, 17),
                        data_key: s.subrange(17, 33),
                        options: s.subrange(33, 37),
                        command: s[37],
                        port,
                        addr: a,
                    },
                ),
            },
        }
    }
}

/// Parse a decrypted VMess command block.
pub fn parse_vmess_command(buf: &[u8]) -> (r: Result<VmessCommand, ProxyError>)
    ensures
        ({
            let sp = spec_parse_vmess_command(buf@);
            match r {
                Ok(c) => sp is Ok && c@ == sp->Ok_0 && addr_wf(c.addr@) && c.data_iv@.len() == 16
                    && c.data_key@.len() == 16 && c.options@.len() == 4,
                Err(e) => sp == Err::<VmessCommandModel, ProxyError>(e),
            }
        }),
{
    let len = buf.len();
    if len < 1 {
        return Err(ProxyError::MalformedFrame);
    }
    if *vstd::slice::slice_index_get(buf, 0) != 1 {
        return Err(ProxyError::InvalidVersion);
    }
    if len < 40 {
        return Err(ProxyError::MalformedFrame);
    }
    let data_iv = vstd::slice::slice_to_vec(slice_subrange(buf, 1, 17));
    let data_key = vstd::slice::slice_to_vec(slice_subrange(buf, 17, 33));
    let options = vstd::slice::slice_to_vec(slice_subrange(buf, 33, 37));
    let command = *vstd::slice::slice_index_get(buf, 37);
    let (port, _after_port) = match crate::addr::parse_port(buf, 38) {
        Ok(x) => x,
        Err(e) => {
            return Err(e);
        },
    };
    let (address, _after_addr) = match crate::addr::parse_addr(buf, 40) {
        Ok(x) => x,
        Err(e) => {
            return Err(e);
        },
    };
    Ok(VmessCommand { data_iv, data_key, options, command, port, addr: address })
}

/// Seal the response header: first the ciphertext of the fixed response
/// length (4) under the response-length keys, then the ciphertext of the
/// header `[options[0], 0, 0, 0]` under the response-header keys. No
/// associated data is used.
pub fn encrypt_response_header(cmd_key: &[u8], cmd_iv: &[u8], opt0: u8) -> (r: (Vec<u8>, Vec<u8>))
    requires
        cmd_key@.len() == 16,
        cmd_iv@.len() == 16,
    ensures
        r.0@ == gcm_seal(resp_len_key(cmd_key@), resp_len_iv(cmd_iv@), Seq::<u8>::empty(), seq![0u8, 4u8]),
        r.0@.len() == 18,
        r.1@ == gcm_seal(
            resp_key(cmd_key@),
            resp_iv(cmd_iv@),
            Seq::<u8>::empty(),
            seq![opt0, 0u8, 0u8, 0u8],
        ),
        r.1@.len() == 20,
{
    proof {
        reveal_strlit("AEAD Resp Header Len Key");
        reveal_strlit("AEAD Resp Header Len IV");
        reveal_strlit("AEAD Resp Header Key");
        reveal_strlit("AEAD Resp Header IV");
    }
    let mut key_hash = sha256_digest(cmd_key);
    key_hash.truncate(16);
    let mut iv_hash = sha256_digest(cmd_iv);
    iv_hash.truncate(16);
    let len_key = kdf1(key_hash.as_slice(), "AEAD Resp Header Len Key", 16);
    let len_iv = kdf1(iv_hash.as_slice(), "AEAD Resp Header Len IV", 12);
    let hdr_key = kdf1(key_hash.as_slice(), "AEAD Resp Header Key", 16);
    let hdr_iv = kdf1(iv_hash.as_slice(), "AEAD Resp Header IV", 12);
    let aad: Vec<u8> = Vec::new();
    let mut len_pt: Vec<u8> = Vec::new();
    len_pt.push(0);
    len_pt.push(4);
    let mut hdr_pt: Vec<u8> = Vec::new();
    hdr_pt.push(opt0);
    hdr_pt.push(0);
    hdr_pt.push(0);
    hdr_pt.push(0);
    proof {
        assert(aad@ =~= Seq::<u8>::empty());
        assert(len_pt@ =~= seq![0u8, 4u8]);
        assert(hdr_pt@ =~= seq![opt0, 0u8, 0u8, 0u8]);
    }
    let ct_len = aes128gcm_seal(len_key.as_slice(), len_iv.as_slice(), aad.as_slice(), len_pt.as_slice());
    let ct_hdr = aes128gcm_seal(hdr_key.as_slice(), hdr_iv.as_slice(), aad.as_slice(), hdr_pt.as_slice());
    (ct_len, ct_hdr)
}

/// Open a sealed response header: the 18-byte length ciphertext and the
/// 20-byte header ciphertext, under the keys derived from the command's
/// data key and IV. Succeeds on exactly the ciphertexts that are genuine
/// seals, and returns the length and the four header bytes.
pub fn decrypt_response_header(cmd_key: &[u8], cmd_iv: &[u8], ct_len: &[u8], ct_hdr: &[u8]) -> (r:
    Option<(u16, Vec<u8>)>)
    requires
        cmd_key@.len() == 16,
        cmd_iv@.len() == 16,
        ct_len@.len() == 18,
        ct_hdr@.len() == 20,
    ensures
        forall|pl: Seq<u8>, ph: Seq<u8>|
            pl.len() == 2 && ph.len() == 4 && ct_len@ == #[trigger] gcm_seal(
                resp_len_key(cmd_key@),
                resp_len_iv(cmd_iv@),
                Seq::<u8>::empty(),
                pl,
            ) && ct_hdr@ == #[trigger] gcm_seal(
                resp_key(cmd_key@),
                resp_iv(cmd_iv@),
                Seq::<u8>::empty(),
                ph,
            ) ==> r is Some && r->Some_0.0 == crate::be16(pl[0], pl[1]) && r->Some_0.1@ == ph,
        r is Some ==> ct_hdr@ == gcm_seal(
            resp_key(cmd_key@),
            resp_iv(cmd_iv@),
            Seq::<u8>::empty(),
            r->Some_0.1@,
        ) && r->Some_0.1@.len() == 4,
{
    proof {
        reveal_strlit("AEAD Resp Header Len Key");
        reveal_strlit("AEAD Resp Header Len IV");
        reveal_strlit("AEAD Resp Header Key");
        reveal_strlit("AEAD Resp Header IV");
    }
    let mut key_hash = sha256_digest(cmd_key);
    key_hash.truncate(16);
    let mut iv_hash = sha256_digest(cmd_iv);
    iv_hash.truncate(16);
    let len_key = kdf1(key_hash.as_slice(), "AEAD Resp Header Len Key", 16);
    let len_iv = kdf1(iv_hash.as_slice(), "AEAD Resp Header Len IV", 12);
    let hdr_key = kdf1(key_hash.as_slice(), "AEAD Resp Header Key", 16);
    let hdr_iv = kdf1(iv_hash.as_slice(), "AEAD Resp Header IV", 12);
    let aad: Vec<u8> = Vec::new();
    proof {
        assert(aad@ =~= Seq::<u8>::empty());
    }
    let pl = match aes128gcm_open(len_key.as_slice(), len_iv.as_slice(), aad.as_slice(), ct_len) {
        Some(x) => x,
        None => {
            return None;
        },
    };
    let ph = match aes128gcm_open(hdr_key.as_slice(), hdr_iv.as_slice(), aad.as_slice(), ct_hdr) {
        Some(x) => x,
        None => {
            return None;
        },
    };
    let n = crate::read_be16(pl[0], pl[1]);
    Some((n, ph))
}

/// Law: sealing the response header and opening what was sealed
/// round-trips for every command key, IV and option byte — the opened
/// length is the fixed 4 and the opened header is `[options[0], 0, 0, 0]`.
pub fn vmess_response_roundtrip(cmd_key: &[u8], cmd_iv: &[u8], opt0: u8) -> (r: Option<(
    u16,
    Vec<u8>,
)>)
    requires
        cmd_key@.len() == 16,
        cmd_iv@.len() == 16,
    ensures
        r is Some,
        r->Some_0.0 == 4,
        r->Some_0.1@ == seq![opt0, 0u8, 0u8, 0u8],
{
    let (ct_len, ct_hdr) = encrypt_response_header(cmd_key, cmd_iv, opt0);
    let r = decrypt_response_header(cmd_key, cmd_iv, ct_len.as_slice(), ct_hdr.as_slice());
    proof {
        let pl = seq![0u8, 4u8];
        let ph = seq![opt0, 0u8, 0u8, 0u8];
        assert(pl.len() == 2 && ph.len() == 4);
        assert(crate::be16(pl[0], pl[1]) == 4);
    }
    r
}

/// The inbound bytes carry a genuinely sealed VMess header for this
/// user: the sealed command length opens to `len_pt`, and the command
/// ciphertext, whose size `len_pt` gives, opens to `cmd_pt`.
pub open spec fn vmess_sealed_header(
    uuid: Seq<u8>,
    data: Seq<u8>,
    len_pt: Seq<u8>,
    cmd_pt: Seq<u8>,
) -> bool {
    let auth = data.subrange(0, 16);
    let nonce = data.subrange(34, 42);
    let kk = spec_auth_key(uuid);
    &&& data.len() >= 42
    &&& len_pt.len() == 2
    &&& data.subrange(16, 34) == gcm_seal(
        header_len_key(kk, auth, nonce),
        header_len_iv(kk, auth, nonce),
        auth,
        len_pt,
    )
    &&& cmd_pt.len() == crate::be16(len_pt[0], len_pt[1])
    &&& data.len() >= 58 + crate::be16(len_pt[0], len_pt[1])
    &&& data.subrange(42, 58 + crate::be16(len_pt[0], len_pt[1]) as int) == gcm_seal(
        header_payload_key(kk, auth, nonce),
        header_payload_iv(kk, auth, nonce),
        auth,
        cmd_pt,
    )
}

/// Everything a VMess session needs after its header is opened: the
/// parsed command, the two response ciphertexts to send back, and how
/// many header bytes were consumed from the stream.
#[derive(Debug)]
pub struct VmessSession {
    pub command: VmessCommand,
    pub resp_len_ct: Vec<u8>,
    pub resp_hdr_ct: Vec<u8>,
    pub consumed: usize,
}

/// Open a VMess session from the inbound bytes: read the 16-byte auth
/// id, the 18-byte sealed command length and the 8-byte nonce, derive
/// the user's key, open the command-length and command ciphertexts,
/// parse the command block, and seal the response header. On success the
/// consumed count points just past the command ciphertext and the
/// remainder of the stream is relay payload.
pub fn vmess_open_session(uuid: &[u8], data: &[u8]) -> (r: Result<VmessSession, ProxyError>)
    requires
        uuid@.len() == 16,
        data@.len() <= 0xFFFF_FFFF,
    ensures
        match r {
            Ok(s) => {
                let auth = data@.subrange(0, 16);
                let nonce = data@.subrange(34, 42);
                let kk = spec_auth_key(uuid@);
                &&& data@.len() >= 42
                &&& 58 <= s.consumed <= data@.len()
                &&& (exists|pt: Seq<u8>|
                    pt.len() == 2 && data@.subrange(16, 34) == #[trigger] gcm_seal(
                        header_len_key(kk, auth, nonce),
                        header_len_iv(kk, auth, nonce),
                        auth,
                        pt,
                    ) && s.consumed == 58 + crate::be16(pt[0], pt[1]))
                &&& (exists|cpt: Seq<u8>|
                    data@.subrange(42, s.consumed as int) == #[trigger] gcm_seal(
                        header_payload_key(kk, auth, nonce),
                        header_payload_iv(kk, auth, nonce),
                        auth,
                        cpt,
                    ) && spec_parse_vmess_command(cpt) == Ok::<VmessCommandModel, ProxyError>(
                        s.command@,
                    ))
                &&& addr_wf(s.command@.addr)
                &&& s.command@.data_key.len() == 16
                &&& s.command@.data_iv.len() == 16
                &&& s.command@.options.len() == 4
                &&& s.resp_len_ct@ == gcm_seal(
                    resp_len_key(s.command@.data_key),
                    resp_len_iv(s.command@.data_iv),
                    Seq::<u8>::empty(),
                    seq![0u8, 4u8],
                )
                &&& s.resp_hdr_ct@ == gcm_seal(
                    resp_key(s.command@.data_key),
                    resp_iv(s.command@.data_iv),
                    Seq::<u8>::empty(),
                    seq![s.command@.options[0], 0u8, 0u8, 0u8],
                )
            },
            Err(e) => data@.len() < 42 ==> e == ProxyError::MalformedFrame,
        },
        forall|len_pt: Seq<u8>, cmd_pt: Seq<u8>|
            #[trigger] vmess_sealed_header(uuid@, data@, len_pt, cmd_pt)
                && spec_parse_vmess_command(cmd_pt) is Ok ==> r is Ok
                && r->Ok_0.command@ == spec_parse_vmess_command(cmd_pt)->Ok_0
                && r->Ok_0.consumed == 58 + crate::be16(len_pt[0], len_pt[1]),
{
    let dlen = data.len();
    if dlen < 42 {
        return Err(ProxyError::MalformedFrame);
    }
    let key = vmess_auth_key(uuid);
    let auth_id = slice_subrange(data, 0, 16);
    let len_ct = slice_subrange(data, 16, 34);
    let nonce = slice_subrange(data, 34, 42);
    let header_len = match decrypt_header_length(key.as_slice(), auth_id, nonce, len_ct) {
        Ok(n) => n,
        Err(e) => {
            return Err(e);
        },
    };
    let total: usize = 42 + header_len as usize + 16;
    if dlen < total {
        return Err(ProxyError::MalformedFrame);
    }
    let cmd_ct = slice_subrange(data, 42, total);
    let cmd_pt = match decrypt_command(key.as_slice(), auth_id, nonce, cmd_ct) {
        Ok(p) => p,
        Err(e) => {
            return Err(e);
        },
    };
    let command = match parse_vmess_command(cmd_pt.as_slice()) {
        Ok(c) => c,
        Err(e) => {
            return Err(e);
        },
    };
    let opt0 = command.options[0];
    let (resp_len_ct, resp_hdr_ct) = encrypt_response_header(
        command.data_key.as_slice(),
        command.data_iv.as_slice(),
        opt0,
    );
    Ok(VmessSession { command, resp_len_ct, resp_hdr_ct, consumed: total })
}

} // verus!
