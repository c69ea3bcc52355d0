//! Decryption and encryption of Bad Piggies save files (Progress.dat,
//! .contraption, Achievements.xml): PBKDF2-HMAC-SHA1 key derivation and
//! AES-256-CBC, with a SHA-1 integrity prefix on some file types.

use vstd::prelude::*;
use vstd::string::StringSliceAdditionalSpecFns;
use cbc::cipher::{BlockModeDecrypt, BlockModeEncrypt, KeyIvInit, block_padding::Pkcs7};
use hmac::{Hmac, KeyInit, Mac};
use sha1::{Digest, Sha1};

use crate::diagnostics::error::{AppError, AppErrorMessage};
use crate::text::{contains, contains_lit, ends_with, ends_with_lit, lower, lower_chars, str_chars};


verus! {

// ── Outside primitives ───────────────────────────────

/// What HMAC-SHA1 of `msg` under `key` is.
pub uninterp spec fn hmac_sha1_result(key: Seq<u8>, msg: Seq<u8>) -> Seq<u8>;

/// What SHA-1 of `data` is.
pub uninterp spec fn sha1_result(data: Seq<u8>) -> Seq<u8>;

/// What AES-256-CBC with PKCS#7 padding makes of `plain`.
pub uninterp spec fn aes256_cbc_encrypt_result(key: Seq<u8>, iv: Seq<u8>, plain: Seq<u8>) -> Seq<
    u8,
>;

/// What AES-256-CBC decryption with PKCS#7 unpadding makes of `cipher`
/// (`None` when the length or the padding is not valid).
pub uninterp spec fn aes256_cbc_decrypt_result(key: Seq<u8>, iv: Seq<u8>, cipher: Seq<u8>) -> Option<
    Seq<u8>,
>;

/// HMAC-SHA1 (`hmac::Hmac<sha1::Sha1>`, `new_from_slice`, `update`,
/// `finalize`). The contract names the 20-byte tag; `new_from_slice`
/// accepts keys of every length, so a tag always comes back.
#[verifier::external_body]
fn hmac_sha1(key: &[u8], msg: &[u8]) -> (r: Option<Vec<u8>>)
    ensures
        r is Some,
        r matches Some(tag) ==> tag@ == hmac_sha1_result(key@, msg@) && tag@.len() == 20,
{
    match <Hmac<Sha1> as KeyInit>::new_from_slice(key) {
        Ok(mut mac) => {
            mac.update(msg);
            Some(mac.finalize().into_bytes().to_vec())
        },
        Err(_) => None,
    }
}

/// SHA-1 (`sha1::Sha1::digest`): the contract names the 20-byte digest.
#[verifier::external_body]
pub(crate) fn sha1_digest(data: &[u8]) -> (r: Vec<u8>)
    ensures
        r@ == sha1_result(data@),
        r@.len() == 20,
{
    Sha1::digest(data).to_vec()
}

/// AES-256-CBC encryption with PKCS#7 padding in place
/// (`cbc::Encryptor::<aes::Aes256>::new_from_slices`, `encrypt_padded`).
/// The first `msg_len` bytes of `buf` are the message; padding needs room for
/// one more block than the message's whole blocks. The ciphertext is the
/// named result, as long as the padded message (PKCS#7 always adds 1 to 16
/// bytes), and decrypting it gives the message back.
#[verifier::external_body]
fn aes256_cbc_encrypt_padded(key: &[u8], iv: &[u8], buf: Vec<u8>, msg_len: usize) -> (r: Option<
    Vec<u8>,
>)
    requires
        key@.len() == 32,
        iv@.len() == 16,
        msg_len <= buf@.len(),
    ensures
        r is Some <==> (msg_len / 16 + 1) * 16 <= buf@.len(),
        r matches Some(ct) ==> ct@ == aes256_cbc_encrypt_result(
            key@,
            iv@,
            buf@.take(msg_len as int),
        ),
        r matches Some(ct) ==> ct@.len() == (msg_len / 16 + 1) * 16,
        r matches Some(ct) ==> aes256_cbc_decrypt_result(key@, iv@, ct@) == Some(
            buf@.take(msg_len as int),
        ),
{
    let mut buf = buf;
    let Ok(enc) = cbc::Encryptor::<aes::Aes256>::new_from_slices(key, iv) else {
        return None;
    };
    match enc.encrypt_padded::<Pkcs7>(&mut buf, msg_len) {
        Ok(ct) => Some(ct.to_vec()),
        Err(_) => None,
    }
}

/// AES-256-CBC decryption with PKCS#7 unpadding
/// (`cbc::Decryptor::<aes::Aes256>::new_from_slices`, `decrypt_padded`).
/// Succeeds exactly when the named result is present, never on a ciphertext
/// that is not made of whole 16-byte blocks; the error carries the padding
/// error's text, which the contract leaves open.
#[verifier::external_body]
fn aes256_cbc_decrypt_padded(key: &[u8], iv: &[u8], ct: &[u8]) -> (r: Result<Vec<u8>, String>)
    requires
        key@.len() == 32,
        iv@.len() == 16,
    ensures
        r is Ok <==> aes256_cbc_decrypt_result(key@, iv@, ct@) is Some,
        r matches Ok(p) ==> aes256_cbc_decrypt_result(key@, iv@, ct@) == Some(p@),
        ct@.len() % 16 != 0 ==> r is Err,
{
    let Ok(dec) = cbc::Decryptor::<aes::Aes256>::new_from_slices(key, iv) else {
        return Err(String::new());
    };
    let mut buf = ct.to_vec();
    match dec.decrypt_padded::<Pkcs7>(&mut buf) {
        Ok(p) => Ok(p.to_vec()),
        Err(e) => Err(e.to_string()),
    }
}

// ── PBKDF2-HMAC-SHA1 ─────────────────────────────────

/// Fixed salt used by the game's `Rfc2898DeriveBytes`.
pub open spec fn salt_spec() -> Seq<u8> {
    seq![82u8, 166, 66, 87, 146, 51, 179, 108, 242, 110, 98, 237, 124]
}

/// PBKDF2 iteration count: .NET `Rfc2898DeriveBytes` defaults to 1000.
pub const PBKDF2_ITERATIONS: u32 = 1000;

/// Length of the derived stream: a 32-byte key followed by a 16-byte IV.
pub const DERIVED_LEN: usize = 48;

/// Big-endian bytes of a 32-bit block index.
pub open spec fn be32(n: u32) -> Seq<u8> {
    seq![(n >> 24u32) as u8, ((n >> 16u32) & 0xffu32) as u8, ((n >> 8u32) & 0xffu32) as u8, (n & 0xffu32) as u8]
}

/// Byte-wise exclusive or.
pub open spec fn xor_bytes(a: Seq<u8>, b: Seq<u8>) -> Seq<u8> {
    Seq::new(a.len(), |i: int| a[i] ^ b[i])
}

/// `U_j` of block `block`: `U_1 = PRF(P, S || INT(block))`, `U_j = PRF(P, U_{j-1})`.
pub open spec fn pbkdf2_u(p: Seq<u8>, s: Seq<u8>, block: u32, j: nat) -> Seq<u8>
    decreases j,
{
    if j <= 1 {
        hmac_sha1_result(p, s + be32(block))
    } else {
        hmac_sha1_result(p, pbkdf2_u(p, s, block, (j - 1) as nat))
    }
}

/// `U_1 xor ... xor U_j`.
pub open spec fn pbkdf2_xor(p: Seq<u8>, s: Seq<u8>, block: u32, j: nat) -> Seq<u8>
    decreases j,
{
    if j <= 1 {
        pbkdf2_u(p, s, block, 1)
    } else {
        xor_bytes(pbkdf2_xor(p, s, block, (j - 1) as nat), pbkdf2_u(p, s, block, j))
    }
}

/// `T_block` of RFC 2898 with `c` iterations (at least one round is made).
pub open spec fn pbkdf2_block(p: Seq<u8>, s: Seq<u8>, c: nat, block: u32) -> Seq<u8> {
    pbkdf2_xor(p, s, block, if c <= 1 { 1 } else { c })
}

/// `T_1 || ... || T_k`.
pub open spec fn pbkdf2_blocks(p: Seq<u8>, s: Seq<u8>, c: nat, k: nat) -> Seq<u8>
    decreases k,
{
    if k == 0 || k > u32::MAX {
        Seq::empty()
    } else {
        pbkdf2_blocks(p, s, c, (k - 1) as nat) + pbkdf2_block(p, s, c, k as u32)
    }
}

/// The first `n` bytes of the PBKDF2 stream.
pub open spec fn pbkdf2_spec(p: Seq<u8>, s: Seq<u8>, c: nat, n: nat) -> Seq<u8> {
    pbkdf2_blocks(p, s, c, (n + 19) / 20).take(n as int)
}

fn be32_bytes(n: u32) -> (r: Vec<u8>)
    ensures
        r@ == be32(n),
{
    let mut r: Vec<u8> = Vec::new();
    r.push((n >> 24u32) as u8);
    r.push(((n >> 16u32) & 0xffu32) as u8);
    r.push(((n >> 8u32) & 0xffu32) as u8);
    r.push((n & 0xffu32) as u8);
    assert(r@ =~= be32(n));
    r
}

fn concat_bytes(a: &[u8], b: &[u8]) -> (r: Vec<u8>)
    ensures
        r@ == a@ + b@,
{
    let mut r: Vec<u8> = Vec::new();
    let mut i: usize = 0;
    while i < a.len()
        invariant
            i <= a@.len(),
            r@ == a@.take(i as int),
        decreases a.len() - i,
    {
        r.push(a[i]);
        i = i + 1;
        assert(r@ =~= a@.take(i as int));
    }
    let mut j: usize = 0;
    while j < b.len()
        invariant
            i == a@.len(),
            j <= b@.len(),
            r@ == a@ + b@.take(j as int),
        decreases b.len() - j,
    {
        r.push(b[j]);
        j = j + 1;
        assert(r@ =~= a@ + b@.take(j as int));
    }
    assert(a@.take(i as int) =~= a@);
    assert(b@.take(j as int) =~= b@);
    r
}

fn xor_into(acc: &mut Vec<u8>, other: &[u8])
    requires
        old(acc)@.len() == other@.len(),
    ensures
        final(acc)@ == xor_bytes(old(acc)@, other@),
{
    let ghost a0 = acc@;
    let mut k: usize = 0;
    while k < acc.len()
        invariant
            a0.len() == other@.len(),
            acc@.len() == a0.len(),
            k <= acc@.len(),
            forall|m: int| 0 <= m < k ==> acc@[m] == a0[m] ^ other@[m],
            forall|m: int| k <= m < acc@.len() ==> acc@[m] == a0[m],
        decreases acc.len() - k,
    {
        let v = acc[k] ^ other[k];
        acc.set(k, v);
        k = k + 1;
    }
    assert(acc@ =~= xor_bytes(a0, other@));
}

/// One PBKDF2 block `T_block`.
fn pbkdf2_one_block(password: &[u8], salt: &[u8], iterations: u32, block: u32) -> (r: Result<
    Vec<u8>,
    AppError,
>)
    ensures
        r matches Ok(t) ==> t@ == pbkdf2_block(password@, salt@, iterations as nat, block),
        r matches Ok(t) ==> t@.len() == 20,
        r is Ok,
{
    let first_msg = concat_bytes(salt, be32_bytes(block).as_slice());
    let u1 = match hmac_sha1(password, first_msg.as_slice()) {
        Some(u) => u,
        None => return Err(AppError::crypto_key("error_pbkdf2_init")),
    };
    let mut u_prev = u1;
    let mut result = copy_bytes(u_prev.as_slice());
    let mut round: u32 = 1;
    while round < iterations
        invariant
            1 <= round,
            round <= iterations || round == 1,
            u_prev@ == pbkdf2_u(password@, salt@, block, round as nat),
            result@ == pbkdf2_xor(password@, salt@, block, round as nat),
            u_prev@.len() == 20,
            result@.len() == 20,
        decreases iterations - round,
    {
        let u_next = match hmac_sha1(password, u_prev.as_slice()) {
            Some(u) => u,
            None => return Err(AppError::crypto_key("error_pbkdf2_init")),
        };
        u_prev = u_next;
        xor_into(&mut result, u_prev.as_slice());
        round = round + 1;
    }
    Ok(result)
}

fn copy_bytes(a: &[u8]) -> (r: Vec<u8>)
    ensures
        r@ == a@,
{
    let empty: Vec<u8> = Vec::new();
    let r = concat_bytes(a, empty.as_slice());
    assert(a@ + empty@ =~= a@);
    r
}

/// PBKDF2-HMAC-SHA1 (RFC 2898): the first `out_len` bytes of
/// `T_1 || T_2 || ...`.
fn pbkdf2_hmac_sha1(password: &[u8], salt: &[u8], iterations: u32, out_len: usize) -> (r: Result<
    Vec<u8>,
    AppError,
>)
    requires
        out_len <= 20 * 1000,
    ensures
        r matches Ok(out) ==> out@ == pbkdf2_spec(password@, salt@, iterations as nat, out_len as nat),
        r matches Ok(out) ==> out@.len() == out_len,
        r is Ok,
{
    let ghost p = password@;
    let ghost s = salt@;
    let ghost c = iterations as nat;
    let mut stream: Vec<u8> = Vec::new();
    let mut block_num: u32 = 1;
    while stream.len() < out_len
        invariant
            1 <= block_num <= 1002,
            stream@ == pbkdf2_blocks(p, s, c, (block_num - 1) as nat),
            stream@.len() == 20 * (block_num - 1),
            out_len <= 20 * 1000,
            p == password@,
            s == salt@,
            c == iterations as nat,
            (block_num - 1) * 20 <= out_len + 19,
        decreases 1002 - block_num,
    {
        let t = match pbkdf2_one_block(password, salt, iterations, block_num) {
            Ok(t) => t,
            Err(e) => return Err(e),
        };
        let ghost before = stream@;
        stream = concat_bytes(stream.as_slice(), t.as_slice());
        assert(stream@ == pbkdf2_blocks(p, s, c, block_num as nat));
        block_num = block_num + 1;
    }
    assert((out_len + 19) / 20 == (block_num - 1) as nat) by (nonlinear_arith)
        requires
            stream@.len() == 20 * (block_num - 1),
            stream@.len() >= out_len,
            (block_num - 1) * 20 <= out_len + 19,
    ;
    let out = copy_range_bytes(stream.as_slice(), out_len);
    Ok(out)
}

fn copy_range_bytes(a: &[u8], n: usize) -> (r: Vec<u8>)
    requires
        n <= a@.len(),
    ensures
        r@ == a@.take(n as int),
{
    let mut r: Vec<u8> = Vec::new();
    let mut i: usize = 0;
    while i < n
        invariant
            n <= a@.len(),
            i <= n,
            r@ == a@.take(i as int),
        decreases n - i,
    {
        r.push(a[i]);
        i = i + 1;
        assert(r@ =~= a@.take(i as int));
    }
    r
}


fn salt_bytes() -> (r: Vec<u8>)
    ensures
        r@ == salt_spec(),
{
    let mut r: Vec<u8> = Vec::new();
    r.push(82u8);
    r.push(166u8);
    r.push(66u8);
    r.push(87u8);
    r.push(146u8);
    r.push(51u8);
    r.push(179u8);
    r.push(108u8);
    r.push(242u8);
    r.push(110u8);
    r.push(98u8);
    r.push(237u8);
    r.push(124u8);
    assert(r@ =~= salt_spec());
    r
}

/// The 48-byte PBKDF2 stream of a password.
pub open spec fn derived_spec(password: Seq<u8>) -> Seq<u8> {
    pbkdf2_spec(password, salt_spec(), PBKDF2_ITERATIONS as nat, DERIVED_LEN as nat)
}

/// AES key: the first 32 derived bytes.
pub open spec fn key_spec(password: Seq<u8>) -> Seq<u8> {
    derived_spec(password).take(32)
}

/// AES IV: derived bytes 32 to 48.
pub open spec fn iv_spec(password: Seq<u8>) -> Seq<u8> {
    derived_spec(password).subrange(32, 48)
}

/// Derive the AES-256 key (32 bytes) and IV (16 bytes) from a password using
/// PBKDF2: two consecutive reads of 32 and 16 bytes of one stream.
fn derive_key_iv(password: &str) -> (r: Result<(Vec<u8>, Vec<u8>), AppError>)
    ensures
        r is Ok,
        r matches Ok((k, iv)) ==> k@ == key_spec(password.spec_bytes()) && iv@ == iv_spec(
            password.spec_bytes(),
        ),
        r matches Ok((k, iv)) ==> k@.len() == 32 && iv@.len() == 16,
{
    let salt = salt_bytes();
    let derived = match pbkdf2_hmac_sha1(password.as_bytes(), salt.as_slice(), PBKDF2_ITERATIONS, DERIVED_LEN) {
        Ok(d) => d,
        Err(e) => return Err(e),
    };
    let key = copy_range_bytes(derived.as_slice(), 32);
    let mut iv: Vec<u8> = Vec::new();
    let mut i: usize = 32;
    while i < 48
        invariant
            derived@.len() == 48,
            32 <= i <= 48,
            iv@ == derived@.subrange(32, i as int),
        decreases 48 - i,
    {
        iv.push(derived[i]);
        i = i + 1;
        assert(iv@ =~= derived@.subrange(32, i as int));
    }
    Ok((key, iv))
}

/// Encrypt data with AES-256-CBC; the buffer is sized for one more block
/// than the message's whole blocks, so the padding always fits.
fn aes_encrypt(key: &[u8], iv: &[u8], plaintext: &[u8]) -> (r: Result<Vec<u8>, AppError>)
    requires
        key@.len() == 32,
        iv@.len() == 16,
        plaintext@.len() + 16 <= usize::MAX,
    ensures
        r is Ok,
        r matches Ok(ct) ==> ct@ == aes256_cbc_encrypt_result(key@, iv@, plaintext@),
        r matches Ok(ct) ==> ct@.len() == (plaintext@.len() / 16 + 1) * 16,
        r matches Ok(ct) ==> aes256_cbc_decrypt_result(key@, iv@, ct@) == Some(plaintext@),
{
    let block_size: usize = 16;
    let padded_len = (plaintext.len() / block_size + 1) * block_size;
    let mut buf = copy_bytes(plaintext);
    while buf.len() < padded_len
        invariant
            plaintext@.len() <= buf@.len() <= padded_len,
            buf@.take(plaintext@.len() as int) == plaintext@,
        decreases padded_len - buf@.len(),
    {
        buf.push(0u8);
        assert(buf@.take(plaintext@.len() as int) =~= plaintext@);
    }
    assert(plaintext@.take(plaintext@.len() as int) =~= plaintext@);
    match aes256_cbc_encrypt_padded(key, iv, buf, plaintext.len()) {
        Some(ct) => Ok(ct),
        None => Err(AppError::crypto_key("error_aes_encrypt_buffer_too_small")),
    }
}

/// Decrypt AES-256-CBC data.
fn aes_decrypt(key: &[u8], iv: &[u8], ciphertext: &[u8]) -> (r: Result<Vec<u8>, AppError>)
    requires
        key@.len() == 32,
        iv@.len() == 16,
    ensures
        r is Ok <==> aes256_cbc_decrypt_result(key@, iv@, ciphertext@) is Some,
        r matches Ok(p) ==> aes256_cbc_decrypt_result(key@, iv@, ciphertext@) == Some(p@),
        ciphertext@.len() % 16 != 0 ==> r is Err,
        r matches Err(e) ==> e matches AppError::Crypto(AppErrorMessage::Key1 { key: k, .. })
            && k == "error_aes_decrypt_failed",
{
    match aes256_cbc_decrypt_padded(key, iv, ciphertext) {
        Ok(p) => Ok(p),
        Err(msg) => Err(AppError::crypto_key1("error_aes_decrypt_failed", msg.as_str())),
    }
}

/// The payload behind a SHA-1 prefix: present when the first 20 bytes are the
/// SHA-1 of the rest.
pub open spec fn sha1_payload_spec(data: Seq<u8>) -> Option<Seq<u8>> {
    if data.len() < 20 || sha1_result(data.skip(20)) != data.take(20) {
        None
    } else {
        Some(data.skip(20))
    }
}

/// Verify SHA1 hash: the first 20 bytes of the file must be SHA-1 of the rest.
fn verify_sha1(data: &[u8]) -> (r: Result<Vec<u8>, AppError>)
    ensures
        r is Ok <==> sha1_payload_spec(data@) is Some,
        r matches Ok(p) ==> sha1_payload_spec(data@) == Some(p@),
        data@.len() < 20 ==> r == Err::<Vec<u8>, AppError>(
            AppError::InvalidData(AppErrorMessage::Key("error_file_too_short_sha1")),
        ),
        data@.len() >= 20 && sha1_payload_spec(data@) is None ==> r == Err::<Vec<u8>, AppError>(
            AppError::InvalidData(AppErrorMessage::Key("error_sha1_mismatch")),
        ),
{
    if data.len() < 20 {
        return Err(AppError::invalid_data_key("error_file_too_short_sha1"));
    }
    let hash_bytes = copy_range_bytes(data, 20);
    let payload = copy_tail_bytes(data, 20);
    let computed = sha1_digest(payload.as_slice());
    if !bytes_eq(computed.as_slice(), hash_bytes.as_slice()) {
        return Err(AppError::invalid_data_key("error_sha1_mismatch"));
    }
    Ok(payload)
}

fn copy_tail_bytes(a: &[u8], n: usize) -> (r: Vec<u8>)
    requires
        n <= a@.len(),
    ensures
        r@ == a@.skip(n as int),
{
    let mut r: Vec<u8> = Vec::new();
    let mut i: usize = n;
    while i < a.len()
        invariant
            n <= i <= a@.len(),
            r@ == a@.subrange(n as int, i as int),
        decreases a.len() - i,
    {
        r.push(a[i]);
        i = i + 1;
        assert(r@ =~= a@.subrange(n as int, i as int));
    }
    r
}

fn bytes_eq(a: &[u8], b: &[u8]) -> (r: bool)
    ensures
        r == (a@ == b@),
{
    if a.len() != b.len() {
        return false;
    }
    let mut i: usize = 0;
    while i < a.len()
        invariant
            a@.len() == b@.len(),
            i <= a@.len(),
            forall|m: int| 0 <= m < i ==> a@[m] == b@[m],
        decreases a.len() - i,
    {
        if a[i] != b[i] {
            return false;
        }
        i = i + 1;
    }
    assert(a@ =~= b@);
    true
}

/// Known file types with their passwords and whether they have a SHA1 prefix.
#[derive(Clone, Copy, Debug, PartialEq, Eq)]
pub enum SaveFileType {
    /// `Progress.dat`: game progress
    Progress,
    /// `*.contraption`: player-built contraptions
    Contraption,
    /// `Achievements.xml`: achievement data
    Achievements,
}

pub open spec fn password_spec(t: SaveFileType) -> &'static str {
    match t {
        SaveFileType::Progress => "56SA%FG42Dv5#4aG67f2",
        SaveFileType::Contraption => "3b91A049Ca7HvSjhxT35",
        SaveFileType::Achievements => "fHHg5#%3RRfnJi78&%lP?65",
    }
}

pub open spec fn has_sha1_prefix_spec(t: SaveFileType) -> bool {
    match t {
        SaveFileType::Progress | SaveFileType::Achievements => true,
        SaveFileType::Contraption => false,
    }
}

pub open spec fn detect_spec(filename: Seq<char>) -> Option<SaveFileType> {
    let l = lower(filename);
    if contains(l, "progress"@) && ends_with(l, ".dat"@) {
        Some(SaveFileType::Progress)
    } else if ends_with(l, ".contraption"@) {
        Some(SaveFileType::Contraption)
    } else if contains(l, "achievement"@) && ends_with(l, ".xml"@) {
        Some(SaveFileType::Achievements)
    } else {
        None
    }
}

pub open spec fn label_key_spec(t: SaveFileType) -> &'static str {
    match t {
        SaveFileType::Progress => "save_file_type_progress",
        SaveFileType::Contraption => "save_file_type_contraption",
        SaveFileType::Achievements => "save_file_type_achievements",
    }
}

impl SaveFileType {
    fn password(&self) -> (r: &'static str)
        ensures
            r == password_spec(*self),
    {
        match self {
            SaveFileType::Progress => "56SA%FG42Dv5#4aG67f2",
            SaveFileType::Contraption => "3b91A049Ca7HvSjhxT35",
            SaveFileType::Achievements => "fHHg5#%3RRfnJi78&%lP?65",
        }
    }

    fn has_sha1_prefix(&self) -> (r: bool)
        ensures
            r == has_sha1_prefix_spec(*self),
    {
        match self {
            SaveFileType::Progress | SaveFileType::Achievements => true,
            SaveFileType::Contraption => false,
        }
    }

    /// Detect file type from file name (case-insensitively): a `progress`
    /// `.dat` file, a `.contraption` file, or an `achievement` `.xml` file.
    pub fn detect(filename: &str) -> (r: Option<Self>)
        ensures
            r == detect_spec(filename@),
    {
        let name = str_chars(filename);
        let l = lower_chars(name.as_slice());
        let s = l.as_slice();
        if contains_lit(s, "progress") && ends_with_lit(s, ".dat") {
            Some(SaveFileType::Progress)
        } else if ends_with_lit(s, ".contraption") {
            Some(SaveFileType::Contraption)
        } else if contains_lit(s, "achievement") && ends_with_lit(s, ".xml") {
            Some(SaveFileType::Achievements)
        } else {
            None
        }
    }

    /// The locale key of this file type's label; the presentation layer
    /// resolves it in the active language.
    pub fn localized_label(&self) -> (r: &'static str)
        ensures
            r == label_key_spec(*self),
    {
        match self {
            SaveFileType::Progress => "save_file_type_progress",
            SaveFileType::Contraption => "save_file_type_contraption",
            SaveFileType::Achievements => "save_file_type_achievements",
        }
    }
}

pub open spec fn file_key(t: SaveFileType) -> Seq<u8> {
    key_spec(password_spec(t).spec_bytes())
}

pub open spec fn file_iv(t: SaveFileType) -> Seq<u8> {
    iv_spec(password_spec(t).spec_bytes())
}

/// The save file bytes for `xml`: the AES ciphertext, behind its SHA-1 when
/// the file type carries one.
pub open spec fn encrypt_save_spec(t: SaveFileType, xml: Seq<u8>) -> Seq<u8> {
    let ct = aes256_cbc_encrypt_result(file_key(t), file_iv(t), xml);
    if has_sha1_prefix_spec(t) {
        sha1_result(ct) + ct
    } else {
        ct
    }
}

/// The XML inside save file bytes, when the SHA-1 prefix (if any) checks and
/// the ciphertext decrypts.
pub open spec fn decrypt_save_spec(t: SaveFileType, data: Seq<u8>) -> Option<Seq<u8>> {
    let payload = if has_sha1_prefix_spec(t) {
        sha1_payload_spec(data)
    } else {
        Some(data)
    };
    match payload {
        Some(ct) => aes256_cbc_decrypt_result(file_key(t), file_iv(t), ct),
        None => None,
    }
}

/// Compute SHA1 hash and prepend it to the data.
fn prepend_sha1(payload: &[u8]) -> (r: Vec<u8>)
    ensures
        r@ == sha1_result(payload@) + payload@,
        r@.len() == payload@.len() + 20,
        sha1_payload_spec(r@) == Some(payload@),
{
    let hash = sha1_digest(payload);
    let r = concat_bytes(hash.as_slice(), payload);
    assert(r@.skip(20) =~= payload@);
    assert(r@.take(20) =~= hash@);
    r
}

/// Encrypt XML bytes back into the save file format. The result always
/// decrypts back to `xml_bytes`.
pub fn encrypt_save_file(file_type: &SaveFileType, xml_bytes: &[u8]) -> (r: Result<Vec<u8>, AppError>)
    requires
        xml_bytes@.len() + 16 <= usize::MAX,
    ensures
        r is Ok,
        r matches Ok(data) ==> data@ == encrypt_save_spec(*file_type, xml_bytes@),
        r matches Ok(data) ==> data@.len() == (xml_bytes@.len() / 16 + 1) * 16 + if has_sha1_prefix_spec(*file_type) {
            20int
        } else {
            0int
        },
        r matches Ok(data) ==> decrypt_save_spec(*file_type, data@) == Some(xml_bytes@),
{
    let (key, iv) = match derive_key_iv(file_type.password()) {
        Ok(pair) => pair,
        Err(e) => return Err(e),
    };
    let ciphertext = match aes_encrypt(key.as_slice(), iv.as_slice(), xml_bytes) {
        Ok(ct) => ct,
        Err(e) => return Err(e),
    };
    if file_type.has_sha1_prefix() {
        Ok(prepend_sha1(ciphertext.as_slice()))
    } else {
        Ok(ciphertext)
    }
}

/// Decrypt a save file and return the raw XML bytes.
pub fn decrypt_save_file(file_type: &SaveFileType, data: &[u8]) -> (r: Result<Vec<u8>, AppError>)
    ensures
        r is Ok <==> decrypt_save_spec(*file_type, data@) is Some,
        r matches Ok(xml) ==> decrypt_save_spec(*file_type, data@) == Some(xml@),
        has_sha1_prefix_spec(*file_type) && data@.len() < 20 ==> r == Err::<Vec<u8>, AppError>(
            AppError::InvalidData(AppErrorMessage::Key("error_file_too_short_sha1")),
        ),
        has_sha1_prefix_spec(*file_type) && data@.len() >= 20 && sha1_payload_spec(data@) is None
            ==> r == Err::<Vec<u8>, AppError>(
            AppError::InvalidData(AppErrorMessage::Key("error_sha1_mismatch")),
        ),
        !has_sha1_prefix_spec(*file_type) && data@.len() % 16 != 0 ==> r is Err,
        has_sha1_prefix_spec(*file_type) && data@.len() >= 20 && (data@.len() - 20) % 16 != 0
            ==> r is Err,
        (!has_sha1_prefix_spec(*file_type) || sha1_payload_spec(data@) is Some) && r is Err ==> (r
            matches Err(AppError::Crypto(AppErrorMessage::Key1 { key: k, .. })) && k
            == "error_aes_decrypt_failed"),
{
    let (key, iv) = match derive_key_iv(file_type.password()) {
        Ok(pair) => pair,
        Err(e) => return Err(e),
    };
    let ciphertext = if file_type.has_sha1_prefix() {
        match verify_sha1(data) {
            Ok(p) => p,
            Err(e) => return Err(e),
        }
    } else {
        copy_bytes(data)
    };
    aes_decrypt(key.as_slice(), iv.as_slice(), ciphertext.as_slice())
}


/// The game's password of each save file type: what its key and IV are
/// derived from.
pub proof fn lemma_save_files_use_the_game_passwords(t: SaveFileType)
    ensures
        password_spec(t).spec_bytes() == (match t {
            SaveFileType::Progress => "56SA%FG42Dv5#4aG67f2".spec_bytes(),
            SaveFileType::Contraption => "3b91A049Ca7HvSjhxT35".spec_bytes(),
            SaveFileType::Achievements => "fHHg5#%3RRfnJi78&%lP?65".spec_bytes(),
        }),
        file_key(t) == pbkdf2_spec(
            password_spec(t).spec_bytes(),
            seq![82u8, 166, 66, 87, 146, 51, 179, 108, 242, 110, 98, 237, 124],
            1000,
            48,
        ).take(32),
        file_iv(t) == pbkdf2_spec(
            password_spec(t).spec_bytes(),
            seq![82u8, 166, 66, 87, 146, 51, 179, 108, 242, 110, 98, 237, 124],
            1000,
            48,
        ).subrange(32, 48),
{
}


/// ASCII lowercase leaves a lowercased text as it is.
proof fn lemma_lower_idempotent(s: Seq<char>)
    ensures
        lower(lower(s)) == lower(s),
{
    assert forall|k: int| 0 <= k < s.len() implies lower(lower(s))[k] == lower(s)[k] by {
        let c = s[k];
        if crate::text::is_ascii_upper(c) {
            let u: u32 = ((c as u32) + 32) as u32;
            assert(lower(s)[k] == u as char);
            assert((u as char) as u32 == u);
        }
    }
    assert(lower(lower(s)) =~= lower(s));
}

/// A save file's type comes from its name in any letter case: a `.dat`
/// file whose name mentions `progress` is a progress file, a
/// `.contraption` file a contraption, an `.xml` file whose name mentions
/// `achievement` the achievements; no other name has a type.
pub proof fn lemma_save_file_type_by_name(f: Seq<char>)
    ensures
        detect_spec(f) == detect_spec(lower(f)),
        contains(lower(f), "progress"@) && ends_with(lower(f), ".dat"@) ==> detect_spec(f) == Some(
            SaveFileType::Progress,
        ),
        ends_with(lower(f), ".contraption"@) ==> detect_spec(f) == Some(SaveFileType::Contraption),
        contains(lower(f), "achievement"@) && ends_with(lower(f), ".xml"@) ==> detect_spec(f)
            == Some(SaveFileType::Achievements),
        detect_spec(f) is Some ==> (contains(lower(f), "progress"@) && ends_with(lower(f), ".dat"@))
            || ends_with(lower(f), ".contraption"@) || (contains(lower(f), "achievement"@)
            && ends_with(lower(f), ".xml"@)),
{
    reveal_strlit(".dat");
    reveal_strlit(".contraption");
    reveal_strlit(".xml");
    lemma_lower_idempotent(f);
    let l = lower(f);
    if ends_with(l, ".contraption"@) && ends_with(l, ".dat"@) {
        assert(l[l.len() - 1] == l.subrange(l.len() - 4, l.len() as int)[3]);
        assert(l[l.len() - 1] == l.subrange(l.len() - 12, l.len() as int)[11]);
    }
    if ends_with(l, ".contraption"@) && ends_with(l, ".xml"@) {
        assert(l[l.len() - 1] == l.subrange(l.len() - 4, l.len() as int)[3]);
        assert(l[l.len() - 1] == l.subrange(l.len() - 12, l.len() as int)[11]);
    }
    if ends_with(l, ".dat"@) && ends_with(l, ".xml"@) {
        assert(l[l.len() - 1] == l.subrange(l.len() - 4, l.len() as int)[3]);
        assert(l[l.len() - 2] == l.subrange(l.len() - 4, l.len() as int)[2]);
    }
}
} // verus!
