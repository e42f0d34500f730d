//! The calls this library makes into std functions that vstd leaves
//! unspecified and into outside crates, each with the contract relied on.

use vstd::prelude::*;

verus! {

// --------------------------------------------------------------- std

/// What `str::to_lowercase` returns for the given characters.
pub uninterp spec fn lower_of(s: Seq<char>) -> Seq<char>;

/// Relies on `str::to_lowercase`: the result depends on the characters alone.
#[verifier::external_body]
pub(crate) fn lowercase(s: &str) -> (r: String)
    ensures
        r@ == lower_of(s@),
{
    s.to_lowercase()
}

/// What `DefaultHasher` yields for a string: every hasher made by
/// `DefaultHasher::new` starts from the same keys, so this depends on the
/// characters alone.
pub uninterp spec fn default_hash_of(s: Seq<char>) -> u64;

/// Relies on std's `DefaultHasher::new`, `<str as Hash>::hash` and
/// `Hasher::finish`: a fresh hasher fed one string gives a value fixed by
/// that string.
#[verifier::external_body]
pub(crate) fn default_hash(s: &str) -> (r: u64)
    ensures
        r == default_hash_of(s@),
{
    let mut hasher = std::collections::hash_map::DefaultHasher::new();
    std::hash::Hash::hash(s, &mut hasher);
    std::hash::Hasher::finish(&hasher)
}

#[verifier::external_type_specification]
#[verifier::external_body]
pub struct ExFromUtf8Error(std::string::FromUtf8Error);

/// Relies on std's `String::from_utf8`: it accepts exactly the valid UTF-8
/// byte strings and keeps their characters.
#[verifier::external_body]
pub(crate) fn string_from_utf8(bytes: Vec<u8>) -> (r: Result<String, std::string::FromUtf8Error>)
    ensures
        r is Ok <==> vstd::utf8::valid_utf8(bytes@),
        r matches Ok(s) ==> s@ == vstd::utf8::decode_utf8(bytes@),
{
    String::from_utf8(bytes)
}

// -------------------------------------------------------------- rand

/// Relies on rand's `rng()` and `RngCore::fill_bytes`: `n` bytes from the
/// thread-local generator, of which nothing else is known.
#[verifier::external_body]
pub(crate) fn random_bytes(n: usize) -> (r: Vec<u8>)
    ensures
        r@.len() == n,
{
    let mut buf = vec![0u8; n];
    rand::RngCore::fill_bytes(&mut rand::rng(), &mut buf);
    buf
}

/// Relies on rand's `rng()` and `Rng::random_range` over `0..bound`: a value
/// below `bound`, of which nothing else is known. It panics only on an empty
/// range, which the bound rules out.
#[verifier::external_body]
pub(crate) fn random_below(bound: usize) -> (r: usize)
    requires
        bound > 0,
    ensures
        r < bound,
{
    rand::Rng::random_range(&mut rand::rng(), 0..bound)
}

// --------------------------------------------- argon2, password-hash

#[verifier::external_type_specification]
#[verifier::external_body]
pub struct ExArgon2Error(argon2::Error);

/// The Argon2id (version 0x13) output for the given costs, password, salt and
/// output length.
pub uninterp spec fn argon2id_key(
    m_cost: u32,
    t_cost: u32,
    p_cost: u32,
    password: Seq<u8>,
    salt: Seq<u8>,
    out_len: usize,
) -> Seq<u8>;

/// Relies on argon2's `Params::new` and `Argon2::hash_password_into` with
/// `Algorithm::Argon2id` and `Version::V0x13`. With costs and an output length
/// that `Params::new` accepts, `hash_password_into` fails only on a password
/// longer than `MAX_PWD_LEN` (2^32 - 1 bytes) or a salt outside 8 ..= 2^32 - 1
/// bytes; otherwise it fills the output from its inputs alone.
#[verifier::external_body]
pub(crate) fn argon2id_hash(
    m_cost: u32,
    t_cost: u32,
    p_cost: u32,
    password: &[u8],
    salt: &[u8],
    out_len: usize,
) -> (r: Result<Vec<u8>, argon2::Error>)
    requires
        8 <= m_cost,
        8 * p_cost <= m_cost,
        1 <= t_cost,
        1 <= p_cost <= 0xFF_FFFF,
        4 <= out_len <= 64,
    ensures
        r is Ok <==> (password@.len() <= 0xFFFF_FFFF && 8 <= salt@.len() <= 0xFFFF_FFFF),
        r matches Ok(k) ==> k@ == argon2id_key(m_cost, t_cost, p_cost, password@, salt@, out_len)
            && k@.len() == out_len,
{
    let params = argon2::Params::new(m_cost, t_cost, p_cost, Some(out_len))?;
    let hasher = argon2::Argon2::new(argon2::Algorithm::Argon2id, argon2::Version::V0x13, params);
    let mut out = vec![0u8; out_len];
    hasher.hash_password_into(password, salt, &mut out)?;
    Ok(out)
}

#[verifier::external_type_specification]
#[verifier::external_body]
pub struct ExPasswordHashError(password_hash::Error);

/// Whether a password matches a stored PHC-format hash string: the string
/// parses, and hashing the password with the algorithm, version, parameters
/// and salt it names reproduces its output.
pub uninterp spec fn phc_accepts(password: Seq<u8>, phc: Seq<char>) -> bool;

/// Relies on password-hash's `PasswordHash::new` and `PasswordVerifier::verify_password`
/// for `Argon2::default()`: the verdict depends on the password and the stored string
/// alone, since every parameter is read from the string; an unparsable string matches nothing.
#[verifier::external_body]
pub(crate) fn verify_phc(password: &[u8], phc: &str) -> (r: bool)
    ensures
        r == phc_accepts(password@, phc@),
{
    match password_hash::PasswordHash::new(phc) {
        Ok(hash) => password_hash::PasswordVerifier::verify_password(&argon2::Argon2::default(), password, &hash).is_ok(),
        Err(_) => false,
    }
}

/// Relies on password-hash's `SaltString::encode_b64` and `PasswordHasher::hash_password`
/// for `Argon2::default()`: the PHC string returned for a password verifies that password.
/// Sixteen salt bytes always encode; hashing then fails only on a password longer than
/// `MAX_PWD_LEN` (2^32 - 1 bytes).
#[verifier::external_body]
pub(crate) fn hash_password_with_salt(password: &[u8], salt: &[u8]) -> (r: Result<String, password_hash::Error>)
    requires
        salt@.len() == 16,
    ensures
        r is Ok <==> password@.len() <= 0xFFFF_FFFF,
        r matches Ok(h) ==> phc_accepts(password@, h@),
{
    let salt = password_hash::SaltString::encode_b64(salt)?;
    let hash = password_hash::PasswordHasher::hash_password(&argon2::Argon2::default(), password, &salt)?;
    Ok(hash.to_string())
}

// ----------------------------------------------------------- aes-gcm

#[verifier::external_type_specification]
#[verifier::external_body]
pub struct ExAeadError(aes_gcm::Error);

/// The AES-256-GCM ciphertext, with its 16-byte tag appended, of `plaintext`
/// under `key` and `nonce`, with no associated data.
pub uninterp spec fn aes256gcm_seal(key: Seq<u8>, nonce: Seq<u8>, plaintext: Seq<u8>) -> Seq<u8>;

/// What AES-256-GCM decryption of `ciphertext` (tag appended) under `key` and
/// `nonce` gives: `None` where the tag does not verify.
pub uninterp spec fn aes256gcm_open(key: Seq<u8>, nonce: Seq<u8>, ciphertext: Seq<u8>) -> Option<Seq<u8>>;

/// The most plaintext bytes that aes-gcm accepts (`P_MAX`, 2^36).
pub open spec fn aes_gcm_max_plaintext() -> nat {
    0x10_0000_0000
}

/// Relies on aes-gcm's `Aes256Gcm::new` and `Aead::encrypt`: the call fails
/// only on a plaintext longer than `P_MAX`, and appends a 16-byte tag.
#[verifier::external_body]
pub(crate) fn aes256gcm_encrypt(key: &[u8], nonce: &[u8], plaintext: &[u8]) -> (r: Result<Vec<u8>, aes_gcm::Error>)
    requires
        key@.len() == 32,
        nonce@.len() == 12,
    ensures
        r is Ok <==> plaintext@.len() <= aes_gcm_max_plaintext(),
        r matches Ok(c) ==> c@ == aes256gcm_seal(key@, nonce@, plaintext@)
            && c@.len() == plaintext@.len() + 16,
{
    let cipher = <aes_gcm::Aes256Gcm as aes_gcm::KeyInit>::new(aes_gcm::Key::<aes_gcm::Aes256Gcm>::from_slice(key));
    aes_gcm::aead::Aead::encrypt(&cipher, aes_gcm::Nonce::from_slice(nonce), plaintext)
}

/// Relies on aes-gcm's `Aes256Gcm::new` and `Aead::decrypt`: it succeeds
/// exactly when the tag verifies, and a ciphertext that encryption under the
/// same key and nonce produced gives back its plaintext.
#[verifier::external_body]
pub(crate) fn aes256gcm_decrypt(key: &[u8], nonce: &[u8], ciphertext: &[u8]) -> (r: Result<Vec<u8>, aes_gcm::Error>)
    requires
        key@.len() == 32,
        nonce@.len() == 12,
    ensures
        r is Ok <==> aes256gcm_open(key@, nonce@, ciphertext@) is Some,
        r matches Ok(p) ==> aes256gcm_open(key@, nonce@, ciphertext@) == Some(p@),
        r is Err ==> forall|p: Seq<u8>|
            p.len() <= aes_gcm_max_plaintext() ==> #[trigger] aes256gcm_seal(key@, nonce@, p) != ciphertext@,
        r matches Ok(q) ==> forall|p: Seq<u8>|
            p.len() <= aes_gcm_max_plaintext() && #[trigger] aes256gcm_seal(key@, nonce@, p) == ciphertext@
                ==> q@ == p,
{
    let cipher = <aes_gcm::Aes256Gcm as aes_gcm::KeyInit>::new(aes_gcm::Key::<aes_gcm::Aes256Gcm>::from_slice(key));
    aes_gcm::aead::Aead::decrypt(&cipher, aes_gcm::Nonce::from_slice(nonce), ciphertext)
}

// ------------------------------------------------------------ base64

#[verifier::external_type_specification]
#[verifier::external_body]
pub struct ExBase64DecodeError(base64::DecodeError);

/// The standard-alphabet, padded base64 text of `bytes`.
pub uninterp spec fn base64_of(bytes: Seq<u8>) -> Seq<char>;

/// What the standard, padded base64 engine decodes `text` to: `None` where
/// `text` is not canonical padded base64.
pub uninterp spec fn base64_decoded(text: Seq<char>) -> Option<Seq<u8>>;

/// Relies on base64's `Engine::encode` with `general_purpose::STANDARD`: four
/// characters for every three bytes or part of them. It panics only where that
/// length overflows `usize`, which the bound on the input rules out.
#[verifier::external_body]
pub(crate) fn base64_encode(bytes: &[u8]) -> (r: String)
    requires
        bytes@.len() <= usize::MAX / 2,
    ensures
        r@ == base64_of(bytes@),
        r@.len() == 4 * ((bytes@.len() + 2) / 3),
{
    base64::Engine::encode(&base64::engine::general_purpose::STANDARD, bytes)
}

/// Relies on base64's `Engine::decode` with `general_purpose::STANDARD`, which
/// decodes what `Engine::encode` produced back to the bytes it was given.
#[verifier::external_body]
pub(crate) fn base64_decode(text: &str) -> (r: Result<Vec<u8>, base64::DecodeError>)
    ensures
        r is Ok <==> base64_decoded(text@) is Some,
        r matches Ok(b) ==> base64_decoded(text@) == Some(b@),
        r is Err ==> forall|b: Seq<u8>| b.len() <= usize::MAX / 2 ==> #[trigger] base64_of(b) != text@,
        r matches Ok(c) ==> forall|b: Seq<u8>|
            b.len() <= usize::MAX / 2 && #[trigger] base64_of(b) == text@ ==> c@ == b,
{
    base64::Engine::decode(&base64::engine::general_purpose::STANDARD, text)
}

// ------------------------------------------------------- urlencoding

/// What `urlencoding::encode` gives for a string.
pub uninterp spec fn url_encoded_of(s: Seq<char>) -> Seq<char>;

/// Relies on `urlencoding::encode`: percent-encoding that depends on the text alone.
#[verifier::external_body]
pub(crate) fn url_encode(s: &str) -> (r: String)
    ensures
        r@ == url_encoded_of(s@),
{
    urlencoding::encode(s).into_owned()
}

/// What `urlencoding::decode` gives for a string: `None` where the decoded
/// bytes are not UTF-8.
pub uninterp spec fn url_decoded_of(s: Seq<char>) -> Option<Seq<char>>;

/// Relies on `urlencoding::decode`: it fails only where the decoded bytes are
/// not UTF-8, and depends on the text alone.
#[verifier::external_body]
pub(crate) fn url_decode(s: &str) -> (r: Result<String, std::string::FromUtf8Error>)
    ensures
        r is Ok <==> url_decoded_of(s@) is Some,
        r matches Ok(t) ==> url_decoded_of(s@) == Some(t@),
{
    urlencoding::decode(s).map(|t| t.into_owned())
}

// -------------------------------------------------------------- sha2

/// The lowercase hexadecimal SHA-256 digest of `bytes`.
pub uninterp spec fn sha256_hex_of(bytes: Seq<u8>) -> Seq<char>;

/// Relies on sha2's `Sha256::digest`, printed with `{:x}`: 64 lowercase hex digits.
#[verifier::external_body]
pub(crate) fn sha256_hex(bytes: &[u8]) -> (r: String)
    ensures
        r@ == sha256_hex_of(bytes@),
        r@.len() == 64,
{
    format!("{:x}", <sha2::Sha256 as sha2::Digest>::digest(bytes))
}

/// The lowercase hexadecimal SHA-512 digest of `bytes`.
pub uninterp spec fn sha512_hex_of(bytes: Seq<u8>) -> Seq<char>;

/// Relies on sha2's `Sha512::digest`, printed with `{:x}`: 128 lowercase hex digits.
#[verifier::external_body]
pub(crate) fn sha512_hex(bytes: &[u8]) -> (r: String)
    ensures
        r@ == sha512_hex_of(bytes@),
        r@.len() == 128,
{
    format!("{:x}", <sha2::Sha512 as sha2::Digest>::digest(bytes))
}

} // verus!
