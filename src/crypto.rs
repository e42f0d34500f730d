//! Password-based authenticated encryption of text.
//!
//! A 256-bit key is derived from the password with Argon2id over a salt that
//! is itself derived from the password, a fresh 96-bit nonce is drawn for each
//! encryption, and the token is the padded standard base64 of
//! `nonce || ciphertext || tag` under AES-256-GCM.

use vstd::prelude::*;
use vstd::slice::slice_to_vec;
use vstd::string::*;
use vstd::utf8::{decode_utf8, encode_utf8, valid_utf8};
use crate::audit::{AuditAction, AuditEntry};
use crate::text::{decimal, decimal_of};
use crate::primitives::{
    aes256gcm_decrypt, aes256gcm_encrypt, aes256gcm_open, aes256gcm_seal, aes_gcm_max_plaintext,
    argon2id_hash, argon2id_key, base64_decode, base64_decoded, base64_encode, base64_of,
    default_hash, default_hash_of, random_bytes, string_from_utf8,
};

verus! {

broadcast use vstd::utf8::group_utf8_lib;

/// Bytes of nonce at the head of every token.
pub const NONCE_LEN: usize = 12;

/// Bytes of derived key.
pub const KEY_LEN: usize = 32;

/// Bytes of authentication tag that follow the ciphertext.
pub const TAG_LEN: usize = 16;

/// Argon2id memory cost, in KiB blocks (64 MiB).
pub const KDF_MEMORY_KIB: u32 = 65536;

/// Argon2id passes over memory.
pub const KDF_ITERATIONS: u32 = 3;

/// Argon2id lanes.
pub const KDF_LANES: u32 = 4;

/// The ways encryption and decryption fail.
#[derive(Debug, Clone, Copy, PartialEq, Eq, Structural)]
pub enum CryptoError {
    /// The token is not base64, or too short to hold a nonce.
    MalformedToken,
    /// The tag does not verify: wrong password or altered token.
    AuthenticationFailed,
    /// The recovered bytes are not UTF-8 text.
    NonUtf8Plaintext,
    /// The key could not be derived from the password.
    KeyDerivationFailed,
    /// The plaintext is too long to encrypt.
    EncryptionFailed,
}

/// The first `n` bytes of `h`, least significant first.
pub open spec fn le_bytes_of(h: nat, n: nat) -> Seq<u8>
    decreases n,
{
    if n == 0 {
        Seq::empty()
    } else {
        seq![(h % 256) as u8] + le_bytes_of(h / 256, (n - 1) as nat)
    }
}

/// The salt used with a password: the little-endian bytes of the password's
/// `DefaultHasher` value, twice over.
pub open spec fn salt_for(password: Seq<char>) -> Seq<u8> {
    le_bytes_of(default_hash_of(password) as nat, 8) + le_bytes_of(default_hash_of(password) as nat, 8)
}

/// Whether a key can be derived from the password: Argon2 takes at most
/// 2^32 - 1 bytes of password.
pub open spec fn key_derivable(password: Seq<char>) -> bool {
    encode_utf8(password).len() <= 0xFFFF_FFFF
}

/// The key derived from a password.
pub open spec fn key_for(password: Seq<char>) -> Seq<u8> {
    argon2id_key(
        KDF_MEMORY_KIB,
        KDF_ITERATIONS,
        KDF_LANES,
        encode_utf8(password),
        salt_for(password),
        KEY_LEN,
    )
}

/// Whether a plaintext of `len` bytes can be encrypted: AES-GCM's own limit,
/// and a token whose length fits in memory.
pub open spec fn plaintext_fits(len: nat) -> bool {
    len <= aes_gcm_max_plaintext() && len + NONCE_LEN + TAG_LEN <= usize::MAX / 2
}

/// Why encrypting `plaintext` under `password` fails, if it does.
pub open spec fn encrypt_failure(plaintext: Seq<char>, password: Seq<char>) -> Option<CryptoError> {
    if !key_derivable(password) {
        Some(CryptoError::KeyDerivationFailed)
    } else if !plaintext_fits(encode_utf8(plaintext).len()) {
        Some(CryptoError::EncryptionFailed)
    } else {
        None
    }
}

/// `nonce || ciphertext || tag` for a plaintext, password and nonce.
pub open spec fn sealed_bytes(plaintext: Seq<char>, password: Seq<char>, nonce: Seq<u8>) -> Seq<u8> {
    nonce + aes256gcm_seal(key_for(password), nonce, encode_utf8(plaintext))
}

/// The token that encrypting `plaintext` under `password` with `nonce` gives.
pub open spec fn token_for(plaintext: Seq<char>, password: Seq<char>, nonce: Seq<u8>) -> Seq<char> {
    base64_of(sealed_bytes(plaintext, password, nonce))
}

/// What holds of every token that encryption hands out: a nonce of the right
/// length, inputs that encryption accepts, and a ciphertext one tag longer
/// than the plaintext.
pub open spec fn well_sealed(plaintext: Seq<char>, password: Seq<char>, nonce: Seq<u8>) -> bool {
    &&& nonce.len() == NONCE_LEN
    &&& encrypt_failure(plaintext, password) is None
    &&& aes256gcm_seal(key_for(password), nonce, encode_utf8(plaintext)).len() == encode_utf8(
        plaintext,
    ).len() + TAG_LEN
}

/// What decrypting `token` under `password` gives.
pub open spec fn decrypt_outcome(token: Seq<char>, password: Seq<char>) -> Result<Seq<char>, CryptoError> {
    match base64_decoded(token) {
        None => Err(CryptoError::MalformedToken),
        Some(data) => {
            if data.len() < NONCE_LEN {
                Err(CryptoError::MalformedToken)
            } else if !key_derivable(password) {
                Err(CryptoError::KeyDerivationFailed)
            } else {
                match aes256gcm_open(
                    key_for(password),
                    data.subrange(0, NONCE_LEN as int),
                    data.subrange(NONCE_LEN as int, data.len() as int),
                ) {
                    None => Err(CryptoError::AuthenticationFailed),
                    Some(bytes) => {
                        if valid_utf8(bytes) {
                            Ok(decode_utf8(bytes))
                        } else {
                            Err(CryptoError::NonUtf8Plaintext)
                        }
                    },
                }
            }
        },
    }
}

/// The eight little-endian bytes of `h`.
fn le_bytes(h: u64) -> (r: Vec<u8>)
    ensures
        r@ == le_bytes_of(h as nat, 8),
        r@.len() == 8,
{
    let mut out: Vec<u8> = Vec::new();
    let mut x: u64 = h;
    let mut i: usize = 0;
    while i < 8
        invariant
            i <= 8,
            out@.len() == i,
            out@ + le_bytes_of(x as nat, (8 - i) as nat) == le_bytes_of(h as nat, 8),
        decreases 8 - i,
    {
        let ghost before = out@;
        out.push((x % 256) as u8);
        assert(le_bytes_of(x as nat, (8 - i) as nat) == seq![(x % 256) as u8] + le_bytes_of(
            (x / 256) as nat,
            (8 - i - 1) as nat,
        ));
        assert(out@ + le_bytes_of((x / 256) as nat, (8 - i - 1) as nat) =~= before + le_bytes_of(
            x as nat,
            (8 - i) as nat,
        ));
        x = x / 256;
        i = i + 1;
    }
    assert(le_bytes_of(x as nat, 0) =~= Seq::<u8>::empty());
    assert(out@ + Seq::<u8>::empty() =~= out@);
    out
}

/// Derives the 256-bit key for a password.
pub fn derive_key_from_password(password: &str) -> (r: Result<Vec<u8>, CryptoError>)
    ensures
        r is Ok <==> key_derivable(password@),
        r matches Ok(k) ==> k@ == key_for(password@) && k@.len() == KEY_LEN,
        r matches Err(e) ==> e == CryptoError::KeyDerivationFailed,
{
    let h = default_hash(password);
    let mut salt = le_bytes(h);
    let mut tail = le_bytes(h);
    salt.append(&mut tail);
    match argon2id_hash(
        KDF_MEMORY_KIB,
        KDF_ITERATIONS,
        KDF_LANES,
        password.as_bytes(),
        salt.as_slice(),
        KEY_LEN,
    ) {
        Ok(key) => Ok(key),
        Err(_) => Err(CryptoError::KeyDerivationFailed),
    }
}

/// Encrypts `plaintext` under `password` with the given nonce.
pub fn encrypt_with_nonce(plaintext: &str, password: &str, nonce: &[u8]) -> (r: Result<String, CryptoError>)
    requires
        nonce@.len() == NONCE_LEN,
    ensures
        match encrypt_failure(plaintext@, password@) {
            Some(e) => r == Err::<String, CryptoError>(e),
            None => r matches Ok(t) && t@ == token_for(plaintext@, password@, nonce@) && well_sealed(
                plaintext@,
                password@,
                nonce@,
            ),
        },
{
    let key = match derive_key_from_password(password) {
        Ok(k) => k,
        Err(e) => return Err(e),
    };
    let bytes = plaintext.as_bytes();
    if bytes.len() > usize::MAX / 2 - (NONCE_LEN + TAG_LEN) {
        return Err(CryptoError::EncryptionFailed);
    }
    let mut sealed = match aes256gcm_encrypt(key.as_slice(), nonce, bytes) {
        Ok(c) => c,
        Err(_) => return Err(CryptoError::EncryptionFailed),
    };
    let mut data = slice_to_vec(nonce);
    data.append(&mut sealed);
    Ok(base64_encode(data.as_slice()))
}

/// Encrypts `plaintext` under `password` with a freshly drawn nonce.
pub fn encrypt_string(plaintext: &str, password: &str) -> (r: Result<String, CryptoError>)
    ensures
        r is Err <==> encrypt_failure(plaintext@, password@) is Some,
        r matches Err(e) ==> encrypt_failure(plaintext@, password@) == Some(e),
        r matches Ok(t) ==> exists|n: Seq<u8>|
            well_sealed(plaintext@, password@, n) && #[trigger] token_for(plaintext@, password@, n) == t@,
{
    let nonce = random_bytes(NONCE_LEN);
    let r = encrypt_with_nonce(plaintext, password, nonce.as_slice());
    proof {
        if r is Ok {
            assert(token_for(plaintext@, password@, nonce@) == r->Ok_0@);
        }
    }
    r
}

/// How the bytes behind a well-sealed token split into nonce and ciphertext.
proof fn lemma_sealed_layout(plaintext: Seq<char>, password: Seq<char>, nonce: Seq<u8>)
    requires
        well_sealed(plaintext, password, nonce),
    ensures
        sealed_bytes(plaintext, password, nonce).len() == NONCE_LEN + encode_utf8(plaintext).len()
            + TAG_LEN,
        sealed_bytes(plaintext, password, nonce).len() <= usize::MAX / 2,
        sealed_bytes(plaintext, password, nonce).subrange(0, NONCE_LEN as int) == nonce,
        sealed_bytes(plaintext, password, nonce).subrange(
            NONCE_LEN as int,
            sealed_bytes(plaintext, password, nonce).len() as int,
        ) == aes256gcm_seal(key_for(password), nonce, encode_utf8(plaintext)),
{
    let b = sealed_bytes(plaintext, password, nonce);
    assert(b.subrange(0, NONCE_LEN as int) =~= nonce);
    assert(b.subrange(NONCE_LEN as int, b.len() as int) =~= aes256gcm_seal(
        key_for(password),
        nonce,
        encode_utf8(plaintext),
    ));
}

/// Decrypts a token under `password`.
pub fn decrypt_string(token: &str, password: &str) -> (r: Result<String, CryptoError>)
    ensures
        match decrypt_outcome(token@, password@) {
            Ok(p) => r matches Ok(s) && s@ == p,
            Err(e) => r == Err::<String, CryptoError>(e),
        },
        base64_decoded(token@) matches Some(d) && d.len() < NONCE_LEN ==> r
            == Err::<String, CryptoError>(CryptoError::MalformedToken),
        forall|p: Seq<char>, n: Seq<u8>|
            well_sealed(p, password@, n) && #[trigger] token_for(p, password@, n) == token@ ==> (r matches Ok(
                s,
            ) && s@ == p),
        r matches Ok(s) ==> encode_utf8(s@).len() <= usize::MAX,
{
    let data = match base64_decode(token) {
        Ok(d) => d,
        Err(_) => {
            proof {
                assert forall|p: Seq<char>, n: Seq<u8>|
                    well_sealed(p, password@, n) && #[trigger] token_for(p, password@, n)
                        == token@ implies false by {
                    lemma_sealed_layout(p, password@, n);
                    assert(base64_of(sealed_bytes(p, password@, n)) == token@);
                }
            }
            return Err(CryptoError::MalformedToken);
        },
    };
    proof {
        assert forall|p: Seq<char>, n: Seq<u8>|
            well_sealed(p, password@, n) && #[trigger] token_for(p, password@, n)
                == token@ implies data@ == sealed_bytes(p, password@, n) by {
            lemma_sealed_layout(p, password@, n);
            assert(base64_of(sealed_bytes(p, password@, n)) == token@);
        }
    }
    if data.len() < NONCE_LEN {
        proof {
            assert forall|p: Seq<char>, n: Seq<u8>|
                well_sealed(p, password@, n) && #[trigger] token_for(p, password@, n)
                    == token@ implies false by {
                lemma_sealed_layout(p, password@, n);
            }
        }
        return Err(CryptoError::MalformedToken);
    }
    let all = data.as_slice();
    let nonce = &all[0..NONCE_LEN];
    let ciphertext = &all[NONCE_LEN..data.len()];
    let key = match derive_key_from_password(password) {
        Ok(k) => k,
        Err(e) => return Err(e),
    };
    let bytes = match aes256gcm_decrypt(key.as_slice(), nonce, ciphertext) {
        Ok(b) => b,
        Err(_) => {
            proof {
                assert forall|p: Seq<char>, n: Seq<u8>|
                    well_sealed(p, password@, n) && #[trigger] token_for(p, password@, n)
                        == token@ implies false by {
                    lemma_sealed_layout(p, password@, n);
                    assert(aes256gcm_seal(key@, nonce@, encode_utf8(p)) == ciphertext@);
                }
            }
            return Err(CryptoError::AuthenticationFailed);
        },
    };
    let ghost opened = bytes@;
    let opened_len = bytes.len();
    proof {
        assert forall|p: Seq<char>, n: Seq<u8>|
            well_sealed(p, password@, n) && #[trigger] token_for(p, password@, n)
                == token@ implies opened == encode_utf8(p) by {
            lemma_sealed_layout(p, password@, n);
            assert(aes256gcm_seal(key@, nonce@, encode_utf8(p)) == ciphertext@);
        }
    }
    match string_from_utf8(bytes) {
        Ok(s) => {
            assert(encode_utf8(s@) == opened);
            assert(opened.len() == opened_len);
            Ok(s)
        },
        Err(_) => Err(CryptoError::NonUtf8Plaintext),
    }
}

impl CryptoError {
    /// The category shown to the user and recorded; it never holds the
    /// password or the key.
    pub open spec fn message_spec(self) -> Seq<char> {
        match self {
            CryptoError::MalformedToken => "malformed token"@,
            CryptoError::AuthenticationFailed => "authentication failed"@,
            CryptoError::NonUtf8Plaintext => "decrypted data is not UTF-8 text"@,
            CryptoError::KeyDerivationFailed => "key derivation failed"@,
            CryptoError::EncryptionFailed => "plaintext too long to encrypt"@,
        }
    }

    pub fn message(&self) -> (r: &'static str)
        ensures
            r@ == self.message_spec(),
    {
        match self {
            CryptoError::MalformedToken => "malformed token",
            CryptoError::AuthenticationFailed => "authentication failed",
            CryptoError::NonUtf8Plaintext => "decrypted data is not UTF-8 text",
            CryptoError::KeyDerivationFailed => "key derivation failed",
            CryptoError::EncryptionFailed => "plaintext too long to encrypt",
        }
    }
}

/// The submitted encryption form.
pub struct EncryptForm {
    pub plaintext: String,
    pub password: String,
}

/// The submitted decryption form.
pub struct DecryptForm {
    pub ciphertext: String,
    pub password: String,
}

/// The crypto page.
pub struct CryptoTemplate {
    pub encrypted_text: String,
    pub decrypted_text: String,
    pub error: String,
    pub show_encrypted: bool,
    pub show_decrypted: bool,
    pub show_error: bool,
}

impl CryptoTemplate {
    /// The page with nothing shown.
    pub fn index() -> (r: CryptoTemplate)
        ensures
            r.encrypted_text@.len() == 0,
            r.decrypted_text@.len() == 0,
            r.error@.len() == 0,
            !r.show_encrypted && !r.show_decrypted && !r.show_error,
    {
        CryptoTemplate {
            encrypted_text: String::new(),
            decrypted_text: String::new(),
            error: String::new(),
            show_encrypted: false,
            show_decrypted: false,
            show_error: false,
        }
    }

    /// The page showing only an error.
    pub open spec fn shows_error(self, text: Seq<char>) -> bool {
        &&& self.error@ == text
        &&& self.show_error && !self.show_encrypted && !self.show_decrypted
        &&& self.encrypted_text@.len() == 0 && self.decrypted_text@.len() == 0
    }

    fn with_error(prefix: &str, e: CryptoError) -> (r: CryptoTemplate)
        ensures
            r.shows_error(prefix@ + e.message_spec()),
    {
        let mut error = String::from_str(prefix);
        error.append(e.message());
        CryptoTemplate {
            encrypted_text: String::new(),
            decrypted_text: String::new(),
            error,
            show_encrypted: false,
            show_decrypted: false,
            show_error: true,
        }
    }
}

/// What a crypto request comes to: the page to show and the entry to append.
pub struct CryptoReply {
    pub page: CryptoTemplate,
    pub audit: AuditEntry,
}

/// `prefix`, then the length `n` in parentheses.
pub open spec fn length_note(prefix: Seq<char>, n: nat) -> Seq<char> {
    prefix + "(length: "@ + decimal_of(n) + ")"@
}

fn length_text(prefix: &str, n: usize) -> (r: String)
    ensures
        r@ == length_note(prefix@, n as nat),
{
    let mut out = String::from_str(prefix);
    out.append("(length: ");
    out.append(decimal(n).as_str());
    out.append(")");
    out
}

fn note_text(prefix: &str, e: CryptoError) -> (r: String)
    ensures
        r@ == prefix@ + e.message_spec(),
{
    let mut out = String::from_str(prefix);
    out.append(e.message());
    out
}

/// Encrypts the form for the caller named `username` (with `user_id` where
/// the name maps to a user) and records the attempt: its plaintext length on
/// success, the failure's category otherwise.
pub fn encrypt(username: String, user_id: Option<i32>, form: &EncryptForm) -> (r: CryptoReply)
    ensures
        match encrypt_failure(form.plaintext@, form.password@) {
            None => {
                &&& r.audit.records(
                    user_id,
                    username@,
                    AuditAction::Encrypt,
                    Some("/crypto/encrypt"@),
                    Some(length_note("Encrypted text "@, encode_utf8(form.plaintext@).len())),
                )
                &&& r.page.show_encrypted && !r.page.show_decrypted && !r.page.show_error
                &&& exists|n: Seq<u8>|
                    well_sealed(form.plaintext@, form.password@, n) && #[trigger] token_for(
                        form.plaintext@,
                        form.password@,
                        n,
                    ) == r.page.encrypted_text@
            },
            Some(e) => {
                &&& r.audit.records(
                    user_id,
                    username@,
                    AuditAction::EncryptFailed,
                    Some("/crypto/encrypt"@),
                    Some("Encryption failed: "@ + e.message_spec()),
                )
                &&& r.page.shows_error("Encryption error: "@ + e.message_spec())
            },
        },
{
    match encrypt_string(form.plaintext.as_str(), form.password.as_str()) {
        Ok(token) => {
            let details = length_text("Encrypted text ", form.plaintext.as_str().len());
            let audit = AuditEntry::new(
                user_id,
                username,
                AuditAction::Encrypt,
                Some(String::from_str("/crypto/encrypt")),
                Some(details),
            );
            let page = CryptoTemplate {
                encrypted_text: token,
                decrypted_text: String::new(),
                error: String::new(),
                show_encrypted: true,
                show_decrypted: false,
                show_error: false,
            };
            CryptoReply { page, audit }
        },
        Err(e) => {
            let audit = AuditEntry::new(
                user_id,
                username,
                AuditAction::EncryptFailed,
                Some(String::from_str("/crypto/encrypt")),
                Some(note_text("Encryption failed: ", e)),
            );
            CryptoReply { page: CryptoTemplate::with_error("Encryption error: ", e), audit }
        },
    }
}

/// Decrypts the form for the caller named `username` (with `user_id` where
/// the name maps to a user) and records the attempt: the recovered text's
/// length on success, the failure's category otherwise.
pub fn decrypt(username: String, user_id: Option<i32>, form: &DecryptForm) -> (r: CryptoReply)
    ensures
        match decrypt_outcome(form.ciphertext@, form.password@) {
            Ok(p) => {
                &&& r.audit.records(
                    user_id,
                    username@,
                    AuditAction::Decrypt,
                    Some("/crypto/decrypt"@),
                    Some(length_note("Decrypted text "@, encode_utf8(p).len())),
                )
                &&& r.page.decrypted_text@ == p
                &&& r.page.show_decrypted && !r.page.show_encrypted && !r.page.show_error
            },
            Err(e) => {
                &&& r.audit.records(
                    user_id,
                    username@,
                    AuditAction::DecryptFailed,
                    Some("/crypto/decrypt"@),
                    Some("Decryption failed: "@ + e.message_spec()),
                )
                &&& r.page.shows_error("Decryption error: "@ + e.message_spec())
            },
        },
{
    match decrypt_string(form.ciphertext.as_str(), form.password.as_str()) {
        Ok(text) => {
            let details = length_text("Decrypted text ", text.as_str().len());
            let audit = AuditEntry::new(
                user_id,
                username,
                AuditAction::Decrypt,
                Some(String::from_str("/crypto/decrypt")),
                Some(details),
            );
            let page = CryptoTemplate {
                encrypted_text: String::new(),
                decrypted_text: text,
                error: String::new(),
                show_encrypted: false,
                show_decrypted: true,
                show_error: false,
            };
            CryptoReply { page, audit }
        },
        Err(e) => {
            let audit = AuditEntry::new(
                user_id,
                username,
                AuditAction::DecryptFailed,
                Some(String::from_str("/crypto/decrypt")),
                Some(note_text("Decryption failed: ", e)),
            );
            CryptoReply { page: CryptoTemplate::with_error("Decryption error: ", e), audit }
        },
    }
}

} // verus!
