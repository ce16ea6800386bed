//! Key agreement, key derivation, nonces and authenticated encryption.

use vstd::prelude::*;
use aes_gcm_siv::aead::Aead;
use aes_gcm_siv::KeyInit;
use crate::agent::types::Uuid;
use crate::utils::hasher::{blake3_digest, blake3_hash};
use crate::utils::hexcodec::{decode, encode_upper, hex_decode, hex_upper, lemma_hex_round_trip};
use crate::utils::secret::{secret_bytes, SecretBytes};

verus! {

/// What comes of reading `encoded` as the SEC1 form of a secp256k1 public
/// key: the compressed SEC1 encoding (33 bytes) of the key, or the complaint
/// of `k256` where the bytes stand for no key.
pub uninterp spec fn sec1_parse(encoded: Seq<u8>) -> Result<Seq<u8>, Seq<char>>;

/// The compressed SEC1 encoding of the public key that `encoded` stands
/// for, or nothing where it stands for none.
pub open spec fn sec1_compressed(encoded: Seq<u8>) -> Option<Seq<u8>> {
    match sec1_parse(encoded) {
        Ok(key) => Some(key),
        Err(_) => None,
    }
}

/// What `k256` says of bytes that stand for no public key.
pub open spec fn sec1_complaint(encoded: Seq<u8>) -> Seq<char> {
    sec1_parse(encoded)->Err_0
}

/// The compressed SEC1 encoding of the public key that belongs to the
/// secret scalar `secret`, or nothing where `secret` is no valid scalar.
pub uninterp spec fn public_key_of(secret: Seq<u8>) -> Option<Seq<u8>>;

/// The ECDH shared secret (32 bytes) of a secret scalar and a public key in
/// SEC1 form, or nothing where either is invalid.
pub uninterp spec fn ecdh_secret(secret: Seq<u8>, public: Seq<u8>) -> Option<Seq<u8>>;

/// `length` bytes of HKDF-SHA256 output for input key material `ikm`, salt
/// `salt` and empty info, or nothing where the derivation fails.
pub uninterp spec fn hkdf_sha256(ikm: Seq<u8>, salt: Seq<u8>, length: nat) -> Option<Seq<u8>>;

/// Bytes that an AES-256 key holds.
pub const KEY_LEN: usize = 32;

/// The AES-256-GCM-SIV ciphertext, tag included, of `plaintext` under `key`
/// and `nonce` with no associated data, or nothing where encryption fails.
pub uninterp spec fn aead_seal(key: Seq<u8>, nonce: Seq<u8>, plaintext: Seq<u8>) -> Option<Seq<u8>>;

/// The plaintext that `ciphertext` opens to under `key` and `nonce` with no
/// associated data, or nothing where it does not authenticate.
pub uninterp spec fn aead_open(key: Seq<u8>, nonce: Seq<u8>, ciphertext: Seq<u8>) -> Option<Seq<u8>>;

/// Why a cryptographic step failed.
#[derive(Debug, Clone, Copy, PartialEq, Eq)]
pub enum CryptoError {
    /// The text is no hexadecimal encoding
    InvalidHex,
    /// The bytes are no SEC1 encoding of a public key
    InvalidPublicKey,
    /// ECDH or HKDF failed
    KeyDerivation,
    /// Encryption failed
    Encrypt,
    /// The ciphertext did not authenticate
    Decrypt,
}

/// A secp256k1 verifying key, held as its compressed SEC1 encoding.
#[derive(Debug, Clone, Copy, PartialEq, Eq)]
pub struct PublicKey {
    sec1: [u8; 33],
}

impl View for PublicKey {
    type V = Seq<u8>;

    closed spec fn view(&self) -> Seq<u8> {
        self.sec1@
    }
}

/// A secp256k1 signing key, held as its 32-byte scalar in zeroed-on-drop
/// storage.
pub struct SecretKey {
    scalar: SecretBytes,
}

impl View for SecretKey {
    type V = Seq<u8>;

    closed spec fn view(&self) -> Seq<u8> {
        self.scalar@
    }
}

/// A 256-bit AES-GCM-SIV key in zeroed-on-drop storage.
pub struct AeadKey {
    key: SecretBytes,
}

impl View for AeadKey {
    type V = Seq<u8>;

    closed spec fn view(&self) -> Seq<u8> {
        self.key@
    }
}

/// Calls `k256::EncodedPoint::from_bytes` and
/// `k256::ecdsa::VerifyingKey::from_encoded_point`, and encodes the key with
/// `to_encoded_point(true)`. Trusted: the result is the compressed encoding
/// of the key that the bytes stand for, a function of the bytes alone; where
/// they stand for no key, it is the complaint of the call that failed,
/// again a function of the bytes alone.
#[verifier::external_body]
fn parse_sec1(encoded: &[u8]) -> (key: Result<[u8; 33], String>)
    ensures
        match key {
            Ok(k) => sec1_parse(encoded@) == Ok::<Seq<u8>, Seq<char>>(k@),
            Err(e) => sec1_parse(encoded@) == Err::<Seq<u8>, Seq<char>>(e@),
        },
{
    let point = k256::EncodedPoint::from_bytes(encoded).map_err(|e| e.to_string())?;
    let key = k256::ecdsa::VerifyingKey::from_encoded_point(&point).map_err(|e| e.to_string())?;
    <[u8; 33]>::try_from(key.to_encoded_point(true).as_bytes()).map_err(|e| e.to_string())
}

/// Calls `k256::ecdsa::SigningKey::random` with the operating system's
/// random source. Trusted: the scalar has 32 bytes and is one that a public
/// key belongs to; its value is random, so nothing more is stated.
#[verifier::external_body]
fn random_scalar() -> (scalar: SecretBytes)
    ensures
        secret_bytes(scalar).len() == 32,
        public_key_of(secret_bytes(scalar)) is Some,
{
    let key = k256::ecdsa::SigningKey::random(&mut rand::rngs::OsRng);
    SecretBytes::seal(key.to_bytes().to_vec())
}

/// Calls `k256::ecdsa::SigningKey::from_slice` and encodes its verifying
/// key with `to_encoded_point(true)`. Trusted: the result is the compressed
/// encoding of the public key of the scalar, a function of the scalar
/// alone, and nothing where the bytes are no valid scalar.
#[verifier::external_body]
fn derive_public(scalar: &[u8]) -> (key: Option<[u8; 33]>)
    ensures
        match key {
            Some(k) => public_key_of(scalar@) == Some(k@),
            None => public_key_of(scalar@) is None,
        },
{
    let key = k256::ecdsa::SigningKey::from_slice(scalar).ok()?;
    <[u8; 33]>::try_from(key.verifying_key().to_encoded_point(true).as_bytes()).ok()
}

/// Calls `k256::ecdh::diffie_hellman` on the scalar and the point that the
/// bytes stand for. Trusted: the result is the x-coordinate of the shared
/// point, 32 bytes, a function of the two keys alone, and nothing where
/// either does not parse.
#[verifier::external_body]
fn diffie_hellman(scalar: &[u8], public: &[u8]) -> (shared: Option<SecretBytes>)
    ensures
        match shared {
            Some(z) => ecdh_secret(scalar@, public@) == Some(secret_bytes(z)) && secret_bytes(
                z,
            ).len() == 32,
            None => ecdh_secret(scalar@, public@) is None,
        },
{
    let sk = k256::ecdsa::SigningKey::from_slice(scalar).ok()?;
    let pk = k256::ecdsa::VerifyingKey::from_sec1_bytes(public).ok()?;
    let shared = k256::ecdh::diffie_hellman(sk.as_nonzero_scalar(), pk.as_affine());
    Some(SecretBytes::seal(shared.raw_secret_bytes().to_vec()))
}

/// Calls `k256::ecdh::SharedSecret::extract` with SHA-256 and the salt, then
/// `expand` with empty info into `length` bytes. Trusted: the result is the
/// HKDF output of that length, a function of the secret, the salt and the
/// length alone, and nothing where `expand` fails.
#[verifier::external_body]
fn hkdf_expand(ikm: &[u8], salt: &[u8], length: usize) -> (okm: Option<SecretBytes>)
    requires
        ikm.len() == 32,
    ensures
        match okm {
            Some(k) => hkdf_sha256(ikm@, salt@, length as nat) == Some(secret_bytes(k))
                && secret_bytes(k).len() == length,
            None => hkdf_sha256(ikm@, salt@, length as nat) is None,
        },
{
    let shared = k256::ecdh::SharedSecret::from(*k256::FieldBytes::from_slice(ikm));
    let hkdf = shared.extract::<k256::sha2::Sha256>(Some(salt));
    let mut okm = vec![0u8; length];
    hkdf.expand(&[], okm.as_mut_slice()).ok()?;
    Some(SecretBytes::seal(okm))
}

/// Calls `Aes256GcmSiv::new_from_slice` and `Aead::encrypt`. Trusted: the
/// result is the ciphertext with its tag, a function of key, nonce and
/// plaintext alone; nothing where the key has not 32 bytes or encryption
/// fails; and what was sealed opens again, under the same key and nonce, to
/// the plaintext.
#[verifier::external_body]
fn seal_bytes(key: &[u8], nonce: &[u8; 12], plaintext: &[u8]) -> (ciphertext: Option<Vec<u8>>)
    ensures
        match ciphertext {
            Some(c) => aead_seal(key@, nonce@, plaintext@) == Some(c@) && aead_open(
                key@,
                nonce@,
                c@,
            ) == Some(plaintext@),
            None => aead_seal(key@, nonce@, plaintext@) is None,
        },
{
    let cipher = aes_gcm_siv::Aes256GcmSiv::new_from_slice(key).ok()?;
    cipher.encrypt(aes_gcm_siv::Nonce::from_slice(nonce), plaintext).ok()
}

/// Calls `Aes256GcmSiv::new_from_slice` and `Aead::decrypt`. Trusted: the
/// result is the plaintext, a function of key, nonce and ciphertext alone,
/// and nothing where the key has not 32 bytes or the ciphertext does not
/// authenticate.
#[verifier::external_body]
fn open_bytes(key: &[u8], nonce: &[u8; 12], ciphertext: &[u8]) -> (plaintext: Option<Vec<u8>>)
    ensures
        match plaintext {
            Some(p) => aead_open(key@, nonce@, ciphertext@) == Some(p@),
            None => aead_open(key@, nonce@, ciphertext@) is None,
        },
{
    let cipher = aes_gcm_siv::Aes256GcmSiv::new_from_slice(key).ok()?;
    cipher.decrypt(aes_gcm_siv::Nonce::from_slice(nonce), ciphertext).ok()
}

impl PublicKey {
    /// The key that SEC1 bytes stand for, compressed or not.
    pub fn from_sec1_bytes(encoded: &[u8]) -> (r: Result<PublicKey, CryptoError>)
        ensures
            match r {
                Ok(key) => sec1_compressed(encoded@) == Some(key@),
                Err(e) => sec1_compressed(encoded@) is None && e == CryptoError::InvalidPublicKey,
            },
    {
        match parse_sec1(encoded) {
            Ok(sec1) => Ok(PublicKey { sec1 }),
            Err(_) => Err(CryptoError::InvalidPublicKey),
        }
    }

    /// The key that SEC1 bytes stand for, or the complaint about them.
    pub fn parse(encoded: &[u8]) -> (r: Result<PublicKey, String>)
        ensures
            match r {
                Ok(key) => sec1_compressed(encoded@) == Some(key@),
                Err(e) => sec1_compressed(encoded@) is None && e@ == sec1_complaint(encoded@),
            },
    {
        match parse_sec1(encoded) {
            Ok(sec1) => Ok(PublicKey { sec1 }),
            Err(e) => Err(e),
        }
    }

    /// The compressed SEC1 encoding of the key.
    pub fn as_bytes(&self) -> (bytes: &[u8; 33])
        ensures
            bytes@ == self@,
    {
        &self.sec1
    }

    /// Whether two keys are the same.
    pub fn same_as(&self, other: &PublicKey) -> (same: bool)
        ensures
            same == (self@ == other@),
    {
        let mut i: usize = 0;
        while i < 33
            invariant
                i <= 33,
                forall|j: int| 0 <= j < i ==> self.sec1@[j] == other.sec1@[j],
            decreases 33 - i,
        {
            if self.sec1[i] != other.sec1[i] {
                return false;
            }
            i += 1;
        }
        assert(self.sec1@ =~= other.sec1@);
        true
    }
}

impl SecretKey {
    /// A fresh signing key from the operating system's random source.
    pub fn random() -> (key: SecretKey)
        ensures
            key@.len() == 32,
            public_key_of(key@) is Some,
    {
        SecretKey { scalar: random_scalar() }
    }

    /// The verifying key that belongs to this key, where the scalar is valid.
    pub fn verifying_key(&self) -> (r: Option<PublicKey>)
        ensures
            match r {
                Some(key) => public_key_of(self@) == Some(key@),
                None => public_key_of(self@) is None,
            },
    {
        match derive_public(self.scalar.expose()) {
            Some(sec1) => Some(PublicKey { sec1 }),
            None => None,
        }
    }

    /// A copy of the key, in storage of its own.
    pub fn duplicate(&self) -> (copy: SecretKey)
        ensures
            copy@ == self@,
    {
        SecretKey { scalar: self.scalar.duplicate() }
    }
}

/// The key that a session derives: 32 bytes of HKDF-SHA256, salted with the
/// session id, over the ECDH shared secret; nothing where a step fails.
pub open spec fn session_key(secret: Seq<u8>, public: Seq<u8>, session_id: Seq<u8>) -> Option<
    Seq<u8>,
> {
    match ecdh_secret(secret, public) {
        Some(shared) => hkdf_sha256(shared, session_id, KEY_LEN as nat),
        None => None,
    }
}

/// Derives the AEAD key of a session: ECDH on secp256k1, then HKDF-Extract
/// with the session id as salt and HKDF-Expand with empty info to 32 bytes.
pub fn create_encrypt_key(sk: &SecretKey, pk: &PublicKey, session_id: Uuid) -> (r: Result<
    AeadKey,
    CryptoError,
>)
    ensures
        match r {
            Ok(key) => session_key(sk@, pk@, session_id@) == Some(key@) && key@.len() == KEY_LEN,
            Err(e) => session_key(sk@, pk@, session_id@) is None && e == CryptoError::KeyDerivation,
        },
{
    let shared = match diffie_hellman(sk.scalar.expose(), pk.sec1.as_slice()) {
        Some(shared) => shared,
        None => {
            return Err(CryptoError::KeyDerivation);
        },
    };
    match hkdf_expand(shared.expose(), session_id.as_bytes().as_slice(), KEY_LEN) {
        Some(key) => Ok(AeadKey { key }),
        None => Err(CryptoError::KeyDerivation),
    }
}

/// The message nonce for a context: the first 12 bytes of its BLAKE3 digest.
pub open spec fn msg_nonce(context: Seq<u8>) -> Seq<u8> {
    blake3_digest(context).subrange(0, 12)
}

/// Derives the 96-bit message nonce from context bytes.
pub fn derive_msg_nonce(data: &[u8]) -> (nonce: [u8; 12])
    ensures
        nonce@ == msg_nonce(data@),
{
    let hash = blake3_hash(data);
    let mut nonce = [0u8; 12];
    let mut i: usize = 0;
    while i < 12
        invariant
            i <= 12,
            forall|j: int| 0 <= j < i ==> nonce@[j] == hash@[j],
        decreases 12 - i,
    {
        nonce[i] = hash[i];
        i += 1;
    }
    assert(nonce@ =~= hash@.subrange(0, 12));
    nonce
}

impl AeadKey {
    /// Encrypts `plaintext` under `nonce`. What comes out opens again, under
    /// the same key and nonce, to `plaintext`.
    pub fn encrypt(&self, nonce: &[u8; 12], plaintext: &[u8]) -> (r: Result<Vec<u8>, CryptoError>)
        ensures
            match r {
                Ok(c) => aead_seal(self@, nonce@, plaintext@) == Some(c@) && aead_open(
                    self@,
                    nonce@,
                    c@,
                ) == Some(plaintext@),
                Err(e) => aead_seal(self@, nonce@, plaintext@) is None && e == CryptoError::Encrypt,
            },
    {
        match seal_bytes(self.key.expose(), nonce, plaintext) {
            Some(c) => Ok(c),
            None => Err(CryptoError::Encrypt),
        }
    }

    /// Decrypts `ciphertext` under `nonce`; fails where it does not
    /// authenticate.
    pub fn decrypt(&self, nonce: &[u8; 12], ciphertext: &[u8]) -> (r: Result<Vec<u8>, CryptoError>)
        ensures
            match r {
                Ok(p) => aead_open(self@, nonce@, ciphertext@) == Some(p@),
                Err(e) => aead_open(self@, nonce@, ciphertext@) is None && e
                    == CryptoError::Decrypt,
            },
    {
        match open_bytes(self.key.expose(), nonce, ciphertext) {
            Some(p) => Ok(p),
            None => Err(CryptoError::Decrypt),
        }
    }
}

/// The key that hexadecimal text stands for: the text decodes to bytes and
/// the bytes are the SEC1 encoding of a key.
pub open spec fn key_of_hex(text: Seq<char>) -> Option<Seq<u8>> {
    match hex_decode(text) {
        Some(bytes) => sec1_compressed(bytes),
        None => None,
    }
}

/// The hexadecimal text of a key reads back as the key that its bytes
/// stand for.
pub proof fn lemma_key_hex_round_trip(key: Seq<u8>)
    ensures
        key_of_hex(hex_upper(key)) == sec1_compressed(key),
{
    lemma_hex_round_trip(key);
}

/// The hexadecimal text of a key: its compressed SEC1 encoding in uppercase
/// digits.
pub fn pk_to_hex(pk: &PublicKey) -> (text: String)
    ensures
        text@ == hex_upper(pk@),
{
    encode_upper(pk.sec1.as_slice())
}

/// Decodes hexadecimal text to a SEC1 point and the point to a key.
pub fn pk_from_hex(pk_hex: &str) -> (r: Result<PublicKey, CryptoError>)
    ensures
        match r {
            Ok(key) => key_of_hex(pk_hex@) == Some(key@),
            Err(CryptoError::InvalidHex) => hex_decode(pk_hex@) is None,
            Err(CryptoError::InvalidPublicKey) => hex_decode(pk_hex@) is Some && key_of_hex(pk_hex@)
                is None,
            Err(_) => false,
        },
{
    let pk_bytes = match decode(pk_hex) {
        Some(bytes) => bytes,
        None => {
            return Err(CryptoError::InvalidHex);
        },
    };
    PublicKey::from_sec1_bytes(pk_bytes.as_slice())
}

} // verus!
