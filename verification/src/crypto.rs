//! AES-256-GCM encryption of message bodies, framed as nonce followed by the
//! sealed bytes (ciphertext with its tag).

use ring::aead::{Aad, LessSafeKey, Nonce, UnboundKey, AES_256_GCM};
use ring::rand::{SecureRandom, SystemRandom};
use vstd::prelude::*;

verus! {

#[verifier::external_type_specification]
#[verifier::external_body]
pub struct ExSystemRandom(SystemRandom);

#[verifier::external_type_specification]
#[verifier::external_body]
pub struct ExUnspecified(ring::error::Unspecified);

/// Length in bytes of an AES-GCM nonce; every framed ciphertext starts with one.
pub const NONCE_LEN: usize = 12;

/// What ring's AES-256-GCM returns when it seals `plaintext` under `key` and
/// `nonce` with empty associated data: `None` where ring refuses.
pub uninterp spec fn aes_256_gcm_seal(key: Seq<u8>, nonce: Seq<u8>, plaintext: Seq<u8>) -> Option<Seq<u8>>;

/// What ring's AES-256-GCM returns when it opens `sealed` (ciphertext and tag)
/// under `key` and `nonce` with empty associated data: `None` where the tag
/// does not authenticate or ring refuses.
pub uninterp spec fn aes_256_gcm_open(key: Seq<u8>, nonce: Seq<u8>, sealed: Seq<u8>) -> Option<Seq<u8>>;

/// The longest plaintext, in bytes, that ring's AES-GCM seals under one
/// nonce: its 32-bit block counter leaves room for `2^32 - 2` blocks of 16
/// bytes (on a 32-bit machine every slice is shorter than this).
pub open spec fn max_sealed_len() -> int {
    0xF_FFFF_FFE0
}

/// Length in bytes of the tag that AES-GCM appends to the ciphertext.
pub open spec fn tag_len() -> int {
    16
}

/// The frame that sealing `plaintext` under `key` and `nonce` gives: the
/// nonce followed by the ciphertext and its tag, or why there is none.
pub open spec fn framing(key: Seq<u8>, nonce: Seq<u8>, plaintext: Seq<u8>) -> Result<Seq<u8>, CryptoError> {
    match aes_256_gcm_seal(key, nonce, plaintext) {
        Some(sealed) => Ok(nonce + sealed),
        None => Err(CryptoError::EncryptionFailed),
    }
}

/// A result of bytes, taken by its view.
pub open spec fn bytes_result(r: Result<Vec<u8>, CryptoError>) -> Result<Seq<u8>, CryptoError> {
    match r {
        Ok(v) => Ok(v@),
        Err(e) => Err(e),
    }
}

/// `framed` is a nonce followed by the AES-256-GCM sealing of `plaintext`
/// under `key` and that nonce.
pub open spec fn frames_plaintext(key: Seq<u8>, framed: Seq<u8>, plaintext: Seq<u8>) -> bool {
    &&& framed.len() >= NONCE_LEN
    &&& aes_256_gcm_seal(key, framed.take(NONCE_LEN as int), plaintext) == Some(
        framed.skip(NONCE_LEN as int),
    )
}

/// What decrypting the frame `framed` under `key` gives: the plaintext, or
/// why there is none.
pub open spec fn decryption(key: Seq<u8>, framed: Seq<u8>) -> Result<Seq<u8>, CryptoError> {
    if framed.len() < NONCE_LEN {
        Err(CryptoError::TooShort)
    } else {
        match aes_256_gcm_open(key, framed.take(NONCE_LEN as int), framed.skip(NONCE_LEN as int)) {
            Some(plain) => Ok(plain),
            None => Err(CryptoError::DecryptionFailed),
        }
    }
}

/// Why an encryption or a decryption did not happen.
#[derive(PartialEq, Eq, Structural, Clone, Copy, Debug)]
pub enum CryptoError {
    /// The system random source could not provide a nonce.
    NonceUnavailable,
    /// ring refused to build the key or to seal the data.
    EncryptionFailed,
    /// The framed data is shorter than a nonce.
    TooShort,
    /// ring refused to build the key, or the data does not authenticate.
    DecryptionFailed,
}

impl CryptoError {
    /// The error's message, as the user sees it.
    pub fn text(&self) -> (r: String)
        ensures
            r@ == self.spec_text(),
    {
        match self {
            CryptoError::NonceUnavailable => String::from_str(
                "Failed to generate nonce: ring::error::Unspecified",
            ),
            CryptoError::EncryptionFailed => String::from_str(
                "Encryption failed: ring::error::Unspecified",
            ),
            CryptoError::TooShort => String::from_str("Invalid data length: too short"),
            CryptoError::DecryptionFailed => String::from_str(
                "Decryption failed: ring::error::Unspecified",
            ),
        }
    }

    pub open spec fn spec_text(&self) -> Seq<char> {
        match self {
            CryptoError::NonceUnavailable => "Failed to generate nonce: ring::error::Unspecified"@,
            CryptoError::EncryptionFailed => "Encryption failed: ring::error::Unspecified"@,
            CryptoError::TooShort => "Invalid data length: too short"@,
            CryptoError::DecryptionFailed => "Decryption failed: ring::error::Unspecified"@,
        }
    }
}

/// `ring::rand::SystemRandom::new`: nothing is promised of the source.
pub assume_specification[ SystemRandom::new ]() -> SystemRandom;

/// `ring::rand::SecureRandom::fill` on the system source: on success the
/// bytes come from the operating system; which bytes, and whether the call
/// succeeds, rests on the machine, so nothing more is stated. It reports a
/// failure of the source as an error and does not panic.
#[verifier::external_body]
pub(crate) fn fill_random<const N: usize>(rng: &SystemRandom, dest: &mut [u8; N]) -> (r: Result<(), ring::error::Unspecified>) {
    rng.fill(dest)
}

/// ring's `UnboundKey::new(&AES_256_GCM, key)`, `LessSafeKey::new` and
/// `LessSafeKey::seal_in_place_append_tag` with empty associated data: the
/// result is the named sealing, and ring appends a tag of 16 bytes to the
/// ciphertext, which is as long as the plaintext. A 32-byte key is always
/// accepted, and ring refuses to seal only a plaintext longer than its limit.
#[verifier::external_body]
fn seal_in_place(key: &[u8; 32], nonce: &[u8; 12], plaintext: &[u8]) -> (r: Result<Vec<u8>, ring::error::Unspecified>)
    ensures
        match r {
            Ok(sealed) => aes_256_gcm_seal(key@, nonce@, plaintext@) == Some(sealed@)
                && sealed@.len() == plaintext@.len() + tag_len(),
            Err(_) => aes_256_gcm_seal(key@, nonce@, plaintext@) is None,
        },
        plaintext@.len() <= max_sealed_len() ==> r is Ok,
{
    let key = LessSafeKey::new(UnboundKey::new(&AES_256_GCM, key)?);
    let mut in_out = plaintext.to_vec();
    key.seal_in_place_append_tag(Nonce::assume_unique_for_key(*nonce), Aad::empty(), &mut in_out)?;
    Ok(in_out)
}

/// ring's `UnboundKey::new(&AES_256_GCM, key)`, `LessSafeKey::new` and
/// `LessSafeKey::open_in_place` with empty associated data: the result is the
/// named opening, and, as for every AEAD, what was sealed under a key and a
/// nonce opens under them to the plaintext that was sealed, and only what
/// seals back to the given bytes under them opens (the tag is checked and
/// the cipher is a keystream). Sealed bytes shorter than the tag never open.
#[verifier::external_body]
fn open_in_place(key: &[u8; 32], nonce: &[u8; 12], sealed: &[u8]) -> (r: Result<Vec<u8>, ring::error::Unspecified>)
    ensures
        match r {
            Ok(plain) => aes_256_gcm_open(key@, nonce@, sealed@) == Some(plain@),
            Err(_) => aes_256_gcm_open(key@, nonce@, sealed@) is None,
        },
        r matches Ok(plain) ==> aes_256_gcm_seal(key@, nonce@, plain@) == Some(sealed@),
        sealed@.len() < tag_len() ==> r is Err,
        forall|p: Seq<u8>|
            aes_256_gcm_seal(key@, nonce@, p) == Some(sealed@) ==> r is Ok && r->Ok_0@ == p,
{
    let key = LessSafeKey::new(UnboundKey::new(&AES_256_GCM, key)?);
    let mut in_out = sealed.to_vec();
    let plain = key.open_in_place(Nonce::assume_unique_for_key(*nonce), Aad::empty(), &mut in_out)?;
    Ok(plain.to_vec())
}

/// The frame `nonce ++ sealed`.
pub fn frame(nonce: &[u8; 12], sealed: &Vec<u8>) -> (r: Vec<u8>)
    ensures
        r@ == nonce@ + sealed@,
{
    let mut r: Vec<u8> = Vec::new();
    let mut i: usize = 0;
    while i < 12
        invariant
            i <= 12,
            r@ == nonce@.take(i as int),
        decreases 12 - i,
    {
        r.push(nonce[i]);
        i = i + 1;
        assert(r@ == nonce@.take(i as int));
    }
    let mut j: usize = 0;
    while j < sealed.len()
        invariant
            j <= sealed@.len(),
            r@ == nonce@ + sealed@.take(j as int),
        decreases sealed@.len() - j,
    {
        r.push(sealed[j]);
        j = j + 1;
        assert(r@ == nonce@ + sealed@.take(j as int));
    }
    assert(sealed@.take(sealed@.len() as int) == sealed@);
    r
}

/// Splits a frame into its nonce and the sealed bytes after it; `None` when
/// the frame is shorter than a nonce.
pub fn unframe(data: &[u8]) -> (r: Option<([u8; 12], Vec<u8>)>)
    ensures
        data@.len() < NONCE_LEN ==> r is None,
        data@.len() >= NONCE_LEN ==> (r matches Some((nonce, sealed)) && nonce@ == data@.take(
            NONCE_LEN as int,
        ) && sealed@ == data@.skip(NONCE_LEN as int)),
{
    if data.len() < 12 {
        return None;
    }
    let mut nonce: [u8; 12] = [0u8; 12];
    let mut i: usize = 0;
    while i < 12
        invariant
            i <= 12,
            data@.len() >= 12,
            forall|k: int| 0 <= k < i ==> nonce@[k] == data@[k],
        decreases 12 - i,
    {
        nonce[i] = data[i];
        i = i + 1;
    }
    assert(nonce@ == data@.take(12));
    let mut sealed: Vec<u8> = Vec::new();
    let mut j: usize = 12;
    while j < data.len()
        invariant
            12 <= j <= data@.len(),
            sealed@ == data@.subrange(12, j as int),
        decreases data@.len() - j,
    {
        sealed.push(data[j]);
        j = j + 1;
        assert(sealed@ == data@.subrange(12, j as int));
    }
    Some((nonce, sealed))
}

/// The encryptor: a handle on the operating system's random source, from
/// which each encryption draws a fresh nonce.
pub struct Crypto {
    rng: SystemRandom,
}

impl Crypto {
    pub fn new() -> (r: Crypto) {
        Crypto { rng: SystemRandom::new() }
    }

    /// Seals `data` under `key` and the given nonce and frames the result:
    /// the deterministic half of [`Crypto::encrypt`].
    pub fn seal_with_nonce(key: &[u8; 32], nonce: &[u8; 12], data: &[u8]) -> (r: Result<
        Vec<u8>,
        CryptoError,
    >)
        ensures
            bytes_result(r) == framing(key@, nonce@, data@),
            r matches Ok(framed) ==> frames_plaintext(key@, framed@, data@) && framed@.len()
                == NONCE_LEN + data@.len() + tag_len(),
            data@.len() <= max_sealed_len() ==> r is Ok,
    {
        match seal_in_place(key, nonce, data) {
            Ok(sealed) => {
                let framed = frame(nonce, &sealed);
                assert(framed@.take(NONCE_LEN as int) == nonce@);
                assert(framed@.skip(NONCE_LEN as int) == sealed@);
                Ok(framed)
            },
            Err(_) => Err(CryptoError::EncryptionFailed),
        }
    }

    /// Encrypts `data` under `key` with a fresh nonce from the system source
    /// and returns the nonce followed by the ciphertext and its tag: what
    /// [`Crypto::seal_with_nonce`] gives for the nonce drawn, unless none
    /// could be drawn.
    pub fn encrypt(&self, key: &[u8; 32], data: &[u8]) -> (r: Result<Vec<u8>, CryptoError>)
        ensures
            r == Err::<Vec<u8>, CryptoError>(CryptoError::NonceUnavailable) || exists|nonce: Seq<u8>|
                nonce.len() == NONCE_LEN && bytes_result(r) == #[trigger] framing(key@, nonce, data@),
            r matches Ok(framed) ==> frames_plaintext(key@, framed@, data@) && framed@.len()
                == NONCE_LEN + data@.len() + tag_len(),
            data@.len() <= max_sealed_len() ==> r is Ok || r == Err::<Vec<u8>, CryptoError>(
                CryptoError::NonceUnavailable,
            ),
    {
        let mut nonce: [u8; 12] = [0u8; 12];
        match fill_random(&self.rng, &mut nonce) {
            Err(_) => Err(CryptoError::NonceUnavailable),
            Ok(()) => {
                let r = Self::seal_with_nonce(key, &nonce, data);
                assert(nonce@.len() == NONCE_LEN && bytes_result(r) == framing(key@, nonce@, data@));
                r
            },
        }
    }

    /// Decrypts a frame made by [`Crypto::encrypt`]: what was encrypted under
    /// `key` decrypts under `key` to the data that was encrypted.
    pub fn decrypt(&self, key: &[u8; 32], data: &[u8]) -> (r: Result<Vec<u8>, CryptoError>)
        ensures
            match decryption(key@, data@) {
                Ok(plain) => r is Ok && r->Ok_0@ == plain,
                Err(e) => r == Err::<Vec<u8>, CryptoError>(e),
            },
            forall|p: Seq<u8>|
                frames_plaintext(key@, data@, p) ==> (r matches Ok(plain) && plain@ == p),
            r matches Ok(plain) ==> frames_plaintext(key@, data@, plain@),
            (forall|p: Seq<u8>| !frames_plaintext(key@, data@, p)) ==> r is Err,
            NONCE_LEN <= data@.len() < NONCE_LEN + tag_len() ==> r == Err::<Vec<u8>, CryptoError>(
                CryptoError::DecryptionFailed,
            ),
    {
        match unframe(data) {
            None => Err(CryptoError::TooShort),
            Some((nonce, sealed)) => match open_in_place(key, &nonce, sealed.as_slice()) {
                Ok(plain) => Ok(plain),
                Err(_) => Err(CryptoError::DecryptionFailed),
            },
        }
    }
}

} // verus!
