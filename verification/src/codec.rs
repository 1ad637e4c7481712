//! Message bodies and file contents as they travel: encrypted under the
//! chat key, framed with their nonce, and written as base64 text.

use crate::crypto::{
    decryption, framing, frames_plaintext, max_sealed_len, Crypto, CryptoError, NONCE_LEN,
};
use base64::engine::general_purpose::STANDARD;
use base64::Engine;
use vstd::prelude::*;
use vstd::utf8::{decode_utf8, encode_utf8, valid_utf8};

verus! {

broadcast use vstd::utf8::encode_utf8_valid_utf8, vstd::utf8::encode_utf8_decode_utf8;

/// The character of the standard base64 alphabet for the six bits `v`:
/// `A`–`Z`, `a`–`z`, `0`–`9`, `+`, `/`.
pub open spec fn base64_char(v: int) -> char {
    if v < 26 {
        (65 + v) as char
    } else if v < 52 {
        (71 + v) as char
    } else if v < 62 {
        (v - 4) as char
    } else if v == 62 {
        '+'
    } else {
        '/'
    }
}

/// The standard base64 text, with padding, of `bytes` (what the `base64`
/// crate's standard engine writes): each three bytes as four characters of
/// six bits each, the last one or two bytes padded with `=`.
pub open spec fn base64_encoding(bytes: Seq<u8>) -> Seq<char>
    decreases bytes.len(),
{
    if bytes.len() == 0 {
        seq![]
    } else if bytes.len() == 1 {
        let b0 = bytes[0] as int;
        seq![base64_char(b0 / 4), base64_char((b0 % 4) * 16), '=', '=']
    } else if bytes.len() == 2 {
        let b0 = bytes[0] as int;
        let b1 = bytes[1] as int;
        seq![base64_char(b0 / 4), base64_char((b0 % 4) * 16 + b1 / 16), base64_char((b1 % 16) * 4), '=']
    } else {
        let b0 = bytes[0] as int;
        let b1 = bytes[1] as int;
        let b2 = bytes[2] as int;
        seq![
            base64_char(b0 / 4),
            base64_char((b0 % 4) * 16 + b1 / 16),
            base64_char((b1 % 16) * 4 + b2 / 64),
            base64_char(b2 % 64),
        ] + base64_encoding(bytes.skip(3))
    }
}

/// What the `base64` crate's standard engine reads from `text`: the bytes,
/// or, where it refuses, the text of its `DecodeError`.
pub uninterp spec fn base64_decoding(text: Seq<char>) -> Result<Seq<u8>, Seq<char>>;

/// What `String::from_utf8_lossy` makes of `bytes`.
pub uninterp spec fn utf8_lossy(bytes: Seq<u8>) -> Seq<char>;

/// `base64::engine::general_purpose::STANDARD.encode`: the standard base64
/// text of the bytes.
#[verifier::external_body]
fn base64_encode(bytes: &[u8]) -> (r: String)
    ensures
        r@ == base64_encoding(bytes@),
{
    STANDARD.encode(bytes)
}

/// `base64::engine::general_purpose::STANDARD.decode`, with the decoder's
/// error made text: the named reading; the standard engine reads back
/// exactly the bytes that it wrote.
#[verifier::external_body]
fn base64_decode(text: &str) -> (r: Result<Vec<u8>, String>)
    ensures
        match r {
            Ok(bytes) => base64_decoding(text@) == Ok::<Seq<u8>, Seq<char>>(bytes@),
            Err(e) => base64_decoding(text@) == Err::<Seq<u8>, Seq<char>>(e@),
        },
        forall|bytes: Seq<u8>| base64_encoding(bytes) == text@ ==> r is Ok && r->Ok_0@ == bytes,
{
    STANDARD.decode(text).map_err(|e| e.to_string())
}

/// `String::from_utf8_lossy`, made an owned `String`: the named text, which
/// for valid UTF-8 is the text that the bytes encode.
#[verifier::external_body]
fn lossy_text(bytes: &[u8]) -> (r: String)
    ensures
        r@ == utf8_lossy(bytes@),
        valid_utf8(bytes@) ==> r@ == decode_utf8(bytes@),
{
    String::from_utf8_lossy(bytes).to_string()
}

/// `content` is the base64 text of a frame that seals `data` under `key`.
pub open spec fn seals(key: Seq<u8>, content: Seq<char>, data: Seq<u8>) -> bool {
    exists|framed: Seq<u8>|
        content == base64_encoding(framed) && #[trigger] frames_plaintext(key, framed, data)
}

/// Why a body could not be read back.
#[derive(Debug, PartialEq, Eq)]
pub enum Unsealing {
    /// The text is not base64; the decoder's message.
    Base64(String),
    /// The decoded frame does not decrypt.
    Decryption(CryptoError),
}

impl Unsealing {
    /// The message shown to the user.
    pub fn text(&self) -> (r: String)
        ensures
            match self {
                Unsealing::Base64(e) => r@ == "Base64 decode error: "@ + e@,
                Unsealing::Decryption(e) => r@ == "Decryption error: "@ + e.spec_text(),
            },
    {
        match self {
            Unsealing::Base64(e) => crate::text::join2("Base64 decode error: ", e.as_str()),
            Unsealing::Decryption(e) => {
                let t = e.text();
                crate::text::join2("Decryption error: ", t.as_str())
            },
        }
    }
}

/// What reading back the body `content` under `key` gives.
pub open spec fn unsealing(key: Seq<u8>, content: Seq<char>, r: Result<Vec<u8>, Unsealing>) -> bool {
    match base64_decoding(content) {
        Err(message) => r matches Err(Unsealing::Base64(e)) && e@ == message,
        Ok(framed) => match decryption(key, framed) {
            Ok(plain) => r is Ok && r->Ok_0@ == plain,
            Err(e) => r == Err::<Vec<u8>, Unsealing>(Unsealing::Decryption(e)),
        },
    }
}

/// The text that reading back the body `content` under `key` gives, if any.
pub open spec fn opened_text(key: Seq<u8>, content: Seq<char>) -> Option<Seq<char>> {
    match base64_decoding(content) {
        Err(_) => None,
        Ok(framed) => match decryption(key, framed) {
            Ok(plain) => Some(utf8_lossy(plain)),
            Err(_) => None,
        },
    }
}

/// The body that sealing `data` under `key` and `nonce` gives: the base64
/// text of the frame, or why there is none.
pub open spec fn sealing(key: Seq<u8>, nonce: Seq<u8>, data: Seq<u8>) -> Result<Seq<char>, CryptoError> {
    match framing(key, nonce, data) {
        Ok(framed) => Ok(base64_encoding(framed)),
        Err(e) => Err(e),
    }
}

/// A result of text, taken by its view.
pub open spec fn text_result(r: Result<String, CryptoError>) -> Result<Seq<char>, CryptoError> {
    match r {
        Ok(t) => Ok(t@),
        Err(e) => Err(e),
    }
}

/// `sealed` is an outcome that sealing `data` under `key` with a fresh nonce
/// can have: no nonce could be drawn, or it is the sealing under some nonce;
/// data within ring's limit is never refused.
pub open spec fn sealing_outcome(key: Seq<u8>, data: Seq<u8>, sealed: Result<String, CryptoError>) -> bool {
    &&& sealed == Err::<String, CryptoError>(CryptoError::NonceUnavailable) || exists|nonce: Seq<u8>|
        nonce.len() == NONCE_LEN && text_result(sealed) == #[trigger] sealing(key, nonce, data)
    &&& data.len() <= max_sealed_len() ==> sealed is Ok || sealed == Err::<String, CryptoError>(
        CryptoError::NonceUnavailable,
    )
    &&& sealed matches Ok(content) ==> seals(key, content@, data)
}

/// Encrypts `data` under `key` and writes the frame as base64 text.
pub fn seal_bytes(crypto: &Crypto, key: &[u8; 32], data: &[u8]) -> (r: Result<String, CryptoError>)
    ensures
        sealing_outcome(key@, data@, r),
{
    match crypto.encrypt(key, data) {
        Ok(framed) => {
            let content = base64_encode(framed.as_slice());
            assert(frames_plaintext(key@, framed@, data@));
            proof {
                let nonce = choose|nonce: Seq<u8>|
                    nonce.len() == NONCE_LEN && crate::crypto::bytes_result(Ok(framed))
                        == #[trigger] framing(key@, nonce, data@);
                assert(text_result(Ok(content)) == sealing(key@, nonce, data@));
            }
            Ok(content)
        },
        Err(e) => {
            proof {
                if e != CryptoError::NonceUnavailable {
                    let nonce = choose|nonce: Seq<u8>|
                        nonce.len() == NONCE_LEN && crate::crypto::bytes_result(
                            Err::<Vec<u8>, CryptoError>(e),
                        ) == #[trigger] framing(key@, nonce, data@);
                    assert(text_result(Err(e)) == sealing(key@, nonce, data@));
                }
            }
            Err(e)
        },
    }
}

/// Encrypts the UTF-8 bytes of `text` under `key`, as base64 text.
pub fn seal_text(crypto: &Crypto, key: &[u8; 32], text: &str) -> (r: Result<String, CryptoError>)
    ensures
        sealing_outcome(key@, encode_utf8(text@), r),
{
    seal_bytes(crypto, key, text.as_bytes())
}

/// Reads back a body written by [`seal_bytes`]: what was sealed under `key`
/// reads back under `key` as the bytes that were sealed.
pub fn open_bytes(crypto: &Crypto, key: &[u8; 32], content: &str) -> (r: Result<Vec<u8>, Unsealing>)
    ensures
        unsealing(key@, content@, r),
        forall|data: Seq<u8>| seals(key@, content@, data) ==> r is Ok && r->Ok_0@ == data,
{
    match base64_decode(content) {
        Err(e) => {
            proof {
                assert forall|data: Seq<u8>| !seals(key@, content@, data) by {
                    if seals(key@, content@, data) {
                        let framed = choose|framed: Seq<u8>|
                            content@ == base64_encoding(framed) && #[trigger] frames_plaintext(
                                key@,
                                framed,
                                data,
                            );
                        assert(frames_plaintext(key@, framed, data));
                    }
                }
            }
            Err(Unsealing::Base64(e))
        },
        Ok(framed) => {
            let r = match crypto.decrypt(key, framed.as_slice()) {
                Ok(plain) => Ok(plain),
                Err(e) => Err(Unsealing::Decryption(e)),
            };
            proof {
                assert forall|data: Seq<u8>| seals(key@, content@, data) implies r is Ok && r->Ok_0@
                    == data by {
                    let f = choose|f: Seq<u8>|
                        content@ == base64_encoding(f) && #[trigger] frames_plaintext(key@, f, data);
                    assert(f == framed@);
                }
            }
            r
        },
    }
}

/// Reads back a text written by [`seal_text`], decoding its bytes as UTF-8
/// and putting U+FFFD where they are not: a text sealed under `key` reads
/// back under `key` as itself.
pub fn open_text(crypto: &Crypto, key: &[u8; 32], content: &str) -> (r: Result<String, Unsealing>)
    ensures
        match base64_decoding(content@) {
            Err(message) => r matches Err(Unsealing::Base64(e)) && e@ == message,
            Ok(framed) => match decryption(key@, framed) {
                Ok(plain) => r is Ok && r->Ok_0@ == utf8_lossy(plain),
                Err(e) => r == Err::<String, Unsealing>(Unsealing::Decryption(e)),
            },
        },
        forall|text: Seq<char>| seals(key@, content@, encode_utf8(text)) ==> r is Ok && r->Ok_0@ == text,
{
    match open_bytes(crypto, key, content) {
        Ok(plain) => {
            let t = lossy_text(plain.as_slice());
            proof {
                assert forall|text: Seq<char>| seals(key@, content@, encode_utf8(text)) implies t@ == text by {
                    assert(plain@ == encode_utf8(text));
                }
            }
            Ok(t)
        },
        Err(e) => Err(e),
    }
}

} // verus!
