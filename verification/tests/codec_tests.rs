use chat_application::codec::{open_bytes, open_text, seal_bytes, seal_text, Unsealing};
use chat_application::crypto::{Crypto, CryptoError};
use base64::Engine;

#[test]
fn sealed_text_opens_as_itself() {
    let crypto = Crypto::new();
    let key = [11u8; 32];
    for text in ["hello", "", "Grüße, 世界 🌍"] {
        let content = seal_text(&crypto, &key, text).unwrap();
        assert_eq!(open_text(&crypto, &key, &content).unwrap(), text);
    }
}

#[test]
fn sealed_bytes_open_as_themselves() {
    let crypto = Crypto::new();
    let key = [12u8; 32];
    let data = vec![0u8, 255, 10, 13, 128];
    let content = seal_bytes(&crypto, &key, &data).unwrap();
    assert_eq!(open_bytes(&crypto, &key, &content).unwrap(), data);
}

#[test]
fn sealed_body_is_base64_of_the_frame() {
    let crypto = Crypto::new();
    let content = seal_text(&crypto, &[0u8; 32], "x").unwrap();
    // 12 + 1 + 16 = 29 bytes, written as 40 base64 characters with padding.
    assert_eq!(content.len(), 40);
    assert!(content.ends_with('='));
}

#[test]
fn open_text_reports_bad_base64() {
    let crypto = Crypto::new();
    match open_text(&crypto, &[0u8; 32], "not base64!") {
        Err(Unsealing::Base64(e)) => {
            assert!(Unsealing::Base64(e).text().starts_with("Base64 decode error: "));
        }
        other => panic!("unexpected {:?}", other),
    }
}

#[test]
fn open_text_reports_a_short_frame() {
    let crypto = Crypto::new();
    // "AAAA" is three zero bytes.
    assert_eq!(
        open_text(&crypto, &[0u8; 32], "AAAA"),
        Err(Unsealing::Decryption(CryptoError::TooShort))
    );
    assert_eq!(
        Unsealing::Decryption(CryptoError::TooShort).text(),
        "Decryption error: Invalid data length: too short"
    );
}

#[test]
fn open_text_reports_the_wrong_key() {
    let crypto = Crypto::new();
    let content = seal_text(&crypto, &[1u8; 32], "secret").unwrap();
    assert_eq!(
        open_text(&crypto, &[2u8; 32], &content),
        Err(Unsealing::Decryption(CryptoError::DecryptionFailed))
    );
}

#[test]
fn open_text_replaces_invalid_utf8() {
    let crypto = Crypto::new();
    let key = [5u8; 32];
    let content = seal_bytes(&crypto, &key, &[0x66, 0xff, 0x6f]).unwrap();
    assert_eq!(open_text(&crypto, &key, &content).unwrap(), "f\u{fffd}o");
}

#[test]
fn open_text_gives_the_decoders_message() {
    let crypto = Crypto::new();
    let expected = base64::engine::general_purpose::STANDARD.decode("not base64!").unwrap_err().to_string();
    assert_eq!(
        open_text(&crypto, &[0u8; 32], "not base64!"),
        Err(Unsealing::Base64(expected))
    );
}
