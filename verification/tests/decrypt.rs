use aes_gcm::aead::{Aead, KeyInit};
use aes_gcm::{Aes256Gcm, Nonce};
use base64::engine::general_purpose::STANDARD;
use base64::Engine;
use story_crypto::decrypt::{
    decrypt_story_content, decrypt_with_key, open_envelope_bytes, STORY_KEY,
};
use story_crypto::error::DecryptError;

const HELLO_ENVELOPE: &str = "AAECAwQFBgcICQoLIn4nXQpxJg3quWaOQt6b1CE1bpsJGhfbN9L5";
const EMPTY_ENVELOPE: &str = "AAECAwQFBgcICQoL7zcug5vFSjH0xahsd45cxw==";
const OTHER_KEY_ENVELOPE: &str = "AAECAwQFBgcICQoLBTAcVkN+I3e5jvOWHCcZKC9nuneqxbV0/y3z";
const NOT_TEXT_ENVELOPE: &str = "AAECAwQFBgcICQoL0t/O13B/wOsAa47JzCEHObauAnc=";
const UNICODE_ENVELOPE: &str =
    "oKGio6SlpqeoqaqrlAt0+Vq6FtEf8tZdBqo1j+ul2ckt3s/LqTv0+YAahDqUYMy+dmWbv5lC";

const HELLO_BYTES: [u8; 39] = [
    0x00, 0x01, 0x02, 0x03, 0x04, 0x05, 0x06, 0x07, 0x08, 0x09, 0x0a, 0x0b, 0x22, 0x7e, 0x27, 0x5d,
    0x0a, 0x71, 0x26, 0x0d, 0xea, 0xb9, 0x66, 0x8e, 0x42, 0xde, 0x9b, 0xd4, 0x21, 0x35, 0x6e, 0x9b,
    0x09, 0x1a, 0x17, 0xdb, 0x37, 0xd2, 0xf9,
];

/// Packs nonce, tag and ciphertext as a producer does.
fn seal_bytes(key: &[u8], nonce: &[u8; 12], text: &[u8]) -> Vec<u8> {
    let cipher = Aes256Gcm::new_from_slice(key).unwrap();
    let sealed = cipher.encrypt(Nonce::from_slice(nonce), text).unwrap();
    let (ciphertext, tag) = sealed.split_at(sealed.len() - 16);
    let mut bytes = nonce.to_vec();
    bytes.extend_from_slice(tag);
    bytes.extend_from_slice(ciphertext);
    bytes
}

fn seal(key: &[u8], nonce: &[u8; 12], text: &str) -> String {
    STANDARD.encode(seal_bytes(key, nonce, text.as_bytes()))
}

#[test]
fn story_key_is_the_shared_secret() {
    assert_eq!(&STORY_KEY, b"B4rd0Eng1n3_S3cr3t_K3y_2024_!@#$");
    assert_eq!(STORY_KEY.len(), 32);
}

#[test]
fn hello_world_under_the_counting_nonce() {
    let nonce: [u8; 12] = [0, 1, 2, 3, 4, 5, 6, 7, 8, 9, 10, 11];
    let envelope = seal(&STORY_KEY, &nonce, "hello world");
    assert_eq!(envelope, HELLO_ENVELOPE);
    assert_eq!(decrypt_story_content(&envelope), Ok("hello world".to_string()));
}

#[test]
fn known_envelope_decrypts() {
    assert_eq!(
        decrypt_story_content(HELLO_ENVELOPE),
        Ok("hello world".to_string())
    );
    assert_eq!(
        decrypt_with_key(&STORY_KEY, HELLO_ENVELOPE),
        Ok("hello world".to_string())
    );
}

#[test]
fn known_bytes_open() {
    assert_eq!(
        open_envelope_bytes(&STORY_KEY, HELLO_BYTES.to_vec()),
        Ok("hello world".to_string())
    );
}

#[test]
fn text_beyond_ascii_decrypts() {
    assert_eq!(
        decrypt_story_content(UNICODE_ENVELOPE),
        Ok("Il était une fois… 🐉".to_string())
    );
}

#[test]
fn plaintext_is_not_the_ciphertext() {
    let text = decrypt_story_content(HELLO_ENVELOPE).unwrap();
    assert_eq!(text.len(), HELLO_BYTES.len() - 28);
    assert_ne!(text.as_bytes(), &HELLO_BYTES[28..]);
}

#[test]
fn round_trip_over_texts_and_nonces() {
    let texts = [
        "",
        "a",
        "hello world",
        "sixteen byte txt",
        "seventeen byte tx",
        "Il était une fois… 🐉",
        "line one\nline two\n\ttabbed \"quoted\" {json: true}",
    ];
    for (round, text) in texts.iter().enumerate() {
        for seed in 0u8..16 {
            let mut nonce = [0u8; 12];
            for (place, byte) in nonce.iter_mut().enumerate() {
                *byte = seed
                    .wrapping_mul(37)
                    .wrapping_add((place as u8).wrapping_mul(11))
                    .wrapping_add(round as u8);
            }
            let envelope = seal(&STORY_KEY, &nonce, text);
            assert_eq!(decrypt_story_content(&envelope), Ok(text.to_string()));
        }
    }
}

#[test]
fn round_trip_of_a_long_text() {
    let text = "Once upon a time. ".repeat(5000);
    let envelope = seal(&STORY_KEY, &[9u8; 12], &text);
    assert_eq!(decrypt_story_content(&envelope), Ok(text));
}

#[test]
fn round_trip_under_a_key_of_the_caller() {
    let key = [0x5au8; 32];
    let envelope = seal(&key, &[1u8; 12], "under another key");
    assert_eq!(
        decrypt_with_key(&key, &envelope),
        Ok("under another key".to_string())
    );
}

#[test]
fn every_flipped_tag_bit_fails_authentication() {
    for index in 12..28 {
        for bit in 0..8 {
            let mut bytes = HELLO_BYTES.to_vec();
            bytes[index] ^= 1 << bit;
            assert_eq!(
                decrypt_story_content(&STANDARD.encode(&bytes)),
                Err(DecryptError::AuthenticationFailed)
            );
            assert_eq!(
                open_envelope_bytes(&STORY_KEY, bytes),
                Err(DecryptError::AuthenticationFailed)
            );
        }
    }
}

#[test]
fn every_flipped_ciphertext_bit_fails_authentication() {
    for index in 28..HELLO_BYTES.len() {
        for bit in 0..8 {
            let mut bytes = HELLO_BYTES.to_vec();
            bytes[index] ^= 1 << bit;
            assert_eq!(
                decrypt_story_content(&STANDARD.encode(&bytes)),
                Err(DecryptError::AuthenticationFailed)
            );
        }
    }
}

#[test]
fn flipped_bits_of_a_long_envelope_fail_authentication() {
    let text = "The dragon slept beneath the mountain for a hundred years.";
    let bytes = seal_bytes(&STORY_KEY, &[3u8; 12], text.as_bytes());
    assert_eq!(
        open_envelope_bytes(&STORY_KEY, bytes.clone()),
        Ok(text.to_string())
    );
    for index in 12..bytes.len() {
        let mut changed = bytes.clone();
        changed[index] ^= 0x80;
        assert_eq!(
            open_envelope_bytes(&STORY_KEY, changed),
            Err(DecryptError::AuthenticationFailed)
        );
    }
}

#[test]
fn changed_nonce_fails_authentication() {
    let mut bytes = HELLO_BYTES.to_vec();
    bytes[0] ^= 1;
    assert_eq!(
        open_envelope_bytes(&STORY_KEY, bytes),
        Err(DecryptError::AuthenticationFailed)
    );
}

#[test]
fn tag_behind_the_ciphertext_fails_authentication() {
    let mut bytes = HELLO_BYTES[..12].to_vec();
    bytes.extend_from_slice(&HELLO_BYTES[28..]);
    bytes.extend_from_slice(&HELLO_BYTES[12..28]);
    assert_eq!(bytes.len(), HELLO_BYTES.len());
    assert_eq!(
        open_envelope_bytes(&STORY_KEY, bytes),
        Err(DecryptError::AuthenticationFailed)
    );
}

#[test]
fn truncated_ciphertext_fails_authentication() {
    let bytes = HELLO_BYTES[..HELLO_BYTES.len() - 1].to_vec();
    assert_eq!(
        open_envelope_bytes(&STORY_KEY, bytes),
        Err(DecryptError::AuthenticationFailed)
    );
}

#[test]
fn envelope_of_another_key_fails_authentication() {
    assert_eq!(
        decrypt_story_content(OTHER_KEY_ENVELOPE),
        Err(DecryptError::AuthenticationFailed)
    );
    let other: Vec<u8> = (0u8..32).collect();
    assert_eq!(
        decrypt_with_key(&other, OTHER_KEY_ENVELOPE),
        Ok("hello world".to_string())
    );
}

#[test]
fn story_envelope_under_another_key_fails_authentication() {
    let mut key = STORY_KEY;
    key[31] ^= 1;
    assert_eq!(
        decrypt_with_key(&key, HELLO_ENVELOPE),
        Err(DecryptError::AuthenticationFailed)
    );
    for seed in 0u8..8 {
        let other = [seed; 32];
        let envelope = seal(&other, &[seed; 12], "sealed elsewhere");
        assert_eq!(
            decrypt_story_content(&envelope),
            Err(DecryptError::AuthenticationFailed)
        );
    }
}

#[test]
fn twenty_seven_bytes_are_malformed() {
    let text = "AAECAwQFBgcICQoLIn4nXQpxJg3quWaOQt6b";
    assert_eq!(STANDARD.decode(text).unwrap().len(), 27);
    assert_eq!(decrypt_story_content(text), Err(DecryptError::Malformed));
    assert_eq!(
        open_envelope_bytes(&STORY_KEY, HELLO_BYTES[..27].to_vec()),
        Err(DecryptError::Malformed)
    );
}

#[test]
fn twenty_eight_bytes_open_to_the_empty_text() {
    assert_eq!(STANDARD.decode(EMPTY_ENVELOPE).unwrap().len(), 28);
    assert_eq!(decrypt_story_content(EMPTY_ENVELOPE), Ok(String::new()));
    let envelope = seal(&STORY_KEY, &[0xabu8; 12], "");
    assert_eq!(decrypt_story_content(&envelope), Ok(String::new()));
}

#[test]
fn twenty_eight_bytes_with_a_foreign_tag_fail_authentication() {
    assert_eq!(
        open_envelope_bytes(&STORY_KEY, HELLO_BYTES[..28].to_vec()),
        Err(DecryptError::AuthenticationFailed)
    );
    assert_eq!(
        open_envelope_bytes(&STORY_KEY, vec![0u8; 28]),
        Err(DecryptError::AuthenticationFailed)
    );
}

#[test]
fn every_short_length_is_malformed() {
    for len in 0..28 {
        assert_eq!(
            open_envelope_bytes(&STORY_KEY, vec![0x41u8; len]),
            Err(DecryptError::Malformed)
        );
        assert_eq!(
            decrypt_story_content(&STANDARD.encode(vec![0x41u8; len])),
            Err(DecryptError::Malformed)
        );
    }
}

#[test]
fn empty_text_is_malformed() {
    assert_eq!(decrypt_story_content(""), Err(DecryptError::Malformed));
}

#[test]
fn appended_marks_are_an_encoding_error() {
    let text = format!("{}!!!", HELLO_ENVELOPE);
    assert_eq!(decrypt_story_content(&text), Err(DecryptError::Encoding));
    assert_eq!(decrypt_story_content("!!!"), Err(DecryptError::Encoding));
}

#[test]
fn characters_outside_the_alphabet_are_an_encoding_error() {
    for foreign in ["!", " ", "\n", "-", "_", "*", "é", "\u{0}", "🐉"] {
        let front = format!("{}{}", foreign, HELLO_ENVELOPE);
        let back = format!("{}{}", HELLO_ENVELOPE, foreign);
        let mut middle = HELLO_ENVELOPE.to_string();
        middle.insert_str(20, foreign);
        assert_eq!(decrypt_story_content(&front), Err(DecryptError::Encoding));
        assert_eq!(decrypt_story_content(&back), Err(DecryptError::Encoding));
        assert_eq!(decrypt_story_content(&middle), Err(DecryptError::Encoding));
    }
}

#[test]
fn missing_or_misplaced_padding_is_an_encoding_error() {
    assert_eq!(
        decrypt_story_content("AAECAwQFBgcICQoL7zcug5vFSjH0xahsd45cxw"),
        Err(DecryptError::Encoding)
    );
    assert_eq!(
        decrypt_story_content("AAECAwQFBgcICQoL7zcug5vFSjH0xahsd45cxw="),
        Err(DecryptError::Encoding)
    );
    assert_eq!(
        decrypt_story_content("AAECAwQFBgcICQoL7zcug5vFSjH0xahsd45c=xw="),
        Err(DecryptError::Encoding)
    );
    assert_eq!(
        decrypt_story_content("AAECAwQFBgcICQoL7zcug5vFSjH0xahsd45cxx=="),
        Err(DecryptError::Encoding)
    );
}

#[test]
fn url_safe_alphabet_is_an_encoding_error() {
    let text = OTHER_KEY_ENVELOPE.replace('+', "-").replace('/', "_");
    assert_ne!(text, OTHER_KEY_ENVELOPE);
    assert_eq!(decrypt_story_content(&text), Err(DecryptError::Encoding));
}

#[test]
fn authentic_bytes_that_are_no_text_are_an_encoding_error() {
    assert_eq!(
        decrypt_story_content(NOT_TEXT_ENVELOPE),
        Err(DecryptError::Encoding)
    );
    let bytes = seal_bytes(&STORY_KEY, &[4u8; 12], &[0xc3, 0x28]);
    assert_eq!(
        open_envelope_bytes(&STORY_KEY, bytes),
        Err(DecryptError::Encoding)
    );
}

#[test]
fn key_of_another_length_is_refused_by_the_cipher() {
    for len in [0usize, 1, 16, 24, 31, 33, 64] {
        let key = vec![0x42u8; len];
        assert_eq!(
            decrypt_with_key(&key, HELLO_ENVELOPE),
            Err(DecryptError::CipherInit)
        );
        assert_eq!(
            open_envelope_bytes(&key, HELLO_BYTES.to_vec()),
            Err(DecryptError::CipherInit)
        );
    }
}

#[test]
fn length_is_looked_at_before_the_key() {
    assert_eq!(
        open_envelope_bytes(&[0u8; 5], vec![0u8; 27]),
        Err(DecryptError::Malformed)
    );
    assert_eq!(
        decrypt_with_key(&[0u8; 5], "!!!"),
        Err(DecryptError::Encoding)
    );
    assert_eq!(
        open_envelope_bytes(&[0u8; 5], vec![0u8; 28]),
        Err(DecryptError::CipherInit)
    );
}

#[test]
fn decrypting_twice_gives_the_same() {
    for text in [HELLO_ENVELOPE, EMPTY_ENVELOPE, OTHER_KEY_ENVELOPE, "!!!", ""] {
        assert_eq!(decrypt_story_content(text), decrypt_story_content(text));
    }
}
