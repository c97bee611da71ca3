use base64::engine::general_purpose::STANDARD;
use base64::Engine;
use encryption_service::codec::{decrypt, decrypt_bytes, encrypt, encrypt_with_nonce};
use encryption_service::error::ErrorKind;
use encryption_service::kdf::derive_channel_key;

const SECRET: &str = "default-secret-change-me";
const NONCE: [u8; 12] = [1, 2, 3, 4, 5, 6, 7, 8, 9, 10, 11, 12];

#[test]
fn seal_of_nothing_under_the_zero_key_is_the_known_tag() {
    let blob = encrypt_with_nonce(&[0u8; 32], &[0u8; 12], b"");
    assert_eq!(blob, Ok("AAAAAAAAAAAAAAAAUw+K+8dFNrmpY7TxxMtziw==".to_string()));
}

#[test]
fn seal_of_a_zero_block_under_the_zero_key_is_the_known_ciphertext() {
    let blob = encrypt_with_nonce(&[0u8; 32], &[0u8; 12], &[0u8; 16]);
    assert_eq!(
        blob,
        Ok("AAAAAAAAAAAAAAAAzqdAPU1ga24HTsXTuvOdGNDRyKeZmWvwJluYtdSKuRk=".to_string())
    );
}

#[test]
fn blob_is_nonce_then_ciphertext_then_tag() {
    let key = derive_channel_key(SECRET, 42);
    let blob = encrypt_with_nonce(&key, &NONCE, b"hello").unwrap();
    assert_eq!(blob, "AQIDBAUGBwgJCgsMnHyBagPwDE2brOVBqwgBTZNw6lJn");
    let raw = STANDARD.decode(&blob).unwrap();
    assert_eq!(raw.len(), 12 + 5 + 16);
    assert_eq!(&raw[..12], &NONCE);
}

#[test]
fn seal_depends_on_the_nonce() {
    let key = derive_channel_key(SECRET, 42);
    let one = encrypt_with_nonce(&key, &NONCE, b"hello").unwrap();
    let other = encrypt_with_nonce(&key, &[0u8; 12], b"hello").unwrap();
    assert_ne!(one, other);
    assert_eq!(decrypt(&key, &one), Ok("hello".to_string()));
    assert_eq!(decrypt(&key, &other), Ok("hello".to_string()));
}

#[test]
fn known_blob_decrypts() {
    let key = derive_channel_key(SECRET, 42);
    assert_eq!(
        decrypt(&key, "AQIDBAUGBwgJCgsMnHyBagPwDE2brOVBqwgBTZNw6lJn"),
        Ok("hello".to_string())
    );
    assert_eq!(
        decrypt_bytes(&key, "AQIDBAUGBwgJCgsMnHyBagPwDE2brOVBqwgBTZNw6lJn"),
        Ok(b"hello".to_vec())
    );
    assert_eq!(
        decrypt(&key, "AQIDBAUGBwgJCgsMnNpEagCp18QH8+fxTTmXbLuSR/bX4GrsQJZNnv2jY0UT"),
        Ok("h\u{e9}llo w\u{f6}rld \u{2713}".to_string())
    );
    assert_eq!(decrypt_bytes(&[0u8; 32], "AAAAAAAAAAAAAAAAUw+K+8dFNrmpY7TxxMtziw=="), Ok(vec![]));
}

#[test]
fn round_trip_of_text() {
    let key = derive_channel_key(SECRET, 7);
    for message in ["", "hello", "h\u{e9}llo w\u{f6}rld \u{2713}", "a\u{0}b", "\u{1f600}"] {
        let blob = encrypt(&key, message.as_bytes()).unwrap();
        assert_eq!(decrypt(&key, &blob), Ok(message.to_string()));
        assert_eq!(decrypt_bytes(&key, &blob), Ok(message.as_bytes().to_vec()));
    }
}

#[test]
fn round_trip_of_the_empty_plaintext() {
    let key = derive_channel_key(SECRET, 7);
    let blob = encrypt(&key, b"").unwrap();
    assert_eq!(STANDARD.decode(&blob).unwrap().len(), 12 + 16);
    assert_eq!(decrypt_bytes(&key, &blob), Ok(vec![]));
    assert_eq!(decrypt(&key, &blob), Ok(String::new()));
}

#[test]
fn round_trip_of_bytes_that_are_not_text() {
    let key = derive_channel_key(SECRET, 7);
    let plaintext: Vec<u8> = (0..=255u8).rev().collect();
    let blob = encrypt(&key, &plaintext).unwrap();
    assert_eq!(decrypt_bytes(&key, &blob), Ok(plaintext));
}

#[test]
fn round_trip_of_a_long_plaintext() {
    let key = derive_channel_key(SECRET, 7);
    let plaintext: Vec<u8> = (0..100_000u32).map(|i| (i % 251) as u8).collect();
    let blob = encrypt(&key, &plaintext).unwrap();
    assert_eq!(blob.len(), 4 * ((12 + 100_000 + 16 + 2) / 3));
    assert_eq!(decrypt_bytes(&key, &blob), Ok(plaintext));
}

#[test]
fn bytes_that_are_not_text_decrypt_with_replacement_characters() {
    let key = derive_channel_key(SECRET, 42);
    let blob = encrypt_with_nonce(&key, &NONCE, &[0xff, 0x68, 0x69, 0xc3]).unwrap();
    assert_eq!(blob, "AQIDBAUGBwgJCgsMC3GExfNPtSHzqmjB5OmFdGeIEpo=");
    assert_eq!(decrypt_bytes(&key, &blob), Ok(vec![0xff, 0x68, 0x69, 0xc3]));
    assert_eq!(decrypt(&key, &blob), Ok("\u{fffd}hi\u{fffd}".to_string()));
}

#[test]
fn flipping_any_bit_of_ciphertext_or_tag_fails_authentication() {
    let key = derive_channel_key(SECRET, 42);
    let blob = encrypt(&key, b"hello").unwrap();
    let raw = STANDARD.decode(&blob).unwrap();
    for position in 12..raw.len() {
        for bit in 0..8 {
            let mut tampered = raw.clone();
            tampered[position] ^= 1 << bit;
            let text = STANDARD.encode(&tampered);
            assert_eq!(decrypt(&key, &text), Err(ErrorKind::AuthenticationFailure));
            assert_eq!(decrypt_bytes(&key, &text), Err(ErrorKind::AuthenticationFailure));
        }
    }
}

#[test]
fn flipping_any_bit_of_the_nonce_fails_authentication() {
    let key = derive_channel_key(SECRET, 42);
    let blob = encrypt(&key, b"hello").unwrap();
    let raw = STANDARD.decode(&blob).unwrap();
    for position in 0..12 {
        for bit in 0..8 {
            let mut tampered = raw.clone();
            tampered[position] ^= 1 << bit;
            assert_eq!(
                decrypt(&key, &STANDARD.encode(&tampered)),
                Err(ErrorKind::AuthenticationFailure)
            );
        }
    }
}

#[test]
fn truncated_ciphertext_fails_authentication() {
    let key = derive_channel_key(SECRET, 42);
    let blob = encrypt(&key, b"hello").unwrap();
    let raw = STANDARD.decode(&blob).unwrap();
    for len in 12..raw.len() {
        assert_eq!(
            decrypt(&key, &STANDARD.encode(&raw[..len])),
            Err(ErrorKind::AuthenticationFailure)
        );
    }
}

#[test]
fn blob_of_a_bare_nonce_fails_authentication() {
    let key = derive_channel_key(SECRET, 42);
    assert_eq!(decrypt(&key, "AAAAAAAAAAAAAAAA"), Err(ErrorKind::AuthenticationFailure));
    assert_eq!(
        decrypt(&key, "AAAAAAAAAAAAAAAAAAAAAAAAAAAAAAAAAAAA"),
        Err(ErrorKind::AuthenticationFailure)
    );
}

#[test]
fn wrong_key_fails_authentication() {
    let key = derive_channel_key(SECRET, 42);
    let other = derive_channel_key(SECRET, 43);
    let blob = encrypt(&key, b"hello").unwrap();
    assert_eq!(decrypt(&other, &blob), Err(ErrorKind::AuthenticationFailure));
    assert_eq!(decrypt(&key, &blob), Ok("hello".to_string()));
}

#[test]
fn same_plaintext_twice_gives_two_blobs() {
    let key = derive_channel_key(SECRET, 42);
    let first = encrypt(&key, b"hello").unwrap();
    let second = encrypt(&key, b"hello").unwrap();
    assert_ne!(first, second);
    assert_ne!(STANDARD.decode(&first).unwrap()[..12], STANDARD.decode(&second).unwrap()[..12]);
    assert_eq!(decrypt(&key, &first), Ok("hello".to_string()));
    assert_eq!(decrypt(&key, &second), Ok("hello".to_string()));
}

#[test]
fn text_that_is_not_base64_is_an_encoding_error() {
    let key = derive_channel_key(SECRET, 42);
    for text in ["not base64!", "****", "AAA", "AAAA=", "AQIDBAUGBwgJCgsM nHyB", "=AAA", "\u{e9}"] {
        assert_eq!(decrypt(&key, text), Err(ErrorKind::EncodingError));
        assert_eq!(decrypt_bytes(&key, text), Err(ErrorKind::EncodingError));
    }
}

#[test]
fn base64_of_fewer_bytes_than_a_nonce_is_malformed() {
    let key = derive_channel_key(SECRET, 42);
    for text in ["", "AA==", "AAAAAAAAAAAAAAA="] {
        assert_eq!(decrypt(&key, text), Err(ErrorKind::MalformedBlob));
        assert_eq!(decrypt_bytes(&key, text), Err(ErrorKind::MalformedBlob));
    }
}

#[test]
fn key_of_the_wrong_size_is_an_internal_error() {
    for len in [0usize, 16, 31, 33, 64] {
        let key = vec![7u8; len];
        assert_eq!(encrypt(&key, b"hello"), Err(ErrorKind::InternalCipherError));
        assert_eq!(
            encrypt_with_nonce(&key, &NONCE, b"hello"),
            Err(ErrorKind::InternalCipherError)
        );
        assert_eq!(
            decrypt(&key, "AQIDBAUGBwgJCgsMnHyBagPwDE2brOVBqwgBTZNw6lJn"),
            Err(ErrorKind::InternalCipherError)
        );
    }
}

#[test]
fn key_size_is_checked_before_the_encoding() {
    assert_eq!(decrypt(&[0u8; 16], "not base64!"), Err(ErrorKind::InternalCipherError));
    assert_eq!(decrypt_bytes(&[0u8; 16], ""), Err(ErrorKind::InternalCipherError));
}
