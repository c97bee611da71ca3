use encryption_service::kdf::derive_channel_key;

const SECRET: &str = "default-secret-change-me";

#[test]
fn derive_gives_the_sha256_of_secret_and_little_endian_id() {
    let key = derive_channel_key(SECRET, 42);
    assert_eq!(
        key,
        vec![
            243, 101, 131, 149, 240, 46, 227, 141, 190, 47, 29, 174, 187, 186, 89, 227, 206, 187,
            233, 177, 180, 187, 74, 245, 57, 9, 174, 197, 241, 196, 8, 90
        ]
    );
}

#[test]
fn derive_hashes_a_negative_id_in_twos_complement() {
    let key = derive_channel_key(SECRET, -1);
    assert_eq!(
        key,
        vec![
            94, 54, 154, 245, 5, 165, 100, 217, 237, 4, 76, 167, 236, 46, 111, 11, 35, 174, 2, 228,
            202, 232, 175, 81, 240, 44, 126, 108, 231, 98, 220, 135
        ]
    );
}

#[test]
fn derive_takes_an_empty_secret() {
    let key = derive_channel_key("", 0);
    assert_eq!(
        key,
        vec![
            175, 85, 112, 245, 161, 129, 11, 122, 247, 140, 175, 75, 199, 10, 102, 15, 13, 245, 30,
            66, 186, 249, 29, 77, 229, 178, 50, 141, 224, 232, 61, 252
        ]
    );
}

#[test]
fn derive_hashes_the_utf8_bytes_of_the_secret() {
    let key = derive_channel_key("cl\u{e9}", 1 << 40);
    assert_eq!(
        key,
        vec![
            195, 12, 108, 21, 222, 192, 81, 225, 38, 223, 244, 128, 225, 14, 234, 157, 160, 73,
            166, 220, 221, 100, 6, 166, 200, 231, 118, 140, 201, 180, 96, 235
        ]
    );
}

#[test]
fn derive_always_gives_256_bits() {
    for id in [i64::MIN, -7, 0, 1, 42, i64::MAX] {
        assert_eq!(derive_channel_key(SECRET, id).len(), 32);
    }
}

#[test]
fn derive_is_deterministic() {
    for id in [i64::MIN, -1, 0, 42, i64::MAX] {
        assert_eq!(derive_channel_key(SECRET, id), derive_channel_key(SECRET, id));
    }
}

#[test]
fn derive_isolates_channels() {
    let ids = [i64::MIN, -1, 0, 1, 42, 43, 256, i64::MAX];
    for a in ids {
        for b in ids {
            if a != b {
                assert_ne!(derive_channel_key(SECRET, a), derive_channel_key(SECRET, b));
            }
        }
    }
}

#[test]
fn derive_isolates_secrets() {
    assert_ne!(derive_channel_key("a", 1), derive_channel_key("b", 1));
    assert_ne!(derive_channel_key("a", 1), derive_channel_key("a\u{1}", 0));
}
