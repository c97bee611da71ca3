//! The cryptographic and encoding primitives that the library calls but does
//! not verify: SHA-256, AES-256-GCM, base64, the operating system's random
//! source and lossy UTF-8 decoding.
//!
//! Each primitive has a name for its result, a specification function without
//! a body, and a wrapper whose contract is believed, not proved.

use aes_gcm::aead::{Aead, KeyInit, OsRng};
use aes_gcm::{Aes256Gcm, Key, Nonce};
use base64::engine::general_purpose::STANDARD;
use base64::Engine;
use rand::RngCore;
use sha2::{Digest, Sha256};
use vstd::prelude::*;
use vstd::utf8::{decode_utf8, valid_utf8};

verus! {

/// Bytes in a channel key, and in a SHA-256 digest.
pub const KEY_LEN: usize = 32;

/// Bytes in the nonce of one message.
pub const NONCE_LEN: usize = 12;

/// Bytes in the authentication tag that ends a ciphertext.
pub const TAG_LEN: usize = 16;

/// The longest plaintext, in bytes, that AES-GCM seals.
pub const MAX_PLAINTEXT_LEN: u64 = 0x10_0000_0000;

/// The SHA-256 digest of `data`.
pub uninterp spec fn sha256_digest(data: Seq<u8>) -> Seq<u8>;

/// The AES-256-GCM ciphertext of `plaintext` under `key` and `nonce`, without
/// associated data, followed by its tag.
pub uninterp spec fn gcm_sealed(key: Seq<u8>, nonce: Seq<u8>, plaintext: Seq<u8>) -> Seq<u8>;

/// What AES-256-GCM recovers from `sealed` under `key` and `nonce`; `None`
/// where it rejects the input.
pub uninterp spec fn gcm_opened(key: Seq<u8>, nonce: Seq<u8>, sealed: Seq<u8>) -> Option<Seq<u8>>;

/// The padded base64 text of `data`, in the standard alphabet.
pub uninterp spec fn base64_encoded(data: Seq<u8>) -> Seq<char>;

/// The bytes that `text` stands for in padded standard base64; `None` where
/// `text` is malformed.
pub uninterp spec fn base64_decoded(text: Seq<char>) -> Option<Seq<u8>>;

/// The text that lossy decoding makes of `bytes`, with a replacement
/// character for each malformed part.
pub uninterp spec fn utf8_lossy(bytes: Seq<u8>) -> Seq<char>;

/// Characters in the padded base64 text of `n` bytes.
pub open spec fn base64_len(n: nat) -> nat {
    4 * ((n + 2) / 3)
}

/// The text that bytes are read as: decoded where they are UTF-8, repaired
/// by lossy decoding where they are not.
pub open spec fn text_of(bytes: Seq<u8>) -> Seq<char> {
    if valid_utf8(bytes) {
        decode_utf8(bytes)
    } else {
        utf8_lossy(bytes)
    }
}

/// `aes_gcm::Error`, the cipher's failure. It is carried, never read.
#[verifier::external_type_specification]
#[verifier::external_body]
pub struct ExCipherError(aes_gcm::Error);

/// `base64::DecodeError`, the decoder's failure. It is carried, never read.
#[verifier::external_type_specification]
#[verifier::external_body]
pub struct ExDecodeError(base64::DecodeError);

/// `rand::Error`, the random source's failure. It is carried, never read.
#[verifier::external_type_specification]
#[verifier::external_body]
pub struct ExRandomError(rand::Error);

/// `Digest::digest` of `sha2::Sha256`. Believed: the result is the digest of
/// `data`, a function of the bytes alone, and it is 32 bytes long.
#[verifier::external_body]
pub(crate) fn sha256(data: &[u8]) -> (digest: Vec<u8>)
    ensures
        digest@ == sha256_digest(data@),
        digest@.len() == KEY_LEN,
{
    Sha256::digest(data).to_vec()
}

/// `Aead::encrypt` of `aes_gcm::Aes256Gcm`, on the cipher that `KeyInit::new`
/// makes of `key`, without associated data. Believed: it fails exactly on a
/// plaintext over the cipher's limit of 2^36 bytes; what it returns depends
/// on the three arguments alone, is longer than the plaintext by a tag of 16
/// bytes, and is opened again to the plaintext under the same key and nonce.
/// A key or a nonce of another length makes the call panic, so it is left
/// out.
#[verifier::external_body]
pub(crate) fn gcm_seal(key: &[u8], nonce: &[u8], plaintext: &[u8]) -> (sealed: Result<
    Vec<u8>,
    aes_gcm::Error,
>)
    requires
        key@.len() == KEY_LEN,
        nonce@.len() == NONCE_LEN,
    ensures
        sealed is Ok <==> plaintext@.len() <= MAX_PLAINTEXT_LEN,
        sealed matches Ok(bytes) ==> {
            &&& bytes@ == gcm_sealed(key@, nonce@, plaintext@)
            &&& bytes@.len() == plaintext@.len() + TAG_LEN
            &&& gcm_opened(key@, nonce@, bytes@) == Some(plaintext@)
        },
{
    Aes256Gcm::new(Key::<Aes256Gcm>::from_slice(key)).encrypt(Nonce::from_slice(nonce), plaintext)
}

/// `Aead::decrypt` of `aes_gcm::Aes256Gcm`, on the cipher that `KeyInit::new`
/// makes of `key`, without associated data. Believed: the outcome depends on
/// the three arguments alone; an input shorter than a tag is rejected; a
/// recovered plaintext is 16 bytes shorter than the input. A key or a nonce
/// of another length makes the call panic, so it is left out.
#[verifier::external_body]
pub(crate) fn gcm_open(key: &[u8], nonce: &[u8], sealed: &[u8]) -> (opened: Result<
    Vec<u8>,
    aes_gcm::Error,
>)
    requires
        key@.len() == KEY_LEN,
        nonce@.len() == NONCE_LEN,
    ensures
        opened matches Ok(bytes) ==> {
            &&& gcm_opened(key@, nonce@, sealed@) == Some(bytes@)
            &&& bytes@.len() + TAG_LEN == sealed@.len()
        },
        opened is Err ==> gcm_opened(key@, nonce@, sealed@) is None,
        sealed@.len() < TAG_LEN ==> opened is Err,
{
    Aes256Gcm::new(Key::<Aes256Gcm>::from_slice(key)).decrypt(Nonce::from_slice(nonce), sealed)
}

/// `Engine::encode` of `base64`'s `STANDARD` engine. Believed: the text
/// depends on the bytes alone, and the same engine decodes it to the bytes
/// again. The call panics where the text's length does not fit a `usize`,
/// so such data is left out.
#[verifier::external_body]
pub(crate) fn base64_encode(data: &[u8]) -> (text: String)
    requires
        base64_len(data@.len()) <= usize::MAX,
    ensures
        text@ == base64_encoded(data@),
        base64_decoded(text@) == Some(data@),
{
    STANDARD.encode(data)
}

/// `Engine::decode` of `base64`'s `STANDARD` engine. Believed: whether the
/// text is accepted, and the bytes it then gives, depend on the text alone.
#[verifier::external_body]
pub(crate) fn base64_decode(text: &str) -> (raw: Result<Vec<u8>, base64::DecodeError>)
    ensures
        raw matches Ok(bytes) ==> base64_decoded(text@) == Some(bytes@),
        raw is Err ==> base64_decoded(text@) is None,
{
    STANDARD.decode(text)
}

/// `RngCore::try_fill_bytes` of `OsRng`, the operating system's generator,
/// on a buffer of nonce size. Nothing is promised of the outcome: the bytes
/// are random, and the source may fail.
#[verifier::external_body]
pub(crate) fn random_nonce() -> (nonce: Result<[u8; NONCE_LEN], rand::Error>) {
    let mut nonce = [0u8; NONCE_LEN];
    OsRng.try_fill_bytes(&mut nonce)?;
    Ok(nonce)
}

/// `String::from_utf8_lossy`. Believed: bytes that are UTF-8 give the text
/// that they encode; other bytes give a text that depends on the bytes alone.
#[verifier::external_body]
pub(crate) fn lossy_text(bytes: &[u8]) -> (text: String)
    ensures
        valid_utf8(bytes@) ==> text@ == decode_utf8(bytes@),
        !valid_utf8(bytes@) ==> text@ == utf8_lossy(bytes@),
{
    String::from_utf8_lossy(bytes).into_owned()
}

} // verus!
