//! The AEAD codec: a message is sealed under a channel key with a random
//! nonce, and travels as one blob, the base64 text of the nonce followed by
//! the ciphertext and its tag.

use crate::error::ErrorKind;
use crate::primitives::{
    base64_decode, base64_decoded, base64_encode, base64_encoded, base64_len, gcm_open,
    gcm_opened, gcm_seal, gcm_sealed, lossy_text, random_nonce, text_of, KEY_LEN,
    MAX_PLAINTEXT_LEN, NONCE_LEN, TAG_LEN,
};
use vstd::prelude::*;
use vstd::utf8::{encode_utf8, encode_utf8_decode_utf8, encode_utf8_valid_utf8};

verus! {

/// The blob that carries `plaintext`, sealed under `key` with `nonce`.
pub open spec fn blob_of(key: Seq<u8>, nonce: Seq<u8>, plaintext: Seq<u8>) -> Seq<char> {
    base64_encoded(nonce + gcm_sealed(key, nonce, plaintext))
}

/// Whether a plaintext of `len` bytes can be sealed and framed: the cipher
/// takes it, and the blob's length fits the machine's word.
pub open spec fn sealable(len: nat) -> bool {
    &&& len <= MAX_PLAINTEXT_LEN
    &&& base64_len(NONCE_LEN as nat + len + TAG_LEN as nat) <= usize::MAX
}

/// `blob` carries `plaintext`, sealed under `key` with `nonce`, and reads
/// back: it decodes to the nonce and the sealed bytes, which the cipher opens
/// to the plaintext.
pub open spec fn sealed_with(
    key: Seq<u8>,
    nonce: Seq<u8>,
    plaintext: Seq<u8>,
    blob: Seq<char>,
) -> bool {
    let body = gcm_sealed(key, nonce, plaintext);
    &&& key.len() == KEY_LEN
    &&& nonce.len() == NONCE_LEN
    &&& blob == blob_of(key, nonce, plaintext)
    &&& body.len() == plaintext.len() + TAG_LEN
    &&& base64_decoded(blob) == Some(nonce + body)
    &&& gcm_opened(key, nonce, body) == Some(plaintext)
}

/// `blob` is an encryption of `plaintext` under `key`, with some nonce.
pub open spec fn encrypts_to(key: Seq<u8>, plaintext: Seq<u8>, blob: Seq<char>) -> bool {
    exists|nonce: Seq<u8>| sealed_with(key, nonce, plaintext, blob)
}

/// What decryption makes of `blob` under `key`, as bytes. The checks come in
/// this order: the key's size, the encoding, the length, the cipher.
pub open spec fn opened(key: Seq<u8>, blob: Seq<char>) -> Result<Seq<u8>, ErrorKind> {
    if key.len() != KEY_LEN {
        Err(ErrorKind::InternalCipherError)
    } else {
        match base64_decoded(blob) {
            None => Err(ErrorKind::EncodingError),
            Some(raw) => if raw.len() < NONCE_LEN {
                Err(ErrorKind::MalformedBlob)
            } else {
                let nonce = raw.subrange(0, NONCE_LEN as int);
                let body = raw.subrange(NONCE_LEN as int, raw.len() as int);
                match gcm_opened(key, nonce, body) {
                    None => Err(ErrorKind::AuthenticationFailure),
                    Some(plaintext) => Ok(plaintext),
                }
            },
        }
    }
}

/// `blob` holds a nonce, but what follows is too short to end in a tag.
pub open spec fn lacks_tag(blob: Seq<char>) -> bool {
    base64_decoded(blob) matches Some(raw) && NONCE_LEN <= raw.len() < NONCE_LEN + TAG_LEN
}

/// What decryption makes of `blob` under `key`, as text.
pub open spec fn decrypted(key: Seq<u8>, blob: Seq<char>) -> Result<Seq<char>, ErrorKind> {
    match opened(key, blob) {
        Ok(plaintext) => Ok(text_of(plaintext)),
        Err(e) => Err(e),
    }
}

/// Tells whether the blob of a plaintext of `len` bytes fits the machine's
/// word.
fn blob_fits(len: usize) -> (fits: bool)
    ensures
        fits == (base64_len(NONCE_LEN as nat + len as nat + TAG_LEN as nat) <= usize::MAX),
{
    if len > usize::MAX - (NONCE_LEN + TAG_LEN) {
        false
    } else {
        let framed: usize = len + (NONCE_LEN + TAG_LEN);
        let groups: usize = framed / 3 + if framed % 3 == 0 {
            0
        } else {
            1
        };
        groups <= usize::MAX / 4
    }
}

/// Seals `plaintext` under `key` with the given nonce and frames the result
/// as a blob. The nonce must be fresh: one that was never used with this key.
/// Under a 256-bit key every plaintext of up to 2^31 - 1 bytes is sealed.
pub fn encrypt_with_nonce(key: &[u8], nonce: &[u8; NONCE_LEN], plaintext: &[u8]) -> (r: Result<
    String,
    ErrorKind,
>)
    ensures
        r is Ok <==> key@.len() == KEY_LEN && sealable(plaintext@.len()),
        key@.len() == KEY_LEN && plaintext@.len() <= i32::MAX ==> r is Ok,
        r matches Ok(blob) ==> sealed_with(key@, nonce@, plaintext@, blob@),
        r matches Ok(blob) ==> opened(key@, blob@) == Ok::<Seq<u8>, ErrorKind>(plaintext@),
        r matches Err(e) ==> e == ErrorKind::InternalCipherError,
{
    proof {
        if plaintext@.len() <= i32::MAX {
            short_plaintexts_are_sealable(plaintext@.len());
        }
    }
    if key.len() != KEY_LEN || !blob_fits(plaintext.len()) {
        return Err(ErrorKind::InternalCipherError);
    }
    match gcm_seal(key, nonce.as_slice(), plaintext) {
        Err(_) => Err(ErrorKind::InternalCipherError),
        Ok(body) => {
            let mut framed: Vec<u8> = Vec::new();
            framed.extend_from_slice(nonce.as_slice());
            framed.extend_from_slice(body.as_slice());
            assert(framed@ =~= nonce@ + body@);
            let blob = base64_encode(framed.as_slice());
            proof {
                assert(sealed_with(key@, nonce@, plaintext@, blob@));
                decryption_recovers_plaintext(key@, plaintext@, blob@);
            }
            Ok(blob)
        },
    }
}

/// Encrypts `plaintext` under `key` with a nonce drawn from the operating
/// system's random source. It fails, with `InternalCipherError`, on a key
/// that is not 256 bits long, on a plaintext that cannot be sealed, and
/// where the random source fails.
pub fn encrypt(key: &[u8], plaintext: &[u8]) -> (r: Result<String, ErrorKind>)
    ensures
        r matches Ok(blob) ==> encrypts_to(key@, plaintext@, blob@),
        r matches Ok(blob) ==> opened(key@, blob@) == Ok::<Seq<u8>, ErrorKind>(plaintext@),
        r matches Err(e) ==> e == ErrorKind::InternalCipherError,
        r is Ok ==> key@.len() == KEY_LEN && sealable(plaintext@.len()),
{
    match random_nonce() {
        Err(_) => Err(ErrorKind::InternalCipherError),
        Ok(nonce) => encrypt_with_nonce(key, &nonce, plaintext),
    }
}

/// Decrypts `blob` under `key` to the bytes that were sealed.
pub fn decrypt_bytes(key: &[u8], blob: &str) -> (r: Result<Vec<u8>, ErrorKind>)
    ensures
        match r {
            Ok(plaintext) => opened(key@, blob@) == Ok::<Seq<u8>, ErrorKind>(plaintext@),
            Err(e) => opened(key@, blob@) == Err::<Seq<u8>, ErrorKind>(e),
        },
        key@.len() == KEY_LEN && lacks_tag(blob@) ==> r == Err::<Vec<u8>, ErrorKind>(
            ErrorKind::AuthenticationFailure,
        ),
{
    if key.len() != KEY_LEN {
        return Err(ErrorKind::InternalCipherError);
    }
    let raw = match base64_decode(blob) {
        Ok(raw) => raw,
        Err(_) => {
            return Err(ErrorKind::EncodingError);
        },
    };
    if raw.len() < NONCE_LEN {
        return Err(ErrorKind::MalformedBlob);
    }
    let (nonce, body) = raw.as_slice().split_at(NONCE_LEN);
    match gcm_open(key, nonce, body) {
        Ok(plaintext) => Ok(plaintext),
        Err(_) => Err(ErrorKind::AuthenticationFailure),
    }
}

/// Decrypts `blob` under `key` to text. Bytes that are not UTF-8 do not fail
/// the decryption: they are read with replacement characters.
pub fn decrypt(key: &[u8], blob: &str) -> (r: Result<String, ErrorKind>)
    ensures
        match r {
            Ok(message) => decrypted(key@, blob@) == Ok::<Seq<char>, ErrorKind>(message@),
            Err(e) => decrypted(key@, blob@) == Err::<Seq<char>, ErrorKind>(e),
        },
        key@.len() == KEY_LEN && lacks_tag(blob@) ==> r == Err::<String, ErrorKind>(
            ErrorKind::AuthenticationFailure,
        ),
{
    match decrypt_bytes(key, blob) {
        Ok(plaintext) => Ok(lossy_text(plaintext.as_slice())),
        Err(e) => Err(e),
    }
}

/// Round trip: a blob that encrypts a plaintext under a key decrypts, under
/// that key, to the same bytes, whatever they are and whichever nonce was
/// drawn.
pub proof fn decryption_recovers_plaintext(key: Seq<u8>, plaintext: Seq<u8>, blob: Seq<char>)
    requires
        encrypts_to(key, plaintext, blob),
    ensures
        opened(key, blob) == Ok::<Seq<u8>, ErrorKind>(plaintext),
        decrypted(key, blob) == Ok::<Seq<char>, ErrorKind>(text_of(plaintext)),
{
    let nonce = choose|nonce: Seq<u8>| sealed_with(key, nonce, plaintext, blob);
    let body = gcm_sealed(key, nonce, plaintext);
    let raw = nonce + body;
    assert(raw.subrange(0, NONCE_LEN as int) =~= nonce);
    assert(raw.subrange(NONCE_LEN as int, raw.len() as int) =~= body);
}

/// Round trip for text: a blob that encrypts the UTF-8 bytes of a message
/// decrypts to exactly that message.
pub proof fn decryption_recovers_message(key: Seq<u8>, message: Seq<char>, blob: Seq<char>)
    requires
        encrypts_to(key, encode_utf8(message), blob),
    ensures
        decrypted(key, blob) == Ok::<Seq<char>, ErrorKind>(message),
{
    decryption_recovers_plaintext(key, encode_utf8(message), blob);
    encode_utf8_valid_utf8(message);
    encode_utf8_decode_utf8(message);
}

/// Malformed input is told apart: under a 256-bit key, text that is not
/// base64 is an `EncodingError`, and base64 of fewer bytes than a nonce is a
/// `MalformedBlob`.
pub proof fn malformed_blobs_are_refused(key: Seq<u8>, blob: Seq<char>)
    requires
        key.len() == KEY_LEN,
    ensures
        base64_decoded(blob) is None ==> decrypted(key, blob) == Err::<Seq<char>, ErrorKind>(
            ErrorKind::EncodingError,
        ),
        base64_decoded(blob) matches Some(raw) && raw.len() < NONCE_LEN ==> decrypted(key, blob)
            == Err::<Seq<char>, ErrorKind>(ErrorKind::MalformedBlob),
{
}

/// A blob that holds a nonce fails in one way only: where the cipher rejects
/// it, the failure is `AuthenticationFailure`, and where it does not, the
/// result is what the cipher authenticated. That the cipher rejects every
/// blob that was tampered with is its own strength, which is not stated here.
pub proof fn framed_blobs_fail_only_authentication(key: Seq<u8>, blob: Seq<char>, raw: Seq<u8>)
    requires
        key.len() == KEY_LEN,
        base64_decoded(blob) == Some(raw),
        raw.len() >= NONCE_LEN,
    ensures
        opened(key, blob) is Err <==> gcm_opened(
            key,
            raw.subrange(0, NONCE_LEN as int),
            raw.subrange(NONCE_LEN as int, raw.len() as int),
        ) is None,
        opened(key, blob) is Err ==> opened(key, blob) == Err::<Seq<u8>, ErrorKind>(
            ErrorKind::AuthenticationFailure,
        ),
        decrypted(key, blob) is Err ==> decrypted(key, blob) == Err::<Seq<char>, ErrorKind>(
            ErrorKind::AuthenticationFailure,
        ),
{
}

/// Two encryptions of one plaintext under one key with different nonces are
/// different blobs, and each decrypts to the plaintext. That two nonces drawn
/// at random differ is chance, which is not stated here.
pub proof fn distinct_nonces_give_distinct_blobs(
    key: Seq<u8>,
    plaintext: Seq<u8>,
    first_nonce: Seq<u8>,
    first: Seq<char>,
    second_nonce: Seq<u8>,
    second: Seq<char>,
)
    requires
        sealed_with(key, first_nonce, plaintext, first),
        sealed_with(key, second_nonce, plaintext, second),
        first_nonce != second_nonce,
    ensures
        first != second,
        opened(key, first) == Ok::<Seq<u8>, ErrorKind>(plaintext),
        opened(key, second) == Ok::<Seq<u8>, ErrorKind>(plaintext),
{
    decryption_recovers_plaintext(key, plaintext, first);
    decryption_recovers_plaintext(key, plaintext, second);
    if first == second {
        let first_raw = first_nonce + gcm_sealed(key, first_nonce, plaintext);
        let second_raw = second_nonce + gcm_sealed(key, second_nonce, plaintext);
        assert(first_raw.subrange(0, NONCE_LEN as int) =~= first_nonce);
        assert(second_raw.subrange(0, NONCE_LEN as int) =~= second_nonce);
    }
}

/// Every plaintext of up to 2^31 - 1 bytes can be sealed, on a machine of
/// either word size.
pub proof fn short_plaintexts_are_sealable(len: nat)
    requires
        len <= i32::MAX,
    ensures
        sealable(len),
{
}

} // verus!
