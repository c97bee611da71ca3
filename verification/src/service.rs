//! The service facade: what the transport layer calls for a request, and how
//! it reports a failure.

use crate::cache::{get_or_create_key, AppState};
use crate::codec::{
    decrypt, decrypted, decryption_recovers_message, encrypt, encrypts_to, lacks_tag, sealable,
};
use crate::error::ErrorKind;
use crate::kdf::channel_key;
use vstd::prelude::*;
use vstd::utf8::encode_utf8;

verus! {

/// The master secret that is used where none is configured. It is public
/// knowledge: a deployment that keeps it protects nothing.
pub const DEFAULT_MASTER_SECRET: &'static str = "default-secret-change-me";

/// The two operations of the service.
#[derive(Clone, Copy, Debug, PartialEq, Eq, Structural)]
pub enum Operation {
    Encrypt,
    Decrypt,
}

/// The text that reports a failure of `operation` to the caller. A failed
/// authentication has one text, whatever made the cipher reject the blob.
pub open spec fn failure_text(operation: Operation, kind: ErrorKind) -> Seq<char> {
    match kind {
        ErrorKind::EncodingError => "Invalid base64"@,
        ErrorKind::MalformedBlob => "Ciphertext too short"@,
        ErrorKind::AuthenticationFailure => "Decryption failed"@,
        ErrorKind::InternalCipherError => match operation {
            Operation::Encrypt => "Encryption init failed"@,
            Operation::Decrypt => "Decryption init failed"@,
        },
    }
}

/// The master secret to run with: the configured one, or the default where
/// none is configured.
pub fn resolve_master_secret(configured: Option<String>) -> (secret: String)
    ensures
        secret@ == match configured {
            Some(given) => given@,
            None => DEFAULT_MASTER_SECRET@,
        },
{
    match configured {
        Some(given) => given,
        None => DEFAULT_MASTER_SECRET.to_owned(),
    }
}

/// Encrypts `message` for `channel_id`: under the channel's key, which is
/// derived on the channel's first use, and with a fresh random nonce.
pub fn handle_encrypt(state: &AppState, channel_id: i64, message: &str) -> (r: Result<
    String,
    ErrorKind,
>)
    ensures
        r matches Ok(blob) ==> encrypts_to(
            channel_key(state.secret(), channel_id),
            encode_utf8(message@),
            blob@,
        ),
        r matches Ok(blob) ==> decrypted(channel_key(state.secret(), channel_id), blob@) == Ok::<
            Seq<char>,
            ErrorKind,
        >(message@),
        r matches Err(e) ==> e == ErrorKind::InternalCipherError,
        r is Ok ==> sealable(encode_utf8(message@).len()),
{
    let key = get_or_create_key(state, channel_id);
    match encrypt(key.as_slice(), message.as_bytes()) {
        Ok(blob) => {
            proof {
                decryption_recovers_message(key@, message@, blob@);
            }
            Ok(blob)
        },
        Err(e) => Err(e),
    }
}

/// Decrypts `encrypted` as a blob of `channel_id`. Every failure is the
/// caller's: the channel's key always has the cipher's size.
pub fn handle_decrypt(state: &AppState, channel_id: i64, encrypted: &str) -> (r: Result<
    String,
    ErrorKind,
>)
    ensures
        match r {
            Ok(message) => decrypted(channel_key(state.secret(), channel_id), encrypted@) == Ok::<
                Seq<char>,
                ErrorKind,
            >(message@),
            Err(e) => decrypted(channel_key(state.secret(), channel_id), encrypted@) == Err::<
                Seq<char>,
                ErrorKind,
            >(e),
        },
        r matches Err(e) ==> e.client_fault(),
        lacks_tag(encrypted@) ==> r == Err::<String, ErrorKind>(ErrorKind::AuthenticationFailure),
{
    let key = get_or_create_key(state, channel_id);
    decrypt(key.as_slice(), encrypted)
}

/// The text that reports a failure of `operation`.
pub fn failure_message(operation: Operation, kind: ErrorKind) -> (text: &'static str)
    ensures
        text@ == failure_text(operation, kind),
{
    match kind {
        ErrorKind::EncodingError => "Invalid base64",
        ErrorKind::MalformedBlob => "Ciphertext too short",
        ErrorKind::AuthenticationFailure => "Decryption failed",
        ErrorKind::InternalCipherError => match operation {
            Operation::Encrypt => "Encryption init failed",
            Operation::Decrypt => "Decryption init failed",
        },
    }
}

} // verus!
