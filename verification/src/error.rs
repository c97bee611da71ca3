use vstd::prelude::*;

verus! {

/// Why an encryption or a decryption failed.
#[derive(Clone, Copy, Debug, PartialEq, Eq, Structural)]
pub enum ErrorKind {
    /// The blob is not base64 text.
    EncodingError,
    /// The decoded blob is too short to hold a nonce.
    MalformedBlob,
    /// The cipher rejected the blob: wrong key or channel, or a tampered or
    /// truncated ciphertext. Which of these it was is not told.
    AuthenticationFailure,
    /// The server's side failed: a key of the wrong size, a message that
    /// the cipher cannot take, or no randomness for a nonce.
    InternalCipherError,
}

impl ErrorKind {
    /// Whether the caller can mend the request; the other failures are the
    /// server's own.
    pub open spec fn client_fault(self) -> bool {
        self != ErrorKind::InternalCipherError
    }

    /// The HTTP status that reports this failure.
    pub open spec fn status(self) -> u16 {
        if self.client_fault() {
            400
        } else {
            500
        }
    }

    /// Tells a failure of the request from a failure of the server.
    pub fn is_client_error(&self) -> (client: bool)
        ensures
            client == self.client_fault(),
    {
        match self {
            ErrorKind::InternalCipherError => false,
            _ => true,
        }
    }

    /// The HTTP status for this failure: 400 for the caller's, 500 for the
    /// server's.
    pub fn status_code(&self) -> (code: u16)
        ensures
            code == self.status(),
    {
        if self.is_client_error() {
            400
        } else {
            500
        }
    }
}

} // verus!
