//! Key derivation: one 256-bit key for each channel, from the master secret.

use crate::primitives::{sha256, sha256_digest, KEY_LEN};
use vstd::bytes::{
    lemma_auto_spec_u64_to_from_le_bytes, spec_u64_to_le_bytes, u64_to_le_bytes,
};
use vstd::prelude::*;
use vstd::utf8::encode_utf8;

verus! {

/// The eight bytes of a channel id, least significant first, in two's
/// complement.
pub open spec fn channel_id_bytes(channel_id: i64) -> Seq<u8> {
    spec_u64_to_le_bytes(channel_id as u64)
}

/// What is hashed for a channel: the secret, then the channel id's bytes.
pub open spec fn key_material(secret: Seq<u8>, channel_id: i64) -> Seq<u8> {
    secret + channel_id_bytes(channel_id)
}

/// The key of a channel under a master secret.
pub open spec fn channel_key(secret: Seq<u8>, channel_id: i64) -> Seq<u8> {
    sha256_digest(key_material(secret, channel_id))
}

/// Derives the key of `channel_id` from the master secret: the SHA-256
/// digest, in full, of the secret's bytes followed by the channel id in
/// little-endian order.
pub fn derive_channel_key(master_secret: &str, channel_id: i64) -> (key: Vec<u8>)
    ensures
        key@ == channel_key(encode_utf8(master_secret@), channel_id),
        key@.len() == KEY_LEN,
{
    let mut material: Vec<u8> = Vec::new();
    material.extend_from_slice(master_secret.as_bytes());
    let id_bytes = u64_to_le_bytes(#[verifier::truncate] (channel_id as u64));
    material.extend_from_slice(id_bytes.as_slice());
    assert(material@ =~= key_material(encode_utf8(master_secret@), channel_id));
    sha256(material.as_slice())
}

/// Derivation is a function: two keys derived from one secret for one channel
/// are the same key, whenever and wherever they were derived.
pub proof fn derivation_is_deterministic(
    secret: Seq<u8>,
    channel_id: i64,
    first: Seq<u8>,
    second: Seq<u8>,
)
    requires
        first == channel_key(secret, channel_id),
        second == channel_key(secret, channel_id),
    ensures
        first == second,
{
}

/// A channel id is told by its eight bytes.
pub proof fn channel_id_bytes_injective(a: i64, b: i64)
    requires
        channel_id_bytes(a) == channel_id_bytes(b),
    ensures
        a == b,
{
    lemma_auto_spec_u64_to_from_le_bytes();
    assert(a as u64 == b as u64 ==> a == b) by (bit_vector);
}

/// No two channels are keyed from the same hash input: what is hashed tells
/// both the secret and the channel id. That the digests then differ is the
/// hash function's collision resistance, which is not stated here.
pub proof fn key_material_injective(
    secret_a: Seq<u8>,
    channel_a: i64,
    secret_b: Seq<u8>,
    channel_b: i64,
)
    requires
        key_material(secret_a, channel_a) == key_material(secret_b, channel_b),
    ensures
        secret_a == secret_b,
        channel_a == channel_b,
{
    lemma_auto_spec_u64_to_from_le_bytes();
    let material = key_material(secret_a, channel_a);
    let tail_a = channel_id_bytes(channel_a);
    let tail_b = channel_id_bytes(channel_b);
    assert(secret_b =~= material.subrange(0, secret_b.len() as int));
    assert(tail_a =~= material.subrange(secret_a.len() as int, material.len() as int));
    assert(tail_b =~= material.subrange(secret_b.len() as int, material.len() as int));
    channel_id_bytes_injective(channel_a, channel_b);
}

} // verus!
