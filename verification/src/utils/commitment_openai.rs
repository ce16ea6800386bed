//! The commitment to a model query.

use vstd::prelude::*;
use crate::agent::types::Uuid;
use crate::text::{absorb_str, utf8};
use crate::utils::crypto::PublicKey;
use crate::utils::hasher::{absorb, blake3_digest, blake3_hash};

verus! {

/// The four bytes of an unsigned 32-bit number, low byte first.
pub open spec fn le_bytes32(n: u32) -> Seq<u8> {
    seq![
        (n % 256) as u8,
        (n / 256 % 256) as u8,
        (n / 65536 % 256) as u8,
        (n / 16777216) as u8,
    ]
}

/// The four bytes of `n`, low byte first.
pub fn to_le_bytes32(n: u32) -> (bytes: [u8; 4])
    ensures
        bytes@ == le_bytes32(n),
{
    let bytes = [
        (n % 256) as u8,
        (n / 256 % 256) as u8,
        (n / 65536 % 256) as u8,
        (n / 16777216) as u8,
    ];
    assert(bytes@ =~= le_bytes32(n));
    bytes
}

/// The commitment input of a model query: the user's key, the session's
/// key, the session id, the encrypted prompt, the model, the temperature as
/// the bits of a 32-bit float and the token bound, both low byte first, the
/// response nonce, and the encrypted response, in that order.
pub open spec fn commitment_preimage(
    user_pk: Seq<u8>,
    session_pk: Seq<u8>,
    session_id: Seq<u8>,
    encrypted_prompt: Seq<char>,
    model: Seq<char>,
    temperature_bits: u32,
    max_tokens: u32,
    response_nonce: Seq<u8>,
    encrypted_response: Seq<char>,
) -> Seq<u8> {
    user_pk + session_pk + session_id + utf8(encrypted_prompt) + utf8(model) + le_bytes32(
        temperature_bits,
    ) + le_bytes32(max_tokens) + response_nonce + utf8(encrypted_response)
}

/// Build commitment for a model query: the BLAKE3 digest of prompt,
/// response and metadata. The temperature is given by the bits of its
/// 32-bit float.
pub fn build_query_commitment(
    user_pk: &PublicKey,
    session_pk: &PublicKey,
    session_id: Uuid,
    encrypted_prompt: &str,
    model: &str,
    temperature_bits: u32,
    max_tokens: u32,
    response_nonce: &[u8; 12],
    encrypted_response: &str,
) -> (commitment: [u8; 32])
    ensures
        commitment@ == blake3_digest(
            commitment_preimage(
                user_pk@,
                session_pk@,
                session_id@,
                encrypted_prompt@,
                model@,
                temperature_bits,
                max_tokens,
                response_nonce@,
                encrypted_response@,
            ),
        ),
{
    let mut buf: Vec<u8> = Vec::new();
    absorb(&mut buf, user_pk.as_bytes().as_slice());
    absorb(&mut buf, session_pk.as_bytes().as_slice());
    absorb(&mut buf, session_id.as_bytes().as_slice());
    absorb_str(&mut buf, encrypted_prompt);
    absorb_str(&mut buf, model);
    absorb(&mut buf, to_le_bytes32(temperature_bits).as_slice());
    absorb(&mut buf, to_le_bytes32(max_tokens).as_slice());
    absorb(&mut buf, response_nonce.as_slice());
    absorb_str(&mut buf, encrypted_response);
    assert(buf@ =~= commitment_preimage(
        user_pk@,
        session_pk@,
        session_id@,
        encrypted_prompt@,
        model@,
        temperature_bits,
        max_tokens,
        response_nonce@,
        encrypted_response@,
    ));
    blake3_hash(buf.as_slice())
}

} // verus!
