//! The session handshake.

use vstd::prelude::*;
use crate::agent::types::{is_version_7, Uuid};
use crate::attest::types::RawReport;
use crate::error::{status_text, ErrorView, HypervisorError, BAD_REQUEST};
use crate::types::HypervisorState;
use crate::utils::attest::{generate_raw_report_from_hash, report_of_digest};
use crate::utils::crypto::{key_of_hex, pk_from_hex, pk_to_hex, public_key_of};
use crate::utils::hasher::{absorb, blake3_digest, blake3_hash};
use crate::utils::hexcodec::{encode, hex_lower, hex_upper};

verus! {

#[derive(Debug)]
pub struct CreateKeyPairRequest {
    pub pubkey: String,
}

#[derive(Debug)]
pub struct CreateKeyPairResponse {
    pub session_pubkey: String,
    pub session_id: Uuid,
}

#[derive(Debug)]
pub struct VerifiableCreateKeyPairResponse {
    pub session_pubkey: String,
    pub session_id: Uuid,
    pub quote: String,
}

/// The handshake hash input: the compressed key of the session, then the
/// session id.
pub open spec fn handshake_preimage(session_pk: Seq<u8>, session_id: Seq<u8>) -> Seq<u8> {
    session_pk + session_id
}

/// Establishes a session and says what is attested of it: the user's key
/// is decoded (a failure is answered with status 400), a fresh session key
/// and session id are put under it in the registry, and the report carries
/// the BLAKE3 digest of the session's key and id.
pub fn establish_session(state: &mut HypervisorState, req: &CreateKeyPairRequest) -> (r: Result<
    (CreateKeyPairResponse, RawReport),
    HypervisorError,
>)
    ensures
        match r {
            Err(e) => key_of_hex(req.pubkey@) is None && e@ == (ErrorView {
                status: BAD_REQUEST,
                message: status_text(BAD_REQUEST),
            }) && final(state).spec_sessions() == old(state).spec_sessions(),
            Ok((response, report)) => {
                let user = key_of_hex(req.pubkey@);
                &&& user is Some
                &&& final(state).spec_sessions().contains_key(user->0)
                &&& final(state).spec_sessions() == old(state).spec_sessions().insert(
                    user->0,
                    final(state).spec_sessions()[user->0],
                )
                &&& response.session_id@ == final(state).spec_sessions()[user->0].session_id
                &&& is_version_7(response.session_id@)
                &&& public_key_of(final(state).spec_sessions()[user->0].signing_key) is Some
                &&& response.session_pubkey@ == hex_upper(
                    public_key_of(final(state).spec_sessions()[user->0].signing_key)->0,
                )
                &&& report@ == report_of_digest(
                    blake3_digest(
                        handshake_preimage(
                            public_key_of(final(state).spec_sessions()[user->0].signing_key)->0,
                            response.session_id@,
                        ),
                    ),
                )
            },
        },
{
    let req_pk = match pk_from_hex(req.pubkey.as_str()) {
        Ok(pk) => pk,
        Err(_) => {
            return Err(HypervisorError::with_status(BAD_REQUEST));
        },
    };

    let (session_pubkey, session_id) = state.create_session_keypair(&req_pk);

    let mut buf: Vec<u8> = Vec::new();
    absorb(&mut buf, session_pubkey.as_bytes().as_slice());
    absorb(&mut buf, session_id.as_bytes().as_slice());
    assert(buf@ =~= handshake_preimage(session_pubkey@, session_id@));
    let report = generate_raw_report_from_hash(blake3_hash(buf.as_slice()));

    let resp = CreateKeyPairResponse { session_pubkey: pk_to_hex(&session_pubkey), session_id };
    Ok((resp, report))
}

/// Establishes a session: see `establish_session`.
pub fn create_keypair(state: &mut HypervisorState, req: &CreateKeyPairRequest) -> (r: Result<
    CreateKeyPairResponse,
    HypervisorError,
>)
    ensures
        match r {
            Err(e) => key_of_hex(req.pubkey@) is None && e@ == (ErrorView {
                status: BAD_REQUEST,
                message: status_text(BAD_REQUEST),
            }) && final(state).spec_sessions() == old(state).spec_sessions(),
            Ok(response) => {
                let user = key_of_hex(req.pubkey@);
                &&& user is Some
                &&& final(state).spec_sessions().contains_key(user->0)
                &&& final(state).spec_sessions() == old(state).spec_sessions().insert(
                    user->0,
                    final(state).spec_sessions()[user->0],
                )
                &&& response.session_id@ == final(state).spec_sessions()[user->0].session_id
                &&& is_version_7(response.session_id@)
                &&& public_key_of(final(state).spec_sessions()[user->0].signing_key) is Some
                &&& response.session_pubkey@ == hex_upper(
                    public_key_of(final(state).spec_sessions()[user->0].signing_key)->0,
                )
            },
        },
{
    match establish_session(state, req) {
        Ok((response, _)) => Ok(response),
        Err(e) => Err(e),
    }
}

/// The response of the verifiable handshake: the session's key and id, with
/// the quote that was obtained for the report of `establish_session`.
pub fn verifiable_create_keypair(raw_resp: CreateKeyPairResponse, quote_bytes: &[u8]) -> (response:
    VerifiableCreateKeyPairResponse)
    ensures
        response.session_pubkey@ == raw_resp.session_pubkey@,
        response.session_id@ == raw_resp.session_id@,
        response.quote@ == hex_lower(quote_bytes@),
{
    VerifiableCreateKeyPairResponse {
        session_pubkey: raw_resp.session_pubkey,
        session_id: raw_resp.session_id,
        quote: encode(quote_bytes),
    }
}

} // verus!
