//! Model queries: validation, the request to the model, the committed response.

use vstd::prelude::*;
use crate::agent::chat::{ChatRequest, ChatRequestView, MODEL};
use crate::agent::types::Uuid;
use crate::api::envelope::{
    open_request, opened_view, opening, seal_response, OpenedRequest, Payload,
};
use crate::attest::types::RawReport;
use crate::error::{status_text, ErrorView, HypervisorError, BAD_REQUEST, INTERNAL_SERVER_ERROR};
use crate::text::{is_blank, trimmed, utf8};
use crate::types::HypervisorState;
use crate::utils::attest::{generate_raw_report_from_hash, report_of_digest};
use crate::utils::commitment_openai::{build_query_commitment, commitment_preimage};
use crate::utils::crypto::{aead_seal, msg_nonce, public_key_of};
use crate::utils::hasher::blake3_digest;
use crate::utils::hexcodec::{encode, hex_lower};

verus! {

/// The model that is named where the service names none.
pub const DEFAULT_MODEL: &'static str = "gpt-4o";

/// The bits of the 32-bit float 0.7, the temperature where none is asked
/// for.
pub const DEFAULT_TEMPERATURE_BITS: u32 = 0x3f33_3333;

/// The token bound where none is asked for.
pub const DEFAULT_MAX_TOKENS: u32 = 1000;

#[derive(Debug)]
pub struct OpenAIQueryRequest {
    /// Encrypted prompt (hex-encoded)
    pub encrypted_prompt: String,
    /// User's public key (hex-encoded compressed SECP256K1 public key)
    pub public_key: String,
    /// Temperature, as the bits of a 32-bit float
    pub temperature_bits: Option<u32>,
    pub max_tokens: Option<u32>,
}

#[derive(Debug)]
pub struct OpenAIQueryResponse {
    pub session_id: Uuid,
    /// Encrypted response (hex-encoded)
    pub encrypted_response: String,
    /// Nonce used for response encryption (hex-encoded)
    pub response_nonce: String,
    /// Model used
    pub model: String,
    /// Commitment to the query (prompt + response + metadata)
    pub query_commitment: String,
}

#[derive(Debug)]
pub struct VerifiableOpenAIQueryResponse {
    pub session_id: Uuid,
    /// Encrypted response (hex-encoded)
    pub encrypted_response: String,
    /// Nonce used for response encryption (hex-encoded)
    pub response_nonce: String,
    /// Model used
    pub model: String,
    /// Commitment to the query (prompt + response + metadata)
    pub query_commitment: String,
    /// TEE attestation quote (hex-encoded)
    pub quote: String,
}

/// A model request is well-formed: neither the encrypted prompt nor the
/// public key is blank.
pub open spec fn query_request_ok(request: OpenAIQueryRequest) -> bool {
    trimmed(request.encrypted_prompt@).len() > 0 && trimmed(request.public_key@).len() > 0
}

/// The temperature of a request, as float bits: the default where none is
/// asked for.
pub open spec fn requested_temperature(request: OpenAIQueryRequest) -> u32 {
    match request.temperature_bits {
        Some(bits) => bits,
        None => DEFAULT_TEMPERATURE_BITS,
    }
}

/// The token bound of a request: the default where none is asked for.
pub open spec fn requested_max_tokens(request: OpenAIQueryRequest) -> u32 {
    match request.max_tokens {
        Some(n) => n,
        None => DEFAULT_MAX_TOKENS,
    }
}

/// The model of an answer: the default where the service names none.
pub open spec fn answered_model(model: Option<&str>) -> Seq<char> {
    match model {
        Some(m) => m@,
        None => DEFAULT_MODEL@,
    }
}

/// Validate query request: a blank field is answered with status 400.
pub fn validate_query_request(request: &OpenAIQueryRequest) -> (r: Result<(), HypervisorError>)
    ensures
        match r {
            Ok(_) => query_request_ok(*request),
            Err(e) => !query_request_ok(*request) && e@ == (ErrorView {
                status: BAD_REQUEST,
                message: status_text(BAD_REQUEST),
            }),
        },
{
    if is_blank(request.encrypted_prompt.as_str()) || is_blank(request.public_key.as_str()) {
        return Err(HypervisorError::with_status(BAD_REQUEST));
    }
    Ok(())
}

/// Opens a model query: the request is validated, then opened.
pub fn open_openai_query(state: &HypervisorState, request: &OpenAIQueryRequest) -> (r: Result<
    OpenedRequest,
    HypervisorError,
>)
    ensures
        !query_request_ok(*request) ==> r is Err && r->Err_0@ == (ErrorView {
            status: BAD_REQUEST,
            message: status_text(BAD_REQUEST),
        }),
        query_request_ok(*request) ==> opened_view(r) == opening(
            state.spec_sessions(),
            request.public_key@,
            request.encrypted_prompt@,
            Payload::Prompt,
        ),
{
    match validate_query_request(request) {
        Ok(_) => {},
        Err(e) => {
            return Err(e);
        },
    }
    open_request(
        state,
        request.public_key.as_str(),
        request.encrypted_prompt.as_str(),
        Payload::Prompt,
    )
}

/// The request that carries the prompt of a model query to the model: the
/// prompt as the one user message, with the temperature and the token bound
/// that were asked for.
pub fn openai_chat_request(opened: &OpenedRequest, request: &OpenAIQueryRequest) -> (chat:
    ChatRequest)
    ensures
        chat.deep_view() == (ChatRequestView {
            model: MODEL@,
            system_prompt: None,
            user_prompt: opened.plaintext@,
            temperature_bits: requested_temperature(*request),
            max_tokens: requested_max_tokens(*request),
            json_object: false,
        }),
{
    ChatRequest {
        model: MODEL.to_owned(),
        system_prompt: None,
        user_prompt: opened.plaintext.clone(),
        temperature_bits: match request.temperature_bits {
            Some(bits) => bits,
            None => DEFAULT_TEMPERATURE_BITS,
        },
        max_tokens: match request.max_tokens {
            Some(n) => n,
            None => DEFAULT_MAX_TOKENS,
        },
        json_object: false,
    }
}

/// The response to a model query and the commitment that it carries: the
/// answer of the model is sealed with the key of the session, and the
/// commitment binds the keys, the session, the encrypted prompt, the model,
/// the parameters, and the sealed answer. A failure to seal, or a session
/// key without a verifying key, is answered with status 500.
pub fn query_openai(
    opened: &OpenedRequest,
    request: &OpenAIQueryRequest,
    model: Option<&str>,
    response_text: &str,
) -> (r: Result<(OpenAIQueryResponse, [u8; 32]), HypervisorError>)
    ensures
        match r {
            Ok((response, commitment)) => {
                let text = utf8(response_text@);
                let nonce = msg_nonce(text);
                &&& response.session_id@ == opened.session_id@
                &&& response.model@ == answered_model(model)
                &&& response.response_nonce@ == hex_lower(nonce)
                &&& aead_seal(opened.cipher@, nonce, text) is Some
                &&& response.encrypted_response@ == hex_lower(
                    aead_seal(opened.cipher@, nonce, text)->0,
                )
                &&& public_key_of(opened.session_sk@) is Some
                &&& commitment@ == blake3_digest(
                    commitment_preimage(
                        opened.user_pk@,
                        public_key_of(opened.session_sk@)->0,
                        opened.session_id@,
                        request.encrypted_prompt@,
                        response.model@,
                        requested_temperature(*request),
                        requested_max_tokens(*request),
                        nonce,
                        response.encrypted_response@,
                    ),
                )
                &&& response.query_commitment@ == hex_lower(commitment@)
            },
            Err(e) => {
                let text = utf8(response_text@);
                &&& aead_seal(opened.cipher@, msg_nonce(text), text) is None || public_key_of(
                    opened.session_sk@,
                ) is None
                &&& e@ == (ErrorView {
                    status: INTERNAL_SERVER_ERROR,
                    message: status_text(INTERNAL_SERVER_ERROR),
                })
            },
        },
{
    let model = match model {
        Some(m) => m.to_owned(),
        None => DEFAULT_MODEL.to_owned(),
    };

    // Encrypt the response
    let sealed = match seal_response(&opened.cipher, response_text) {
        Ok(sealed) => sealed,
        Err(e) => {
            return Err(e);
        },
    };
    let session_pk = match opened.session_sk.verifying_key() {
        Some(pk) => pk,
        None => {
            return Err(HypervisorError::with_status(INTERNAL_SERVER_ERROR));
        },
    };
    let temperature_bits = match request.temperature_bits {
        Some(bits) => bits,
        None => DEFAULT_TEMPERATURE_BITS,
    };
    let max_tokens = match request.max_tokens {
        Some(n) => n,
        None => DEFAULT_MAX_TOKENS,
    };

    // Commitment over prompt, response and metadata
    let query_commitment = build_query_commitment(
        &opened.user_pk,
        &session_pk,
        opened.session_id,
        request.encrypted_prompt.as_str(),
        model.as_str(),
        temperature_bits,
        max_tokens,
        &sealed.nonce,
        sealed.encrypted_response.as_str(),
    );

    let resp = OpenAIQueryResponse {
        session_id: opened.session_id,
        encrypted_response: sealed.encrypted_response,
        response_nonce: sealed.response_nonce,
        model,
        query_commitment: encode(query_commitment.as_slice()),
    };
    Ok((resp, query_commitment))
}

/// The report that a verifiable model query is attested with: the
/// commitment in the first 32 bytes, zero in the rest.
pub fn openai_query_report(commitment: [u8; 32]) -> (report: RawReport)
    ensures
        report@ == report_of_digest(commitment@),
{
    generate_raw_report_from_hash(commitment)
}

/// The response of a verifiable model query: the response of the query with
/// the quote that was obtained for `openai_query_report`.
pub fn verifiable_query_openai(resp: OpenAIQueryResponse, quote_bytes: &[u8]) -> (response:
    VerifiableOpenAIQueryResponse)
    ensures
        response.session_id@ == resp.session_id@,
        response.encrypted_response@ == resp.encrypted_response@,
        response.response_nonce@ == resp.response_nonce@,
        response.model@ == resp.model@,
        response.query_commitment@ == resp.query_commitment@,
        response.quote@ == hex_lower(quote_bytes@),
{
    VerifiableOpenAIQueryResponse {
        session_id: resp.session_id,
        encrypted_response: resp.encrypted_response,
        response_nonce: resp.response_nonce,
        model: resp.model,
        query_commitment: resp.query_commitment,
        quote: encode(quote_bytes),
    }
}

} // verus!
