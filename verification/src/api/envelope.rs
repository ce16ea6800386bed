//! Opening encrypted requests and sealing responses.

use vstd::prelude::*;
use vstd::string::StringExecFns;
use crate::agent::types::Uuid;
use crate::error::{
    status_text, ErrorView, HypervisorError, BAD_REQUEST, INTERNAL_SERVER_ERROR, UNAUTHORIZED,
};
use crate::text::{string_from_utf8, utf8};
use crate::types::{HypervisorState, SessionView};
use crate::utils::crypto::{
    aead_open, aead_seal, create_encrypt_key, derive_msg_nonce, key_of_hex, msg_nonce,
    pk_from_hex, session_key, AeadKey, PublicKey, SecretKey,
};
use crate::utils::hexcodec::{decode, encode, hex_decode, hex_lower};

verus! {

/// What a request carries in encrypted form.
#[derive(Debug, Clone, Copy, PartialEq, Eq)]
pub enum Payload {
    /// The query of an agent request
    Query,
    /// The prompt of a model request
    Prompt,
}

/// The word for a payload in error messages.
pub open spec fn payload_word(payload: Payload) -> Seq<char> {
    match payload {
        Payload::Query => "query"@,
        Payload::Prompt => "prompt"@,
    }
}

/// A request that was opened: the session it belongs to, the keys, and the
/// text that was sent.
pub struct OpenedRequest {
    pub session_id: Uuid,
    pub user_pk: PublicKey,
    pub session_sk: SecretKey,
    pub cipher: AeadKey,
    pub plaintext: String,
}

/// What an opened request holds.
pub struct OpenedView {
    pub session_id: Seq<u8>,
    pub user_pk: Seq<u8>,
    pub session_sk: Seq<u8>,
    pub cipher: Seq<u8>,
    pub plaintext: Seq<char>,
}

impl View for OpenedRequest {
    type V = OpenedView;

    open spec fn view(&self) -> OpenedView {
        OpenedView {
            session_id: self.session_id@,
            user_pk: self.user_pk@,
            session_sk: self.session_sk@,
            cipher: self.cipher@,
            plaintext: self.plaintext@,
        }
    }
}

/// What comes of opening a request, step by step: the public key is decoded
/// (400), the session is looked up (401), the key of the session is derived
/// (500), the payload is decoded from hexadecimal text (400), decrypted
/// under the nonce of the session id (400) and read as UTF-8 (400).
pub open spec fn opening(
    sessions: Map<Seq<u8>, SessionView>,
    public_key: Seq<char>,
    encrypted: Seq<char>,
    payload: Payload,
) -> Result<OpenedView, ErrorView> {
    match key_of_hex(public_key) {
        None => Err(ErrorView { status: BAD_REQUEST, message: "decode request pubkey"@ }),
        Some(user) => if !sessions.contains_key(user) {
            Err(ErrorView { status: UNAUTHORIZED, message: status_text(UNAUTHORIZED) })
        } else {
            let session = sessions[user];
            match session_key(session.signing_key, user, session.session_id) {
                None => Err(
                    ErrorView { status: INTERNAL_SERVER_ERROR, message: "create encrypt key"@ },
                ),
                Some(key) => match hex_decode(encrypted) {
                    None => Err(
                        ErrorView {
                            status: BAD_REQUEST,
                            message: "invalid "@ + payload_word(payload) + " hex"@,
                        },
                    ),
                    Some(ciphertext) => match aead_open(
                        key,
                        msg_nonce(session.session_id),
                        ciphertext,
                    ) {
                        None => Err(
                            ErrorView {
                                status: BAD_REQUEST,
                                message: "decrypt "@ + payload_word(payload),
                            },
                        ),
                        Some(bytes) => if !vstd::utf8::valid_utf8(bytes) {
                            Err(
                                ErrorView {
                                    status: BAD_REQUEST,
                                    message: payload_word(payload) + " isn't valid UTF-8"@,
                                },
                            )
                        } else {
                            Ok(
                                OpenedView {
                                    session_id: session.session_id,
                                    user_pk: user,
                                    session_sk: session.signing_key,
                                    cipher: key,
                                    plaintext: vstd::utf8::decode_utf8(bytes),
                                },
                            )
                        },
                    },
                },
            }
        },
    }
}

/// The outcome of opening, as views.
pub open spec fn opened_view(r: Result<OpenedRequest, HypervisorError>) -> Result<
    OpenedView,
    ErrorView,
> {
    match r {
        Ok(opened) => Ok(opened@),
        Err(e) => Err(e@),
    }
}

/// The word for a payload in error messages.
fn word(payload: Payload) -> (w: &'static str)
    ensures
        w@ == payload_word(payload),
{
    match payload {
        Payload::Query => "query",
        Payload::Prompt => "prompt",
    }
}

/// Opens a request: resolves the session of the sender and decrypts what
/// was sent with the key of the session.
pub fn open_request(
    state: &HypervisorState,
    public_key: &str,
    encrypted: &str,
    payload: Payload,
) -> (r: Result<OpenedRequest, HypervisorError>)
    ensures
        opened_view(r) == opening(state.spec_sessions(), public_key@, encrypted@, payload),
{
    // Decode user's public key
    let user_pk = match pk_from_hex(public_key) {
        Ok(pk) => pk,
        Err(_) => {
            return Err(HypervisorError::with_message(BAD_REQUEST, "decode request pubkey"));
        },
    };

    // Get session keypair
    let (session_sk, session_id) = match state.get_session_keypair(&user_pk) {
        Some(session) => session,
        None => {
            return Err(HypervisorError::with_status(UNAUTHORIZED));
        },
    };

    // Create cipher for this session
    let cipher = match create_encrypt_key(&session_sk, &user_pk, session_id) {
        Ok(cipher) => cipher,
        Err(_) => {
            return Err(HypervisorError::with_message(INTERNAL_SERVER_ERROR, "create encrypt key"));
        },
    };

    let msg_nonce = derive_msg_nonce(session_id.as_bytes().as_slice());

    // Decrypt the payload
    let encrypted_bytes = match decode(encrypted) {
        Some(bytes) => bytes,
        None => {
            let mut message = "invalid ".to_owned();
            message.append(word(payload));
            message.append(" hex");
            return Err(HypervisorError::Any { status: BAD_REQUEST, message });
        },
    };
    let decrypted = match cipher.decrypt(&msg_nonce, encrypted_bytes.as_slice()) {
        Ok(bytes) => bytes,
        Err(_) => {
            let mut message = "decrypt ".to_owned();
            message.append(word(payload));
            return Err(HypervisorError::Any { status: BAD_REQUEST, message });
        },
    };
    let ghost bytes = decrypted@;
    let plaintext = match string_from_utf8(decrypted) {
        Some(text) => text,
        None => {
            let mut message = word(payload).to_owned();
            message.append(" isn't valid UTF-8");
            return Err(HypervisorError::Any { status: BAD_REQUEST, message });
        },
    };
    proof {
        vstd::utf8::encode_utf8_decode_utf8(plaintext@);
    }
    Ok(OpenedRequest { session_id, user_pk, session_sk, cipher, plaintext })
}

/// A response in sealed form: the ciphertext and the nonce it was sealed
/// under, both as hexadecimal text.
pub struct SealedResponse {
    pub encrypted_response: String,
    pub response_nonce: String,
    pub nonce: [u8; 12],
}

/// Seals a response: encrypts the text under the nonce that is derived from
/// the text itself. A failure is answered with status 500.
pub fn seal_response(cipher: &AeadKey, text: &str) -> (r: Result<SealedResponse, HypervisorError>)
    ensures
        match r {
            Ok(sealed) => sealed.nonce@ == msg_nonce(utf8(text@)) && sealed.response_nonce@
                == hex_lower(sealed.nonce@) && aead_seal(cipher@, sealed.nonce@, utf8(text@))
                is Some && sealed.encrypted_response@ == hex_lower(
                aead_seal(cipher@, sealed.nonce@, utf8(text@))->0,
            ) && aead_open(
                cipher@,
                sealed.nonce@,
                aead_seal(cipher@, sealed.nonce@, utf8(text@))->0,
            ) == Some(utf8(text@)),
            Err(e) => aead_seal(cipher@, msg_nonce(utf8(text@)), utf8(text@)) is None && e@ == (
                ErrorView {
                    status: INTERNAL_SERVER_ERROR,
                    message: status_text(INTERNAL_SERVER_ERROR),
                }
            ),
        },
{
    let nonce = derive_msg_nonce(text.as_bytes());
    match cipher.encrypt(&nonce, text.as_bytes()) {
        Ok(encrypted) => Ok(
            SealedResponse {
                encrypted_response: encode(encrypted.as_slice()),
                response_nonce: encode(nonce.as_slice()),
                nonce,
            },
        ),
        Err(_) => Err(HypervisorError::with_status(INTERNAL_SERVER_ERROR)),
    }
}

} // verus!
