//! The failures that request handlers answer with.

use vstd::prelude::*;
use crate::text::{decimal, decimal_string};

verus! {

/// Status of a request that the client got wrong.
pub const BAD_REQUEST: u16 = 400;

/// Status of a request without a session.
pub const UNAUTHORIZED: u16 = 401;

/// Status of a request that failed on the server's side.
pub const INTERNAL_SERVER_ERROR: u16 = 500;

/// Why a request failed.
#[derive(Debug)]
pub enum HypervisorError {
    /// A failure with the HTTP status it is answered with
    Any { status: u16, message: String },
    /// An input or output failure
    Io(String),
}

/// What a `HypervisorError` holds: the status it is answered with, and its
/// message.
pub struct ErrorView {
    pub status: u16,
    pub message: Seq<char>,
}

impl View for HypervisorError {
    type V = ErrorView;

    open spec fn view(&self) -> ErrorView {
        match *self {
            HypervisorError::Any { status, message } => ErrorView { status, message: message@ },
            HypervisorError::Io(message) => ErrorView {
                status: INTERNAL_SERVER_ERROR,
                message: message@,
            },
        }
    }
}

/// The text of a status: the status line of the three statuses that the
/// handlers answer with, and the digits of any other.
pub open spec fn status_text(status: u16) -> Seq<char> {
    if status == BAD_REQUEST {
        "400 Bad Request"@
    } else if status == UNAUTHORIZED {
        "401 Unauthorized"@
    } else if status == INTERNAL_SERVER_ERROR {
        "500 Internal Server Error"@
    } else {
        decimal(status as nat)
    }
}

impl HypervisorError {
    /// A failure of status `status` whose message is `message`.
    pub fn with_message(status: u16, message: &str) -> (e: Self)
        ensures
            e@ == (ErrorView { status, message: message@ }),
    {
        HypervisorError::Any { status, message: message.to_owned() }
    }

    /// A failure whose message is the text of its status.
    pub fn with_status(status: u16) -> (e: Self)
        ensures
            e@ == (ErrorView { status, message: status_text(status) }),
    {
        let message = if status == BAD_REQUEST {
            "400 Bad Request".to_owned()
        } else if status == UNAUTHORIZED {
            "401 Unauthorized".to_owned()
        } else if status == INTERNAL_SERVER_ERROR {
            "500 Internal Server Error".to_owned()
        } else {
            decimal_string(status as usize)
        };
        HypervisorError::Any { status, message }
    }

    /// The HTTP status that the failure is answered with: its own for `Any`,
    /// 500 for `Io`.
    pub fn status_code(&self) -> (status: u16)
        ensures
            status == self@.status,
    {
        match self {
            HypervisorError::Any { status, .. } => *status,
            HypervisorError::Io(_) => INTERNAL_SERVER_ERROR,
        }
    }

    /// The message that the failure is answered with.
    pub fn message(&self) -> (message: String)
        ensures
            message@ == self@.message,
    {
        match self {
            HypervisorError::Any { message, .. } => message.clone(),
            HypervisorError::Io(message) => message.clone(),
        }
    }

    /// Whether the failure is the server's: a status from 500 to 599.
    pub fn is_server_error(&self) -> (b: bool)
        ensures
            b == (500 <= self@.status <= 599),
    {
        let status = self.status_code();
        500 <= status && status <= 599
    }

    /// Whether the failure is the client's: a status from 400 to 499.
    pub fn is_client_error(&self) -> (b: bool)
        ensures
            b == (400 <= self@.status <= 499),
    {
        let status = self.status_code();
        400 <= status && status <= 499
    }
}

} // verus!
