//! Why reading or obtaining a quote fails.

use vstd::prelude::*;
use vstd::string::StringExecFns;
use crate::text::{decimal, decimal_string};

verus! {

/// Why a quote could not be read.
#[derive(Debug)]
pub enum QuoteError {
    /// Fewer bytes than a quote header holds
    InvalidHeaderSize(usize),
    /// A header version that is none of 3, 4, 5
    UnknownQuote(u16),
    /// The report data does not hold what was looked for
    ReportData(String),
}

/// The message of a `QuoteError`.
pub open spec fn quote_error_message(e: QuoteError) -> Seq<char> {
    match e {
        QuoteError::InvalidHeaderSize(n) => "invalid header size "@ + decimal(n as nat),
        QuoteError::UnknownQuote(v) => "unknown version "@ + decimal(v as nat),
        QuoteError::ReportData(m) => "report data "@ + m@,
    }
}

impl QuoteError {
    /// The message of the error.
    pub fn message(&self) -> (text: String)
        ensures
            text@ == quote_error_message(*self),
    {
        match self {
            QuoteError::InvalidHeaderSize(n) => {
                let mut text = "invalid header size ".to_owned();
                let digits = decimal_string(*n);
                text.append(digits.as_str());
                text
            },
            QuoteError::UnknownQuote(v) => {
                let mut text = "unknown version ".to_owned();
                let digits = decimal_string(*v as usize);
                text.append(digits.as_str());
                text
            },
            QuoteError::ReportData(m) => {
                let mut text = "report data ".to_owned();
                text.append(m.as_str());
                text
            },
        }
    }
}

/// Why no quote could be obtained.
#[derive(Debug)]
pub enum AttestationError {
    /// The legacy character-device provider failed
    Ioctl(String),
    /// The primary provider failed
    Coco(String),
    /// The quote that a provider handed out could not be read
    Quote(QuoteError),
    /// Neither provider is present
    NoProviderAvailable,
}

/// The message of an `AttestationError`.
pub open spec fn attestation_error_message(e: AttestationError) -> Seq<char> {
    match e {
        AttestationError::Ioctl(m) => "ioctl "@ + m@,
        AttestationError::Coco(m) => "coco "@ + m@,
        AttestationError::Quote(q) => "quote "@ + quote_error_message(q),
        AttestationError::NoProviderAvailable => "no provider available, should run inside guest vm"@,
    }
}

impl AttestationError {
    /// The message of the error.
    pub fn message(&self) -> (text: String)
        ensures
            text@ == attestation_error_message(*self),
    {
        match self {
            AttestationError::Ioctl(m) => {
                let mut text = "ioctl ".to_owned();
                text.append(m.as_str());
                text
            },
            AttestationError::Coco(m) => {
                let mut text = "coco ".to_owned();
                text.append(m.as_str());
                text
            },
            AttestationError::Quote(q) => {
                let mut text = "quote ".to_owned();
                let inner = q.message();
                text.append(inner.as_str());
                text
            },
            AttestationError::NoProviderAvailable => {
                "no provider available, should run inside guest vm".to_owned()
            },
        }
    }
}

} // verus!
