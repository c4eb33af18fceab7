//! A typed client for a claim-validation service's HTTP/JSON interface.
//!
//! Every operation follows one pattern: build a URL under a base fixed at
//! construction, render the request as JSON, send, then branch on the status
//! code and decode the body. This crate holds everything in that pattern but
//! the sending, with proofs: the JSON texts produced and accepted
//! (`json`, `parse`), the decimal texts of the integers (`num`), the typed
//! resources and their wire shapes (`types`, `codec`), and the URLs, default
//! timestamps and response interpretation (`client`). A host application
//! supplies the transport and hands each response's status and body back to
//! the interpretation functions.

use vstd::prelude::*;
use vstd::string::StringExecFns;

pub mod json;
pub mod num;
pub mod parse;
pub mod types;
pub mod codec;
pub mod client;

verus! {

/// The three failure categories an operation can produce, mutually exclusive
/// per call.
#[derive(Debug, PartialEq, Eq)]
pub enum OpenEpistemicError {
    /// The request could not be completed at all (connection, DNS, TLS,
    /// timeout). Carries a description of the underlying cause.
    HttpRequest(String),
    /// A success status was received but the body could not be parsed into
    /// the expected structure.
    InvalidResponse(String),
    /// A non-success status was received; carries the numeric status and an
    /// operation-specific message.
    ApiError { status: u16, message: String },
}

impl OpenEpistemicError {
    /// True exactly for the variant that reports a non-success HTTP status.
    pub fn is_api_error(&self) -> (r: bool)
        ensures
            r == (self matches OpenEpistemicError::ApiError { .. }),
    {
        match self {
            OpenEpistemicError::ApiError { .. } => true,
            _ => false,
        }
    }

    /// The failure as text: the category's name, then its detail.
    pub fn describe(&self) -> (r: String)
        ensures
            match self {
                OpenEpistemicError::HttpRequest(m) => r@ == "HTTP request failed: "@ + m@,
                OpenEpistemicError::InvalidResponse(m) => r@ == "Invalid response format: "@
                    + m@,
                OpenEpistemicError::ApiError { status, message } => r@ == "API error: "@
                    + message@,
            },
    {
        match self {
            OpenEpistemicError::HttpRequest(m) => {
                let mut out = "HTTP request failed: ".to_owned();
                out.append(m.as_str());
                out
            },
            OpenEpistemicError::InvalidResponse(m) => {
                let mut out = "Invalid response format: ".to_owned();
                out.append(m.as_str());
                out
            },
            OpenEpistemicError::ApiError { status: _, message } => {
                let mut out = "API error: ".to_owned();
                out.append(message.as_str());
                out
            },
        }
    }
}

} // verus!
