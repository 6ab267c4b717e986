//! What a fetch can fail with, and its human-readable message.
use vstd::prelude::*;

use crate::path::{decimal, decimal_text};

verus! {

#[verifier::external_type_specification]
#[verifier::external_body]
pub struct ExJsonError(serde_json::Error);

/// Why a fetch of a resource failed. Each variant carries the URL that was requested.
#[derive(Debug)]
#[allow(inconsistent_fields)]
pub enum FetchError {
    /// The request got no response (DNS, connection, TLS, or the timeout).
    Transport { url: String, cause: String, timed_out: bool },
    /// A response came, but its body could not be read in full.
    BodyRead { url: String, status: u16, cause: String },
    /// The response status was not a success; the body is kept verbatim.
    HttpStatus { url: String, status: u16, body: String },
    /// The status was a success, but the body is not the expected document; the body is kept verbatim.
    Decode { url: String, body: String, cause: serde_json::Error },
}

/// A `FetchError` as plain values: what it says, less the decoder's own cause.
pub enum Failure {
    Transport { url: Seq<char>, cause: Seq<char>, timed_out: bool },
    BodyRead { url: Seq<char>, status: u16, cause: Seq<char> },
    HttpStatus { url: Seq<char>, status: u16, body: Seq<char> },
    Decode { url: Seq<char>, body: Seq<char> },
}

impl View for FetchError {
    type V = Failure;

    open spec fn view(&self) -> Failure {
        match self {
            FetchError::Transport { url, cause, timed_out } => Failure::Transport {
                url: url@,
                cause: cause@,
                timed_out: *timed_out,
            },
            FetchError::BodyRead { url, status, cause } => Failure::BodyRead {
                url: url@,
                status: *status,
                cause: cause@,
            },
            FetchError::HttpStatus { url, status, body } => Failure::HttpStatus {
                url: url@,
                status: *status,
                body: body@,
            },
            FetchError::Decode { url, body, .. } => Failure::Decode { url: url@, body: body@ },
        }
    }
}

/// The message of a failure: it names the URL, the status where there was one,
/// and quotes the cause or the raw body verbatim.
pub open spec fn message_of(f: Failure) -> Seq<char> {
    match f {
        Failure::Transport { url, cause, timed_out } => if timed_out {
            "request "@ + url + " timed out: "@ + cause
        } else {
            "request "@ + url + " got no response: "@ + cause
        },
        Failure::BodyRead { url, status, cause } => "request "@ + url + ", status: "@ + decimal(
            status as nat,
        ) + ", body could not be read: "@ + cause,
        Failure::HttpStatus { url, status, body } => "request "@ + url + " failed, status: "@
            + decimal(status as nat) + ", body: "@ + body,
        Failure::Decode { url, body } => "request "@ + url
            + " returned a body that does not decode: "@ + body,
    }
}

impl FetchError {
    /// The human-readable message of this error.
    pub fn message(&self) -> (r: String)
        ensures
            r@ == message_of(self@),
    {
        let mut r = String::from_str("request ");
        match self {
            FetchError::Transport { url, cause, timed_out } => {
                r.append(url.as_str());
                if *timed_out {
                    r.append(" timed out: ");
                } else {
                    r.append(" got no response: ");
                }
                r.append(cause.as_str());
            },
            FetchError::BodyRead { url, status, cause } => {
                r.append(url.as_str());
                r.append(", status: ");
                r.append(decimal_text(*status as u32).as_str());
                r.append(", body could not be read: ");
                r.append(cause.as_str());
            },
            FetchError::HttpStatus { url, status, body } => {
                r.append(url.as_str());
                r.append(" failed, status: ");
                r.append(decimal_text(*status as u32).as_str());
                r.append(", body: ");
                r.append(body.as_str());
            },
            FetchError::Decode { url, body, .. } => {
                r.append(url.as_str());
                r.append(" returned a body that does not decode: ");
                r.append(body.as_str());
            },
        }
        r
    }
}

} // verus!
