//! The client: its base URL and transport, and the fetch-and-decode steps.
use vstd::prelude::*;

use crate::error::{Failure, FetchError};
use crate::path::{
    block_url_of, block_url_text, has_double_slash_from, lemma_joins_cleanly, trim_end_slashes,
    trim_end_slashes_of,
};

verus! {

#[verifier::external_type_specification]
#[verifier::external_body]
pub struct ExClient(reqwest::Client);

#[verifier::external_type_specification]
#[verifier::external_body]
pub struct ExReqwestError(reqwest::Error);

#[verifier::external_type_specification]
#[verifier::external_body]
pub struct ExJsonValue(serde_json::Value);

/// Relies on `reqwest::Client::clone`: the copy shares the original's
/// connection pool and configuration.
pub assume_specification[ <reqwest::Client as Clone>::clone ](c: &reqwest::Client) -> reqwest::Client;

/// Seconds that the transport waits for a request before giving up on it.
pub const REQUEST_TIMEOUT_SECS: u64 = 5;

/// True when `s` is the text of a JSON document.
pub uninterp spec fn is_json_document(s: Seq<char>) -> bool;

/// Relies on reqwest's `ClientBuilder::timeout` and `ClientBuilder::build`: the
/// builder only records configuration, so no request is made here.
#[verifier::external_body]
fn build_transport(timeout_secs: u64) -> (r: Result<reqwest::Client, reqwest::Error>) {
    reqwest::Client::builder().timeout(std::time::Duration::from_secs(timeout_secs)).build()
}

/// Relies on `serde_json::from_str` into a `serde_json::Value`, which succeeds
/// exactly on the texts that are JSON documents.
#[verifier::external_body]
fn parse_json(s: &str) -> (r: Result<serde_json::Value, serde_json::Error>)
    ensures
        r is Ok <==> is_json_document(s@),
{
    serde_json::from_str::<serde_json::Value>(s)
}

/// What the transport handed back for one request.
pub enum Reply {
    /// No response came; `cause` describes why.
    Unanswered { cause: String, timed_out: bool },
    /// A response came with `status`; `body` is its text, or why it could not be read.
    Answered { status: u16, body: Result<String, String> },
}

/// True for the statuses of the 2xx class.
pub open spec fn is_success(status: u16) -> bool {
    200 <= status < 300
}

/// What a reply to a request for `url` comes to before decoding: the body to
/// decode, or the failure.
pub open spec fn reply_outcome(url: Seq<char>, reply: Reply) -> Result<Seq<char>, Failure> {
    match reply {
        Reply::Unanswered { cause, timed_out } => Err(
            Failure::Transport { url, cause: cause@, timed_out },
        ),
        Reply::Answered { status, body } => match body {
            Err(cause) => Err(Failure::BodyRead { url, status, cause: cause@ }),
            Ok(text) => if is_success(status) {
                Ok(text@)
            } else {
                Err(Failure::HttpStatus { url, status, body: text@ })
            },
        },
    }
}

/// `r` as plain values.
pub open spec fn body_view(r: Result<String, FetchError>) -> Result<Seq<char>, Failure> {
    match r {
        Ok(b) => Ok(b@),
        Err(e) => Err(e@),
    }
}

/// The failure of `r`, if it is one.
pub open spec fn failure_of<T>(r: Result<T, FetchError>) -> Option<Failure> {
    match r {
        Ok(_) => None,
        Err(e) => Some(e@),
    }
}

/// Classifies a reply to a request for `url`: a success status with a readable
/// body gives the body; anything else gives the matching error.
pub fn read_reply(url: &str, reply: Reply) -> (r: Result<String, FetchError>)
    ensures
        body_view(r) == reply_outcome(url@, reply),
{
    match reply {
        Reply::Unanswered { cause, timed_out } => Err(
            FetchError::Transport { url: String::from_str(url), cause, timed_out },
        ),
        Reply::Answered { status, body } => match body {
            Err(cause) => Err(FetchError::BodyRead { url: String::from_str(url), status, cause }),
            Ok(text) => if 200 <= status && status < 300 {
                Ok(text)
            } else {
                Err(FetchError::HttpStatus { url: String::from_str(url), status, body: text })
            },
        },
    }
}

/// Turns the decoder's verdict on `body`, fetched from `url`, into the fetch's
/// result: the value, or a `Decode` error that keeps the body.
pub fn decoded<T>(url: &str, body: String, parsed: Result<T, serde_json::Error>) -> (r: Result<
    T,
    FetchError,
>)
    ensures
        parsed is Ok ==> r is Ok && r->Ok_0 == parsed->Ok_0,
        parsed is Err ==> failure_of(r) == Some(Failure::Decode { url: url@, body: body@ }),
{
    match parsed {
        Ok(v) => Ok(v),
        Err(cause) => Err(FetchError::Decode { url: String::from_str(url), body, cause }),
    }
}

/// Why a client could not be set up.
#[derive(Debug)]
pub struct SetupError {
    /// What the transport reported.
    pub cause: reqwest::Error,
}

/// A client of a JSON HTTP API rooted at a base URL.
pub struct AleoRpcClient {
    base_url: String,
    inner: reqwest::Client,
}

impl Clone for AleoRpcClient {
    /// A client with the same base URL that shares this one's transport.
    fn clone(&self) -> (r: Self)
        ensures
            r.base() == self.base(),
    {
        proof {
            use_type_invariant(self);
        }
        AleoRpcClient { base_url: self.base_url.clone(), inner: self.inner.clone() }
    }
}

impl AleoRpcClient {
    /// The base URL, which never ends in `/`.
    pub closed spec fn base(&self) -> Seq<char> {
        self.base_url@
    }

    #[verifier::type_invariant]
    spec fn no_trailing_slash(&self) -> bool {
        self.base_url@.len() == 0 || self.base_url@.last() != '/'
    }

    /// Makes a client whose base URL is `base_url` without its trailing `/`,
    /// with a transport that gives up on a request after the fixed timeout.
    /// Nothing is sent; only a transport that cannot be built makes it fail.
    pub fn new(base_url: &str) -> (r: Result<Self, SetupError>)
        ensures
            r is Ok ==> r->Ok_0.base() == trim_end_slashes(base_url@),
    {
        let base = trim_end_slashes_of(base_url);
        proof {
            crate::path::trimmed_base_joins_cleanly(base_url@, 0);
        }
        match build_transport(REQUEST_TIMEOUT_SECS) {
            Ok(inner) => Ok(AleoRpcClient { base_url: base, inner }),
            Err(cause) => Err(SetupError { cause }),
        }
    }

    /// The transport handle, shared by every request of this client.
    pub fn transport(&self) -> &reqwest::Client {
        &self.inner
    }

    /// The URL of the block at `height`: the base URL, `/block/`, and the height in decimal.
    pub fn block_url(&self, height: u32) -> (r: String)
        ensures
            r@ == block_url_of(self.base(), height as nat),
            !has_double_slash_from(r@, self.base().len() - 1),
    {
        proof {
            use_type_invariant(self);
            lemma_joins_cleanly(self.base(), height as nat);
        }
        block_url_text(self.base_url.as_str(), height)
    }

    /// Finishes a fetch of `url` from the transport's `reply`: a success status
    /// with a body that is a JSON document gives that document; otherwise the
    /// error says which step failed, with the status and body where there were some.
    pub fn get_resource(&self, url: &str, reply: Reply) -> (r: Result<serde_json::Value, FetchError>)
        ensures
            (match reply_outcome(url@, reply) {
                Err(f) => failure_of(r) == Some(f),
                Ok(body) => if is_json_document(body) {
                    r is Ok
                } else {
                    failure_of(r) == Some(Failure::Decode { url: url@, body })
                },
            }),
    {
        match read_reply(url, reply) {
            Err(e) => Err(e),
            Ok(body) => {
                let parsed = parse_json(body.as_str());
                decoded(url, body, parsed)
            },
        }
    }

    /// Finishes a fetch of the block at `height` from the transport's `reply` to
    /// a request for `block_url(height)`, as `get_resource` does for that URL.
    pub fn get_block(&self, height: u32, reply: Reply) -> (r: Result<serde_json::Value, FetchError>)
        ensures
            (match reply_outcome(block_url_of(self.base(), height as nat), reply) {
                Err(f) => failure_of(r) == Some(f),
                Ok(body) => if is_json_document(body) {
                    r is Ok
                } else {
                    failure_of(r) == Some(
                        Failure::Decode { url: block_url_of(self.base(), height as nat), body },
                    )
                },
            }),
    {
        let url = self.block_url(height);
        self.get_resource(url.as_str(), reply)
    }
}

} // verus!
