use crate::json::{append_decimal, decimal};
use vstd::prelude::*;

verus! {

/// reqwest's error type, carried as an opaque value.
#[verifier::external_type_specification]
#[verifier::external_body]
pub struct ExReqwestError(reqwest::Error);

/// The error of a request to the provider.
#[derive(Debug)]
pub enum TavilyError {
    /// The transport failed, or a response body could not be read as the
    /// shape that was expected.
    ClientError(reqwest::Error),
    /// The provider answered with a failure status and an error payload.
    HttpError(HttpError),
}

/// A failure status together with the provider's account of it.
#[derive(Debug, Clone)]
pub struct HttpError {
    pub status: u16,
    pub payload: HttpErrorPayload,
}

/// The body of a failed response: a machine-readable code and a message.
#[derive(Debug, Clone)]
pub struct HttpErrorPayload {
    pub code: String,
    pub message: String,
}

/// The error of building a client.
#[derive(Debug, Clone, Copy, PartialEq, Eq, Structural)]
pub enum ConfigError {
    /// No API key was given, neither explicitly nor in the environment.
    MissingApiKey,
}

pub open spec fn separator() -> Seq<char> {
    seq![' ', '-', ' ']
}

/// `status - code - message`.
pub open spec fn http_error_text(e: HttpError) -> Seq<char> {
    decimal(e.status as nat) + separator() + e.payload.code@ + separator() + e.payload.message@
}

fn append_separator(out: &mut String)
    ensures
        final(out)@ == old(out)@ + separator(),
{
    proof { reveal_strlit(" - "); }
    out.append(" - ");
}

impl HttpError {
    /// The error as one line: the status, the code and the message.
    pub fn to_string(&self) -> (r: String)
        ensures
            r@ == http_error_text(*self),
    {
        let mut out = String::new();
        append_decimal(&mut out, self.status as u32);
        append_separator(&mut out);
        out.append(self.payload.code.as_str());
        append_separator(&mut out);
        out.append(self.payload.message.as_str());
        assert(out@ =~= http_error_text(*self));
        out
    }
}

impl ConfigError {
    /// What went wrong, and how to mend it.
    pub fn message(&self) -> (r: &'static str)
        ensures
            r@ == "API key is required. Set it explicitly or use the TAVILY_API_KEY environment variable"@,
    {
        "API key is required. Set it explicitly or use the TAVILY_API_KEY environment variable"
    }
}

impl From<reqwest::Error> for TavilyError {
    fn from(e: reqwest::Error) -> (r: TavilyError)
        ensures
            r == TavilyError::ClientError(e),
    {
        TavilyError::ClientError(e)
    }
}

impl vstd::std_specs::convert::FromSpecImpl<reqwest::Error> for TavilyError {
    open spec fn obeys_from_spec() -> bool {
        true
    }

    open spec fn from_spec(e: reqwest::Error) -> TavilyError {
        TavilyError::ClientError(e)
    }
}

} // verus!
