//! The error taxonomy shared by every endpoint of the client.

use vstd::prelude::*;

verus! {

/// Mathematical model of an [`OllamaError`]: the failure kind together with
/// the detail text as a sequence of characters.
pub enum ErrorV {
    RequestError(Seq<char>),
    InvalidResponse(Seq<char>),
    ParseError(Seq<char>),
    OllamaError(Seq<char>),
    StreamError(Seq<char>),
    InvalidParameter(Seq<char>),
    DecodeError(Seq<char>),
}

/// The closed set of failure kinds, each carrying a human-readable detail
/// string.  One value terminates either an entire request or one element of
/// a streamed response; errors are never retried internally.
#[derive(Debug, Clone, PartialEq, Eq)]
pub enum OllamaError {
    /// The transport failed to complete the exchange before a status line
    /// was received.
    RequestError(String),
    /// Bytes were read but did not parse into the expected structured shape.
    InvalidResponse(String),
    /// Bytes were read but could not be structurally parsed.
    ParseError(String),
    /// The transport succeeded but the server returned a non-success status;
    /// the detail is the raw response body text.
    OllamaError(String),
    /// A chunk of the streaming body could not be read from the transport
    /// mid-stream.
    StreamError(String),
    /// A caller-supplied request value violates a documented constraint.
    InvalidParameter(String),
    /// The response body bytes could not be read as text.
    DecodeError(String),
}

impl View for OllamaError {
    type V = ErrorV;

    open spec fn view(&self) -> ErrorV {
        match self {
            OllamaError::RequestError(d) => ErrorV::RequestError(d@),
            OllamaError::InvalidResponse(d) => ErrorV::InvalidResponse(d@),
            OllamaError::ParseError(d) => ErrorV::ParseError(d@),
            OllamaError::OllamaError(d) => ErrorV::OllamaError(d@),
            OllamaError::StreamError(d) => ErrorV::StreamError(d@),
            OllamaError::InvalidParameter(d) => ErrorV::InvalidParameter(d@),
            OllamaError::DecodeError(d) => ErrorV::DecodeError(d@),
        }
    }
}

/// The rendered form of an error: its kind as a label, a colon, and the
/// detail text.
pub open spec fn spec_message(e: ErrorV) -> Seq<char> {
    match e {
        ErrorV::RequestError(d) => "Request Error: "@ + d,
        ErrorV::InvalidResponse(d) => "Invalid Response: "@ + d,
        ErrorV::ParseError(d) => "Parse Error: "@ + d,
        ErrorV::OllamaError(d) => "Ollama Error: "@ + d,
        ErrorV::StreamError(d) => "Stream Error: "@ + d,
        ErrorV::InvalidParameter(d) => "Invalid Parameter: "@ + d,
        ErrorV::DecodeError(d) => "Decode Error: "@ + d,
    }
}

impl OllamaError {
    /// A copy with the same model.
    pub fn duplicate(&self) -> (r: Self)
        ensures
            r@ == self@,
    {
        match self {
            OllamaError::RequestError(d) => OllamaError::RequestError(d.clone()),
            OllamaError::InvalidResponse(d) => OllamaError::InvalidResponse(d.clone()),
            OllamaError::ParseError(d) => OllamaError::ParseError(d.clone()),
            OllamaError::OllamaError(d) => OllamaError::OllamaError(d.clone()),
            OllamaError::StreamError(d) => OllamaError::StreamError(d.clone()),
            OllamaError::InvalidParameter(d) => OllamaError::InvalidParameter(d.clone()),
            OllamaError::DecodeError(d) => OllamaError::DecodeError(d.clone()),
        }
    }

    /// Renders the error as `"<kind label>: <detail>"`.
    pub fn message(&self) -> (r: String)
        ensures
            r@ == spec_message(self@),
    {
        match self {
            OllamaError::RequestError(d) => String::from_str("Request Error: ").concat(d.as_str()),
            OllamaError::InvalidResponse(d) => String::from_str("Invalid Response: ").concat(
                d.as_str(),
            ),
            OllamaError::ParseError(d) => String::from_str("Parse Error: ").concat(d.as_str()),
            OllamaError::OllamaError(d) => String::from_str("Ollama Error: ").concat(d.as_str()),
            OllamaError::StreamError(d) => String::from_str("Stream Error: ").concat(d.as_str()),
            OllamaError::InvalidParameter(d) => String::from_str("Invalid Parameter: ").concat(
                d.as_str(),
            ),
            OllamaError::DecodeError(d) => String::from_str("Decode Error: ").concat(d.as_str()),
        }
    }
}

/// Model of a `Result` whose error side is an [`OllamaError`].
pub open spec fn res_view<T: View>(r: Result<T, OllamaError>) -> Result<T::V, ErrorV> {
    match r {
        Ok(t) => Ok(t@),
        Err(e) => Err(e@),
    }
}

} // verus!
