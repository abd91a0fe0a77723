//! The response envelope: status classification and the three decode paths.
//!
//! A raw transport response is classified once, before any decoding: a
//! non-success status turns the whole body text (best effort) into a
//! server-reported error, and only a success status reaches a decode path.
//! The envelope is consumed exactly once, by exactly one of single decode,
//! stream decode, or aggregate decode.

use core::marker::PhantomData;

use vstd::prelude::*;
use vstd::string::*;
use vstd::utf8::{decode_utf8, valid_utf8};

use crate::errors::{res_view, ErrorV, OllamaError};
use crate::json::spec_json_doc;
use crate::parser::parse_json;
use crate::stream::{
    chunk_view, chunks_view, results_view, spec_adapted, spec_aggregate, unexpected_shape_text,
    StreamHandler,
};
use crate::text::{str_to_chars, string_from_utf8};

verus! {

broadcast use vstd::seq::group_seq_axioms, vstd::std_specs::vec::group_vec_axioms;

/// The detail text when a response body cannot be read as text.
pub open spec fn unreadable_body_text() -> Seq<char> {
    "unreadable response body"@
}

/// The detail text when a response body is not one well-formed JSON
/// document.
pub open spec fn malformed_body_text() -> Seq<char> {
    "malformed response body"@
}

/// Mathematical model of a [`RawResponse`].
pub struct RawResponseV {
    pub status: u16,
    pub chunks: Seq<Result<Seq<u8>, Seq<char>>>,
}

/// What the transport yields for one completed exchange: the status code and
/// the body, as the sequence of chunks in delivery order, each either bytes
/// or the detail of a mid-body read failure.  A fully buffered body is the
/// one-chunk case.
pub struct RawResponse {
    /// The status code of the response.
    pub status: u16,
    /// The body chunks, in delivery order.
    pub chunks: Vec<Result<Vec<u8>, String>>,
}

impl View for RawResponse {
    type V = RawResponseV;

    open spec fn view(&self) -> RawResponseV {
        RawResponseV { status: self.status, chunks: chunks_view(self.chunks@) }
    }
}

/// All body bytes in order, or nothing if any chunk failed to read.
pub open spec fn spec_body_bytes(chunks: Seq<Result<Seq<u8>, Seq<char>>>) -> Option<Seq<u8>>
    decreases chunks.len(),
{
    if chunks.len() == 0 {
        Some(Seq::empty())
    } else {
        match spec_body_bytes(chunks.drop_last()) {
            Some(pre) => match chunks.last() {
                Ok(b) => Some(pre + b),
                Err(_) => None,
            },
            None => None,
        }
    }
}

/// The whole body as text: every chunk read, and the bytes well-formed
/// UTF-8.
pub open spec fn spec_body_text(chunks: Seq<Result<Seq<u8>, Seq<char>>>) -> Option<Seq<char>> {
    match spec_body_bytes(chunks) {
        Some(b) => if valid_utf8(b) {
            Some(decode_utf8(b))
        } else {
            None
        },
        None => None,
    }
}

/// The body text read best-effort: an unreadable body yields empty text.
pub open spec fn spec_body_text_or_empty(chunks: Seq<Result<Seq<u8>, Seq<char>>>) -> Seq<char> {
    match spec_body_text(chunks) {
        Some(t) => t,
        None => Seq::empty(),
    }
}

/// What single decode yields on a success-classified response: the body read
/// as text, parsed as one JSON document, and decoded as the target item.
pub open spec fn spec_single_decode<T: StreamHandler>(r: RawResponseV) -> Result<T::V, ErrorV> {
    match spec_body_text(r.chunks) {
        None => Err(ErrorV::DecodeError(unreadable_body_text())),
        Some(text) => match spec_json_doc(text) {
            None => Err(ErrorV::ParseError(malformed_body_text())),
            Some(doc) => match T::decode_of(doc) {
                Some(v) => Ok(v),
                None => Err(ErrorV::ParseError(unexpected_shape_text())),
            },
        },
    }
}

/// Reads the whole body as text.
pub fn body_text(chunks: &Vec<Result<Vec<u8>, String>>) -> (r: Option<String>)
    ensures
        match r {
            Some(t) => spec_body_text(chunks_view(chunks@)) == Some(t@),
            None => spec_body_text(chunks_view(chunks@)) is None,
        },
{
    let ghost cv = chunks_view(chunks@);
    let mut bytes: Vec<u8> = Vec::new();
    let mut i: usize = 0;
    while i < chunks.len()
        invariant
            i <= chunks@.len(),
            cv == chunks_view(chunks@),
            cv.len() == chunks@.len(),
            forall|j: int| 0 <= j < chunks@.len() ==> #[trigger] cv[j] == chunk_view(chunks@[j]),
            spec_body_bytes(cv.subrange(0, i as int)) == Some(bytes@),
        decreases chunks@.len() - i,
    {
        proof {
            assert(cv.subrange(0, i + 1 as int).drop_last() =~= cv.subrange(0, i as int));
        }
        match &chunks[i] {
            Ok(b) => {
                let ghost pre = bytes@;
                let mut k: usize = 0;
                while k < b.len()
                    invariant
                        k <= b@.len(),
                        bytes@ == pre + b@.subrange(0, k as int),
                    decreases b@.len() - k,
                {
                    bytes.push(b[k]);
                    proof {
                        assert(bytes@ =~= pre + b@.subrange(0, k + 1 as int));
                    }
                    k = k + 1;
                }
                proof {
                    assert(bytes@ =~= pre + b@);
                }
            },
            Err(_) => {
                proof {
                    lemma_body_bytes_extend_fail(cv, i + 1 as int);
                }
                return None;
            },
        }
        i = i + 1;
    }
    proof {
        assert(cv.subrange(0, cv.len() as int) =~= cv);
    }
    string_from_utf8(&bytes)
}

/// Once a prefix of the chunks fails to read, the whole body fails to read.
proof fn lemma_body_bytes_extend_fail(chunks: Seq<Result<Seq<u8>, Seq<char>>>, i: int)
    requires
        0 <= i <= chunks.len(),
        spec_body_bytes(chunks.subrange(0, i)) is None,
    ensures
        spec_body_bytes(chunks) is None,
    decreases chunks.len() - i,
{
    if i < chunks.len() {
        assert(chunks.subrange(0, i + 1).drop_last() =~= chunks.subrange(0, i));
        lemma_body_bytes_extend_fail(chunks, i + 1);
    } else {
        assert(chunks.subrange(0, i) =~= chunks);
    }
}

/// Classifies a transport status: a non-success status turns the body text,
/// read best-effort, into a server-reported error.
fn check_status_ok(response: RawResponse) -> (r: Result<RawResponse, OllamaError>)
    ensures
        match r {
            Ok(resp) => response@.status == 200 && resp@ == response@,
            Err(e) => response@.status != 200 && e@ == ErrorV::OllamaError(
                spec_body_text_or_empty(response@.chunks),
            ),
        },
{
    if response.status != 200 {
        let text = match body_text(&response.chunks) {
            Some(t) => t,
            None => String::new(),
        };
        return Err(OllamaError::OllamaError(text));
    }
    Ok(response)
}

/// Classifies the outcome of one sent request: a transport failure before
/// any status line becomes a request error, and a non-success status becomes
/// a server-reported error carrying the raw body text.
pub fn check_response_valid(response: Result<RawResponse, String>) -> (r: Result<
    RawResponse,
    OllamaError,
>)
    ensures
        match r {
            Ok(resp) => (response matches Ok(inner) && inner@ == resp@ && resp@.status == 200),
            Err(e) => match response {
                Ok(inner) => inner@.status != 200 && e@ == ErrorV::OllamaError(
                    spec_body_text_or_empty(inner@.chunks),
                ),
                Err(m) => e@ == ErrorV::RequestError(m@),
            },
        },
{
    match response {
        Ok(r) => check_status_ok(r),
        Err(e) => Err(OllamaError::RequestError(e)),
    }
}

/// A transport response that this crate's validation can classify.  The
/// original transport wiring implements this for its own response type.
pub trait ResponseValidator {
    /// Classifies the response, yielding it back on success.
    fn valid(&self) -> Result<RawResponse, OllamaError>;
}

/// The response envelope: the raw transport response together with the
/// statically known target item type.  It is consumed exactly once, by
/// exactly one of [`Self::response`], [`Self::stream`], [`Self::as_stream`]
/// or [`Self::as_response`]; status classification is assumed to have
/// already passed (see [`check_response_valid`]).
pub struct OllamaResponse<T> {
    response: RawResponse,
    marker: PhantomData<T>,
}

impl<T> View for OllamaResponse<T> {
    type V = RawResponseV;

    closed spec fn view(&self) -> RawResponseV {
        self.response@
    }
}

impl<T> OllamaResponse<T> {
    /// Wraps a classified transport response.
    pub fn from(value: RawResponse) -> (r: Self)
        ensures
            r@ == value@,
    {
        OllamaResponse { response: value, marker: PhantomData }
    }

    /// Hands the raw transport response back.
    pub fn raw_response(self) -> (r: RawResponse)
        ensures
            r@ == self@,
    {
        self.response
    }
}

impl<T: StreamHandler> OllamaResponse<T> {
    /// Decodes the whole body as one item.
    pub fn response(self) -> (r: Result<T, OllamaError>)
        ensures
            res_view(r) == spec_single_decode::<T>(self@),
    {
        let text = match body_text(&self.response.chunks) {
            Some(t) => t,
            None => {
                return Err(OllamaError::DecodeError(String::from_str("unreadable response body")));
            },
        };
        let cs = str_to_chars(text.as_str());
        let doc = match parse_json(&cs) {
            Some(d) => d,
            None => {
                return Err(OllamaError::ParseError(String::from_str("malformed response body")));
            },
        };
        match T::from_json(&doc) {
            Some(t) => Ok(t),
            None => Err(OllamaError::ParseError(String::from_str("unexpected response shape"))),
        }
    }

    /// Adapts the body into a sequence of elements, one per chunk.
    pub fn stream(self) -> (r: Result<Vec<Result<T, OllamaError>>, OllamaError>)
        ensures
            r matches Ok(elems) && results_view(elems@) == spec_adapted::<T>(self@.chunks),
    {
        let ghost me = self@;
        let adapted = crate::stream::adapt_stream::<T>(self.response.chunks);
        proof {
            assert(results_view(adapted@) =~= spec_adapted::<T>(me.chunks));
        }
        Ok(adapted)
    }

    /// Adapts the body into a sequence of elements, one per chunk.
    pub fn as_stream(self) -> (r: Result<Vec<Result<T, OllamaError>>, OllamaError>)
        ensures
            r matches Ok(elems) && results_view(elems@) == spec_adapted::<T>(self@.chunks),
    {
        let ghost me = self@;
        let adapted = crate::stream::adapt_stream::<T>(self.response.chunks);
        proof {
            assert(results_view(adapted@) =~= spec_adapted::<T>(me.chunks));
        }
        Ok(adapted)
    }

    /// Adapts the body and folds it into one terminal item.
    pub fn as_response(self) -> (r: Result<T, OllamaError>)
        ensures
            res_view(r) == spec_aggregate::<T>(spec_adapted::<T>(self@.chunks)),
    {
        let ghost me = self@;
        let adapted = crate::stream::adapt_stream::<T>(self.response.chunks);
        proof {
            assert(results_view(adapted@) =~= spec_adapted::<T>(me.chunks));
        }
        crate::stream::stream_to_response(adapted)
    }
}

} // verus!
