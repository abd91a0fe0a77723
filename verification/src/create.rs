//! The model-creation endpoint: its request and its streamed status output.

use vstd::prelude::*;
use vstd::string::*;

use crate::decode::{req_str_field, spec_req_str};
use crate::errors::{res_view, OllamaError};
use crate::json::{Json, JsonV};
use crate::ser::{spec_bool_text, spec_quoted};
use crate::stream::{results_view, spec_adapt_stream, spec_aggregate, StreamHandler};
use crate::text::{append_str, string_from_chars};

verus! {

broadcast use vstd::seq::group_seq_axioms, vstd::std_specs::vec::group_vec_axioms;

/// Mathematical model of a [`CreateModelResponse`].
pub struct CreateModelResponseV {
    pub status: Seq<char>,
}

/// One unit of the model-creation endpoint's output.  The server streams
/// JSON objects whose `status` reports progress; the final object of a
/// stream reports success.
#[derive(Debug, Clone)]
pub struct CreateModelResponse {
    /// The progress report of this step.
    pub status: String,
}

impl View for CreateModelResponse {
    type V = CreateModelResponseV;

    open spec fn view(&self) -> CreateModelResponseV {
        CreateModelResponseV { status: self.status@ }
    }
}

/// The item a wire document denotes: an object with a required `status`
/// string.  Unknown fields are ignored.
pub open spec fn spec_decode_create(v: JsonV) -> Option<CreateModelResponseV> {
    match v {
        JsonV::Obj(fs) => match spec_req_str(fs, "status"@) {
            Some(status) => Some(CreateModelResponseV { status }),
            None => None,
        },
        _ => None,
    }
}

impl StreamHandler for CreateModelResponse {
    open spec fn decode_of(v: JsonV) -> Option<CreateModelResponseV> {
        spec_decode_create(v)
    }

    /// Each status line contributes itself followed by a line break.
    open spec fn payload_of(v: CreateModelResponseV) -> Seq<char> {
        v.status + "\n"@
    }

    open spec fn merged(
        last: CreateModelResponseV,
        first: CreateModelResponseV,
        payload: Seq<char>,
    ) -> CreateModelResponseV {
        CreateModelResponseV { status: payload }
    }

    fn from_json(j: &Json) -> (r: Option<Self>) {
        let fs = match j {
            Json::Obj(fs) => fs,
            _ => {
                return None;
            },
        };
        let status = match req_str_field(fs, "status") {
            Some(s) => s,
            None => {
                return None;
            },
        };
        Some(CreateModelResponse { status })
    }

    fn payload(&self) -> (p: String) {
        self.status.clone().concat("\n")
    }

    fn merge(self, first: &Self, payload: String) -> (r: Self) {
        CreateModelResponse { status: payload }
    }

    fn duplicate(&self) -> (r: Self) {
        CreateModelResponse { status: self.status.clone() }
    }
}

impl CreateModelResponse {
    /// Adapts a streamed body, one element per chunk, in delivery order.
    pub fn adapt_stream(chunks: Vec<Result<Vec<u8>, String>>) -> (out: Vec<
        Result<Self, OllamaError>,
    >)
        ensures
            results_view(out@) =~= spec_adapt_stream::<Self>(chunks@),
    {
        let out = crate::stream::adapt_stream::<Self>(chunks);
        proof {
            assert(results_view(out@) =~= spec_adapt_stream::<Self>(chunks@));
        }
        out
    }

    /// Adapts a streamed body and folds it: the aggregate `status` is the
    /// newline-terminated join of every status line.
    pub fn stream_to_response(chunks: Vec<Result<Vec<u8>, String>>) -> (r: Result<
        Self,
        OllamaError,
    >)
        ensures
            res_view(r) == spec_aggregate::<Self>(spec_adapt_stream::<Self>(chunks@)),
    {
        let ghost cs = chunks@;
        let adapted = crate::stream::adapt_stream::<Self>(chunks);
        proof {
            assert(results_view(adapted@) =~= spec_adapt_stream::<Self>(cs));
        }
        crate::stream::stream_to_response(adapted)
    }
}

/// Mathematical model of a [`CreateModelRequest`].
pub struct CreateModelRequestV {
    pub name: Seq<char>,
    pub modelfile: Option<Seq<char>>,
    pub stream: Option<bool>,
    pub path: Option<Seq<char>>,
}

/// A request to create a model, from a modelfile's contents or a path to
/// one.
#[derive(Debug, Clone)]
pub struct CreateModelRequest {
    /// Name of the model to create.
    pub name: String,
    /// Contents of the modelfile.
    pub modelfile: Option<String>,
    /// If false the response is a single object rather than a stream.
    pub stream: Option<bool>,
    /// Path to the modelfile.
    pub path: Option<String>,
}

impl View for CreateModelRequest {
    type V = CreateModelRequestV;

    open spec fn view(&self) -> CreateModelRequestV {
        CreateModelRequestV {
            name: self.name@,
            modelfile: match self.modelfile {
                None => None,
                Some(ref s) => Some(s@),
            },
            stream: self.stream,
            path: match self.path {
                None => None,
                Some(ref s) => Some(s@),
            },
        }
    }
}

/// The wire form of a creation request: the name, and each optional field
/// only when it is set.
pub open spec fn spec_create_request_json(r: CreateModelRequestV) -> Seq<char> {
    "{\"name\":"@ + spec_quoted(r.name) + (match r.modelfile {
        None => Seq::<char>::empty(),
        Some(m) => ",\"modelfile\":"@ + spec_quoted(m),
    }) + (match r.stream {
        None => Seq::<char>::empty(),
        Some(b) => ",\"stream\":"@ + spec_bool_text(b),
    }) + (match r.path {
        None => Seq::<char>::empty(),
        Some(p) => ",\"path\":"@ + spec_quoted(p),
    }) + "}"@
}

impl CreateModelRequest {
    /// Serializes the request for the wire.
    pub fn to_json(&self) -> (r: String)
        ensures
            r@ == spec_create_request_json(self@),
    {
        let v: Vec<char> = Vec::new();
        let v = append_str(v, "{\"name\":");
        let v = crate::ser::append_quoted(v, self.name.as_str());
        let v = match &self.modelfile {
            None => v,
            Some(m) => {
                let v = append_str(v, ",\"modelfile\":");
                crate::ser::append_quoted(v, m.as_str())
            },
        };
        let v = match self.stream {
            None => v,
            Some(b) => {
                let v = append_str(v, ",\"stream\":");
                crate::ser::append_bool(v, b)
            },
        };
        let v = match &self.path {
            None => v,
            Some(p) => {
                let v = append_str(v, ",\"path\":");
                crate::ser::append_quoted(v, p.as_str())
            },
        };
        let v = append_str(v, "}");
        proof {
            assert(v@ =~= spec_create_request_json(self@));
        }
        string_from_chars(&v)
    }
}

/// Assembles a [`CreateModelRequest`] field by field.
#[derive(Debug, Clone)]
pub struct CreateModelRequestBuilder {
    name: Option<String>,
    modelfile: Option<String>,
    stream: Option<bool>,
    path: Option<String>,
}

/// Mathematical model of a [`CreateModelRequestBuilder`].
pub struct CreateModelRequestBuilderV {
    pub name: Option<Seq<char>>,
    pub modelfile: Option<Seq<char>>,
    pub stream: Option<bool>,
    pub path: Option<Seq<char>>,
}

impl View for CreateModelRequestBuilder {
    type V = CreateModelRequestBuilderV;

    closed spec fn view(&self) -> CreateModelRequestBuilderV {
        CreateModelRequestBuilderV {
            name: match self.name {
                None => None,
                Some(ref s) => Some(s@),
            },
            modelfile: match self.modelfile {
                None => None,
                Some(ref s) => Some(s@),
            },
            stream: self.stream,
            path: match self.path {
                None => None,
                Some(ref s) => Some(s@),
            },
        }
    }
}

impl Default for CreateModelRequestBuilder {
    /// A builder with nothing set.
    fn default() -> (r: Self)
        ensures
            r@.name is None && r@.modelfile is None && r@.stream is None && r@.path is None,
    {
        CreateModelRequestBuilder { name: None, modelfile: None, stream: None, path: None }
    }
}

impl CreateModelRequestBuilder {
    /// Sets the model name.
    pub fn name(self, name: &str) -> (r: Self)
        ensures
            r@ == (CreateModelRequestBuilderV { name: Some(name@), ..self@ }),
    {
        CreateModelRequestBuilder { name: Some(String::from_str(name)), ..self }
    }

    /// Sets the modelfile contents.
    pub fn modelfile(self, modelfile: &str) -> (r: Self)
        ensures
            r@ == (CreateModelRequestBuilderV { modelfile: Some(modelfile@), ..self@ }),
    {
        CreateModelRequestBuilder { modelfile: Some(String::from_str(modelfile)), ..self }
    }

    /// Sets the streaming flag.
    pub fn stream(self, stream: bool) -> (r: Self)
        ensures
            r@ == (CreateModelRequestBuilderV { stream: Some(stream), ..self@ }),
    {
        CreateModelRequestBuilder { stream: Some(stream), ..self }
    }

    /// Sets the modelfile path.
    pub fn path(self, path: &str) -> (r: Self)
        ensures
            r@ == (CreateModelRequestBuilderV { path: Some(path@), ..self@ }),
    {
        CreateModelRequestBuilder { path: Some(String::from_str(path)), ..self }
    }

    /// Builds the request; the name must have been set.
    pub fn build(self) -> (r: Result<CreateModelRequest, OllamaError>)
        ensures
            match r {
                Ok(req) => self@.name == Some(req@.name) && req@.modelfile == self@.modelfile
                    && req@.stream == self@.stream && req@.path == self@.path,
                Err(e) => self@.name is None && (e@ matches
                crate::errors::ErrorV::InvalidParameter(d) && d == "name is not set"@),
            },
    {
        let name = match self.name {
            Some(n) => n,
            None => {
                return Err(OllamaError::InvalidParameter(String::from_str("name is not set")));
            },
        };
        Ok(
            CreateModelRequest {
                name,
                modelfile: self.modelfile,
                stream: self.stream,
                path: self.path,
            },
        )
    }
}

} // verus!
