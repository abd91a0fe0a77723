//! The generation endpoint's request and the dispatch over its two response
//! modes: a single object when streaming was turned off, a stream of partial
//! responses otherwise.

use vstd::prelude::*;
use vstd::string::*;

use crate::completion::{spec_decode_completion, CompletionResponse, CompletionResponseV};
use crate::errors::{ErrorV, OllamaError};
use crate::json::spec_json_doc;
use crate::parser::parse_json;
use crate::response::{
    body_text, malformed_body_text, spec_body_text, spec_body_text_or_empty, unreadable_body_text,
    RawResponse, RawResponseV,
};
use crate::stream::{results_view, spec_adapted, unexpected_shape_text, StreamHandler};
use crate::text::str_to_chars;

verus! {

broadcast use vstd::seq::group_seq_axioms, vstd::std_specs::vec::group_vec_axioms;

/// Mathematical model of a [`GenerateResponse`].
pub enum GenerateResponseV {
    NonStream(CompletionResponseV),
    Stream(Seq<Result<CompletionResponseV, ErrorV>>),
}

/// The outcome of a generation exchange: one whole response when streaming
/// was turned off, or the adapted stream of partial responses otherwise.
pub enum GenerateResponse {
    NonStream(CompletionResponse),
    Stream(Vec<Result<CompletionResponse, OllamaError>>),
}

impl View for GenerateResponse {
    type V = GenerateResponseV;

    open spec fn view(&self) -> GenerateResponseV {
        match self {
            GenerateResponse::NonStream(v) => GenerateResponseV::NonStream(v@),
            GenerateResponse::Stream(elems) => GenerateResponseV::Stream(results_view(elems@)),
        }
    }
}

/// What single-object handling yields: a non-success status turns the body
/// text (best effort) into a server-reported error; otherwise the body is
/// read as text, parsed as one JSON document, and decoded.
pub open spec fn spec_handle_non_stream(r: RawResponseV) -> Result<CompletionResponseV, ErrorV> {
    if r.status != 200 {
        Err(ErrorV::OllamaError(spec_body_text_or_empty(r.chunks)))
    } else {
        match spec_body_text(r.chunks) {
            None => Err(ErrorV::DecodeError(unreadable_body_text())),
            Some(text) => match spec_json_doc(text) {
                None => Err(ErrorV::InvalidResponse(malformed_body_text())),
                Some(doc) => match spec_decode_completion(doc) {
                    Some(v) => Ok(v),
                    None => Err(ErrorV::InvalidResponse(unexpected_shape_text())),
                },
            },
        }
    }
}

/// Handles a single-object response body.
pub fn handle_non_stream(resp: RawResponse) -> (r: Result<GenerateResponse, OllamaError>)
    ensures
        match r {
            Ok(g) => g@ matches GenerateResponseV::NonStream(v) && spec_handle_non_stream(resp@)
                == Ok::<CompletionResponseV, ErrorV>(v),
            Err(e) => spec_handle_non_stream(resp@) == Err::<CompletionResponseV, ErrorV>(e@),
        },
{
    if resp.status != 200 {
        let text = match body_text(&resp.chunks) {
            Some(t) => t,
            None => String::new(),
        };
        return Err(OllamaError::OllamaError(text));
    }
    let text = match body_text(&resp.chunks) {
        Some(t) => t,
        None => {
            return Err(OllamaError::DecodeError(String::from_str("unreadable response body")));
        },
    };
    let cs = str_to_chars(text.as_str());
    let doc = match parse_json(&cs) {
        Some(d) => d,
        None => {
            return Err(OllamaError::InvalidResponse(String::from_str("malformed response body")));
        },
    };
    match CompletionResponse::from_json(&doc) {
        Some(item) => Ok(GenerateResponse::NonStream(item)),
        None => Err(OllamaError::InvalidResponse(String::from_str("unexpected response shape"))),
    }
}

/// Handles a streamed response body: every chunk becomes one element, in
/// delivery order; handling itself never fails.
pub fn handle_stream(chunks: Vec<Result<Vec<u8>, String>>) -> (r: Result<
    GenerateResponse,
    OllamaError,
>)
    ensures
        r matches Ok(g) && (g@ matches GenerateResponseV::Stream(elems) && elems
            == spec_adapted::<CompletionResponse>(crate::stream::chunks_view(chunks@))),
{
    let ghost cs = chunks@;
    let adapted = crate::stream::adapt_stream::<CompletionResponse>(chunks);
    proof {
        assert(results_view(adapted@) =~= spec_adapted::<CompletionResponse>(
            crate::stream::chunks_view(cs),
        ));
    }
    Ok(GenerateResponse::Stream(adapted))
}

/// Dispatches a generation response on the request's streaming flag:
/// `Some(false)` asks for a single object, any other value means streaming.
pub fn dispatch_generate(resp: RawResponse, stream: Option<bool>) -> (r: Result<
    GenerateResponse,
    OllamaError,
>)
    ensures
        match stream {
            Some(false) => match r {
                Ok(g) => g@ matches GenerateResponseV::NonStream(v) && spec_handle_non_stream(
                    resp@,
                ) == Ok::<CompletionResponseV, ErrorV>(v),
                Err(e) => spec_handle_non_stream(resp@) == Err::<CompletionResponseV, ErrorV>(e@),
            },
            _ => r matches Ok(g) && (g@ matches GenerateResponseV::Stream(elems) && elems
                == spec_adapted::<CompletionResponse>(resp@.chunks)),
        },
{
    match stream {
        Some(false) => handle_non_stream(resp),
        _ => handle_stream(resp.chunks),
    }
}

/// For every non-success status, single-object handling fails with the
/// server-error kind carrying the raw body text verbatim (empty when the
/// body is unreadable), whether or not that text is valid JSON.  The
/// streaming path reaches no decode either: classification (see
/// [`crate::response::check_response_valid`]) yields this same error before
/// an envelope exists.
pub proof fn lemma_non_success_is_server_error(r: RawResponseV)
    requires
        r.status != 200,
    ensures
        spec_handle_non_stream(r) == Err::<CompletionResponseV, ErrorV>(
            ErrorV::OllamaError(spec_body_text_or_empty(r.chunks)),
        ),
{
}

/// Mathematical model of a [`GenerateRequest`].
pub struct GenerateRequestV {
    pub model: Seq<char>,
    pub prompt: Seq<char>,
    pub images: Option<Seq<char>>,
    pub format: Option<crate::options::Format>,
    pub options: Option<crate::options::OptionsV>,
    pub system: Option<Seq<char>>,
    pub template: Option<Seq<char>>,
    pub context: Option<Seq<u8>>,
    pub stream: Option<bool>,
    pub raw: Option<bool>,
    pub keep_alive: Option<usize>,
}

/// A request to generate a response for a prompt, with the token history
/// carried as raw bytes.  Optional fields are serialized only when set.
#[derive(Debug, Clone)]
pub struct GenerateRequest {
    /// The model name.
    pub model: String,
    /// The prompt to generate a response for.
    pub prompt: String,
    /// Base64-encoded images, for multimodal models.
    pub images: Option<String>,
    /// The format to return the response in.
    pub format: Option<crate::options::Format>,
    /// Additional model parameters.
    pub options: Option<crate::options::Options>,
    /// System message, overriding the modelfile.
    pub system: Option<String>,
    /// Prompt template, overriding the modelfile.
    pub template: Option<String>,
    /// Token history from an earlier exchange, as raw bytes.
    pub context: Option<Vec<u8>>,
    /// If false the response is a single object rather than a stream.
    pub stream: Option<bool>,
    /// If true no formatting is applied to the prompt.
    pub raw: Option<bool>,
    /// How long the model stays loaded after the request, in seconds.
    pub keep_alive: Option<usize>,
}

impl View for GenerateRequest {
    type V = GenerateRequestV;

    open spec fn view(&self) -> GenerateRequestV {
        GenerateRequestV {
            model: self.model@,
            prompt: self.prompt@,
            images: crate::options::opt_str_view(self.images),
            format: self.format,
            options: match self.options {
                None => None,
                Some(ref o) => Some(o@),
            },
            system: crate::options::opt_str_view(self.system),
            template: crate::options::opt_str_view(self.template),
            context: match self.context {
                None => None,
                Some(ref v) => Some(v@),
            },
            stream: self.stream,
            raw: self.raw,
            keep_alive: self.keep_alive,
        }
    }
}

/// The rendered pieces of a generation request, in declaration order.
pub open spec fn spec_generate_request_pieces(r: GenerateRequestV) -> Seq<Seq<char>> {
    crate::ser::req_str_piece("model"@, r.model) + crate::ser::req_str_piece("prompt"@, r.prompt)
        + (match r.images {
        None => Seq::<Seq<char>>::empty(),
        Some(s) => crate::ser::req_str_piece("images"@, s),
    }) + crate::options::format_piece(r.format) + crate::options::opt_options_piece(r.options)
        + (match r.system {
        None => Seq::<Seq<char>>::empty(),
        Some(s) => crate::ser::req_str_piece("system"@, s),
    }) + (match r.template {
        None => Seq::<Seq<char>>::empty(),
        Some(t) => crate::ser::req_str_piece("template"@, t),
    }) + crate::ser::nums_piece(
        "context"@,
        match r.context {
            None => None,
            Some(ns) => Some(ns.map_values(|n: u8| n as nat)),
        },
    ) + crate::ser::bool_piece("stream"@, r.stream) + crate::ser::bool_piece("raw"@, r.raw)
        + crate::ser::usize_piece("keep_alive"@, r.keep_alive)
}

/// The wire form of a generation request.
pub open spec fn spec_generate_request_json(r: GenerateRequestV) -> Seq<char> {
    seq!['{'] + crate::ser::spec_csv(spec_generate_request_pieces(r)) + seq!['}']
}

impl GenerateRequest {
    /// Serializes the request for the wire.
    pub fn to_json(&self) -> (r: String)
        ensures
            r@ == spec_generate_request_json(self@),
    {
        let mut pieces: Vec<Vec<char>> = Vec::new();
        crate::ser::push_req_str_piece(&mut pieces, "model", &self.model);
        crate::ser::push_req_str_piece(&mut pieces, "prompt", &self.prompt);
        crate::ser::push_opt_str_piece(&mut pieces, "images", &self.images);
        crate::options::push_format_piece(&mut pieces, &self.format);
        crate::options::push_opt_options_piece(&mut pieces, &self.options);
        crate::ser::push_opt_str_piece(&mut pieces, "system", &self.system);
        crate::ser::push_opt_str_piece(&mut pieces, "template", &self.template);
        crate::ser::push_bytes_piece(&mut pieces, "context", &self.context);
        crate::ser::push_bool_piece(&mut pieces, "stream", &self.stream);
        crate::ser::push_bool_piece(&mut pieces, "raw", &self.raw);
        crate::ser::push_usize_piece(&mut pieces, "keep_alive", &self.keep_alive);
        proof {
            assert(pieces.deep_view() =~~= spec_generate_request_pieces(self@));
        }
        let mut v: Vec<char> = Vec::new();
        v.push('{');
        let mut v = crate::ser::append_csv(v, &pieces);
        v.push('}');
        proof {
            assert(v@ =~= spec_generate_request_json(self@));
        }
        crate::text::string_from_chars(&v)
    }
}

/// A request whose optional-parameter block is absent and whose optional
/// fields are all absent serializes to exactly the two required fields: no
/// absent field appears in the output, and in particular none is ever
/// written as `null`.
pub proof fn lemma_minimal_request_omits_absent(r: GenerateRequestV)
    requires
        r.images is None,
        r.format is None,
        r.options is None,
        r.system is None,
        r.template is None,
        r.context is None,
        r.stream is None,
        r.raw is None,
        r.keep_alive is None,
    ensures
        spec_generate_request_json(r) == seq!['{'] + seq!['"'] + "model"@ + "\":"@
            + crate::ser::spec_quoted(r.model) + seq![','] + seq!['"'] + "prompt"@ + "\":"@
            + crate::ser::spec_quoted(r.prompt) + seq!['}'],
{
    let p1 = seq!['"'] + "model"@ + "\":"@ + crate::ser::spec_quoted(r.model);
    let p2 = seq!['"'] + "prompt"@ + "\":"@ + crate::ser::spec_quoted(r.prompt);
    let ps = spec_generate_request_pieces(r);
    assert(ps =~= seq![p1, p2]);
    assert(seq![p1, p2].drop_last() =~= seq![p1]);
    assert(crate::ser::spec_csv(seq![p1]) == p1);
    assert(crate::ser::spec_csv(seq![p1, p2]) == p1 + seq![','] + p2);
    assert(spec_generate_request_json(r) =~= seq!['{'] + seq!['"'] + "model"@ + "\":"@
        + crate::ser::spec_quoted(r.model) + seq![','] + seq!['"'] + "prompt"@ + "\":"@
        + crate::ser::spec_quoted(r.prompt) + seq!['}']);
}

/// Mathematical model of a [`GenerateRequestBuilder`].
pub struct GenerateRequestBuilderV {
    pub model: Option<Seq<char>>,
    pub prompt: Option<Seq<char>>,
    pub images: Option<Seq<char>>,
    pub format: Option<crate::options::Format>,
    pub options: crate::options::OptionsV,
    pub system: Option<Seq<char>>,
    pub template: Option<Seq<char>>,
    pub context: Option<Seq<u8>>,
    pub stream: Option<bool>,
    pub raw: Option<bool>,
    pub keep_alive: Option<usize>,
}

/// Assembles a [`GenerateRequest`] field by field.
#[derive(Debug, Clone)]
pub struct GenerateRequestBuilder {
    model: Option<String>,
    prompt: Option<String>,
    images: Option<String>,
    format: Option<crate::options::Format>,
    options: crate::options::OptionsBuilder,
    system: Option<String>,
    template: Option<String>,
    context: Option<Vec<u8>>,
    stream: Option<bool>,
    raw: Option<bool>,
    keep_alive: Option<usize>,
}

impl View for GenerateRequestBuilder {
    type V = GenerateRequestBuilderV;

    closed spec fn view(&self) -> GenerateRequestBuilderV {
        GenerateRequestBuilderV {
            model: crate::options::opt_str_view(self.model),
            prompt: crate::options::opt_str_view(self.prompt),
            images: crate::options::opt_str_view(self.images),
            format: self.format,
            options: self.options@,
            system: crate::options::opt_str_view(self.system),
            template: crate::options::opt_str_view(self.template),
            context: match self.context {
                None => None,
                Some(ref v) => Some(v@),
            },
            stream: self.stream,
            raw: self.raw,
            keep_alive: self.keep_alive,
        }
    }
}

impl Default for GenerateRequestBuilder {
    /// A builder with nothing set.
    fn default() -> (r: Self)
        ensures
            r@.model is None,
            r@.prompt is None,
            r@.images is None,
            r@.format is None,
            crate::options::options_is_default(r@.options),
            r@.system is None,
            r@.template is None,
            r@.context is None,
            r@.stream is None,
            r@.raw is None,
            r@.keep_alive is None,
    {
        GenerateRequestBuilder {
            model: None,
            prompt: None,
            images: None,
            format: None,
            options: crate::options::OptionsBuilder::default(),
            system: None,
            template: None,
            context: None,
            stream: None,
            raw: None,
            keep_alive: None,
        }
    }
}

impl GenerateRequestBuilder {
    /// Sets the model name.
    pub fn model(self, v: &str) -> (r: Self)
        ensures
            r@ == (GenerateRequestBuilderV { model: Some(v@), ..self@ }),
    {
        GenerateRequestBuilder { model: Some(String::from_str(v)), ..self }
    }

    /// Sets the prompt.
    pub fn prompt(self, v: &str) -> (r: Self)
        ensures
            r@ == (GenerateRequestBuilderV { prompt: Some(v@), ..self@ }),
    {
        GenerateRequestBuilder { prompt: Some(String::from_str(v)), ..self }
    }

    /// Sets the image list.
    pub fn images(self, v: &str) -> (r: Self)
        ensures
            r@ == (GenerateRequestBuilderV { images: Some(v@), ..self@ }),
    {
        GenerateRequestBuilder { images: Some(String::from_str(v)), ..self }
    }

    /// Sets the response format.
    pub fn format(self, v: crate::options::Format) -> (r: Self)
        ensures
            r@ == (GenerateRequestBuilderV { format: Some(v), ..self@ }),
    {
        GenerateRequestBuilder { format: Some(v), ..self }
    }

    /// Sets the system message.
    pub fn system(self, v: &str) -> (r: Self)
        ensures
            r@ == (GenerateRequestBuilderV { system: Some(v@), ..self@ }),
    {
        GenerateRequestBuilder { system: Some(String::from_str(v)), ..self }
    }

    /// Sets the prompt template.
    pub fn template(self, v: &str) -> (r: Self)
        ensures
            r@ == (GenerateRequestBuilderV { template: Some(v@), ..self@ }),
    {
        GenerateRequestBuilder { template: Some(String::from_str(v)), ..self }
    }

    /// Sets the conversation context.
    pub fn context(self, v: Vec<u8>) -> (r: Self)
        ensures
            r@ == (GenerateRequestBuilderV { context: Some(v@), ..self@ }),
    {
        GenerateRequestBuilder { context: Some(v), ..self }
    }

    /// Sets the streaming flag.
    pub fn stream(self, v: bool) -> (r: Self)
        ensures
            r@ == (GenerateRequestBuilderV { stream: Some(v), ..self@ }),
    {
        GenerateRequestBuilder { stream: Some(v), ..self }
    }

    /// Sets the raw-prompt flag.
    pub fn raw(self, v: bool) -> (r: Self)
        ensures
            r@ == (GenerateRequestBuilderV { raw: Some(v), ..self@ }),
    {
        GenerateRequestBuilder { raw: Some(v), ..self }
    }

    /// Sets the keep-alive time.
    pub fn keep_alive(self, v: usize) -> (r: Self)
        ensures
            r@ == (GenerateRequestBuilderV { keep_alive: Some(v), ..self@ }),
    {
        GenerateRequestBuilder { keep_alive: Some(v), ..self }
    }

    /// Sets the Mirostat mode.
    pub fn mirostat(self, v: i32) -> (r: Self)
        ensures
            r@ == (GenerateRequestBuilderV {
                options: (crate::options::OptionsV { mirostat: Some(v as int), ..self@.options }),
                ..self@
            }),
    {
        GenerateRequestBuilder { options: self.options.mirostat(v), ..self }
    }

    /// Sets the Mirostat learning rate from a number literal.
    pub fn mirostat_eta(self, v: &str) -> (r: Self)
        ensures
            r@ == (GenerateRequestBuilderV {
                options: (crate::options::OptionsV { mirostat_eta: Some(v@), ..self@.options }),
                ..self@
            }),
    {
        GenerateRequestBuilder { options: self.options.mirostat_eta(v), ..self }
    }

    /// Sets the Mirostat target entropy from a number literal.
    pub fn mirostat_tau(self, v: &str) -> (r: Self)
        ensures
            r@ == (GenerateRequestBuilderV {
                options: (crate::options::OptionsV { mirostat_tau: Some(v@), ..self@.options }),
                ..self@
            }),
    {
        GenerateRequestBuilder { options: self.options.mirostat_tau(v), ..self }
    }

    /// Sets the context window size.
    pub fn num_ctx(self, v: i32) -> (r: Self)
        ensures
            r@ == (GenerateRequestBuilderV {
                options: (crate::options::OptionsV { num_ctx: Some(v as int), ..self@.options }),
                ..self@
            }),
    {
        GenerateRequestBuilder { options: self.options.num_ctx(v), ..self }
    }

    /// Sets the repetition look-back window.
    pub fn repeat_last_n(self, v: i32) -> (r: Self)
        ensures
            r@ == (GenerateRequestBuilderV {
                options: (crate::options::OptionsV {
                    repeat_last_n: Some(v as int),
                    ..self@.options
                }),
                ..self@
            }),
    {
        GenerateRequestBuilder { options: self.options.repeat_last_n(v), ..self }
    }

    /// Sets the repetition penalty from a number literal.
    pub fn repeat_penalty(self, v: &str) -> (r: Self)
        ensures
            r@ == (GenerateRequestBuilderV {
                options: (crate::options::OptionsV { repeat_penalty: Some(v@), ..self@.options }),
                ..self@
            }),
    {
        GenerateRequestBuilder { options: self.options.repeat_penalty(v), ..self }
    }

    /// Sets the sampling temperature.
    pub fn temperature(self, v: i32) -> (r: Self)
        ensures
            r@ == (GenerateRequestBuilderV {
                options: (crate::options::OptionsV {
                    temperature: Some(v as int),
                    ..self@.options
                }),
                ..self@
            }),
    {
        GenerateRequestBuilder { options: self.options.temperature(v), ..self }
    }

    /// Sets the random seed.
    pub fn seed(self, v: i32) -> (r: Self)
        ensures
            r@ == (GenerateRequestBuilderV {
                options: (crate::options::OptionsV { seed: Some(v as int), ..self@.options }),
                ..self@
            }),
    {
        GenerateRequestBuilder { options: self.options.seed(v), ..self }
    }

    /// Sets the stop sequence.
    pub fn stop(self, v: &str) -> (r: Self)
        ensures
            r@ == (GenerateRequestBuilderV {
                options: (crate::options::OptionsV { stop: Some(v@), ..self@.options }),
                ..self@
            }),
    {
        GenerateRequestBuilder { options: self.options.stop(v), ..self }
    }

    /// Sets the tail-free sampling parameter from a number literal.
    pub fn tfs_z(self, v: &str) -> (r: Self)
        ensures
            r@ == (GenerateRequestBuilderV {
                options: (crate::options::OptionsV { tfs_z: Some(v@), ..self@.options }),
                ..self@
            }),
    {
        GenerateRequestBuilder { options: self.options.tfs_z(v), ..self }
    }

    /// Sets the prediction-length cap.
    pub fn num_predict(self, v: i32) -> (r: Self)
        ensures
            r@ == (GenerateRequestBuilderV {
                options: (crate::options::OptionsV {
                    num_predict: Some(v as int),
                    ..self@.options
                }),
                ..self@
            }),
    {
        GenerateRequestBuilder { options: self.options.num_predict(v), ..self }
    }

    /// Sets the top-k cutoff.
    pub fn top_k(self, v: i32) -> (r: Self)
        ensures
            r@ == (GenerateRequestBuilderV {
                options: (crate::options::OptionsV { top_k: Some(v as int), ..self@.options }),
                ..self@
            }),
    {
        GenerateRequestBuilder { options: self.options.top_k(v), ..self }
    }

    /// Sets the top-p cutoff from a number literal.
    pub fn top_p(self, v: &str) -> (r: Self)
        ensures
            r@ == (GenerateRequestBuilderV {
                options: (crate::options::OptionsV { top_p: Some(v@), ..self@.options }),
                ..self@
            }),
    {
        GenerateRequestBuilder { options: self.options.top_p(v), ..self }
    }

    /// Builds the request.  The model and the prompt must have been set, and
    /// every fractional option must be a complete JSON number literal; an
    /// options block with nothing set builds as absent.
    pub fn build(self) -> (r: Result<GenerateRequest, OllamaError>)
        ensures
            match r {
                Ok(req) => {
                    &&& self@.model == Some(req@.model)
                    &&& self@.prompt == Some(req@.prompt)
                    &&& req@.images == self@.images
                    &&& req@.format == self@.format
                    &&& req@.options == (if crate::options::options_is_default(self@.options) {
                        None::<crate::options::OptionsV>
                    } else {
                        Some(self@.options)
                    })
                    &&& crate::options::options_wf(self@.options)
                    &&& req@.system == self@.system
                    &&& req@.template == self@.template
                    &&& req@.context == self@.context
                    &&& req@.stream == self@.stream
                    &&& req@.raw == self@.raw
                    &&& req@.keep_alive == self@.keep_alive
                },
                Err(e) => (self@.model is None || self@.prompt is None
                    || !crate::options::options_wf(self@.options)) && e@ matches
                    ErrorV::InvalidParameter(_),
            },
    {
        let model = match self.model {
            Some(m) => m,
            None => {
                return Err(OllamaError::InvalidParameter(String::from_str("model is not set")));
            },
        };
        let prompt = match self.prompt {
            Some(p) => p,
            None => {
                return Err(OllamaError::InvalidParameter(String::from_str("prompt is not set")));
            },
        };
        let options = if self.options.is_default() {
            proof {
                assert(crate::options::options_wf(self@.options));
            }
            None
        } else {
            match self.options.build() {
                Ok(o) => Some(o),
                Err(e) => {
                    return Err(e);
                },
            }
        };
        Ok(
            GenerateRequest {
                model,
                prompt,
                images: self.images,
                format: self.format,
                options,
                system: self.system,
                template: self.template,
                context: self.context,
                stream: self.stream,
                raw: self.raw,
                keep_alive: self.keep_alive,
            },
        )
    }
}

} // verus!
