//! The generation endpoint's partial response and its aggregation.

use vstd::prelude::*;
use vstd::string::*;

use crate::decode::{
    opt_usize_field, opt_usize_list_field, req_bool_field, req_str_field, spec_opt_usize,
    spec_opt_usize_list, spec_req_bool, spec_req_str,
};
use crate::errors::{res_view, ErrorV, OllamaError};
use crate::json::{Json, JsonV};
use crate::stream::{
    results_view, spec_adapt_chunk, spec_adapt_stream, spec_aggregate, StreamHandler,
};
use crate::text::copy_usizes;

verus! {

broadcast use vstd::seq::group_seq_axioms, vstd::std_specs::vec::group_vec_axioms;

/// Mathematical model of a [`CompletionResponse`].
pub struct CompletionResponseV {
    pub model: Seq<char>,
    pub created_at: Seq<char>,
    pub done: bool,
    pub response: Seq<char>,
    pub total_duration: Option<usize>,
    pub load_duration: Option<usize>,
    pub prompt_eval_count: Option<usize>,
    pub prompt_eval_duration: Option<usize>,
    pub eval_count: Option<usize>,
    pub eval_duration: Option<usize>,
    pub context: Option<Seq<usize>>,
}

/// One unit of the generation endpoint's output: a partial response when
/// streamed, or the whole response in single-object mode.  Telemetry fields
/// are carried only by the terminal item.
#[derive(Debug, Clone)]
pub struct CompletionResponse {
    /// The model name.
    pub model: String,
    /// When the item was created, as reported by the server.
    pub created_at: String,
    /// True only on the terminal item of a stream.
    pub done: bool,
    /// The incremental response text.
    pub response: String,
    /// Time spent generating the response, in nanoseconds.
    pub total_duration: Option<usize>,
    /// Time spent loading the model, in nanoseconds.
    pub load_duration: Option<usize>,
    /// Number of tokens in the prompt.
    pub prompt_eval_count: Option<usize>,
    /// Time spent evaluating the prompt, in nanoseconds.
    pub prompt_eval_duration: Option<usize>,
    /// Number of tokens in the response.
    pub eval_count: Option<usize>,
    /// Time spent generating the response, in nanoseconds.
    pub eval_duration: Option<usize>,
    /// An encoding of the conversation, usable in a following request.
    pub context: Option<Vec<usize>>,
}

impl View for CompletionResponse {
    type V = CompletionResponseV;

    open spec fn view(&self) -> CompletionResponseV {
        CompletionResponseV {
            model: self.model@,
            created_at: self.created_at@,
            done: self.done,
            response: self.response@,
            total_duration: self.total_duration,
            load_duration: self.load_duration,
            prompt_eval_count: self.prompt_eval_count,
            prompt_eval_duration: self.prompt_eval_duration,
            eval_count: self.eval_count,
            eval_duration: self.eval_duration,
            context: match self.context {
                None => None,
                Some(ref v) => Some(v@),
            },
        }
    }
}

/// The item a wire document denotes: an object with the required `model`,
/// `created_at`, `done` and `response` fields, the optional telemetry
/// fields, and the optional `context`.  Unknown fields are ignored.
pub open spec fn spec_decode_completion(v: JsonV) -> Option<CompletionResponseV> {
    match v {
        JsonV::Obj(fs) => match (
            spec_req_str(fs, "model"@),
            spec_req_str(fs, "created_at"@),
            spec_req_bool(fs, "done"@),
            spec_req_str(fs, "response"@),
        ) {
            (Some(model), Some(created_at), Some(done), Some(response)) => match (
                spec_opt_usize(fs, "total_duration"@),
                spec_opt_usize(fs, "load_duration"@),
                spec_opt_usize(fs, "prompt_eval_count"@),
                spec_opt_usize(fs, "prompt_eval_duration"@),
                spec_opt_usize(fs, "eval_count"@),
                spec_opt_usize(fs, "eval_duration"@),
                spec_opt_usize_list(fs, "context"@),
            ) {
                (
                    Some(total_duration),
                    Some(load_duration),
                    Some(prompt_eval_count),
                    Some(prompt_eval_duration),
                    Some(eval_count),
                    Some(eval_duration),
                    Some(context),
                ) => Some(
                    CompletionResponseV {
                        model,
                        created_at,
                        done,
                        response,
                        total_duration,
                        load_duration,
                        prompt_eval_count,
                        prompt_eval_duration,
                        eval_count,
                        eval_duration,
                        context,
                    },
                ),
                _ => None,
            },
            _ => None,
        },
        _ => None,
    }
}

impl StreamHandler for CompletionResponse {
    open spec fn decode_of(v: JsonV) -> Option<CompletionResponseV> {
        spec_decode_completion(v)
    }

    open spec fn payload_of(v: CompletionResponseV) -> Seq<char> {
        v.response
    }

    open spec fn merged(
        last: CompletionResponseV,
        first: CompletionResponseV,
        payload: Seq<char>,
    ) -> CompletionResponseV {
        CompletionResponseV { response: payload, created_at: first.created_at, ..last }
    }

    fn from_json(j: &Json) -> (r: Option<Self>) {
        let fs = match j {
            Json::Obj(fs) => fs,
            _ => {
                return None;
            },
        };
        let model = match req_str_field(fs, "model") {
            Some(s) => s,
            None => {
                return None;
            },
        };
        let created_at = match req_str_field(fs, "created_at") {
            Some(s) => s,
            None => {
                return None;
            },
        };
        let done = match req_bool_field(fs, "done") {
            Some(b) => b,
            None => {
                return None;
            },
        };
        let response = match req_str_field(fs, "response") {
            Some(s) => s,
            None => {
                return None;
            },
        };
        let total_duration = match opt_usize_field(fs, "total_duration") {
            Some(v) => v,
            None => {
                return None;
            },
        };
        let load_duration = match opt_usize_field(fs, "load_duration") {
            Some(v) => v,
            None => {
                return None;
            },
        };
        let prompt_eval_count = match opt_usize_field(fs, "prompt_eval_count") {
            Some(v) => v,
            None => {
                return None;
            },
        };
        let prompt_eval_duration = match opt_usize_field(fs, "prompt_eval_duration") {
            Some(v) => v,
            None => {
                return None;
            },
        };
        let eval_count = match opt_usize_field(fs, "eval_count") {
            Some(v) => v,
            None => {
                return None;
            },
        };
        let eval_duration = match opt_usize_field(fs, "eval_duration") {
            Some(v) => v,
            None => {
                return None;
            },
        };
        let context = match opt_usize_list_field(fs, "context") {
            Some(v) => v,
            None => {
                return None;
            },
        };
        Some(
            CompletionResponse {
                model,
                created_at,
                done,
                response,
                total_duration,
                load_duration,
                prompt_eval_count,
                prompt_eval_duration,
                eval_count,
                eval_duration,
                context,
            },
        )
    }

    fn payload(&self) -> (p: String) {
        self.response.clone()
    }

    fn merge(self, first: &Self, payload: String) -> (r: Self) {
        CompletionResponse { response: payload, created_at: first.created_at.clone(), ..self }
    }

    fn duplicate(&self) -> (r: Self) {
        CompletionResponse {
            model: self.model.clone(),
            created_at: self.created_at.clone(),
            done: self.done,
            response: self.response.clone(),
            total_duration: self.total_duration,
            load_duration: self.load_duration,
            prompt_eval_count: self.prompt_eval_count,
            prompt_eval_duration: self.prompt_eval_duration,
            eval_count: self.eval_count,
            eval_duration: self.eval_duration,
            context: match &self.context {
                None => None,
                Some(v) => Some(copy_usizes(v)),
            },
        }
    }
}

impl CompletionResponse {
    /// Adapts a streamed body, one element per chunk, in delivery order.
    pub fn adapt_stream(chunks: Vec<Result<Vec<u8>, String>>) -> (out: Vec<
        Result<Self, OllamaError>,
    >)
        ensures
            results_view(out@) =~= spec_adapt_stream::<Self>(chunks@),
    {
        let out = crate::stream::adapt_stream::<Self>(chunks);
        proof {
            assert(results_view(out@) =~= spec_adapt_stream::<Self>(chunks@));
        }
        out
    }

    /// Adapts a streamed body and folds it into one terminal response.
    pub fn stream_to_response(chunks: Vec<Result<Vec<u8>, String>>) -> (r: Result<
        Self,
        OllamaError,
    >)
        ensures
            res_view(r) == spec_aggregate::<Self>(spec_adapt_stream::<Self>(chunks@)),
    {
        let ghost cs = chunks@;
        let adapted = crate::stream::adapt_stream::<Self>(chunks);
        proof {
            assert(results_view(adapted@) =~= spec_adapt_stream::<Self>(cs));
        }
        crate::stream::stream_to_response(adapted)
    }
}

/// For every well-formed stream of at least one item whose last item is
/// terminal, the aggregate's payload is the ordered concatenation of every
/// item's payload, its `created_at` is the first item's, and every other
/// field — the telemetry fields among them — is the last item's.
pub proof fn lemma_aggregate_of_well_formed_stream(rs: Seq<Result<CompletionResponseV, ErrorV>>)
    requires
        rs.len() >= 1,
        crate::stream::all_ok(rs),
        crate::stream::oks(rs).last().done == true,
    ensures
        spec_aggregate::<CompletionResponse>(rs) matches Ok(agg) && {
            let items = crate::stream::oks(rs);
            &&& agg.response == crate::stream::concat_payloads::<CompletionResponse>(items)
            &&& agg.created_at == items[0].created_at
            &&& agg.model == items.last().model
            &&& agg.done == items.last().done
            &&& agg.total_duration == items.last().total_duration
            &&& agg.load_duration == items.last().load_duration
            &&& agg.prompt_eval_count == items.last().prompt_eval_count
            &&& agg.prompt_eval_duration == items.last().prompt_eval_duration
            &&& agg.eval_count == items.last().eval_count
            &&& agg.eval_duration == items.last().eval_duration
            &&& agg.context == items.last().context
        },
{
}

/// Single decode of one single-object body and aggregate decode of the
/// stream holding exactly that body produce field-for-field identical
/// results.
pub proof fn lemma_single_matches_singleton_aggregate(b: Seq<u8>)
    requires
        spec_adapt_chunk::<CompletionResponse>(Ok(b)) is Ok,
    ensures
        spec_aggregate::<CompletionResponse>(
            spec_adapt_stream_one(b),
        ) == crate::response::spec_single_decode::<CompletionResponse>(
            crate::response::RawResponseV { status: 200, chunks: seq![Ok(b)] },
        ),
{
    let rs = spec_adapt_stream_one(b);
    let item = spec_adapt_chunk::<CompletionResponse>(Ok(b))->Ok_0;
    assert(rs.len() == 1 && rs[0] == spec_adapt_chunk::<CompletionResponse>(Ok(b)));
    assert(crate::stream::all_ok(rs));
    let items = crate::stream::oks(rs);
    assert(items.len() == 1 && items[0] == item);
    assert(items.drop_last() =~= Seq::<CompletionResponseV>::empty());
    assert(crate::stream::concat_payloads::<CompletionResponse>(
        Seq::<CompletionResponseV>::empty(),
    ) == Seq::<char>::empty());
    assert(<CompletionResponse as StreamHandler>::payload_of(item) == item.response);
    assert(crate::stream::concat_payloads::<CompletionResponse>(items) =~= item.response);
    let agg = <CompletionResponse as StreamHandler>::merged(item, item, item.response);
    assert(agg == item);
    let chunks = seq![Ok::<Seq<u8>, Seq<char>>(b)];
    assert(crate::response::spec_body_bytes(chunks.drop_last()) == Some(Seq::<u8>::empty()));
    assert(crate::response::spec_body_bytes(chunks) == Some(Seq::<u8>::empty() + b));
    assert(Seq::<u8>::empty() + b =~= b);
}

/// The one-chunk stream holding exactly one body.
pub open spec fn spec_adapt_stream_one(b: Seq<u8>) -> Seq<
    Result<CompletionResponseV, ErrorV>,
> {
    crate::stream::spec_adapted::<CompletionResponse>(seq![Ok(b)])
}

/// Mathematical model of a [`CompletionRequest`].
pub struct CompletionRequestV {
    pub model: Seq<char>,
    pub prompt: Seq<char>,
    pub images: Seq<Seq<char>>,
    pub format: Option<crate::options::Format>,
    pub options: crate::options::OptionsV,
    pub system: Option<Seq<char>>,
    pub template: Option<Seq<char>>,
    pub context: Option<Seq<usize>>,
    pub stream: Option<bool>,
    pub raw: Option<bool>,
    pub keep_alive: Option<usize>,
}

/// A request to generate a response for a prompt.  Optional fields are
/// serialized only when set; an all-default options block is omitted.
#[derive(Debug, Clone)]
pub struct CompletionRequest {
    /// The model name.
    pub model: String,
    /// The prompt to generate a response for.
    pub prompt: String,
    /// Base64-encoded images, for multimodal models; omitted when empty.
    pub images: Vec<String>,
    /// The format to return the response in.
    pub format: Option<crate::options::Format>,
    /// Additional model parameters; omitted when all default.
    pub options: crate::options::Options,
    /// System message, overriding the modelfile.
    pub system: Option<String>,
    /// Prompt template, overriding the modelfile.
    pub template: Option<String>,
    /// Token history from an earlier exchange, for short conversational
    /// memory.
    pub context: Option<Vec<usize>>,
    /// If false the response is a single object rather than a stream.
    pub stream: Option<bool>,
    /// If true no formatting is applied to the prompt.
    pub raw: Option<bool>,
    /// How long the model stays loaded after the request, in seconds.
    pub keep_alive: Option<usize>,
}

impl View for CompletionRequest {
    type V = CompletionRequestV;

    open spec fn view(&self) -> CompletionRequestV {
        CompletionRequestV {
            model: self.model@,
            prompt: self.prompt@,
            images: self.images.deep_view(),
            format: self.format,
            options: self.options@,
            system: crate::options::opt_str_view(self.system),
            template: crate::options::opt_str_view(self.template),
            context: match self.context {
                None => None,
                Some(ref v) => Some(v@),
            },
            stream: self.stream,
            raw: self.raw,
            keep_alive: self.keep_alive,
        }
    }
}

/// The rendered pieces of a completion request, in declaration order.
pub open spec fn spec_completion_request_pieces(r: CompletionRequestV) -> Seq<Seq<char>> {
    crate::ser::req_str_piece("model"@, r.model) + crate::ser::req_str_piece("prompt"@, r.prompt)
        + crate::ser::strs_piece("images"@, r.images) + crate::options::format_piece(r.format)
        + crate::options::options_piece(r.options) + (match r.system {
        None => Seq::<Seq<char>>::empty(),
        Some(s) => crate::ser::req_str_piece("system"@, s),
    }) + (match r.template {
        None => Seq::<Seq<char>>::empty(),
        Some(t) => crate::ser::req_str_piece("template"@, t),
    }) + crate::ser::nums_piece(
        "context"@,
        match r.context {
            None => None,
            Some(ns) => Some(ns.map_values(|n: usize| n as nat)),
        },
    ) + crate::ser::bool_piece("stream"@, r.stream) + crate::ser::bool_piece("raw"@, r.raw)
        + crate::ser::usize_piece("keep_alive"@, r.keep_alive)
}

/// The wire form of a completion request.
pub open spec fn spec_completion_request_json(r: CompletionRequestV) -> Seq<char> {
    seq!['{'] + crate::ser::spec_csv(spec_completion_request_pieces(r)) + seq!['}']
}

impl CompletionRequest {
    /// Serializes the request for the wire.
    pub fn to_json(&self) -> (r: String)
        ensures
            r@ == spec_completion_request_json(self@),
    {
        let mut pieces: Vec<Vec<char>> = Vec::new();
        crate::ser::push_req_str_piece(&mut pieces, "model", &self.model);
        crate::ser::push_req_str_piece(&mut pieces, "prompt", &self.prompt);
        crate::ser::push_strs_piece(&mut pieces, "images", &self.images);
        crate::options::push_format_piece(&mut pieces, &self.format);
        crate::options::push_options_piece(&mut pieces, &self.options);
        crate::ser::push_opt_str_piece(&mut pieces, "system", &self.system);
        crate::ser::push_opt_str_piece(&mut pieces, "template", &self.template);
        crate::ser::push_nums_piece(&mut pieces, "context", &self.context);
        crate::ser::push_bool_piece(&mut pieces, "stream", &self.stream);
        crate::ser::push_bool_piece(&mut pieces, "raw", &self.raw);
        crate::ser::push_usize_piece(&mut pieces, "keep_alive", &self.keep_alive);
        proof {
            assert(pieces.deep_view() =~~= spec_completion_request_pieces(self@));
        }
        let mut v: Vec<char> = Vec::new();
        v.push('{');
        let mut v = crate::ser::append_csv(v, &pieces);
        v.push('}');
        proof {
            assert(v@ =~= spec_completion_request_json(self@));
        }
        crate::text::string_from_chars(&v)
    }
}

/// A request whose optional-parameter block is empty and whose optional
/// fields are all absent serializes to exactly the two required fields: no
/// absent field appears in the output, and in particular none is ever
/// written as `null`.
pub proof fn lemma_minimal_request_omits_absent(r: CompletionRequestV)
    requires
        r.images.len() == 0,
        r.format is None,
        crate::options::options_is_default(r.options),
        r.system is None,
        r.template is None,
        r.context is None,
        r.stream is None,
        r.raw is None,
        r.keep_alive is None,
    ensures
        spec_completion_request_json(r) == seq!['{'] + seq!['"'] + "model"@ + "\":"@
            + crate::ser::spec_quoted(r.model) + seq![','] + seq!['"'] + "prompt"@ + "\":"@
            + crate::ser::spec_quoted(r.prompt) + seq!['}'],
{
    let p1 = seq!['"'] + "model"@ + "\":"@ + crate::ser::spec_quoted(r.model);
    let p2 = seq!['"'] + "prompt"@ + "\":"@ + crate::ser::spec_quoted(r.prompt);
    let ps = spec_completion_request_pieces(r);
    assert(ps =~= seq![p1, p2]);
    assert(seq![p1, p2].drop_last() =~= seq![p1]);
    assert(crate::ser::spec_csv(seq![p1]) == p1);
    assert(crate::ser::spec_csv(seq![p1, p2]) == p1 + seq![','] + p2);
    assert(spec_completion_request_json(r) =~= seq!['{'] + seq!['"'] + "model"@ + "\":"@
        + crate::ser::spec_quoted(r.model) + seq![','] + seq!['"'] + "prompt"@ + "\":"@
        + crate::ser::spec_quoted(r.prompt) + seq!['}']);
}

/// Mathematical model of a [`CompletionRequestBuilder`].
pub struct CompletionRequestBuilderV {
    pub model: Option<Seq<char>>,
    pub prompt: Option<Seq<char>>,
    pub images: Option<Seq<Seq<char>>>,
    pub format: Option<crate::options::Format>,
    pub options: crate::options::OptionsV,
    pub system: Option<Seq<char>>,
    pub template: Option<Seq<char>>,
    pub context: Option<Seq<usize>>,
    pub stream: Option<bool>,
    pub raw: Option<bool>,
    pub keep_alive: Option<usize>,
}

/// Assembles a [`CompletionRequest`] field by field.
#[derive(Debug, Clone)]
pub struct CompletionRequestBuilder {
    model: Option<String>,
    prompt: Option<String>,
    images: Option<Vec<String>>,
    format: Option<crate::options::Format>,
    options: crate::options::OptionsBuilder,
    system: Option<String>,
    template: Option<String>,
    context: Option<Vec<usize>>,
    stream: Option<bool>,
    raw: Option<bool>,
    keep_alive: Option<usize>,
}

impl View for CompletionRequestBuilder {
    type V = CompletionRequestBuilderV;

    closed spec fn view(&self) -> CompletionRequestBuilderV {
        CompletionRequestBuilderV {
            model: crate::options::opt_str_view(self.model),
            prompt: crate::options::opt_str_view(self.prompt),
            images: match self.images {
                None => None,
                Some(ref v) => Some(v.deep_view()),
            },
            format: self.format,
            options: self.options@,
            system: crate::options::opt_str_view(self.system),
            template: crate::options::opt_str_view(self.template),
            context: match self.context {
                None => None,
                Some(ref v) => Some(v@),
            },
            stream: self.stream,
            raw: self.raw,
            keep_alive: self.keep_alive,
        }
    }
}

impl Default for CompletionRequestBuilder {
    /// A builder with nothing set.
    fn default() -> (r: Self)
        ensures
            r@.model is None,
            r@.prompt is None,
            r@.images is None,
            r@.format is None,
            crate::options::options_is_default(r@.options),
            r@.system is None,
            r@.template is None,
            r@.context is None,
            r@.stream is None,
            r@.raw is None,
            r@.keep_alive is None,
    {
        CompletionRequestBuilder {
            model: None,
            prompt: None,
            images: None,
            format: None,
            options: crate::options::OptionsBuilder::default(),
            system: None,
            template: None,
            context: None,
            stream: None,
            raw: None,
            keep_alive: None,
        }
    }
}

impl CompletionRequestBuilder {
    /// Sets the model name.
    pub fn model(self, v: &str) -> (r: Self)
        ensures
            r@ == (CompletionRequestBuilderV { model: Some(v@), ..self@ }),
    {
        CompletionRequestBuilder { model: Some(String::from_str(v)), ..self }
    }

    /// Sets the prompt.
    pub fn prompt(self, v: &str) -> (r: Self)
        ensures
            r@ == (CompletionRequestBuilderV { prompt: Some(v@), ..self@ }),
    {
        CompletionRequestBuilder { prompt: Some(String::from_str(v)), ..self }
    }

    /// Sets the image list.
    pub fn images(self, v: Vec<String>) -> (r: Self)
        ensures
            r@ == (CompletionRequestBuilderV { images: Some(v.deep_view()), ..self@ }),
    {
        CompletionRequestBuilder { images: Some(v), ..self }
    }

    /// Sets the response format.
    pub fn format(self, v: crate::options::Format) -> (r: Self)
        ensures
            r@ == (CompletionRequestBuilderV { format: Some(v), ..self@ }),
    {
        CompletionRequestBuilder { format: Some(v), ..self }
    }

    /// Sets the system message.
    pub fn system(self, v: &str) -> (r: Self)
        ensures
            r@ == (CompletionRequestBuilderV { system: Some(v@), ..self@ }),
    {
        CompletionRequestBuilder { system: Some(String::from_str(v)), ..self }
    }

    /// Sets the prompt template.
    pub fn template(self, v: &str) -> (r: Self)
        ensures
            r@ == (CompletionRequestBuilderV { template: Some(v@), ..self@ }),
    {
        CompletionRequestBuilder { template: Some(String::from_str(v)), ..self }
    }

    /// Sets the conversation context.
    pub fn context(self, v: Vec<usize>) -> (r: Self)
        ensures
            r@ == (CompletionRequestBuilderV { context: Some(v@), ..self@ }),
    {
        CompletionRequestBuilder { context: Some(v), ..self }
    }

    /// Sets the streaming flag.
    pub fn stream(self, v: bool) -> (r: Self)
        ensures
            r@ == (CompletionRequestBuilderV { stream: Some(v), ..self@ }),
    {
        CompletionRequestBuilder { stream: Some(v), ..self }
    }

    /// Sets the raw-prompt flag.
    pub fn raw(self, v: bool) -> (r: Self)
        ensures
            r@ == (CompletionRequestBuilderV { raw: Some(v), ..self@ }),
    {
        CompletionRequestBuilder { raw: Some(v), ..self }
    }

    /// Sets the keep-alive time.
    pub fn keep_alive(self, v: usize) -> (r: Self)
        ensures
            r@ == (CompletionRequestBuilderV { keep_alive: Some(v), ..self@ }),
    {
        CompletionRequestBuilder { keep_alive: Some(v), ..self }
    }

    /// Sets the Mirostat mode.
    pub fn mirostat(self, v: i32) -> (r: Self)
        ensures
            r@ == (CompletionRequestBuilderV {
                options: (crate::options::OptionsV { mirostat: Some(v as int), ..self@.options }),
                ..self@
            }),
    {
        CompletionRequestBuilder { options: self.options.mirostat(v), ..self }
    }

    /// Sets the Mirostat learning rate from a number literal.
    pub fn mirostat_eta(self, v: &str) -> (r: Self)
        ensures
            r@ == (CompletionRequestBuilderV {
                options: (crate::options::OptionsV { mirostat_eta: Some(v@), ..self@.options }),
                ..self@
            }),
    {
        CompletionRequestBuilder { options: self.options.mirostat_eta(v), ..self }
    }

    /// Sets the Mirostat target entropy from a number literal.
    pub fn mirostat_tau(self, v: &str) -> (r: Self)
        ensures
            r@ == (CompletionRequestBuilderV {
                options: (crate::options::OptionsV { mirostat_tau: Some(v@), ..self@.options }),
                ..self@
            }),
    {
        CompletionRequestBuilder { options: self.options.mirostat_tau(v), ..self }
    }

    /// Sets the context window size.
    pub fn num_ctx(self, v: i32) -> (r: Self)
        ensures
            r@ == (CompletionRequestBuilderV {
                options: (crate::options::OptionsV { num_ctx: Some(v as int), ..self@.options }),
                ..self@
            }),
    {
        CompletionRequestBuilder { options: self.options.num_ctx(v), ..self }
    }

    /// Sets the repetition look-back window.
    pub fn repeat_last_n(self, v: i32) -> (r: Self)
        ensures
            r@ == (CompletionRequestBuilderV {
                options: (crate::options::OptionsV {
                    repeat_last_n: Some(v as int),
                    ..self@.options
                }),
                ..self@
            }),
    {
        CompletionRequestBuilder { options: self.options.repeat_last_n(v), ..self }
    }

    /// Sets the repetition penalty from a number literal.
    pub fn repeat_penalty(self, v: &str) -> (r: Self)
        ensures
            r@ == (CompletionRequestBuilderV {
                options: (crate::options::OptionsV { repeat_penalty: Some(v@), ..self@.options }),
                ..self@
            }),
    {
        CompletionRequestBuilder { options: self.options.repeat_penalty(v), ..self }
    }

    /// Sets the sampling temperature.
    pub fn temperature(self, v: i32) -> (r: Self)
        ensures
            r@ == (CompletionRequestBuilderV {
                options: (crate::options::OptionsV {
                    temperature: Some(v as int),
                    ..self@.options
                }),
                ..self@
            }),
    {
        CompletionRequestBuilder { options: self.options.temperature(v), ..self }
    }

    /// Sets the random seed.
    pub fn seed(self, v: i32) -> (r: Self)
        ensures
            r@ == (CompletionRequestBuilderV {
                options: (crate::options::OptionsV { seed: Some(v as int), ..self@.options }),
                ..self@
            }),
    {
        CompletionRequestBuilder { options: self.options.seed(v), ..self }
    }

    /// Sets the stop sequence.
    pub fn stop(self, v: &str) -> (r: Self)
        ensures
            r@ == (CompletionRequestBuilderV {
                options: (crate::options::OptionsV { stop: Some(v@), ..self@.options }),
                ..self@
            }),
    {
        CompletionRequestBuilder { options: self.options.stop(v), ..self }
    }

    /// Sets the tail-free sampling parameter from a number literal.
    pub fn tfs_z(self, v: &str) -> (r: Self)
        ensures
            r@ == (CompletionRequestBuilderV {
                options: (crate::options::OptionsV { tfs_z: Some(v@), ..self@.options }),
                ..self@
            }),
    {
        CompletionRequestBuilder { options: self.options.tfs_z(v), ..self }
    }

    /// Sets the prediction-length cap.
    pub fn num_predict(self, v: i32) -> (r: Self)
        ensures
            r@ == (CompletionRequestBuilderV {
                options: (crate::options::OptionsV {
                    num_predict: Some(v as int),
                    ..self@.options
                }),
                ..self@
            }),
    {
        CompletionRequestBuilder { options: self.options.num_predict(v), ..self }
    }

    /// Sets the top-k cutoff.
    pub fn top_k(self, v: i32) -> (r: Self)
        ensures
            r@ == (CompletionRequestBuilderV {
                options: (crate::options::OptionsV { top_k: Some(v as int), ..self@.options }),
                ..self@
            }),
    {
        CompletionRequestBuilder { options: self.options.top_k(v), ..self }
    }

    /// Sets the top-p cutoff from a number literal.
    pub fn top_p(self, v: &str) -> (r: Self)
        ensures
            r@ == (CompletionRequestBuilderV {
                options: (crate::options::OptionsV { top_p: Some(v@), ..self@.options }),
                ..self@
            }),
    {
        CompletionRequestBuilder { options: self.options.top_p(v), ..self }
    }

    /// Builds the request.  The model and the prompt must have been set, and
    /// every fractional option must be a complete JSON number literal; an
    /// unset image list builds as empty.
    pub fn build(self) -> (r: Result<CompletionRequest, OllamaError>)
        ensures
            match r {
                Ok(req) => {
                    &&& self@.model == Some(req@.model)
                    &&& self@.prompt == Some(req@.prompt)
                    &&& req@.images == (match self@.images {
                        None => Seq::<Seq<char>>::empty(),
                        Some(l) => l,
                    })
                    &&& req@.format == self@.format
                    &&& req@.options == self@.options
                    &&& crate::options::options_wf(self@.options)
                    &&& req@.system == self@.system
                    &&& req@.template == self@.template
                    &&& req@.context == self@.context
                    &&& req@.stream == self@.stream
                    &&& req@.raw == self@.raw
                    &&& req@.keep_alive == self@.keep_alive
                },
                Err(e) => (self@.model is None || self@.prompt is None
                    || !crate::options::options_wf(self@.options)) && e@ matches
                    ErrorV::InvalidParameter(_),
            },
    {
        let model = match self.model {
            Some(m) => m,
            None => {
                return Err(OllamaError::InvalidParameter(String::from_str("model is not set")));
            },
        };
        let prompt = match self.prompt {
            Some(p) => p,
            None => {
                return Err(OllamaError::InvalidParameter(String::from_str("prompt is not set")));
            },
        };
        let options = match self.options.build() {
            Ok(o) => o,
            Err(e) => {
                return Err(e);
            },
        };
        let images = match self.images {
            Some(v) => v,
            None => Vec::new(),
        };
        proof {
            if self@.images is None {
                assert(images.deep_view() =~~= Seq::<Seq<char>>::empty());
            }
        }
        Ok(
            CompletionRequest {
                model,
                prompt,
                images,
                format: self.format,
                options,
                system: self.system,
                template: self.template,
                context: self.context,
                stream: self.stream,
                raw: self.raw,
                keep_alive: self.keep_alive,
            },
        )
    }
}

} // verus!
