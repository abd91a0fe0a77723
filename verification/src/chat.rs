//! The chat endpoint's partial response and its aggregation.

use vstd::prelude::*;
use vstd::string::*;

use crate::decode::{find_field, opt_usize_field, req_bool_field, req_str_field, spec_opt_usize, spec_req_bool, spec_req_str, field_count, get_field};
use crate::errors::{res_view, ErrorV, OllamaError};
use crate::json::{Json, JsonV};
use crate::message::{spec_decode_message, Message, MessageV, Role};
use crate::stream::{results_view, spec_adapt_chunk, spec_adapt_stream, spec_adapted, spec_aggregate, StreamHandler};

verus! {

broadcast use vstd::seq::group_seq_axioms, vstd::std_specs::vec::group_vec_axioms;

/// Mathematical model of a [`ChatResponse`].
pub struct ChatResponseV {
    pub model: Seq<char>,
    pub created_at: Seq<char>,
    pub done: bool,
    pub message: Option<MessageV>,
    pub total_duration: Option<usize>,
    pub load_duration: Option<usize>,
    pub prompt_eval_count: Option<usize>,
    pub prompt_eval_duration: Option<usize>,
    pub eval_count: Option<usize>,
    pub eval_duration: Option<usize>,
}

/// One unit of the chat endpoint's output: a partial response when streamed,
/// or the whole response in single-object mode.  Telemetry fields are
/// carried only by the terminal item.
#[derive(Debug, Clone)]
pub struct ChatResponse {
    /// The model name.
    pub model: String,
    /// When the item was created, as reported by the server.
    pub created_at: String,
    /// True only on the terminal item of a stream.
    pub done: bool,
    /// The incremental message.
    pub message: Option<Message>,
    /// Time spent generating the response, in nanoseconds.
    pub total_duration: Option<usize>,
    /// Time spent loading the model, in nanoseconds.
    pub load_duration: Option<usize>,
    /// Number of tokens in the prompt.
    pub prompt_eval_count: Option<usize>,
    /// Time spent evaluating the prompt, in nanoseconds.
    pub prompt_eval_duration: Option<usize>,
    /// Number of tokens in the response.
    pub eval_count: Option<usize>,
    /// Time spent generating the response, in nanoseconds.
    pub eval_duration: Option<usize>,
}

impl View for ChatResponse {
    type V = ChatResponseV;

    open spec fn view(&self) -> ChatResponseV {
        ChatResponseV {
            model: self.model@,
            created_at: self.created_at@,
            done: self.done,
            message: match self.message {
                None => None,
                Some(ref m) => Some(m@),
            },
            total_duration: self.total_duration,
            load_duration: self.load_duration,
            prompt_eval_count: self.prompt_eval_count,
            prompt_eval_duration: self.prompt_eval_duration,
            eval_count: self.eval_count,
            eval_duration: self.eval_duration,
        }
    }
}

/// An optional message field: absent or `null` reads as nothing, a message
/// object reads as the message, anything else is a decode failure.
pub open spec fn spec_opt_message(fs: Seq<(Seq<char>, JsonV)>) -> Option<Option<MessageV>> {
    if field_count(fs, "message"@) == 0 {
        Some(None)
    } else if field_count(fs, "message"@) == 1 {
        match get_field(fs, "message"@) {
            Some(JsonV::Null) => Some(None),
            Some(v) => match spec_decode_message(v) {
                Some(m) => Some(Some(m)),
                None => None,
            },
            None => None,
        }
    } else {
        None
    }
}

/// The item a wire document denotes: an object with the required `model`,
/// `created_at` and `done` fields, an optional `message` object, and the
/// optional telemetry fields.  Unknown fields are ignored.
pub open spec fn spec_decode_chat(v: JsonV) -> Option<ChatResponseV> {
    match v {
        JsonV::Obj(fs) => match (
            spec_req_str(fs, "model"@),
            spec_req_str(fs, "created_at"@),
            spec_req_bool(fs, "done"@),
            spec_opt_message(fs),
        ) {
            (Some(model), Some(created_at), Some(done), Some(message)) => match (
                spec_opt_usize(fs, "total_duration"@),
                spec_opt_usize(fs, "load_duration"@),
                spec_opt_usize(fs, "prompt_eval_count"@),
                spec_opt_usize(fs, "prompt_eval_duration"@),
                spec_opt_usize(fs, "eval_count"@),
                spec_opt_usize(fs, "eval_duration"@),
            ) {
                (
                    Some(total_duration),
                    Some(load_duration),
                    Some(prompt_eval_count),
                    Some(prompt_eval_duration),
                    Some(eval_count),
                    Some(eval_duration),
                ) => Some(
                    ChatResponseV {
                        model,
                        created_at,
                        done,
                        message,
                        total_duration,
                        load_duration,
                        prompt_eval_count,
                        prompt_eval_duration,
                        eval_count,
                        eval_duration,
                    },
                ),
                _ => None,
            },
            _ => None,
        },
        _ => None,
    }
}

impl StreamHandler for ChatResponse {
    open spec fn decode_of(v: JsonV) -> Option<ChatResponseV> {
        spec_decode_chat(v)
    }

    open spec fn payload_of(v: ChatResponseV) -> Seq<char> {
        match v.message {
            Some(m) => m.content,
            None => Seq::empty(),
        }
    }

    open spec fn merged(last: ChatResponseV, first: ChatResponseV, payload: Seq<char>) -> ChatResponseV {
        ChatResponseV {
            message: Some(MessageV { role: Role::Assistant, content: payload, images: None }),
            created_at: first.created_at,
            ..last
        }
    }

    fn from_json(j: &Json) -> (r: Option<Self>) {
        let fs = match j {
            Json::Obj(fs) => fs,
            _ => {
                return None;
            },
        };
        let model = match req_str_field(fs, "model") {
            Some(s) => s,
            None => {
                return None;
            },
        };
        let created_at = match req_str_field(fs, "created_at") {
            Some(s) => s,
            None => {
                return None;
            },
        };
        let done = match req_bool_field(fs, "done") {
            Some(b) => b,
            None => {
                return None;
            },
        };
        let message = {
            let (cnt, first) = find_field(fs, "message");
            if cnt == 0 {
                None
            } else if cnt != 1 {
                return None;
            } else {
                match first {
                    Some(ix) => match &fs[ix].1 {
                        Json::Null => None,
                        other => match Message::from_json(other) {
                            Some(m) => Some(m),
                            None => {
                                return None;
                            },
                        },
                    },
                    None => {
                        return None;
                    },
                }
            }
        };
        let total_duration = match opt_usize_field(fs, "total_duration") {
            Some(v) => v,
            None => {
                return None;
            },
        };
        let load_duration = match opt_usize_field(fs, "load_duration") {
            Some(v) => v,
            None => {
                return None;
            },
        };
        let prompt_eval_count = match opt_usize_field(fs, "prompt_eval_count") {
            Some(v) => v,
            None => {
                return None;
            },
        };
        let prompt_eval_duration = match opt_usize_field(fs, "prompt_eval_duration") {
            Some(v) => v,
            None => {
                return None;
            },
        };
        let eval_count = match opt_usize_field(fs, "eval_count") {
            Some(v) => v,
            None => {
                return None;
            },
        };
        let eval_duration = match opt_usize_field(fs, "eval_duration") {
            Some(v) => v,
            None => {
                return None;
            },
        };
        Some(
            ChatResponse {
                model,
                created_at,
                done,
                message,
                total_duration,
                load_duration,
                prompt_eval_count,
                prompt_eval_duration,
                eval_count,
                eval_duration,
            },
        )
    }

    fn payload(&self) -> (p: String) {
        match &self.message {
            Some(m) => m.content.clone(),
            None => String::new(),
        }
    }

    fn merge(self, first: &Self, payload: String) -> (r: Self) {
        ChatResponse {
            message: Some(Message { role: Role::Assistant, content: payload, images: None }),
            created_at: first.created_at.clone(),
            ..self
        }
    }

    fn duplicate(&self) -> (r: Self) {
        ChatResponse {
            model: self.model.clone(),
            created_at: self.created_at.clone(),
            done: self.done,
            message: match &self.message {
                None => None,
                Some(m) => Some(m.duplicate()),
            },
            total_duration: self.total_duration,
            load_duration: self.load_duration,
            prompt_eval_count: self.prompt_eval_count,
            prompt_eval_duration: self.prompt_eval_duration,
            eval_count: self.eval_count,
            eval_duration: self.eval_duration,
        }
    }
}

impl ChatResponse {
    /// Adapts a streamed body, one element per chunk, in delivery order.
    pub fn adapt_stream(chunks: Vec<Result<Vec<u8>, String>>) -> (out: Vec<
        Result<Self, OllamaError>,
    >)
        ensures
            results_view(out@) =~= spec_adapt_stream::<Self>(chunks@),
    {
        let out = crate::stream::adapt_stream::<Self>(chunks);
        proof {
            assert(results_view(out@) =~= spec_adapt_stream::<Self>(chunks@));
        }
        out
    }

    /// Adapts a streamed body and folds it into one terminal response.
    pub fn stream_to_response(chunks: Vec<Result<Vec<u8>, String>>) -> (r: Result<
        Self,
        OllamaError,
    >)
        ensures
            res_view(r) == spec_aggregate::<Self>(spec_adapt_stream::<Self>(chunks@)),
    {
        let ghost cs = chunks@;
        let adapted = crate::stream::adapt_stream::<Self>(chunks);
        proof {
            assert(results_view(adapted@) =~= spec_adapt_stream::<Self>(cs));
        }
        crate::stream::stream_to_response(adapted)
    }
}

/// For every well-formed stream of at least one item whose last item is
/// terminal, the aggregate's message is an assistant message whose content
/// is the ordered concatenation of every item's message content, its
/// `created_at` is the first item's, and every other field — the telemetry
/// fields among them — is the last item's.
pub proof fn lemma_aggregate_of_well_formed_stream(rs: Seq<Result<ChatResponseV, ErrorV>>)
    requires
        rs.len() >= 1,
        crate::stream::all_ok(rs),
        crate::stream::oks(rs).last().done == true,
    ensures
        crate::stream::spec_aggregate::<ChatResponse>(rs) matches Ok(agg) && {
            let items = crate::stream::oks(rs);
            &&& agg.message == Some(
                MessageV {
                    role: Role::Assistant,
                    content: crate::stream::concat_payloads::<ChatResponse>(items),
                    images: None,
                },
            )
            &&& agg.created_at == items[0].created_at
            &&& agg.model == items.last().model
            &&& agg.done == items.last().done
            &&& agg.total_duration == items.last().total_duration
            &&& agg.load_duration == items.last().load_duration
            &&& agg.prompt_eval_count == items.last().prompt_eval_count
            &&& agg.prompt_eval_duration == items.last().prompt_eval_duration
            &&& agg.eval_count == items.last().eval_count
            &&& agg.eval_duration == items.last().eval_duration
        },
{
}

/// Single decode of one single-object chat body and aggregate decode of the
/// stream holding exactly that body produce field-for-field identical
/// results.  A single-object chat body carries its whole answer as one
/// assistant message without images, which is what the requires states.
pub proof fn lemma_single_matches_singleton_aggregate(b: Seq<u8>)
    requires
        spec_adapt_chunk::<ChatResponse>(Ok(b)) matches Ok(item) && (item.message matches Some(m)
            && m.role == Role::Assistant && m.images is None),
    ensures
        crate::stream::spec_aggregate::<ChatResponse>(
            crate::stream::spec_adapted::<ChatResponse>(seq![Ok(b)]),
        ) == crate::response::spec_single_decode::<ChatResponse>(
            crate::response::RawResponseV { status: 200, chunks: seq![Ok(b)] },
        ),
{
    let rs = crate::stream::spec_adapted::<ChatResponse>(seq![Ok::<Seq<u8>, Seq<char>>(b)]);
    let item = spec_adapt_chunk::<ChatResponse>(Ok(b))->Ok_0;
    assert(rs.len() == 1 && rs[0] == spec_adapt_chunk::<ChatResponse>(Ok(b)));
    assert(crate::stream::all_ok(rs));
    let items = crate::stream::oks(rs);
    assert(items.len() == 1 && items[0] == item);
    assert(items.drop_last() =~= Seq::<ChatResponseV>::empty());
    assert(crate::stream::concat_payloads::<ChatResponse>(Seq::<ChatResponseV>::empty())
        == Seq::<char>::empty());
    assert(<ChatResponse as StreamHandler>::payload_of(item) == item.message->Some_0.content);
    assert(crate::stream::concat_payloads::<ChatResponse>(items) =~= item.message->Some_0.content);
    let agg = <ChatResponse as StreamHandler>::merged(item, item, item.message->Some_0.content);
    assert(agg.message->Some_0 == item.message->Some_0);
    assert(agg == item);
    let chunks = seq![Ok::<Seq<u8>, Seq<char>>(b)];
    assert(crate::response::spec_body_bytes(chunks.drop_last()) == Some(Seq::<u8>::empty()));
    assert(crate::response::spec_body_bytes(chunks) == Some(Seq::<u8>::empty() + b));
    assert(Seq::<u8>::empty() + b =~= b);
}

/// Model of a sequence of messages.
pub open spec fn msgs_view(s: Seq<Message>) -> Seq<MessageV> {
    s.map_values(|m: Message| m@)
}

/// The comma-separated items of an array of messages.
pub open spec fn spec_messages_items(ms: Seq<MessageV>) -> Seq<char>
    decreases ms.len(),
{
    if ms.len() == 0 {
        Seq::empty()
    } else if ms.len() == 1 {
        crate::message::spec_message_json(ms[0])
    } else {
        spec_messages_items(ms.drop_last()) + seq![','] + crate::message::spec_message_json(
            ms.last(),
        )
    }
}

/// The wire form of an array of messages.
pub open spec fn spec_messages_array(ms: Seq<MessageV>) -> Seq<char> {
    seq!['['] + spec_messages_items(ms) + seq![']']
}

/// Appends the wire form of an array of messages.
fn append_messages(v: Vec<char>, msgs: &Vec<Message>) -> (r: Vec<char>)
    ensures
        r@ == v@ + spec_messages_array(msgs_view(msgs@)),
{
    let ghost v0 = v@;
    let ghost l = msgs_view(msgs@);
    let mut v = v;
    v.push('[');
    let mut i: usize = 0;
    while i < msgs.len()
        invariant
            i <= msgs@.len(),
            l == msgs_view(msgs@),
            l.len() == msgs@.len(),
            forall|j: int| 0 <= j < msgs@.len() ==> #[trigger] l[j] == msgs@[j]@,
            v@ == v0 + seq!['['] + spec_messages_items(l.subrange(0, i as int)),
        decreases msgs@.len() - i,
    {
        if i > 0 {
            v.push(',');
        }
        let mj = msgs[i].to_json();
        let v2 = crate::text::append_str(v, mj.as_str());
        v = v2;
        proof {
            assert(l.subrange(0, i + 1 as int).drop_last() =~= l.subrange(0, i as int));
            assert(v@ =~= v0 + seq!['['] + spec_messages_items(l.subrange(0, i + 1 as int)));
        }
        i = i + 1;
    }
    v.push(']');
    proof {
        assert(l.subrange(0, l.len() as int) =~= l);
        assert(v@ =~= v0 + spec_messages_array(l));
    }
    v
}

/// Mathematical model of a [`ChatCompletionRequest`].
pub struct ChatCompletionRequestV {
    pub model: Seq<char>,
    pub messages: Seq<MessageV>,
    pub format: Option<crate::options::Format>,
    pub options: crate::options::OptionsV,
    pub stream: Option<bool>,
    pub keep_alive: Option<usize>,
}

/// A request to generate the next message of a chat.  Optional fields are
/// serialized only when set; an all-default options block is omitted.
#[derive(Debug, Clone)]
pub struct ChatCompletionRequest {
    /// The model name.
    pub model: String,
    /// The messages of the chat so far, usable as a chat memory.
    pub messages: Vec<Message>,
    /// The format to return the response in.
    pub format: Option<crate::options::Format>,
    /// Additional model parameters; omitted when all default.
    pub options: crate::options::Options,
    /// If false the response is a single object rather than a stream.
    pub stream: Option<bool>,
    /// How long the model stays loaded after the request, in seconds.
    pub keep_alive: Option<usize>,
}

impl View for ChatCompletionRequest {
    type V = ChatCompletionRequestV;

    open spec fn view(&self) -> ChatCompletionRequestV {
        ChatCompletionRequestV {
            model: self.model@,
            messages: msgs_view(self.messages@),
            format: self.format,
            options: self.options@,
            stream: self.stream,
            keep_alive: self.keep_alive,
        }
    }
}

/// The rendered pieces of a chat request, in declaration order.
pub open spec fn spec_chat_request_pieces(r: ChatCompletionRequestV) -> Seq<Seq<char>> {
    crate::ser::req_str_piece("model"@, r.model) + seq![
        seq!['"'] + "messages"@ + "\":"@ + spec_messages_array(r.messages),
    ] + crate::options::format_piece(r.format) + crate::options::options_piece(r.options)
        + crate::ser::bool_piece("stream"@, r.stream) + crate::ser::usize_piece(
        "keep_alive"@,
        r.keep_alive,
    )
}

/// The wire form of a chat request.
pub open spec fn spec_chat_request_json(r: ChatCompletionRequestV) -> Seq<char> {
    seq!['{'] + crate::ser::spec_csv(spec_chat_request_pieces(r)) + seq!['}']
}

impl ChatCompletionRequest {
    /// Serializes the request for the wire.
    pub fn to_json(&self) -> (r: String)
        ensures
            r@ == spec_chat_request_json(self@),
    {
        let mut pieces: Vec<Vec<char>> = Vec::new();
        crate::ser::push_req_str_piece(&mut pieces, "model", &self.model);
        {
            let mut p: Vec<char> = Vec::new();
            p.push('"');
            let p = crate::text::append_str(p, "messages");
            let p = crate::text::append_str(p, "\":");
            let p = append_messages(p, &self.messages);
            let ghost pv = p@;
            pieces.push(p);
            proof {
                assert(pv =~= seq!['"'] + "messages"@ + "\":"@ + spec_messages_array(
                    msgs_view(self.messages@),
                ));
            }
        }
        crate::options::push_format_piece(&mut pieces, &self.format);
        crate::options::push_options_piece(&mut pieces, &self.options);
        crate::ser::push_bool_piece(&mut pieces, "stream", &self.stream);
        crate::ser::push_usize_piece(&mut pieces, "keep_alive", &self.keep_alive);
        proof {
            assert(pieces.deep_view() =~~= spec_chat_request_pieces(self@));
        }
        let mut v: Vec<char> = Vec::new();
        v.push('{');
        let mut v = crate::ser::append_csv(v, &pieces);
        v.push('}');
        proof {
            assert(v@ =~= spec_chat_request_json(self@));
        }
        crate::text::string_from_chars(&v)
    }
}

/// Mathematical model of a [`ChatCompletionRequestBuilder`].
pub struct ChatCompletionRequestBuilderV {
    pub model: Option<Seq<char>>,
    pub messages: Option<Seq<MessageV>>,
    pub format: Option<crate::options::Format>,
    pub options: crate::options::OptionsV,
    pub stream: Option<bool>,
    pub keep_alive: Option<usize>,
}

/// Assembles a [`ChatCompletionRequest`] field by field.
#[derive(Debug, Clone)]
pub struct ChatCompletionRequestBuilder {
    model: Option<String>,
    messages: Option<Vec<Message>>,
    format: Option<crate::options::Format>,
    options: crate::options::OptionsBuilder,
    stream: Option<bool>,
    keep_alive: Option<usize>,
}

impl View for ChatCompletionRequestBuilder {
    type V = ChatCompletionRequestBuilderV;

    closed spec fn view(&self) -> ChatCompletionRequestBuilderV {
        ChatCompletionRequestBuilderV {
            model: crate::options::opt_str_view(self.model),
            messages: match self.messages {
                None => None,
                Some(ref v) => Some(msgs_view(v@)),
            },
            format: self.format,
            options: self.options@,
            stream: self.stream,
            keep_alive: self.keep_alive,
        }
    }
}

impl Default for ChatCompletionRequestBuilder {
    /// A builder with nothing set.
    fn default() -> (r: Self)
        ensures
            r@.model is None,
            r@.messages is None,
            r@.format is None,
            crate::options::options_is_default(r@.options),
            r@.stream is None,
            r@.keep_alive is None,
    {
        ChatCompletionRequestBuilder {
            model: None,
            messages: None,
            format: None,
            options: crate::options::OptionsBuilder::default(),
            stream: None,
            keep_alive: None,
        }
    }
}

impl ChatCompletionRequestBuilder {
    /// Sets the model name.
    pub fn model(self, v: &str) -> (r: Self)
        ensures
            r@ == (ChatCompletionRequestBuilderV { model: Some(v@), ..self@ }),
    {
        ChatCompletionRequestBuilder { model: Some(String::from_str(v)), ..self }
    }

    /// Sets the chat messages.
    pub fn messages(self, v: Vec<Message>) -> (r: Self)
        ensures
            r@ == (ChatCompletionRequestBuilderV { messages: Some(msgs_view(v@)), ..self@ }),
    {
        ChatCompletionRequestBuilder { messages: Some(v), ..self }
    }

    /// Sets the response format.
    pub fn format(self, v: crate::options::Format) -> (r: Self)
        ensures
            r@ == (ChatCompletionRequestBuilderV { format: Some(v), ..self@ }),
    {
        ChatCompletionRequestBuilder { format: Some(v), ..self }
    }

    /// Sets the streaming flag.
    pub fn stream(self, v: bool) -> (r: Self)
        ensures
            r@ == (ChatCompletionRequestBuilderV { stream: Some(v), ..self@ }),
    {
        ChatCompletionRequestBuilder { stream: Some(v), ..self }
    }

    /// Sets the keep-alive time.
    pub fn keep_alive(self, v: usize) -> (r: Self)
        ensures
            r@ == (ChatCompletionRequestBuilderV { keep_alive: Some(v), ..self@ }),
    {
        ChatCompletionRequestBuilder { keep_alive: Some(v), ..self }
    }

    /// Sets the Mirostat mode.
    pub fn mirostat(self, v: i32) -> (r: Self)
        ensures
            r@ == (ChatCompletionRequestBuilderV {
                options: (crate::options::OptionsV { mirostat: Some(v as int), ..self@.options }),
                ..self@
            }),
    {
        ChatCompletionRequestBuilder { options: self.options.mirostat(v), ..self }
    }

    /// Sets the Mirostat learning rate from a number literal.
    pub fn mirostat_eta(self, v: &str) -> (r: Self)
        ensures
            r@ == (ChatCompletionRequestBuilderV {
                options: (crate::options::OptionsV { mirostat_eta: Some(v@), ..self@.options }),
                ..self@
            }),
    {
        ChatCompletionRequestBuilder { options: self.options.mirostat_eta(v), ..self }
    }

    /// Sets the Mirostat target entropy from a number literal.
    pub fn mirostat_tau(self, v: &str) -> (r: Self)
        ensures
            r@ == (ChatCompletionRequestBuilderV {
                options: (crate::options::OptionsV { mirostat_tau: Some(v@), ..self@.options }),
                ..self@
            }),
    {
        ChatCompletionRequestBuilder { options: self.options.mirostat_tau(v), ..self }
    }

    /// Sets the context window size.
    pub fn num_ctx(self, v: i32) -> (r: Self)
        ensures
            r@ == (ChatCompletionRequestBuilderV {
                options: (crate::options::OptionsV { num_ctx: Some(v as int), ..self@.options }),
                ..self@
            }),
    {
        ChatCompletionRequestBuilder { options: self.options.num_ctx(v), ..self }
    }

    /// Sets the repetition look-back window.
    pub fn repeat_last_n(self, v: i32) -> (r: Self)
        ensures
            r@ == (ChatCompletionRequestBuilderV {
                options: (crate::options::OptionsV {
                    repeat_last_n: Some(v as int),
                    ..self@.options
                }),
                ..self@
            }),
    {
        ChatCompletionRequestBuilder { options: self.options.repeat_last_n(v), ..self }
    }

    /// Sets the repetition penalty from a number literal.
    pub fn repeat_penalty(self, v: &str) -> (r: Self)
        ensures
            r@ == (ChatCompletionRequestBuilderV {
                options: (crate::options::OptionsV { repeat_penalty: Some(v@), ..self@.options }),
                ..self@
            }),
    {
        ChatCompletionRequestBuilder { options: self.options.repeat_penalty(v), ..self }
    }

    /// Sets the sampling temperature.
    pub fn temperature(self, v: i32) -> (r: Self)
        ensures
            r@ == (ChatCompletionRequestBuilderV {
                options: (crate::options::OptionsV {
                    temperature: Some(v as int),
                    ..self@.options
                }),
                ..self@
            }),
    {
        ChatCompletionRequestBuilder { options: self.options.temperature(v), ..self }
    }

    /// Sets the random seed.
    pub fn seed(self, v: i32) -> (r: Self)
        ensures
            r@ == (ChatCompletionRequestBuilderV {
                options: (crate::options::OptionsV { seed: Some(v as int), ..self@.options }),
                ..self@
            }),
    {
        ChatCompletionRequestBuilder { options: self.options.seed(v), ..self }
    }

    /// Sets the stop sequence.
    pub fn stop(self, v: &str) -> (r: Self)
        ensures
            r@ == (ChatCompletionRequestBuilderV {
                options: (crate::options::OptionsV { stop: Some(v@), ..self@.options }),
                ..self@
            }),
    {
        ChatCompletionRequestBuilder { options: self.options.stop(v), ..self }
    }

    /// Sets the tail-free sampling parameter from a number literal.
    pub fn tfs_z(self, v: &str) -> (r: Self)
        ensures
            r@ == (ChatCompletionRequestBuilderV {
                options: (crate::options::OptionsV { tfs_z: Some(v@), ..self@.options }),
                ..self@
            }),
    {
        ChatCompletionRequestBuilder { options: self.options.tfs_z(v), ..self }
    }

    /// Sets the prediction-length cap.
    pub fn num_predict(self, v: i32) -> (r: Self)
        ensures
            r@ == (ChatCompletionRequestBuilderV {
                options: (crate::options::OptionsV {
                    num_predict: Some(v as int),
                    ..self@.options
                }),
                ..self@
            }),
    {
        ChatCompletionRequestBuilder { options: self.options.num_predict(v), ..self }
    }

    /// Sets the top-k cutoff.
    pub fn top_k(self, v: i32) -> (r: Self)
        ensures
            r@ == (ChatCompletionRequestBuilderV {
                options: (crate::options::OptionsV { top_k: Some(v as int), ..self@.options }),
                ..self@
            }),
    {
        ChatCompletionRequestBuilder { options: self.options.top_k(v), ..self }
    }

    /// Sets the top-p cutoff from a number literal.
    pub fn top_p(self, v: &str) -> (r: Self)
        ensures
            r@ == (ChatCompletionRequestBuilderV {
                options: (crate::options::OptionsV { top_p: Some(v@), ..self@.options }),
                ..self@
            }),
    {
        ChatCompletionRequestBuilder { options: self.options.top_p(v), ..self }
    }

    /// Builds the request.  The model and the messages must have been set,
    /// and every fractional option must be a complete JSON number literal.
    pub fn build(self) -> (r: Result<ChatCompletionRequest, OllamaError>)
        ensures
            match r {
                Ok(req) => {
                    &&& self@.model == Some(req@.model)
                    &&& self@.messages == Some(req@.messages)
                    &&& req@.format == self@.format
                    &&& req@.options == self@.options
                    &&& crate::options::options_wf(self@.options)
                    &&& req@.stream == self@.stream
                    &&& req@.keep_alive == self@.keep_alive
                },
                Err(e) => (self@.model is None || self@.messages is None
                    || !crate::options::options_wf(self@.options)) && e@ matches
                    crate::errors::ErrorV::InvalidParameter(_),
            },
    {
        let model = match self.model {
            Some(m) => m,
            None => {
                return Err(OllamaError::InvalidParameter(String::from_str("model is not set")));
            },
        };
        let messages = match self.messages {
            Some(m) => m,
            None => {
                return Err(OllamaError::InvalidParameter(String::from_str("messages are not set")));
            },
        };
        let options = match self.options.build() {
            Ok(o) => o,
            Err(e) => {
                return Err(e);
            },
        };
        Ok(
            ChatCompletionRequest {
                model,
                messages,
                format: self.format,
                options,
                stream: self.stream,
                keep_alive: self.keep_alive,
            },
        )
    }
}

} // verus!
