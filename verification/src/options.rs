//! The shared generation options and the response format marker.
//!
//! The recognized option set is enumerated once and embedded by value in each
//! request type.  Options whose values are fractional on the wire are held as
//! validated JSON number literals, so that a request body is well-formed by
//! construction.

use vstd::prelude::*;
use vstd::string::*;

use crate::errors::{ErrorV, OllamaError};
use crate::parser::{is_number_lit, spec_is_number_lit};
use crate::ser::{append_csv, append_i64, append_quoted, spec_csv, spec_i64_digits, spec_quoted};
use crate::text::{append_str, string_from_chars};

verus! {

broadcast use vstd::seq::group_seq_axioms, vstd::std_specs::vec::group_vec_axioms;

/// The format to return a response in.  The only recognized value asks for
/// JSON output.
#[derive(Debug, Clone, Copy, PartialEq, Eq, Structural)]
pub enum Format {
    JSON,
}

/// The wire name of a format.
pub open spec fn format_text(f: Format) -> Seq<char> {
    "json"@
}

impl Format {
    /// The wire name of the format.
    pub fn as_str(&self) -> (s: &'static str)
        ensures
            s@ == format_text(*self),
    {
        "json"
    }

    /// The wire name of the format as an owned string.
    pub fn to_string(&self) -> (s: String)
        ensures
            s@ == format_text(*self),
    {
        String::from_str(self.as_str())
    }
}

impl Default for Format {
    /// The default format asks for JSON output.
    fn default() -> (r: Self)
        ensures
            r == Format::JSON,
    {
        Format::JSON
    }
}

/// Mathematical model of [`Options`].  Fractional options hold their number
/// literal text.
pub struct OptionsV {
    pub mirostat: Option<int>,
    pub mirostat_eta: Option<Seq<char>>,
    pub mirostat_tau: Option<Seq<char>>,
    pub num_ctx: Option<int>,
    pub repeat_last_n: Option<int>,
    pub repeat_penalty: Option<Seq<char>>,
    pub temperature: Option<int>,
    pub seed: Option<int>,
    pub stop: Option<Seq<char>>,
    pub tfs_z: Option<Seq<char>>,
    pub num_predict: Option<int>,
    pub top_k: Option<int>,
    pub top_p: Option<Seq<char>>,
}

/// Additional model parameters, each independently optional and serialized
/// only when set.  Fractional parameters are carried as JSON number
/// literals (see [`OptionsBuilder::build`], which validates them).
#[derive(Debug, Clone)]
pub struct Options {
    /// Mirostat sampling: 0 disabled, 1 Mirostat, 2 Mirostat 2.0.
    pub mirostat: Option<i32>,
    /// Mirostat learning rate, as a number literal.
    pub mirostat_eta: Option<String>,
    /// Mirostat target entropy, as a number literal.
    pub mirostat_tau: Option<String>,
    /// Size of the context window, in tokens.
    pub num_ctx: Option<i32>,
    /// How far back the model looks to prevent repetition.
    pub repeat_last_n: Option<i32>,
    /// How strongly repetitions are penalized, as a number literal.
    pub repeat_penalty: Option<String>,
    /// Sampling temperature.
    pub temperature: Option<i32>,
    /// Random seed for generation.
    pub seed: Option<i32>,
    /// Stop sequence: generation halts when this pattern appears.
    pub stop: Option<String>,
    /// Tail-free sampling parameter, as a number literal.
    pub tfs_z: Option<String>,
    /// Maximum number of tokens to predict.
    pub num_predict: Option<i32>,
    /// Top-k sampling cutoff.
    pub top_k: Option<i32>,
    /// Top-p sampling cutoff, as a number literal.
    pub top_p: Option<String>,
}

/// The model of an optional integer option.
pub open spec fn opt_int_view(v: Option<i32>) -> Option<int> {
    match v {
        None => None,
        Some(n) => Some(n as int),
    }
}

/// The model of an optional text-carrying option.
pub open spec fn opt_str_view(v: Option<String>) -> Option<Seq<char>> {
    match v {
        None => None,
        Some(s) => Some(s@),
    }
}

impl View for Options {
    type V = OptionsV;

    open spec fn view(&self) -> OptionsV {
        OptionsV {
            mirostat: opt_int_view(self.mirostat),
            mirostat_eta: opt_str_view(self.mirostat_eta),
            mirostat_tau: opt_str_view(self.mirostat_tau),
            num_ctx: opt_int_view(self.num_ctx),
            repeat_last_n: opt_int_view(self.repeat_last_n),
            repeat_penalty: opt_str_view(self.repeat_penalty),
            temperature: opt_int_view(self.temperature),
            seed: opt_int_view(self.seed),
            stop: opt_str_view(self.stop),
            tfs_z: opt_str_view(self.tfs_z),
            num_predict: opt_int_view(self.num_predict),
            top_k: opt_int_view(self.top_k),
            top_p: opt_str_view(self.top_p),
        }
    }
}

/// No option is set.
pub open spec fn options_is_default(o: OptionsV) -> bool {
    o.mirostat is None && o.mirostat_eta is None && o.mirostat_tau is None && o.num_ctx is None
        && o.repeat_last_n is None && o.repeat_penalty is None && o.temperature is None && o.seed
        is None && o.stop is None && o.tfs_z is None && o.num_predict is None && o.top_k is None
        && o.top_p is None
}

/// Every fractional option holds a complete JSON number literal.
pub open spec fn options_wf(o: OptionsV) -> bool {
    &&& (o.mirostat_eta matches Some(l) ==> spec_is_number_lit(l))
    &&& (o.mirostat_tau matches Some(l) ==> spec_is_number_lit(l))
    &&& (o.repeat_penalty matches Some(l) ==> spec_is_number_lit(l))
    &&& (o.tfs_z matches Some(l) ==> spec_is_number_lit(l))
    &&& (o.top_p matches Some(l) ==> spec_is_number_lit(l))
}

/// The rendered piece of one set option, or nothing.
pub open spec fn int_piece(name: Seq<char>, v: Option<int>) -> Seq<Seq<char>> {
    match v {
        None => Seq::empty(),
        Some(n) => seq![seq!['"'] + name + "\":"@ + spec_i64_digits(n)],
    }
}

/// The rendered piece of one set raw-literal option, or nothing.
pub open spec fn lit_piece(name: Seq<char>, v: Option<Seq<char>>) -> Seq<Seq<char>> {
    match v {
        None => Seq::empty(),
        Some(l) => seq![seq!['"'] + name + "\":"@ + l],
    }
}

/// The rendered piece of one set string option, or nothing.
pub open spec fn str_piece(name: Seq<char>, v: Option<Seq<char>>) -> Seq<Seq<char>> {
    match v {
        None => Seq::empty(),
        Some(s) => seq![seq!['"'] + name + "\":"@ + spec_quoted(s)],
    }
}

/// The rendered pieces of every set option, in declaration order.
pub open spec fn options_pieces(o: OptionsV) -> Seq<Seq<char>> {
    int_piece("mirostat"@, o.mirostat) + lit_piece("mirostat_eta"@, o.mirostat_eta) + lit_piece(
        "mirostat_tau"@,
        o.mirostat_tau,
    ) + int_piece("num_ctx"@, o.num_ctx) + int_piece("repeat_last_n"@, o.repeat_last_n)
        + lit_piece("repeat_penalty"@, o.repeat_penalty) + int_piece("temperature"@, o.temperature)
        + int_piece("seed"@, o.seed) + str_piece("stop"@, o.stop) + lit_piece("tfs_z"@, o.tfs_z)
        + int_piece("num_predict"@, o.num_predict) + int_piece("top_k"@, o.top_k) + lit_piece(
        "top_p"@,
        o.top_p,
    )
}

/// The wire form of an options block.
pub open spec fn spec_options_json(o: OptionsV) -> Seq<char> {
    seq!['{'] + spec_csv(options_pieces(o)) + seq!['}']
}

/// Renders one integer option into the piece list.
fn push_int_piece(pieces: &mut Vec<Vec<char>>, name: &str, v: &Option<i32>)
    ensures
        final(pieces).deep_view() == old(pieces).deep_view() + int_piece(
            name@,
            opt_int_view(*v),
        ),
{
    match v {
        None => {
            proof {
                assert(final(pieces).deep_view() =~= old(pieces).deep_view() + int_piece(
                    name@,
                    opt_int_view(*v),
                ));
            }
        },
        Some(n) => {
            let mut p: Vec<char> = Vec::new();
            p.push('"');
            let p = append_str(p, name);
            let p = append_str(p, "\":");
            let p = append_i64(p, *n as i64);
            let ghost pv = p@;
            pieces.push(p);
            proof {
                assert(pv =~= seq!['"'] + name@ + "\":"@ + spec_i64_digits(*n as int));
                assert(pieces.deep_view() =~~= old(pieces).deep_view() + int_piece(
                    name@,
                    opt_int_view(*v),
                ));
            }
        },
    }
}

/// Renders one raw-literal option into the piece list.
fn push_lit_piece(pieces: &mut Vec<Vec<char>>, name: &str, v: &Option<String>)
    ensures
        final(pieces).deep_view() == old(pieces).deep_view() + lit_piece(
            name@,
            opt_str_view(*v),
        ),
{
    match v {
        None => {
            proof {
                assert(final(pieces).deep_view() =~= old(pieces).deep_view() + lit_piece(
                    name@,
                    opt_str_view(*v),
                ));
            }
        },
        Some(l) => {
            let mut p: Vec<char> = Vec::new();
            p.push('"');
            let p = append_str(p, name);
            let p = append_str(p, "\":");
            let p = append_str(p, l.as_str());
            let ghost pv = p@;
            pieces.push(p);
            proof {
                assert(pv =~= seq!['"'] + name@ + "\":"@ + l@);
                assert(pieces.deep_view() =~~= old(pieces).deep_view() + lit_piece(
                    name@,
                    opt_str_view(*v),
                ));
            }
        },
    }
}

/// Renders one string option into the piece list.
fn push_str_piece(pieces: &mut Vec<Vec<char>>, name: &str, v: &Option<String>)
    ensures
        final(pieces).deep_view() == old(pieces).deep_view() + str_piece(
            name@,
            opt_str_view(*v),
        ),
{
    match v {
        None => {
            proof {
                assert(final(pieces).deep_view() =~= old(pieces).deep_view() + str_piece(
                    name@,
                    opt_str_view(*v),
                ));
            }
        },
        Some(s) => {
            let mut p: Vec<char> = Vec::new();
            p.push('"');
            let p = append_str(p, name);
            let p = append_str(p, "\":");
            let p = append_quoted(p, s.as_str());
            let ghost pv = p@;
            pieces.push(p);
            proof {
                assert(pv =~= seq!['"'] + name@ + "\":"@ + spec_quoted(s@));
                assert(pieces.deep_view() =~~= old(pieces).deep_view() + str_piece(
                    name@,
                    opt_str_view(*v),
                ));
            }
        },
    }
}

impl Default for Options {
    /// No option set.
    fn default() -> (r: Self)
        ensures
            options_is_default(r@),
            options_wf(r@),
    {
        Options {
            mirostat: None,
            mirostat_eta: None,
            mirostat_tau: None,
            num_ctx: None,
            repeat_last_n: None,
            repeat_penalty: None,
            temperature: None,
            seed: None,
            stop: None,
            tfs_z: None,
            num_predict: None,
            top_k: None,
            top_p: None,
        }
    }
}

impl Options {
    /// True when no option is set.
    pub fn is_default(&self) -> (b: bool)
        ensures
            b == options_is_default(self@),
    {
        self.mirostat.is_none() && self.mirostat_eta.is_none() && self.mirostat_tau.is_none()
            && self.num_ctx.is_none() && self.repeat_last_n.is_none()
            && self.repeat_penalty.is_none() && self.temperature.is_none() && self.seed.is_none()
            && self.stop.is_none() && self.tfs_z.is_none() && self.num_predict.is_none()
            && self.top_k.is_none() && self.top_p.is_none()
    }

    /// Serializes the options block for the wire.
    pub fn to_json(&self) -> (r: String)
        ensures
            r@ == spec_options_json(self@),
    {
        let mut pieces: Vec<Vec<char>> = Vec::new();
        push_int_piece(&mut pieces, "mirostat", &self.mirostat);
        push_lit_piece(&mut pieces, "mirostat_eta", &self.mirostat_eta);
        push_lit_piece(&mut pieces, "mirostat_tau", &self.mirostat_tau);
        push_int_piece(&mut pieces, "num_ctx", &self.num_ctx);
        push_int_piece(&mut pieces, "repeat_last_n", &self.repeat_last_n);
        push_lit_piece(&mut pieces, "repeat_penalty", &self.repeat_penalty);
        push_int_piece(&mut pieces, "temperature", &self.temperature);
        push_int_piece(&mut pieces, "seed", &self.seed);
        push_str_piece(&mut pieces, "stop", &self.stop);
        push_lit_piece(&mut pieces, "tfs_z", &self.tfs_z);
        push_int_piece(&mut pieces, "num_predict", &self.num_predict);
        push_int_piece(&mut pieces, "top_k", &self.top_k);
        push_lit_piece(&mut pieces, "top_p", &self.top_p);
        proof {
            assert(pieces.deep_view() =~~= options_pieces(self@));
        }
        let mut v: Vec<char> = Vec::new();
        v.push('{');
        let mut v = append_csv(v, &pieces);
        v.push('}');
        proof {
            assert(v@ =~= spec_options_json(self@));
        }
        string_from_chars(&v)
    }
}

/// The rendered piece of one set format field, or nothing.
pub open spec fn format_piece(v: Option<Format>) -> Seq<Seq<char>> {
    match v {
        None => Seq::empty(),
        Some(f) => seq![seq!['"'] + "format"@ + "\":"@ + spec_quoted(format_text(f))],
    }
}

/// The rendered piece of an options block, skipped when no option is set.
pub open spec fn options_piece(o: OptionsV) -> Seq<Seq<char>> {
    if options_is_default(o) {
        Seq::empty()
    } else {
        seq![seq!['"'] + "options"@ + "\":"@ + spec_options_json(o)]
    }
}

/// The rendered piece of one set options block, or nothing.
pub open spec fn opt_options_piece(o: Option<OptionsV>) -> Seq<Seq<char>> {
    match o {
        None => Seq::empty(),
        Some(ov) => seq![seq!['"'] + "options"@ + "\":"@ + spec_options_json(ov)],
    }
}

/// Renders one set format field into the piece list.
pub fn push_format_piece(pieces: &mut Vec<Vec<char>>, v: &Option<Format>)
    ensures
        final(pieces).deep_view() == old(pieces).deep_view() + format_piece(*v),
{
    match v {
        None => {
            proof {
                assert(final(pieces).deep_view() =~~= old(pieces).deep_view()
                    + Seq::<Seq<char>>::empty());
            }
        },
        Some(f) => {
            let mut p: Vec<char> = Vec::new();
            p.push('"');
            let p = append_str(p, "format");
            let p = append_str(p, "\":");
            let p = append_quoted(p, f.as_str());
            let ghost pv = p@;
            pieces.push(p);
            proof {
                assert(pv =~= seq!['"'] + "format"@ + "\":"@ + spec_quoted(format_text(*f)));
                assert(pieces.deep_view() =~~= old(pieces).deep_view() + seq![pv]);
            }
        },
    }
}

/// Renders an options block into the piece list, unless it is all default.
pub fn push_options_piece(pieces: &mut Vec<Vec<char>>, o: &Options)
    ensures
        final(pieces).deep_view() == old(pieces).deep_view() + options_piece(o@),
{
    if o.is_default() {
        proof {
            assert(final(pieces).deep_view() =~~= old(pieces).deep_view()
                + Seq::<Seq<char>>::empty());
        }
        return ;
    }
    let mut p: Vec<char> = Vec::new();
    p.push('"');
    let p = append_str(p, "options");
    let p = append_str(p, "\":");
    let body = o.to_json();
    let p = append_str(p, body.as_str());
    let ghost pv = p@;
    pieces.push(p);
    proof {
        assert(pv =~= seq!['"'] + "options"@ + "\":"@ + spec_options_json(o@));
        assert(pieces.deep_view() =~~= old(pieces).deep_view() + seq![pv]);
    }
}

/// Renders one set options block into the piece list.
pub fn push_opt_options_piece(pieces: &mut Vec<Vec<char>>, o: &Option<Options>)
    ensures
        final(pieces).deep_view() == old(pieces).deep_view() + opt_options_piece(
            match *o {
                None => None,
                Some(ov) => Some(ov@),
            },
        ),
{
    match o {
        None => {
            proof {
                assert(final(pieces).deep_view() =~~= old(pieces).deep_view()
                    + Seq::<Seq<char>>::empty());
            }
        },
        Some(inner) => {
            let mut p: Vec<char> = Vec::new();
            p.push('"');
            let p = append_str(p, "options");
            let p = append_str(p, "\":");
            let body = inner.to_json();
            let p = append_str(p, body.as_str());
            let ghost pv = p@;
            pieces.push(p);
            proof {
                assert(pv =~= seq!['"'] + "options"@ + "\":"@ + spec_options_json(inner@));
                assert(pieces.deep_view() =~~= old(pieces).deep_view() + seq![pv]);
            }
        },
    }
}

/// Assembles an [`Options`] block field by field, validating the fractional
/// options when it builds.
#[derive(Debug, Clone)]
pub struct OptionsBuilder {
    mirostat: Option<i32>,
    mirostat_eta: Option<String>,
    mirostat_tau: Option<String>,
    num_ctx: Option<i32>,
    repeat_last_n: Option<i32>,
    repeat_penalty: Option<String>,
    temperature: Option<i32>,
    seed: Option<i32>,
    stop: Option<String>,
    tfs_z: Option<String>,
    num_predict: Option<i32>,
    top_k: Option<i32>,
    top_p: Option<String>,
}

impl View for OptionsBuilder {
    type V = OptionsV;

    closed spec fn view(&self) -> OptionsV {
        OptionsV {
            mirostat: opt_int_view(self.mirostat),
            mirostat_eta: opt_str_view(self.mirostat_eta),
            mirostat_tau: opt_str_view(self.mirostat_tau),
            num_ctx: opt_int_view(self.num_ctx),
            repeat_last_n: opt_int_view(self.repeat_last_n),
            repeat_penalty: opt_str_view(self.repeat_penalty),
            temperature: opt_int_view(self.temperature),
            seed: opt_int_view(self.seed),
            stop: opt_str_view(self.stop),
            tfs_z: opt_str_view(self.tfs_z),
            num_predict: opt_int_view(self.num_predict),
            top_k: opt_int_view(self.top_k),
            top_p: opt_str_view(self.top_p),
        }
    }
}

impl Default for OptionsBuilder {
    /// A builder with nothing set.
    fn default() -> (r: Self)
        ensures
            options_is_default(r@),
    {
        OptionsBuilder {
            mirostat: None,
            mirostat_eta: None,
            mirostat_tau: None,
            num_ctx: None,
            repeat_last_n: None,
            repeat_penalty: None,
            temperature: None,
            seed: None,
            stop: None,
            tfs_z: None,
            num_predict: None,
            top_k: None,
            top_p: None,
        }
    }
}

impl OptionsBuilder {
    /// True when no option is set yet.
    pub fn is_default(&self) -> (b: bool)
        ensures
            b == options_is_default(self@),
    {
        self.mirostat.is_none() && self.mirostat_eta.is_none() && self.mirostat_tau.is_none()
            && self.num_ctx.is_none() && self.repeat_last_n.is_none()
            && self.repeat_penalty.is_none() && self.temperature.is_none() && self.seed.is_none()
            && self.stop.is_none() && self.tfs_z.is_none() && self.num_predict.is_none()
            && self.top_k.is_none() && self.top_p.is_none()
    }

    /// Sets the Mirostat mode.
    pub fn mirostat(self, v: i32) -> (r: Self)
        ensures
            r@ == (OptionsV { mirostat: Some(v as int), ..self@ }),
    {
        OptionsBuilder { mirostat: Some(v), ..self }
    }

    /// Sets the Mirostat learning rate from a number literal.
    pub fn mirostat_eta(self, v: &str) -> (r: Self)
        ensures
            r@ == (OptionsV { mirostat_eta: Some(v@), ..self@ }),
    {
        OptionsBuilder { mirostat_eta: Some(String::from_str(v)), ..self }
    }

    /// Sets the Mirostat target entropy from a number literal.
    pub fn mirostat_tau(self, v: &str) -> (r: Self)
        ensures
            r@ == (OptionsV { mirostat_tau: Some(v@), ..self@ }),
    {
        OptionsBuilder { mirostat_tau: Some(String::from_str(v)), ..self }
    }

    /// Sets the context window size.
    pub fn num_ctx(self, v: i32) -> (r: Self)
        ensures
            r@ == (OptionsV { num_ctx: Some(v as int), ..self@ }),
    {
        OptionsBuilder { num_ctx: Some(v), ..self }
    }

    /// Sets the repetition look-back window.
    pub fn repeat_last_n(self, v: i32) -> (r: Self)
        ensures
            r@ == (OptionsV { repeat_last_n: Some(v as int), ..self@ }),
    {
        OptionsBuilder { repeat_last_n: Some(v), ..self }
    }

    /// Sets the repetition penalty from a number literal.
    pub fn repeat_penalty(self, v: &str) -> (r: Self)
        ensures
            r@ == (OptionsV { repeat_penalty: Some(v@), ..self@ }),
    {
        OptionsBuilder { repeat_penalty: Some(String::from_str(v)), ..self }
    }

    /// Sets the sampling temperature.
    pub fn temperature(self, v: i32) -> (r: Self)
        ensures
            r@ == (OptionsV { temperature: Some(v as int), ..self@ }),
    {
        OptionsBuilder { temperature: Some(v), ..self }
    }

    /// Sets the random seed.
    pub fn seed(self, v: i32) -> (r: Self)
        ensures
            r@ == (OptionsV { seed: Some(v as int), ..self@ }),
    {
        OptionsBuilder { seed: Some(v), ..self }
    }

    /// Sets the stop sequence.
    pub fn stop(self, v: &str) -> (r: Self)
        ensures
            r@ == (OptionsV { stop: Some(v@), ..self@ }),
    {
        OptionsBuilder { stop: Some(String::from_str(v)), ..self }
    }

    /// Sets the tail-free sampling parameter from a number literal.
    pub fn tfs_z(self, v: &str) -> (r: Self)
        ensures
            r@ == (OptionsV { tfs_z: Some(v@), ..self@ }),
    {
        OptionsBuilder { tfs_z: Some(String::from_str(v)), ..self }
    }

    /// Sets the prediction-length cap.
    pub fn num_predict(self, v: i32) -> (r: Self)
        ensures
            r@ == (OptionsV { num_predict: Some(v as int), ..self@ }),
    {
        OptionsBuilder { num_predict: Some(v), ..self }
    }

    /// Sets the top-k cutoff.
    pub fn top_k(self, v: i32) -> (r: Self)
        ensures
            r@ == (OptionsV { top_k: Some(v as int), ..self@ }),
    {
        OptionsBuilder { top_k: Some(v), ..self }
    }

    /// Sets the top-p cutoff from a number literal.
    pub fn top_p(self, v: &str) -> (r: Self)
        ensures
            r@ == (OptionsV { top_p: Some(v@), ..self@ }),
    {
        OptionsBuilder { top_p: Some(String::from_str(v)), ..self }
    }

    /// Builds the options block, validating that every fractional option is
    /// a complete JSON number literal.
    pub fn build(self) -> (r: Result<Options, OllamaError>)
        ensures
            match r {
                Ok(o) => o@ == self@ && options_wf(self@),
                Err(e) => !options_wf(self@) && e@ matches ErrorV::InvalidParameter(_),
            },
    {
        if !check_lit(&self.mirostat_eta) {
            return Err(invalid_literal("mirostat_eta"));
        }
        if !check_lit(&self.mirostat_tau) {
            return Err(invalid_literal("mirostat_tau"));
        }
        if !check_lit(&self.repeat_penalty) {
            return Err(invalid_literal("repeat_penalty"));
        }
        if !check_lit(&self.tfs_z) {
            return Err(invalid_literal("tfs_z"));
        }
        if !check_lit(&self.top_p) {
            return Err(invalid_literal("top_p"));
        }
        Ok(
            Options {
                mirostat: self.mirostat,
                mirostat_eta: self.mirostat_eta,
                mirostat_tau: self.mirostat_tau,
                num_ctx: self.num_ctx,
                repeat_last_n: self.repeat_last_n,
                repeat_penalty: self.repeat_penalty,
                temperature: self.temperature,
                seed: self.seed,
                stop: self.stop,
                tfs_z: self.tfs_z,
                num_predict: self.num_predict,
                top_k: self.top_k,
                top_p: self.top_p,
            },
        )
    }
}

/// True when the option is unset or holds a complete JSON number literal.
fn check_lit(v: &Option<String>) -> (b: bool)
    ensures
        b == (opt_str_view(*v) matches Some(l) ==> spec_is_number_lit(l)),
{
    match v {
        None => true,
        Some(s) => is_number_lit(s.as_str()),
    }
}

/// The error for one fractional option that is not a number literal.
fn invalid_literal(name: &str) -> (e: OllamaError)
    ensures
        e@ matches ErrorV::InvalidParameter(_),
{
    OllamaError::InvalidParameter(
        String::from_str(name).concat(" is not a JSON number literal"),
    )
}

} // verus!
