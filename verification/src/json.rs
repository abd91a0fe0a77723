//! The JSON value model and the grammar of the wire format.
//!
//! The server speaks JSON: one document per response body in single-object
//! mode, one document per line in streaming mode.  [`spec_json_doc`] is the
//! grammar, written as a recursive descent over a character sequence; the
//! executable parser in [`crate::parser`] is proved to return exactly what
//! the grammar says.  Nesting is bounded by [`JSON_MAX_DEPTH`], as is common
//! for JSON decoders.

use vstd::prelude::*;

use crate::text::is_digit_char;

verus! {

broadcast use vstd::seq::group_seq_axioms, vstd::std_specs::vec::group_vec_axioms;

/// Deepest nesting of arrays and objects that a document may use.
pub const JSON_MAX_DEPTH: u32 = 128;

/// Mathematical model of a JSON value.  Strings hold their decoded character
/// content; numbers hold their literal text as written on the wire.
pub enum JsonV {
    Null,
    Bool(bool),
    Num(Seq<char>),
    Str(Seq<char>),
    Arr(Seq<JsonV>),
    Obj(Seq<(Seq<char>, JsonV)>),
}

/// A decoded JSON value.  Object members keep their wire order; duplicate
/// keys are kept as read.
#[derive(Debug)]
pub enum Json {
    Null,
    Bool(bool),
    Num(Vec<char>),
    Str(Vec<char>),
    Arr(Vec<Json>),
    Obj(Vec<(Vec<char>, Json)>),
}

/// The model of a decoded value.
pub open spec fn json_view(j: Json) -> JsonV
    decreases j,
{
    match j {
        Json::Null => JsonV::Null,
        Json::Bool(b) => JsonV::Bool(b),
        Json::Num(cs) => JsonV::Num(cs@),
        Json::Str(cs) => JsonV::Str(cs@),
        Json::Arr(v) => JsonV::Arr(elems_view(v@)),
        Json::Obj(v) => JsonV::Obj(members_view(v@)),
    }
}

/// The model of a sequence of array elements.
pub open spec fn elems_view(s: Seq<Json>) -> Seq<JsonV>
    decreases s,
{
    if s.len() == 0 {
        Seq::empty()
    } else {
        elems_view(s.drop_last()).push(json_view(s.last()))
    }
}

/// The model of a sequence of object members.
pub open spec fn members_view(s: Seq<(Vec<char>, Json)>) -> Seq<(Seq<char>, JsonV)>
    decreases s,
{
    if s.len() == 0 {
        Seq::empty()
    } else {
        members_view(s.drop_last()).push((s.last().0@, json_view(s.last().1)))
    }
}

impl View for Json {
    type V = JsonV;

    open spec fn view(&self) -> JsonV {
        json_view(*self)
    }
}

/// Element models are the models of the elements, in order.
pub proof fn lemma_elems_view(s: Seq<Json>)
    ensures
        elems_view(s).len() == s.len(),
        forall|i: int| 0 <= i < s.len() ==> elems_view(s)[i] == json_view(s[i]),
    decreases s.len(),
{
    if s.len() > 0 {
        lemma_elems_view(s.drop_last());
    }
}

/// Member models are the models of the members, in order.
pub proof fn lemma_members_view(s: Seq<(Vec<char>, Json)>)
    ensures
        members_view(s).len() == s.len(),
        forall|i: int|
            0 <= i < s.len() ==> members_view(s)[i] == (s[i].0@, json_view(s[i].1)),
    decreases s.len(),
{
    if s.len() > 0 {
        lemma_members_view(s.drop_last());
    }
}

/// JSON insignificant whitespace.
pub open spec fn is_ws(c: char) -> bool {
    c == ' ' || c == '\t' || c == '\n' || c == '\r'
}

/// Position of the first non-whitespace character at or after `i`.
pub open spec fn spec_skip_ws(s: Seq<char>, i: int) -> int
    decreases s.len() - i,
{
    if 0 <= i < s.len() && is_ws(s[i]) {
        spec_skip_ws(s, i + 1)
    } else {
        i
    }
}

/// A hexadecimal digit.
pub open spec fn is_hex_char(c: char) -> bool {
    is_digit_char(c) || (97 <= c as u32 <= 102) || (65 <= c as u32 <= 70)
}

/// The value of a hexadecimal digit character.
pub open spec fn hex_val(c: char) -> int {
    if is_digit_char(c) {
        c as u32 - 48
    } else if 97 <= c as u32 <= 102 {
        c as u32 - 87
    } else {
        c as u32 - 55
    }
}

/// The value of the four hexadecimal digits at `i`, if they are there.
pub open spec fn spec_hex4(s: Seq<char>, i: int) -> Option<int> {
    if 0 <= i && i + 4 <= s.len() && is_hex_char(s[i]) && is_hex_char(s[i + 1]) && is_hex_char(
        s[i + 2],
    ) && is_hex_char(s[i + 3]) {
        Some(hex_val(s[i]) * 4096 + hex_val(s[i + 1]) * 256 + hex_val(s[i + 2]) * 16 + hex_val(
            s[i + 3],
        ))
    } else {
        None
    }
}

/// The character denoted by an escape sequence starting right after the
/// backslash at `i - 1`, and the position after the sequence.  A `\u` escape
/// carrying a high surrogate must be followed by a `\u` escape carrying a low
/// surrogate; a lone surrogate denotes no character.
pub open spec fn spec_parse_escape(s: Seq<char>, i: int) -> Option<(char, int)> {
    if i < 0 || i >= s.len() {
        None
    } else if s[i] == '"' {
        Some(('"', i + 1))
    } else if s[i] == '\\' {
        Some(('\\', i + 1))
    } else if s[i] == '/' {
        Some(('/', i + 1))
    } else if s[i] == 'b' {
        Some(('\u{0008}', i + 1))
    } else if s[i] == 'f' {
        Some(('\u{000C}', i + 1))
    } else if s[i] == 'n' {
        Some(('\n', i + 1))
    } else if s[i] == 'r' {
        Some(('\r', i + 1))
    } else if s[i] == 't' {
        Some(('\t', i + 1))
    } else if s[i] == 'u' {
        match spec_hex4(s, i + 1) {
            Some(u) => if 0xD800 <= u < 0xDC00 {
                if i + 7 <= s.len() && s[i + 5] == '\\' && s[i + 6] == 'u' {
                    match spec_hex4(s, i + 7) {
                        Some(lo) => if 0xDC00 <= lo < 0xE000 {
                            Some(
                                (
                                    (((0x10000 + (u - 0xD800) * 0x400 + (lo - 0xDC00)) as u32)
                                        as char),
                                    i + 11,
                                ),
                            )
                        } else {
                            None
                        },
                        None => None,
                    }
                } else {
                    None
                }
            } else if 0xDC00 <= u < 0xE000 {
                None
            } else {
                Some(((u as u32) as char, i + 5))
            },
            None => None,
        }
    } else {
        None
    }
}

/// Content of a string from position `i` (right after the opening quote) to
/// its closing quote, and the position after the closing quote.  Unescaped
/// control characters are not allowed.
pub open spec fn spec_parse_string_body(s: Seq<char>, i: int) -> Option<(Seq<char>, int)>
    decreases s.len() - i,
{
    if i < 0 || i >= s.len() {
        None
    } else if s[i] == '"' {
        Some((Seq::empty(), i + 1))
    } else if s[i] == '\\' {
        match spec_parse_escape(s, i + 1) {
            Some((c, j)) => if i + 1 < j <= s.len() {
                match spec_parse_string_body(s, j) {
                    Some((rest, k)) => Some((seq![c] + rest, k)),
                    None => None,
                }
            } else {
                None
            },
            None => None,
        }
    } else if (s[i] as u32) < 32 {
        None
    } else {
        match spec_parse_string_body(s, i + 1) {
            Some((rest, k)) => Some((seq![s[i]] + rest, k)),
            None => None,
        }
    }
}

/// Position of the first non-digit character at or after `i`.
pub open spec fn spec_digits_end(s: Seq<char>, i: int) -> int
    decreases s.len() - i,
{
    if 0 <= i < s.len() && is_digit_char(s[i]) {
        spec_digits_end(s, i + 1)
    } else {
        i
    }
}

/// The literal text of the number starting at `i` — optional minus, integer
/// part without a superfluous leading zero, optional fraction, optional
/// exponent — and the position after it.
pub open spec fn spec_parse_number(s: Seq<char>, i: int) -> Option<(Seq<char>, int)> {
    if i < 0 {
        None
    } else {
        let ia = if i < s.len() && s[i] == '-' {
            i + 1
        } else {
            i
        };
        if !(ia < s.len() && is_digit_char(s[ia])) {
            None
        } else {
            let ib = if s[ia] == '0' {
                ia + 1
            } else {
                spec_digits_end(s, ia)
            };
            let ic = if ib < s.len() && s[ib] == '.' {
                if ib + 1 < s.len() && is_digit_char(s[ib + 1]) {
                    spec_digits_end(s, ib + 1)
                } else {
                    -1
                }
            } else {
                ib
            };
            if ic < 0 {
                None
            } else {
                let id = if ic < s.len() && (s[ic] == 'e' || s[ic] == 'E') {
                    let ie = if ic + 1 < s.len() && (s[ic + 1] == '+' || s[ic + 1] == '-') {
                        ic + 2
                    } else {
                        ic + 1
                    };
                    if ie < s.len() && is_digit_char(s[ie]) {
                        spec_digits_end(s, ie)
                    } else {
                        -1
                    }
                } else {
                    ic
                };
                if id < 0 {
                    None
                } else {
                    Some((s.subrange(i, id), id))
                }
            }
        }
    }
}

/// The value starting at `i` with nesting budget `d`, and the position after
/// it.  `d` counts the arrays and objects that may still be opened.
pub open spec fn spec_parse_value(s: Seq<char>, i: int, d: nat) -> Option<(JsonV, int)>
    decreases d, s.len() - i, 0int,
{
    if i < 0 || i >= s.len() {
        None
    } else if s[i] == 'n' {
        if i + 4 <= s.len() && s[i + 1] == 'u' && s[i + 2] == 'l' && s[i + 3] == 'l' {
            Some((JsonV::Null, i + 4))
        } else {
            None
        }
    } else if s[i] == 't' {
        if i + 4 <= s.len() && s[i + 1] == 'r' && s[i + 2] == 'u' && s[i + 3] == 'e' {
            Some((JsonV::Bool(true), i + 4))
        } else {
            None
        }
    } else if s[i] == 'f' {
        if i + 5 <= s.len() && s[i + 1] == 'a' && s[i + 2] == 'l' && s[i + 3] == 's' && s[i + 4]
            == 'e' {
            Some((JsonV::Bool(false), i + 5))
        } else {
            None
        }
    } else if s[i] == '"' {
        match spec_parse_string_body(s, i + 1) {
            Some((cs, j)) => Some((JsonV::Str(cs), j)),
            None => None,
        }
    } else if s[i] == '-' || is_digit_char(s[i]) {
        match spec_parse_number(s, i) {
            Some((lit, j)) => Some((JsonV::Num(lit), j)),
            None => None,
        }
    } else if s[i] == '[' {
        if d == 0 {
            None
        } else {
            let j = spec_skip_ws(s, i + 1);
            if j < s.len() && s[j] == ']' {
                Some((JsonV::Arr(Seq::empty()), j + 1))
            } else if i < j <= s.len() {
                match spec_parse_items(s, j, (d - 1) as nat) {
                    Some((vs, k)) => Some((JsonV::Arr(vs), k)),
                    None => None,
                }
            } else {
                None
            }
        }
    } else if s[i] == '{' {
        if d == 0 {
            None
        } else {
            let j = spec_skip_ws(s, i + 1);
            if j < s.len() && s[j] == '}' {
                Some((JsonV::Obj(Seq::empty()), j + 1))
            } else if i < j <= s.len() {
                match spec_parse_members(s, j, (d - 1) as nat) {
                    Some((ms, k)) => Some((JsonV::Obj(ms), k)),
                    None => None,
                }
            } else {
                None
            }
        }
    } else {
        None
    }
}

/// The comma-separated array elements starting at `i`, up to and including
/// the closing bracket.
pub open spec fn spec_parse_items(s: Seq<char>, i: int, d: nat) -> Option<(Seq<JsonV>, int)>
    decreases d, s.len() - i, 1int,
{
    if i < 0 || i > s.len() {
        None
    } else {
        match spec_parse_value(s, i, d) {
            Some((v, j)) => if i < j <= s.len() {
                let k = spec_skip_ws(s, j);
                if k < s.len() && s[k] == ',' {
                    let m = spec_skip_ws(s, k + 1);
                    if i < m <= s.len() {
                        match spec_parse_items(s, m, d) {
                            Some((rest, e)) => Some((seq![v] + rest, e)),
                            None => None,
                        }
                    } else {
                        None
                    }
                } else if k < s.len() && s[k] == ']' {
                    Some((seq![v], k + 1))
                } else {
                    None
                }
            } else {
                None
            },
            None => None,
        }
    }
}

/// The comma-separated object members starting at `i` (at the opening quote
/// of a key), up to and including the closing brace.
pub open spec fn spec_parse_members(s: Seq<char>, i: int, d: nat) -> Option<
    (Seq<(Seq<char>, JsonV)>, int),
>
    decreases d, s.len() - i, 1int,
{
    if !(0 <= i < s.len() && s[i] == '"') {
        None
    } else {
        match spec_parse_string_body(s, i + 1) {
            Some((key, j)) => if i + 1 < j <= s.len() {
                let c = spec_skip_ws(s, j);
                if c < s.len() && s[c] == ':' {
                    let v0 = spec_skip_ws(s, c + 1);
                    if i < v0 <= s.len() {
                        match spec_parse_value(s, v0, d) {
                            Some((v, k)) => if v0 < k <= s.len() {
                                let e = spec_skip_ws(s, k);
                                if e < s.len() && s[e] == ',' {
                                    let m = spec_skip_ws(s, e + 1);
                                    if i < m <= s.len() {
                                        match spec_parse_members(s, m, d) {
                                            Some((rest, f)) => Some(
                                                (seq![(key, v)] + rest, f),
                                            ),
                                            None => None,
                                        }
                                    } else {
                                        None
                                    }
                                } else if e < s.len() && s[e] == '}' {
                                    Some((seq![(key, v)], e + 1))
                                } else {
                                    None
                                }
                            } else {
                                None
                            },
                            None => None,
                        }
                    } else {
                        None
                    }
                } else {
                    None
                }
            } else {
                None
            },
            None => None,
        }
    }
}

/// The grammar of one wire document: optional whitespace, one value, optional
/// whitespace, end of input.
pub open spec fn spec_json_doc(s: Seq<char>) -> Option<JsonV> {
    let i = spec_skip_ws(s, 0);
    if 0 <= i <= s.len() {
        match spec_parse_value(s, i, JSON_MAX_DEPTH as nat) {
            Some((v, j)) => if 0 <= j <= s.len() && spec_skip_ws(s, j) == s.len() {
                Some(v)
            } else {
                None
            },
            None => None,
        }
    } else {
        None
    }
}

} // verus!
