//! The executable JSON parser, proved to return exactly what the grammar in
//! [`crate::json`] says.

use vstd::prelude::*;

use crate::json::{
    elems_view, hex_val, is_hex_char, json_view, lemma_elems_view, lemma_members_view, members_view,
    spec_digits_end, spec_hex4, spec_json_doc, spec_parse_escape, spec_parse_items,
    spec_parse_members, spec_parse_number, spec_parse_string_body, spec_parse_value, spec_skip_ws,
    Json, JsonV, JSON_MAX_DEPTH,
};
use crate::text::{is_digit, is_digit_char};

verus! {

broadcast use vstd::seq::group_seq_axioms, vstd::std_specs::vec::group_vec_axioms;

/// The parser result mirrors the grammar result.
pub open spec fn val_matches(r: Option<(Json, usize)>, sr: Option<(JsonV, int)>) -> bool {
    match r {
        Some((v, j)) => sr == Some((json_view(v), j as int)),
        None => sr is None,
    }
}

/// The scanned text mirrors the grammar result.
pub open spec fn str_matches(r: Option<(Vec<char>, usize)>, sr: Option<(Seq<char>, int)>) -> bool {
    match r {
        Some((cs, j)) => sr == Some((cs@, j as int)),
        None => sr is None,
    }
}

/// The element list mirrors the grammar result.
pub open spec fn items_matches(r: Option<(Vec<Json>, usize)>, sr: Option<(Seq<JsonV>, int)>) -> bool {
    match r {
        Some((vs, j)) => sr == Some((elems_view(vs@), j as int)),
        None => sr is None,
    }
}

/// The member list mirrors the grammar result.
pub open spec fn members_matches(
    r: Option<(Vec<(Vec<char>, Json)>, usize)>,
    sr: Option<(Seq<(Seq<char>, JsonV)>, int)>,
) -> bool {
    match r {
        Some((ms, j)) => sr == Some((members_view(ms@), j as int)),
        None => sr is None,
    }
}

/// Advances past insignificant whitespace.
pub fn skip_ws(s: &Vec<char>, i: usize) -> (j: usize)
    requires
        i <= s@.len(),
    ensures
        j as int == spec_skip_ws(s@, i as int),
        i <= j <= s@.len(),
{
    let mut j = i;
    while j < s.len() && (s[j] == ' ' || s[j] == '\t' || s[j] == '\n' || s[j] == '\r')
        invariant
            i <= j <= s@.len(),
            spec_skip_ws(s@, i as int) == spec_skip_ws(s@, j as int),
        decreases s@.len() - j,
    {
        j = j + 1;
    }
    j
}

/// Advances past decimal digits.
fn digits_end(s: &Vec<char>, i: usize) -> (j: usize)
    requires
        i <= s@.len(),
    ensures
        j as int == spec_digits_end(s@, i as int),
        i <= j <= s@.len(),
{
    let mut j = i;
    while j < s.len() && is_digit(s[j])
        invariant
            i <= j <= s@.len(),
            spec_digits_end(s@, i as int) == spec_digits_end(s@, j as int),
        decreases s@.len() - j,
    {
        j = j + 1;
    }
    j
}

/// Copies the characters of the range `from..to`.
fn copy_range(s: &Vec<char>, from: usize, to: usize) -> (v: Vec<char>)
    requires
        from <= to <= s@.len(),
    ensures
        v@ == s@.subrange(from as int, to as int),
{
    let mut v: Vec<char> = Vec::new();
    let mut i = from;
    while i < to
        invariant
            from <= i <= to <= s@.len(),
            v@ == s@.subrange(from as int, i as int),
        decreases to - i,
    {
        v.push(s[i]);
        proof {
            assert(v@ =~= s@.subrange(from as int, i + 1 as int));
        }
        i = i + 1;
    }
    v
}

/// Reads the four hexadecimal digits at `i`.
fn hex4(s: &Vec<char>, i: usize) -> (r: Option<u32>)
    requires
        i <= s@.len(),
    ensures
        match r {
            Some(u) => spec_hex4(s@, i as int) == Some(u as int) && u <= 0xFFFF,
            None => spec_hex4(s@, i as int) is None,
        },
{
    if s.len() - i < 4 {
        return None;
    }
    let d0 = match hex_digit(s[i]) {
        Some(d) => d,
        None => {
            return None;
        },
    };
    let d1 = match hex_digit(s[i + 1]) {
        Some(d) => d,
        None => {
            return None;
        },
    };
    let d2 = match hex_digit(s[i + 2]) {
        Some(d) => d,
        None => {
            return None;
        },
    };
    let d3 = match hex_digit(s[i + 3]) {
        Some(d) => d,
        None => {
            return None;
        },
    };
    Some(d0 * 4096 + d1 * 256 + d2 * 16 + d3)
}

/// The value of one hexadecimal digit character.
fn hex_digit(c: char) -> (r: Option<u32>)
    ensures
        match r {
            Some(d) => is_hex_char(c) && d as int == hex_val(c) && d < 16,
            None => !is_hex_char(c),
        },
{
    let u = c as u32;
    if 48 <= u && u <= 57 {
        Some(u - 48)
    } else if 97 <= u && u <= 102 {
        Some(u - 87)
    } else if 65 <= u && u <= 70 {
        Some(u - 55)
    } else {
        None
    }
}

/// Reads one escape sequence; `i` is the position right after the backslash.
fn parse_escape(s: &Vec<char>, i: usize) -> (r: Option<(char, usize)>)
    requires
        i <= s@.len(),
    ensures
        match r {
            Some((c, j)) => spec_parse_escape(s@, i as int) == Some((c, j as int)) && i < j
                <= s@.len(),
            None => spec_parse_escape(s@, i as int) is None,
        },
{
    if i >= s.len() {
        return None;
    }
    let c = s[i];
    if c == '"' {
        Some(('"', i + 1))
    } else if c == '\\' {
        Some(('\\', i + 1))
    } else if c == '/' {
        Some(('/', i + 1))
    } else if c == 'b' {
        Some(('\u{0008}', i + 1))
    } else if c == 'f' {
        Some(('\u{000C}', i + 1))
    } else if c == 'n' {
        Some(('\n', i + 1))
    } else if c == 'r' {
        Some(('\r', i + 1))
    } else if c == 't' {
        Some(('\t', i + 1))
    } else if c == 'u' {
        match hex4(s, i + 1) {
            Some(u) => {
                if 0xD800 <= u && u < 0xDC00 {
                    if s.len() - i >= 7 && s[i + 5] == '\\' && s[i + 6] == 'u' {
                        match hex4(s, i + 7) {
                            Some(lo) => {
                                if 0xDC00 <= lo && lo < 0xE000 {
                                    let cp: u32 = 0x10000 + (u - 0xD800) * 0x400 + (lo - 0xDC00);
                                    match crate::text::char_from_u32(cp) {
                                        Some(ch) => Some((ch, i + 11)),
                                        None => {
                                            proof {
                                                assert(false);
                                            }
                                            None
                                        },
                                    }
                                } else {
                                    None
                                }
                            },
                            None => None,
                        }
                    } else {
                        None
                    }
                } else if 0xDC00 <= u && u < 0xE000 {
                    None
                } else {
                    match crate::text::char_from_u32(u) {
                        Some(ch) => Some((ch, i + 5)),
                        None => {
                            proof {
                                assert(false);
                            }
                            None
                        },
                    }
                }
            },
            None => None,
        }
    } else {
        None
    }
}

/// Reads string content up to and past the closing quote; `i` is the
/// position right after the opening quote.
fn parse_string_body(s: &Vec<char>, i: usize) -> (r: Option<(Vec<char>, usize)>)
    requires
        i <= s@.len(),
    ensures
        match r {
            Some((cs, k)) => spec_parse_string_body(s@, i as int) == Some((cs@, k as int)) && i < k
                <= s@.len(),
            None => spec_parse_string_body(s@, i as int) is None,
        },
    decreases s@.len() - i,
{
    if i >= s.len() {
        return None;
    }
    let c = s[i];
    if c == '"' {
        let cs: Vec<char> = Vec::new();
        proof {
            assert(cs@ =~= Seq::<char>::empty());
        }
        Some((cs, i + 1))
    } else if c == '\\' {
        match parse_escape(s, i + 1) {
            Some((ec, j)) => {
                match parse_string_body(s, j) {
                    Some((rest, k)) => {
                        let mut rest = rest;
                        rest.insert(0, ec);
                        proof {
                            assert(rest@ =~= seq![ec] + rest@.subrange(1, rest@.len() as int));
                        }
                        Some((rest, k))
                    },
                    None => None,
                }
            },
            None => None,
        }
    } else if (c as u32) < 32 {
        None
    } else {
        match parse_string_body(s, i + 1) {
            Some((rest, k)) => {
                let mut rest = rest;
                rest.insert(0, c);
                proof {
                    assert(rest@ =~= seq![c] + rest@.subrange(1, rest@.len() as int));
                }
                Some((rest, k))
            },
            None => None,
        }
    }
}

/// Reads one number literal starting at `i`.
fn parse_number(s: &Vec<char>, i: usize) -> (r: Option<(Vec<char>, usize)>)
    requires
        i <= s@.len(),
    ensures
        match r {
            Some((cs, j)) => spec_parse_number(s@, i as int) == Some((cs@, j as int)) && i < j
                <= s@.len(),
            None => spec_parse_number(s@, i as int) is None,
        },
{
    let ia = if i < s.len() && s[i] == '-' {
        i + 1
    } else {
        i
    };
    if !(ia < s.len() && is_digit(s[ia])) {
        return None;
    }
    let ib = if s[ia] == '0' {
        ia + 1
    } else {
        let e = digits_end(s, ia + 1);
        proof {
            assert(spec_digits_end(s@, ia as int) == spec_digits_end(s@, ia + 1 as int));
        }
        e
    };
    let mut frac_ok = true;
    let mut ic = ib;
    if ib < s.len() && s[ib] == '.' {
        if ib + 1 < s.len() && is_digit(s[ib + 1]) {
            ic = digits_end(s, ib + 1);
        } else {
            frac_ok = false;
        }
    }
    if !frac_ok {
        return None;
    }
    let mut exp_ok = true;
    let mut id = ic;
    if ic < s.len() && (s[ic] == 'e' || s[ic] == 'E') {
        let ie = if ic + 1 < s.len() && (s[ic + 1] == '+' || s[ic + 1] == '-') {
            ic + 2
        } else {
            ic + 1
        };
        if ie < s.len() && is_digit(s[ie]) {
            id = digits_end(s, ie);
        } else {
            exp_ok = false;
        }
    }
    if !exp_ok {
        return None;
    }
    let lit = copy_range(s, i, id);
    Some((lit, id))
}

/// A complete JSON number literal: the number grammar consumes the whole
/// sequence.
pub open spec fn spec_is_number_lit(s: Seq<char>) -> bool {
    spec_parse_number(s, 0) == Some((s, s.len() as int))
}

/// Checks that a string is one complete JSON number literal.
pub fn is_number_lit(s: &str) -> (b: bool)
    ensures
        b == spec_is_number_lit(s@),
{
    let cs = crate::text::str_to_chars(s);
    match parse_number(&cs, 0) {
        Some((lit, j)) => {
            proof {
                if j == cs@.len() {
                    assert(cs@.subrange(0, j as int) =~= s@);
                }
            }
            j == cs.len()
        },
        None => false,
    }
}

/// Reads one value starting at `i` with nesting budget `d`.
pub fn parse_value(s: &Vec<char>, i: usize, d: u32) -> (r: Option<(Json, usize)>)
    requires
        i <= s@.len(),
    ensures
        val_matches(r, spec_parse_value(s@, i as int, d as nat)),
        r matches Some((v, j)) ==> i < j <= s@.len(),
    decreases d, s@.len() - i, 0int,
{
    if i >= s.len() {
        return None;
    }
    let c = s[i];
    if c == 'n' {
        if s.len() - i >= 4 && s[i + 1] == 'u' && s[i + 2] == 'l' && s[i + 3] == 'l' {
            Some((Json::Null, i + 4))
        } else {
            None
        }
    } else if c == 't' {
        if s.len() - i >= 4 && s[i + 1] == 'r' && s[i + 2] == 'u' && s[i + 3] == 'e' {
            Some((Json::Bool(true), i + 4))
        } else {
            None
        }
    } else if c == 'f' {
        if s.len() - i >= 5 && s[i + 1] == 'a' && s[i + 2] == 'l' && s[i + 3] == 's' && s[i + 4]
            == 'e' {
            Some((Json::Bool(false), i + 5))
        } else {
            None
        }
    } else if c == '"' {
        match parse_string_body(s, i + 1) {
            Some((cs, j)) => Some((Json::Str(cs), j)),
            None => None,
        }
    } else if c == '-' || is_digit(c) {
        match parse_number(s, i) {
            Some((lit, j)) => Some((Json::Num(lit), j)),
            None => None,
        }
    } else if c == '[' {
        if d == 0 {
            return None;
        }
        let j = skip_ws(s, i + 1);
        if j < s.len() && s[j] == ']' {
            let vs: Vec<Json> = Vec::new();
            proof {
                assert(elems_view(vs@) =~= Seq::<JsonV>::empty());
            }
            Some((Json::Arr(vs), j + 1))
        } else {
            match parse_items(s, j, d - 1) {
                Some((vs, k)) => Some((Json::Arr(vs), k)),
                None => None,
            }
        }
    } else if c == '{' {
        if d == 0 {
            return None;
        }
        let j = skip_ws(s, i + 1);
        if j < s.len() && s[j] == '}' {
            let ms: Vec<(Vec<char>, Json)> = Vec::new();
            proof {
                assert(members_view(ms@) =~= Seq::<(Seq<char>, JsonV)>::empty());
            }
            Some((Json::Obj(ms), j + 1))
        } else {
            match parse_members(s, j, d - 1) {
                Some((ms, k)) => Some((Json::Obj(ms), k)),
                None => None,
            }
        }
    } else {
        None
    }
}

/// Reads array elements up to and past the closing bracket.
fn parse_items(s: &Vec<char>, i: usize, d: u32) -> (r: Option<(Vec<Json>, usize)>)
    requires
        i <= s@.len(),
    ensures
        items_matches(r, spec_parse_items(s@, i as int, d as nat)),
        r matches Some((vs, j)) ==> i < j <= s@.len(),
    decreases d, s@.len() - i, 1int,
{
    match parse_value(s, i, d) {
        Some((v, j)) => {
            let k = skip_ws(s, j);
            if k < s.len() && s[k] == ',' {
                let m = skip_ws(s, k + 1);
                match parse_items(s, m, d) {
                    Some((rest, e)) => {
                        let mut rest = rest;
                        let ghost rest0 = rest@;
                        rest.insert(0, v);
                        proof {
                            lemma_elems_view(rest@);
                            lemma_elems_view(rest0);
                            assert(elems_view(rest@) =~= seq![json_view(v)] + elems_view(rest0));
                        }
                        Some((rest, e))
                    },
                    None => None,
                }
            } else if k < s.len() && s[k] == ']' {
                let mut vs: Vec<Json> = Vec::new();
                vs.push(v);
                proof {
                    lemma_elems_view(vs@);
                    assert(elems_view(vs@) =~= seq![json_view(v)]);
                }
                Some((vs, k + 1))
            } else {
                None
            }
        },
        None => None,
    }
}

/// Reads object members up to and past the closing brace; `i` is at the
/// opening quote of the first key.
fn parse_members(s: &Vec<char>, i: usize, d: u32) -> (r: Option<(Vec<(Vec<char>, Json)>, usize)>)
    requires
        i <= s@.len(),
    ensures
        members_matches(r, spec_parse_members(s@, i as int, d as nat)),
        r matches Some((ms, j)) ==> i < j <= s@.len(),
    decreases d, s@.len() - i, 1int,
{
    if !(i < s.len() && s[i] == '"') {
        return None;
    }
    match parse_string_body(s, i + 1) {
        Some((key, j)) => {
            let c = skip_ws(s, j);
            if c < s.len() && s[c] == ':' {
                let v0 = skip_ws(s, c + 1);
                match parse_value(s, v0, d) {
                    Some((v, k)) => {
                        let e = skip_ws(s, k);
                        if e < s.len() && s[e] == ',' {
                            let m = skip_ws(s, e + 1);
                            match parse_members(s, m, d) {
                                Some((rest, f)) => {
                                    let mut rest = rest;
                                    let ghost rest0 = rest@;
                                    let ghost keyv = key@;
                                    let ghost vv = json_view(v);
                                    rest.insert(0, (key, v));
                                    proof {
                                        lemma_members_view(rest@);
                                        lemma_members_view(rest0);
                                        assert(members_view(rest@) =~= seq![(keyv, vv)]
                                            + members_view(rest0));
                                    }
                                    Some((rest, f))
                                },
                                None => None,
                            }
                        } else if e < s.len() && s[e] == '}' {
                            let ghost keyv = key@;
                            let ghost vv = json_view(v);
                            let mut ms: Vec<(Vec<char>, Json)> = Vec::new();
                            ms.push((key, v));
                            proof {
                                lemma_members_view(ms@);
                                assert(members_view(ms@) =~= seq![(keyv, vv)]);
                            }
                            Some((ms, e + 1))
                        } else {
                            None
                        }
                    },
                    None => None,
                }
            } else {
                None
            }
        },
        None => None,
    }
}

/// Parses one wire document: optional whitespace, one value, optional
/// whitespace, end of input.
pub fn parse_json(s: &Vec<char>) -> (r: Option<Json>)
    ensures
        match r {
            Some(v) => spec_json_doc(s@) == Some(json_view(v)),
            None => spec_json_doc(s@) is None,
        },
{
    let i = skip_ws(s, 0);
    match parse_value(s, i, JSON_MAX_DEPTH) {
        Some((v, j)) => {
            let e = skip_ws(s, j);
            if e == s.len() {
                Some(v)
            } else {
                None
            }
        },
        None => None,
    }
}

} // verus!
