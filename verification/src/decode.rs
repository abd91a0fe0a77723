//! Typed field extraction from decoded JSON objects.
//!
//! The response types of this crate are read from JSON objects: a required
//! field must be present exactly once with the right shape, an optional field
//! may be absent or `null`, a field name seen twice is a decode failure, and
//! unknown fields are ignored.

use vstd::prelude::*;

use crate::json::{elems_view, json_view, lemma_elems_view, lemma_members_view, members_view, Json, JsonV};
use crate::text::{all_digits, chars_to_usize, digits_val, is_digit, string_from_chars};

verus! {

broadcast use vstd::seq::group_seq_axioms, vstd::std_specs::vec::group_vec_axioms;

/// How many members of the object carry this name.
pub open spec fn field_count(fs: Seq<(Seq<char>, JsonV)>, name: Seq<char>) -> nat
    decreases fs.len(),
{
    if fs.len() == 0 {
        0
    } else {
        field_count(fs.drop_last(), name) + if fs.last().0 == name {
            1nat
        } else {
            0nat
        }
    }
}

/// The value of the first member with this name.
pub open spec fn get_field(fs: Seq<(Seq<char>, JsonV)>, name: Seq<char>) -> Option<JsonV>
    decreases fs.len(),
{
    if fs.len() == 0 {
        None
    } else {
        match get_field(fs.drop_last(), name) {
            Some(v) => Some(v),
            None => if fs.last().0 == name {
                Some(fs.last().1)
            } else {
                None
            },
        }
    }
}

/// A required string field: present exactly once, a string.
pub open spec fn spec_req_str(fs: Seq<(Seq<char>, JsonV)>, name: Seq<char>) -> Option<Seq<char>> {
    if field_count(fs, name) == 1 {
        match get_field(fs, name) {
            Some(JsonV::Str(cs)) => Some(cs),
            _ => None,
        }
    } else {
        None
    }
}

/// A required boolean field: present exactly once, a boolean.
pub open spec fn spec_req_bool(fs: Seq<(Seq<char>, JsonV)>, name: Seq<char>) -> Option<bool> {
    if field_count(fs, name) == 1 {
        match get_field(fs, name) {
            Some(JsonV::Bool(b)) => Some(b),
            _ => None,
        }
    } else {
        None
    }
}

/// An optional string field: absent or `null` reads as nothing; a string
/// reads as itself; anything else is a decode failure.
pub open spec fn spec_opt_str(fs: Seq<(Seq<char>, JsonV)>, name: Seq<char>) -> Option<
    Option<Seq<char>>,
> {
    if field_count(fs, name) == 0 {
        Some(None)
    } else if field_count(fs, name) == 1 {
        match get_field(fs, name) {
            Some(JsonV::Null) => Some(None),
            Some(JsonV::Str(cs)) => Some(Some(cs)),
            _ => None,
        }
    } else {
        None
    }
}

/// The value of a number literal that denotes an unsigned integer fitting in
/// `usize`, if it does.
pub open spec fn spec_usize_lit(lit: Seq<char>) -> Option<usize> {
    if lit.len() > 0 && all_digits(lit) && digits_val(lit) <= usize::MAX {
        Some(digits_val(lit) as usize)
    } else {
        None
    }
}

/// An optional unsigned integer field: absent or `null` reads as nothing; a
/// plain unsigned integer literal reads as its value; anything else —
/// including a fraction, an exponent, a sign, or a value out of range — is a
/// decode failure.
pub open spec fn spec_opt_usize(fs: Seq<(Seq<char>, JsonV)>, name: Seq<char>) -> Option<
    Option<usize>,
> {
    if field_count(fs, name) == 0 {
        Some(None)
    } else if field_count(fs, name) == 1 {
        match get_field(fs, name) {
            Some(JsonV::Null) => Some(None),
            Some(JsonV::Num(lit)) => match spec_usize_lit(lit) {
                Some(n) => Some(Some(n)),
                None => None,
            },
            _ => None,
        }
    } else {
        None
    }
}

/// The values of an array of unsigned integer literals, if every element is
/// one.
pub open spec fn spec_usize_items(items: Seq<JsonV>) -> Option<Seq<usize>>
    decreases items.len(),
{
    if items.len() == 0 {
        Some(Seq::empty())
    } else {
        match spec_usize_items(items.drop_last()) {
            Some(pre) => match items.last() {
                JsonV::Num(lit) => match spec_usize_lit(lit) {
                    Some(n) => Some(pre.push(n)),
                    None => None,
                },
                _ => None,
            },
            None => None,
        }
    }
}

/// The contents of an array of strings, if every element is a string.
pub open spec fn spec_str_items(items: Seq<JsonV>) -> Option<Seq<Seq<char>>>
    decreases items.len(),
{
    if items.len() == 0 {
        Some(Seq::empty())
    } else {
        match spec_str_items(items.drop_last()) {
            Some(pre) => match items.last() {
                JsonV::Str(cs) => Some(pre.push(cs)),
                _ => None,
            },
            None => None,
        }
    }
}

/// An optional array-of-unsigned-integers field.
pub open spec fn spec_opt_usize_list(fs: Seq<(Seq<char>, JsonV)>, name: Seq<char>) -> Option<
    Option<Seq<usize>>,
> {
    if field_count(fs, name) == 0 {
        Some(None)
    } else if field_count(fs, name) == 1 {
        match get_field(fs, name) {
            Some(JsonV::Null) => Some(None),
            Some(JsonV::Arr(items)) => match spec_usize_items(items) {
                Some(ns) => Some(Some(ns)),
                None => None,
            },
            _ => None,
        }
    } else {
        None
    }
}

/// An optional array-of-strings field.
pub open spec fn spec_opt_str_list(fs: Seq<(Seq<char>, JsonV)>, name: Seq<char>) -> Option<
    Option<Seq<Seq<char>>>,
> {
    if field_count(fs, name) == 0 {
        Some(None)
    } else if field_count(fs, name) == 1 {
        match get_field(fs, name) {
            Some(JsonV::Null) => Some(None),
            Some(JsonV::Arr(items)) => match spec_str_items(items) {
                Some(cs) => Some(Some(cs)),
                _ => None,
            },
            _ => None,
        }
    } else {
        None
    }
}

/// Finds a field by name: how often it occurs, and the index of its first
/// occurrence.
pub fn find_field(fs: &Vec<(Vec<char>, Json)>, name: &str) -> (r: (usize, Option<usize>))
    ensures
        r.0 as nat == field_count(members_view(fs@), name@),
        match r.1 {
            Some(ix) => ix < fs@.len() && get_field(members_view(fs@), name@) == Some(
                json_view(fs@[ix as int].1),
            ),
            None => get_field(members_view(fs@), name@) is None && r.0 == 0,
        },
{
    let ghost mv = members_view(fs@);
    proof {
        lemma_members_view(fs@);
    }
    let mut cnt: usize = 0;
    let mut first: Option<usize> = None;
    let mut i: usize = 0;
    while i < fs.len()
        invariant
            i <= fs@.len(),
            mv == members_view(fs@),
            mv.len() == fs@.len(),
            forall|j: int| 0 <= j < fs@.len() ==> #[trigger] mv[j] == (fs@[j].0@, json_view(fs@[j].1)),
            cnt as nat == field_count(mv.subrange(0, i as int), name@),
            cnt <= i,
            match first {
                Some(ix) => ix < i && get_field(mv.subrange(0, i as int), name@) == Some(
                    json_view(fs@[ix as int].1),
                ),
                None => get_field(mv.subrange(0, i as int), name@) is None && cnt == 0,
            },
        decreases fs@.len() - i,
    {
        proof {
            assert(mv.subrange(0, i + 1 as int).drop_last() =~= mv.subrange(0, i as int));
        }
        if crate::text::chars_eq_str(&fs[i].0, name) {
            cnt = cnt + 1;
            if first.is_none() {
                first = Some(i);
            }
        }
        i = i + 1;
    }
    proof {
        assert(mv.subrange(0, fs@.len() as int) =~= mv);
    }
    (cnt, first)
}

/// Exec test that a literal is all decimal digits.
pub fn is_all_digits(v: &Vec<char>) -> (b: bool)
    ensures
        b == all_digits(v@),
{
    let mut i: usize = 0;
    while i < v.len()
        invariant
            i <= v@.len(),
            forall|j: int| 0 <= j < i ==> crate::text::is_digit_char(#[trigger] v@[j]),
        decreases v@.len() - i,
    {
        if !is_digit(v[i]) {
            return false;
        }
        i = i + 1;
    }
    true
}

/// Reads the value of an unsigned integer literal.
pub fn usize_lit(lit: &Vec<char>) -> (r: Option<usize>)
    ensures
        r == spec_usize_lit(lit@),
{
    if lit.len() == 0 {
        return None;
    }
    if !is_all_digits(lit) {
        return None;
    }
    proof {
        assert(lit@.subrange(0, lit@.len() as int) =~= lit@);
    }
    chars_to_usize(lit, 0, lit.len())
}

/// Reads an array of unsigned integer literals.
pub fn usize_items(items: &Vec<Json>) -> (r: Option<Vec<usize>>)
    ensures
        match r {
            Some(ns) => spec_usize_items(elems_view(items@)) == Some(ns@),
            None => spec_usize_items(elems_view(items@)) is None,
        },
{
    let ghost ev = elems_view(items@);
    proof {
        lemma_elems_view(items@);
    }
    let mut out: Vec<usize> = Vec::new();
    let mut i: usize = 0;
    while i < items.len()
        invariant
            i <= items@.len(),
            ev == elems_view(items@),
            ev.len() == items@.len(),
            forall|j: int| 0 <= j < items@.len() ==> #[trigger] ev[j] == json_view(items@[j]),
            spec_usize_items(ev.subrange(0, i as int)) == Some(out@),
        decreases items@.len() - i,
    {
        proof {
            assert(ev.subrange(0, i + 1 as int).drop_last() =~= ev.subrange(0, i as int));
        }
        match &items[i] {
            Json::Num(lit) => {
                match usize_lit(lit) {
                    Some(n) => {
                        out.push(n);
                    },
                    None => {
                        proof {
                            lemma_usize_items_extend_fail(ev, i + 1 as int);
                        }
                        return None;
                    },
                }
            },
            _ => {
                proof {
                    lemma_usize_items_extend_fail(ev, i + 1 as int);
                }
                return None;
            },
        }
        i = i + 1;
    }
    proof {
        assert(ev.subrange(0, items@.len() as int) =~= ev);
    }
    Some(out)
}

/// Once a prefix fails to read as unsigned integers, the whole array fails.
proof fn lemma_usize_items_extend_fail(items: Seq<JsonV>, i: int)
    requires
        0 <= i <= items.len(),
        spec_usize_items(items.subrange(0, i)) is None,
    ensures
        spec_usize_items(items) is None,
    decreases items.len() - i,
{
    if i < items.len() {
        assert(items.subrange(0, i + 1).drop_last() =~= items.subrange(0, i));
        lemma_usize_items_extend_fail(items, i + 1);
    } else {
        assert(items.subrange(0, i) =~= items);
    }
}

/// Reads an array of strings.
pub fn str_items(items: &Vec<Json>) -> (r: Option<Vec<String>>)
    ensures
        match r {
            Some(ss) => spec_str_items(elems_view(items@)) == Some(ss.deep_view()),
            None => spec_str_items(elems_view(items@)) is None,
        },
{
    let ghost ev = elems_view(items@);
    proof {
        lemma_elems_view(items@);
    }
    let mut out: Vec<String> = Vec::new();
    let mut i: usize = 0;
    while i < items.len()
        invariant
            i <= items@.len(),
            ev == elems_view(items@),
            ev.len() == items@.len(),
            forall|j: int| 0 <= j < items@.len() ==> #[trigger] ev[j] == json_view(items@[j]),
            spec_str_items(ev.subrange(0, i as int)) == Some(out.deep_view()),
        decreases items@.len() - i,
    {
        proof {
            assert(ev.subrange(0, i + 1 as int).drop_last() =~= ev.subrange(0, i as int));
        }
        match &items[i] {
            Json::Str(cs) => {
                let s = string_from_chars(cs);
                let ghost out0 = out.deep_view();
                out.push(s);
                proof {
                    assert(out.deep_view() =~= out0.push(cs@));
                }
            },
            _ => {
                proof {
                    lemma_str_items_extend_fail(ev, i + 1 as int);
                }
                return None;
            },
        }
        i = i + 1;
    }
    proof {
        assert(ev.subrange(0, items@.len() as int) =~= ev);
    }
    Some(out)
}

/// Once a prefix fails to read as strings, the whole array fails.
proof fn lemma_str_items_extend_fail(items: Seq<JsonV>, i: int)
    requires
        0 <= i <= items.len(),
        spec_str_items(items.subrange(0, i)) is None,
    ensures
        spec_str_items(items) is None,
    decreases items.len() - i,
{
    if i < items.len() {
        assert(items.subrange(0, i + 1).drop_last() =~= items.subrange(0, i));
        lemma_str_items_extend_fail(items, i + 1);
    } else {
        assert(items.subrange(0, i) =~= items);
    }
}

/// Reads a required string field.
pub fn req_str_field(fs: &Vec<(Vec<char>, Json)>, name: &str) -> (r: Option<String>)
    ensures
        match r {
            Some(s) => spec_req_str(members_view(fs@), name@) == Some(s@),
            None => spec_req_str(members_view(fs@), name@) is None,
        },
{
    let (cnt, first) = find_field(fs, name);
    if cnt != 1 {
        return None;
    }
    match first {
        Some(ix) => match &fs[ix].1 {
            Json::Str(cs) => Some(string_from_chars(cs)),
            _ => None,
        },
        None => None,
    }
}

/// Reads a required boolean field.
pub fn req_bool_field(fs: &Vec<(Vec<char>, Json)>, name: &str) -> (r: Option<bool>)
    ensures
        match r {
            Some(b) => spec_req_bool(members_view(fs@), name@) == Some(b),
            None => spec_req_bool(members_view(fs@), name@) is None,
        },
{
    let (cnt, first) = find_field(fs, name);
    if cnt != 1 {
        return None;
    }
    match first {
        Some(ix) => match &fs[ix].1 {
            Json::Bool(b) => Some(*b),
            _ => None,
        },
        None => None,
    }
}

/// Reads an optional string field.
pub fn opt_str_field(fs: &Vec<(Vec<char>, Json)>, name: &str) -> (r: Option<Option<String>>)
    ensures
        match r {
            Some(None) => spec_opt_str(members_view(fs@), name@) == Some(None::<Seq<char>>),
            Some(Some(s)) => spec_opt_str(members_view(fs@), name@) == Some(Some(s@)),
            None => spec_opt_str(members_view(fs@), name@) is None,
        },
{
    let (cnt, first) = find_field(fs, name);
    if cnt == 0 {
        return Some(None);
    }
    if cnt != 1 {
        return None;
    }
    match first {
        Some(ix) => match &fs[ix].1 {
            Json::Null => Some(None),
            Json::Str(cs) => Some(Some(string_from_chars(cs))),
            _ => None,
        },
        None => None,
    }
}

/// Reads an optional unsigned integer field.
pub fn opt_usize_field(fs: &Vec<(Vec<char>, Json)>, name: &str) -> (r: Option<Option<usize>>)
    ensures
        match r {
            Some(v) => spec_opt_usize(members_view(fs@), name@) == Some(v),
            None => spec_opt_usize(members_view(fs@), name@) is None,
        },
{
    let (cnt, first) = find_field(fs, name);
    if cnt == 0 {
        return Some(None);
    }
    if cnt != 1 {
        return None;
    }
    match first {
        Some(ix) => match &fs[ix].1 {
            Json::Null => Some(None),
            Json::Num(lit) => match usize_lit(lit) {
                Some(n) => Some(Some(n)),
                None => None,
            },
            _ => None,
        },
        None => None,
    }
}

/// Reads an optional array-of-unsigned-integers field.
pub fn opt_usize_list_field(fs: &Vec<(Vec<char>, Json)>, name: &str) -> (r: Option<
    Option<Vec<usize>>,
>)
    ensures
        match r {
            Some(None) => spec_opt_usize_list(members_view(fs@), name@) == Some(
                None::<Seq<usize>>,
            ),
            Some(Some(ns)) => spec_opt_usize_list(members_view(fs@), name@) == Some(Some(ns@)),
            None => spec_opt_usize_list(members_view(fs@), name@) is None,
        },
{
    let (cnt, first) = find_field(fs, name);
    if cnt == 0 {
        return Some(None);
    }
    if cnt != 1 {
        return None;
    }
    match first {
        Some(ix) => match &fs[ix].1 {
            Json::Null => Some(None),
            Json::Arr(items) => match usize_items(items) {
                Some(ns) => Some(Some(ns)),
                None => None,
            },
            _ => None,
        },
        None => None,
    }
}

/// Reads an optional array-of-strings field.
pub fn opt_str_list_field(fs: &Vec<(Vec<char>, Json)>, name: &str) -> (r: Option<
    Option<Vec<String>>,
>)
    ensures
        match r {
            Some(None) => spec_opt_str_list(members_view(fs@), name@) == Some(
                None::<Seq<Seq<char>>>,
            ),
            Some(Some(ss)) => spec_opt_str_list(members_view(fs@), name@) == Some(
                Some(ss.deep_view()),
            ),
            None => spec_opt_str_list(members_view(fs@), name@) is None,
        },
{
    let (cnt, first) = find_field(fs, name);
    if cnt == 0 {
        return Some(None);
    }
    if cnt != 1 {
        return None;
    }
    match first {
        Some(ix) => match &fs[ix].1 {
            Json::Null => Some(None),
            Json::Arr(items) => match str_items(items) {
                Some(ss) => Some(Some(ss)),
                None => None,
            },
            _ => None,
        },
        None => None,
    }
}

} // verus!
