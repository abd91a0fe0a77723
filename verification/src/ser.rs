//! Verified JSON text writing: string escaping and the scalar pieces from
//! which request bodies are assembled.
//!
//! Optional request fields are only ever appended when they are set, so an
//! absent field never appears in the output at all — in particular never as
//! `null`.

use vstd::prelude::*;

use crate::text::{digit_char, spec_dec_digits, append_str, append_u64};

verus! {

/// The lowercase hexadecimal digit for one value below 16.
pub open spec fn hex_digit_char(d: int) -> char {
    if d < 10 {
        digit_char(d)
    } else {
        ((87 + d) as u8) as char
    }
}

/// The escaped wire form of one character inside a JSON string: quote and
/// backslash are escaped, control characters take their short escape or a
/// `\u00..` escape, everything else stands for itself.
pub open spec fn esc_char(c: char) -> Seq<char> {
    if c == '"' {
        seq!['\\', '"']
    } else if c == '\\' {
        seq!['\\', '\\']
    } else if c == '\u{0008}' {
        seq!['\\', 'b']
    } else if c == '\u{000C}' {
        seq!['\\', 'f']
    } else if c == '\n' {
        seq!['\\', 'n']
    } else if c == '\r' {
        seq!['\\', 'r']
    } else if c == '\t' {
        seq!['\\', 't']
    } else if (c as u32) < 32 {
        seq![
            '\\',
            'u',
            '0',
            '0',
            hex_digit_char((c as u32) as int / 16),
            hex_digit_char((c as u32) as int % 16),
        ]
    } else {
        seq![c]
    }
}

/// The escaped wire form of a string's content.
pub open spec fn esc_str(s: Seq<char>) -> Seq<char>
    decreases s.len(),
{
    if s.len() == 0 {
        Seq::empty()
    } else {
        esc_str(s.drop_last()) + esc_char(s.last())
    }
}

/// A complete JSON string: quote, escaped content, quote.
pub open spec fn spec_quoted(s: Seq<char>) -> Seq<char> {
    seq!['"'] + esc_str(s) + seq!['"']
}

/// The wire form of a boolean.
pub open spec fn spec_bool_text(b: bool) -> Seq<char> {
    if b {
        "true"@
    } else {
        "false"@
    }
}

/// The wire form of a signed integer.
pub open spec fn spec_i64_digits(n: int) -> Seq<char> {
    if n < 0 {
        seq!['-'] + spec_dec_digits((-n) as nat)
    } else {
        spec_dec_digits(n as nat)
    }
}

/// Appends the escaped content of `s`.
pub fn append_escaped(v: Vec<char>, s: &str) -> (r: Vec<char>)
    ensures
        r@ == v@ + esc_str(s@),
{
    let ghost v0 = v@;
    let mut v = v;
    let n = s.unicode_len();
    let mut i: usize = 0;
    while i < n
        invariant
            i <= n,
            n == s@.len(),
            v@ == v0 + esc_str(s@.subrange(0, i as int)),
        decreases n - i,
    {
        let c = s.get_char(i);
        let u = c as u32;
        if c == '"' {
            v.push('\\');
            v.push('"');
        } else if c == '\\' {
            v.push('\\');
            v.push('\\');
        } else if c == '\u{0008}' {
            v.push('\\');
            v.push('b');
        } else if c == '\u{000C}' {
            v.push('\\');
            v.push('f');
        } else if c == '\n' {
            v.push('\\');
            v.push('n');
        } else if c == '\r' {
            v.push('\\');
            v.push('r');
        } else if c == '\t' {
            v.push('\\');
            v.push('t');
        } else if u < 32 {
            v.push('\\');
            v.push('u');
            v.push('0');
            v.push('0');
            let hi = u / 16;
            let lo = u % 16;
            let hc = if hi < 10 {
                ((48 + hi) as u8) as char
            } else {
                ((87 + hi) as u8) as char
            };
            let lc = if lo < 10 {
                ((48 + lo) as u8) as char
            } else {
                ((87 + lo) as u8) as char
            };
            assert(hc == hex_digit_char(u as int / 16) && lc == hex_digit_char(u as int % 16));
            v.push(hc);
            v.push(lc);
        } else {
            v.push(c);
        }
        proof {
            assert(s@.subrange(0, i + 1 as int).drop_last() =~= s@.subrange(0, i as int));
            assert(v@ =~= v0 + esc_str(s@.subrange(0, i + 1 as int)));
        }
        i = i + 1;
    }
    proof {
        assert(s@.subrange(0, n as int) =~= s@);
    }
    v
}

/// Appends a complete JSON string.
pub fn append_quoted(v: Vec<char>, s: &str) -> (r: Vec<char>)
    ensures
        r@ == v@ + spec_quoted(s@),
{
    let ghost v0 = v@;
    let mut v = v;
    v.push('"');
    let mut v = append_escaped(v, s);
    v.push('"');
    proof {
        assert(v@ =~= v0 + spec_quoted(s@));
    }
    v
}

/// Appends the wire form of a boolean.
pub fn append_bool(v: Vec<char>, b: bool) -> (r: Vec<char>)
    ensures
        r@ == v@ + spec_bool_text(b),
{
    if b {
        append_str(v, "true")
    } else {
        append_str(v, "false")
    }
}

/// The comma-separated items of an array of strings.
pub open spec fn spec_str_array_items(items: Seq<Seq<char>>) -> Seq<char>
    decreases items.len(),
{
    if items.len() == 0 {
        Seq::empty()
    } else if items.len() == 1 {
        spec_quoted(items[0])
    } else {
        spec_str_array_items(items.drop_last()) + seq![','] + spec_quoted(items.last())
    }
}

/// The wire form of an array of strings.
pub open spec fn spec_str_array(items: Seq<Seq<char>>) -> Seq<char> {
    seq!['['] + spec_str_array_items(items) + seq![']']
}

/// The comma-separated items of an array of unsigned integers.
pub open spec fn spec_num_array_items(items: Seq<nat>) -> Seq<char>
    decreases items.len(),
{
    if items.len() == 0 {
        Seq::empty()
    } else if items.len() == 1 {
        spec_dec_digits(items[0])
    } else {
        spec_num_array_items(items.drop_last()) + seq![','] + spec_dec_digits(items.last())
    }
}

/// The wire form of an array of unsigned integers.
pub open spec fn spec_num_array(items: Seq<nat>) -> Seq<char> {
    seq!['['] + spec_num_array_items(items) + seq![']']
}

/// Appends the wire form of an array of strings.
pub fn append_str_array(v: Vec<char>, items: &Vec<String>) -> (r: Vec<char>)
    ensures
        r@ == v@ + spec_str_array(items.deep_view()),
{
    let ghost v0 = v@;
    let ghost l = items.deep_view();
    let mut v = v;
    v.push('[');
    let mut i: usize = 0;
    while i < items.len()
        invariant
            i <= items@.len(),
            l == items.deep_view(),
            l.len() == items@.len(),
            forall|j: int| 0 <= j < items@.len() ==> #[trigger] l[j] == items@[j]@,
            v@ == v0 + seq!['['] + spec_str_array_items(l.subrange(0, i as int)),
        decreases items@.len() - i,
    {
        if i > 0 {
            v.push(',');
        }
        let v2 = append_quoted(v, items[i].as_str());
        v = v2;
        proof {
            assert(l.subrange(0, i + 1 as int).drop_last() =~= l.subrange(0, i as int));
            assert(v@ =~= v0 + seq!['['] + spec_str_array_items(l.subrange(0, i + 1 as int)));
        }
        i = i + 1;
    }
    v.push(']');
    proof {
        assert(l.subrange(0, l.len() as int) =~= l);
        assert(v@ =~= v0 + spec_str_array(l));
    }
    v
}

/// Appends the wire form of an array of unsigned integers.
pub fn append_usize_array(v: Vec<char>, items: &Vec<usize>) -> (r: Vec<char>)
    ensures
        r@ == v@ + spec_num_array(items@.map_values(|n: usize| n as nat)),
{
    let ghost v0 = v@;
    let ghost l = items@.map_values(|n: usize| n as nat);
    let mut v = v;
    v.push('[');
    let mut i: usize = 0;
    while i < items.len()
        invariant
            i <= items@.len(),
            l == items@.map_values(|n: usize| n as nat),
            l.len() == items@.len(),
            v@ == v0 + seq!['['] + spec_num_array_items(l.subrange(0, i as int)),
        decreases items@.len() - i,
    {
        if i > 0 {
            v.push(',');
        }
        let v2 = append_u64(v, items[i] as u64);
        v = v2;
        proof {
            assert(l.subrange(0, i + 1 as int).drop_last() =~= l.subrange(0, i as int));
            assert(l[i as int] == items@[i as int] as nat);
            assert(v@ =~= v0 + seq!['['] + spec_num_array_items(l.subrange(0, i + 1 as int)));
        }
        i = i + 1;
    }
    v.push(']');
    proof {
        assert(l.subrange(0, l.len() as int) =~= l);
        assert(v@ =~= v0 + spec_num_array(l));
    }
    v
}

/// Appends the wire form of an array of bytes.
pub fn append_u8_array(v: Vec<char>, items: &Vec<u8>) -> (r: Vec<char>)
    ensures
        r@ == v@ + spec_num_array(items@.map_values(|n: u8| n as nat)),
{
    let ghost v0 = v@;
    let ghost l = items@.map_values(|n: u8| n as nat);
    let mut v = v;
    v.push('[');
    let mut i: usize = 0;
    while i < items.len()
        invariant
            i <= items@.len(),
            l == items@.map_values(|n: u8| n as nat),
            l.len() == items@.len(),
            v@ == v0 + seq!['['] + spec_num_array_items(l.subrange(0, i as int)),
        decreases items@.len() - i,
    {
        if i > 0 {
            v.push(',');
        }
        let v2 = append_u64(v, items[i] as u64);
        v = v2;
        proof {
            assert(l.subrange(0, i + 1 as int).drop_last() =~= l.subrange(0, i as int));
            assert(l[i as int] == items@[i as int] as nat);
            assert(v@ =~= v0 + seq!['['] + spec_num_array_items(l.subrange(0, i + 1 as int)));
        }
        i = i + 1;
    }
    v.push(']');
    proof {
        assert(l.subrange(0, l.len() as int) =~= l);
        assert(v@ =~= v0 + spec_num_array(l));
    }
    v
}

/// The comma-separated join of already-rendered pieces.
pub open spec fn spec_csv(pieces: Seq<Seq<char>>) -> Seq<char>
    decreases pieces.len(),
{
    if pieces.len() == 0 {
        Seq::empty()
    } else if pieces.len() == 1 {
        pieces[0]
    } else {
        spec_csv(pieces.drop_last()) + seq![','] + pieces.last()
    }
}

/// Appends already-rendered pieces, separated by commas.
pub fn append_csv(v: Vec<char>, pieces: &Vec<Vec<char>>) -> (r: Vec<char>)
    ensures
        r@ == v@ + spec_csv(pieces.deep_view()),
{
    let ghost v0 = v@;
    let ghost l = pieces.deep_view();
    let mut v = v;
    let mut i: usize = 0;
    while i < pieces.len()
        invariant
            i <= pieces@.len(),
            l == pieces.deep_view(),
            l.len() == pieces@.len(),
            forall|j: int| 0 <= j < pieces@.len() ==> #[trigger] l[j] == pieces@[j]@,
            v@ == v0 + spec_csv(l.subrange(0, i as int)),
        decreases pieces@.len() - i,
    {
        if i > 0 {
            v.push(',');
        }
        let ghost mid = v@;
        let mut k: usize = 0;
        let piece = &pieces[i];
        while k < piece.len()
            invariant
                k <= piece@.len(),
                v@ == mid + piece@.subrange(0, k as int),
            decreases piece@.len() - k,
        {
            v.push(piece[k]);
            proof {
                assert(v@ =~= mid + piece@.subrange(0, k + 1 as int));
            }
            k = k + 1;
        }
        proof {
            assert(l.subrange(0, i + 1 as int).drop_last() =~= l.subrange(0, i as int));
            assert(piece@.subrange(0, piece@.len() as int) =~= piece@);
            assert(v@ =~= v0 + spec_csv(l.subrange(0, i + 1 as int)));
        }
        i = i + 1;
    }
    proof {
        assert(l.subrange(0, l.len() as int) =~= l);
    }
    v
}

/// The rendered piece of an always-present string field.
pub open spec fn req_str_piece(name: Seq<char>, s: Seq<char>) -> Seq<Seq<char>> {
    seq![seq!['"'] + name + "\":"@ + spec_quoted(s)]
}

/// The rendered piece of one set boolean field, or nothing.
pub open spec fn bool_piece(name: Seq<char>, v: Option<bool>) -> Seq<Seq<char>> {
    match v {
        None => Seq::empty(),
        Some(b) => seq![seq!['"'] + name + "\":"@ + spec_bool_text(b)],
    }
}

/// The rendered piece of one set unsigned integer field, or nothing.
pub open spec fn usize_piece(name: Seq<char>, v: Option<usize>) -> Seq<Seq<char>> {
    match v {
        None => Seq::empty(),
        Some(n) => seq![seq!['"'] + name + "\":"@ + spec_dec_digits(n as nat)],
    }
}

/// The rendered piece of one set array-of-integers field, or nothing.
pub open spec fn nums_piece(name: Seq<char>, v: Option<Seq<nat>>) -> Seq<Seq<char>> {
    match v {
        None => Seq::empty(),
        Some(ns) => seq![seq!['"'] + name + "\":"@ + spec_num_array(ns)],
    }
}

/// The rendered piece of an array-of-strings field, skipped when empty.
pub open spec fn strs_piece(name: Seq<char>, list: Seq<Seq<char>>) -> Seq<Seq<char>> {
    if list.len() == 0 {
        Seq::empty()
    } else {
        seq![seq!['"'] + name + "\":"@ + spec_str_array(list)]
    }
}

/// Renders an always-present string field into the piece list.
pub fn push_req_str_piece(pieces: &mut Vec<Vec<char>>, name: &str, s: &String)
    ensures
        final(pieces).deep_view() == old(pieces).deep_view() + req_str_piece(name@, s@),
{
    let mut p: Vec<char> = Vec::new();
    p.push('"');
    let p = crate::text::append_str(p, name);
    let p = crate::text::append_str(p, "\":");
    let p = append_quoted(p, s.as_str());
    let ghost pv = p@;
    pieces.push(p);
    proof {
        assert(pv =~= seq!['"'] + name@ + "\":"@ + spec_quoted(s@));
        assert(pieces.deep_view() =~~= old(pieces).deep_view() + req_str_piece(name@, s@));
    }
}

/// Renders one set boolean field into the piece list.
pub fn push_bool_piece(pieces: &mut Vec<Vec<char>>, name: &str, v: &Option<bool>)
    ensures
        final(pieces).deep_view() == old(pieces).deep_view() + bool_piece(name@, *v),
{
    match v {
        None => {
            proof {
                assert(final(pieces).deep_view() =~~= old(pieces).deep_view() + bool_piece(
                    name@,
                    *v,
                ));
            }
        },
        Some(b) => {
            let mut p: Vec<char> = Vec::new();
            p.push('"');
            let p = crate::text::append_str(p, name);
            let p = crate::text::append_str(p, "\":");
            let p = append_bool(p, *b);
            let ghost pv = p@;
            pieces.push(p);
            proof {
                assert(pv =~= seq!['"'] + name@ + "\":"@ + spec_bool_text(*b));
                assert(pieces.deep_view() =~~= old(pieces).deep_view() + bool_piece(name@, *v));
            }
        },
    }
}

/// Renders one set unsigned integer field into the piece list.
pub fn push_usize_piece(pieces: &mut Vec<Vec<char>>, name: &str, v: &Option<usize>)
    ensures
        final(pieces).deep_view() == old(pieces).deep_view() + usize_piece(name@, *v),
{
    match v {
        None => {
            proof {
                assert(final(pieces).deep_view() =~~= old(pieces).deep_view() + usize_piece(
                    name@,
                    *v,
                ));
            }
        },
        Some(n) => {
            let mut p: Vec<char> = Vec::new();
            p.push('"');
            let p = crate::text::append_str(p, name);
            let p = crate::text::append_str(p, "\":");
            let p = crate::text::append_u64(p, *n as u64);
            let ghost pv = p@;
            pieces.push(p);
            proof {
                assert(pv =~= seq!['"'] + name@ + "\":"@ + spec_dec_digits(*n as nat));
                assert(pieces.deep_view() =~~= old(pieces).deep_view() + usize_piece(name@, *v));
            }
        },
    }
}

/// Renders one set array-of-integers field into the piece list.
pub fn push_nums_piece(pieces: &mut Vec<Vec<char>>, name: &str, v: &Option<Vec<usize>>)
    ensures
        final(pieces).deep_view() == old(pieces).deep_view() + nums_piece(
            name@,
            match *v {
                None => None,
                Some(ns) => Some(ns@.map_values(|n: usize| n as nat)),
            },
        ),
{
    match v {
        None => {
            proof {
                assert(final(pieces).deep_view() =~~= old(pieces).deep_view()
                    + Seq::<Seq<char>>::empty());
            }
        },
        Some(ns) => {
            let mut p: Vec<char> = Vec::new();
            p.push('"');
            let p = crate::text::append_str(p, name);
            let p = crate::text::append_str(p, "\":");
            let p = append_usize_array(p, ns);
            let ghost pv = p@;
            pieces.push(p);
            proof {
                assert(pv =~= seq!['"'] + name@ + "\":"@ + spec_num_array(
                    ns@.map_values(|n: usize| n as nat),
                ));
                assert(pieces.deep_view() =~~= old(pieces).deep_view() + seq![pv]);
            }
        },
    }
}

/// Renders one set array-of-bytes field into the piece list.
pub fn push_bytes_piece(pieces: &mut Vec<Vec<char>>, name: &str, v: &Option<Vec<u8>>)
    ensures
        final(pieces).deep_view() == old(pieces).deep_view() + nums_piece(
            name@,
            match *v {
                None => None,
                Some(ns) => Some(ns@.map_values(|n: u8| n as nat)),
            },
        ),
{
    match v {
        None => {
            proof {
                assert(final(pieces).deep_view() =~~= old(pieces).deep_view()
                    + Seq::<Seq<char>>::empty());
            }
        },
        Some(ns) => {
            let mut p: Vec<char> = Vec::new();
            p.push('"');
            let p = crate::text::append_str(p, name);
            let p = crate::text::append_str(p, "\":");
            let p = append_u8_array(p, ns);
            let ghost pv = p@;
            pieces.push(p);
            proof {
                assert(pv =~= seq!['"'] + name@ + "\":"@ + spec_num_array(
                    ns@.map_values(|n: u8| n as nat),
                ));
                assert(pieces.deep_view() =~~= old(pieces).deep_view() + seq![pv]);
            }
        },
    }
}

/// Renders an array-of-strings field into the piece list, unless it is
/// empty.
pub fn push_strs_piece(pieces: &mut Vec<Vec<char>>, name: &str, list: &Vec<String>)
    ensures
        final(pieces).deep_view() == old(pieces).deep_view() + strs_piece(
            name@,
            list.deep_view(),
        ),
{
    if list.len() == 0 {
        proof {
            assert(final(pieces).deep_view() =~~= old(pieces).deep_view()
                + Seq::<Seq<char>>::empty());
        }
        return ;
    }
    let mut p: Vec<char> = Vec::new();
    p.push('"');
    let p = crate::text::append_str(p, name);
    let p = crate::text::append_str(p, "\":");
    let p = append_str_array(p, list);
    let ghost pv = p@;
    pieces.push(p);
    proof {
        assert(pv =~= seq!['"'] + name@ + "\":"@ + spec_str_array(list.deep_view()));
        assert(pieces.deep_view() =~~= old(pieces).deep_view() + seq![pv]);
    }
}

/// Renders an optional string field into the piece list.
pub fn push_opt_str_piece(pieces: &mut Vec<Vec<char>>, name: &str, v: &Option<String>)
    ensures
        final(pieces).deep_view() == old(pieces).deep_view() + (match *v {
            None => Seq::<Seq<char>>::empty(),
            Some(s) => req_str_piece(name@, s@),
        }),
{
    match v {
        None => {
            proof {
                assert(final(pieces).deep_view() =~~= old(pieces).deep_view()
                    + Seq::<Seq<char>>::empty());
            }
        },
        Some(s) => {
            push_req_str_piece(pieces, name, s);
        },
    }
}

/// Appends the wire form of a signed integer.
pub fn append_i64(v: Vec<char>, n: i64) -> (r: Vec<char>)
    requires
        n > i64::MIN,
    ensures
        r@ == v@ + spec_i64_digits(n as int),
{
    if n < 0 {
        let ghost v0 = v@;
        let mut v = v;
        v.push('-');
        let m = (-n) as u64;
        let r = append_u64(v, m);
        proof {
            assert(r@ =~= v0 + spec_i64_digits(n as int));
        }
        r
    } else {
        append_u64(v, n as u64)
    }
}

} // verus!
