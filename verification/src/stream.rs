//! The stream adapter and the aggregator.
//!
//! The transport delivers a streamed body as a sequence of chunks, each
//! either a block of bytes or a read failure; by the server's contract each
//! successful chunk carries one complete JSON document.  The adapter turns
//! every chunk into one element — a typed item or an error — preserving
//! order and never dropping or inventing elements.  The aggregator folds such
//! a sequence into one terminal item: the first error anywhere aborts the
//! fold, an empty stream is an explicit error, and otherwise the last item is
//! rewritten with the concatenated payload and the first item's ordering key.

use vstd::prelude::*;
use vstd::string::*;
use vstd::utf8::{decode_utf8, valid_utf8};

use crate::errors::{res_view, ErrorV, OllamaError};
use crate::json::{spec_json_doc, Json, JsonV};
use crate::parser::parse_json;
use crate::text::{str_to_chars, string_from_utf8};

verus! {

broadcast use vstd::seq::group_seq_axioms, vstd::std_specs::vec::group_vec_axioms;

/// The detail text of an element whose chunk is not a well-formed JSON
/// document.
pub open spec fn malformed_chunk_text() -> Seq<char> {
    "malformed JSON line"@
}

/// The detail text of an element whose document does not have the shape of
/// the expected item.
pub open spec fn unexpected_shape_text() -> Seq<char> {
    "unexpected response shape"@
}

/// The detail text of an aggregation over a stream with no items at all.
pub open spec fn empty_stream_text() -> Seq<char> {
    "empty stream"@
}

/// A partial-response item that can be decoded from one wire document and
/// folded into a terminal value: the capability set shared by every endpoint
/// family.
pub trait StreamHandler: View + Sized {
    /// The item a decoded wire document denotes, if it has the right shape.
    spec fn decode_of(v: JsonV) -> Option<Self::V>;

    /// The incremental payload one item contributes to the aggregate.
    spec fn payload_of(v: Self::V) -> Seq<char>;

    /// The terminal item rewritten with the aggregate payload and the first
    /// item's ordering key.
    spec fn merged(last: Self::V, first: Self::V, payload: Seq<char>) -> Self::V;

    /// Reads one item from a decoded wire document.
    fn from_json(j: &Json) -> (r: Option<Self>)
        ensures
            match r {
                Some(t) => Self::decode_of(j@) == Some(t@),
                None => Self::decode_of(j@) is None,
            },
    ;

    /// The incremental payload of this item.
    fn payload(&self) -> (p: String)
        ensures
            p@ == Self::payload_of(self@),
    ;

    /// Rewrites this (terminal) item with an aggregate payload and the
    /// ordering key of `first`.
    fn merge(self, first: &Self, payload: String) -> (r: Self)
        ensures
            r@ == Self::merged(self@, first@, payload@),
    ;

    /// A copy with the same model.
    fn duplicate(&self) -> (r: Self)
        ensures
            r@ == self@,
    ;
}

/// Model of one transport chunk: bytes, or the detail of a read failure.
pub open spec fn chunk_view(c: Result<Vec<u8>, String>) -> Result<Seq<u8>, Seq<char>> {
    match c {
        Ok(b) => Ok(b@),
        Err(m) => Err(m@),
    }
}

/// Model of a whole chunk sequence.
pub open spec fn chunks_view(cs: Seq<Result<Vec<u8>, String>>) -> Seq<Result<Seq<u8>, Seq<char>>> {
    cs.map_values(|c: Result<Vec<u8>, String>| chunk_view(c))
}

/// Model of a sequence of adapted elements.
pub open spec fn results_view<T: View>(rs: Seq<Result<T, OllamaError>>) -> Seq<
    Result<T::V, ErrorV>,
> {
    rs.map_values(|r: Result<T, OllamaError>| res_view(r))
}

/// Model of a sequence of items.
pub open spec fn items_view<T: View>(s: Seq<T>) -> Seq<T::V> {
    s.map_values(|t: T| t@)
}

/// The element one chunk is adapted to: a read failure becomes a stream
/// error carrying the transport's detail; a chunk that is not one JSON
/// document (or not valid UTF-8) becomes an invalid-response element; a
/// document of the wrong shape becomes an invalid-response element; and a
/// well-formed document becomes its item.
pub open spec fn spec_adapt_chunk<T: StreamHandler>(c: Result<Seq<u8>, Seq<char>>) -> Result<
    T::V,
    ErrorV,
> {
    match c {
        Err(m) => Err(ErrorV::StreamError(m)),
        Ok(b) => if !valid_utf8(b) {
            Err(ErrorV::InvalidResponse(malformed_chunk_text()))
        } else {
            match spec_json_doc(decode_utf8(b)) {
                Some(doc) => match T::decode_of(doc) {
                    Some(v) => Ok(v),
                    None => Err(ErrorV::InvalidResponse(unexpected_shape_text())),
                },
                None => Err(ErrorV::InvalidResponse(malformed_chunk_text())),
            }
        },
    }
}

/// The adapted form of a whole chunk sequence, element by element.
pub open spec fn spec_adapt_stream<T: StreamHandler>(cs: Seq<Result<Vec<u8>, String>>) -> Seq<
    Result<T::V, ErrorV>,
> {
    cs.map_values(|c: Result<Vec<u8>, String>| spec_adapt_chunk::<T>(chunk_view(c)))
}

/// The adapted elements of a body's chunks, in delivery order.
pub open spec fn spec_adapted<T: StreamHandler>(cs: Seq<Result<Seq<u8>, Seq<char>>>) -> Seq<
    Result<T::V, ErrorV>,
> {
    cs.map_values(|c: Result<Seq<u8>, Seq<char>>| spec_adapt_chunk::<T>(c))
}

/// Every element of the sequence is an item.
pub open spec fn all_ok<V>(rs: Seq<Result<V, ErrorV>>) -> bool {
    forall|i: int| 0 <= i < rs.len() ==> rs[i] is Ok
}

/// The first error of the sequence.
pub open spec fn first_err<V>(rs: Seq<Result<V, ErrorV>>) -> ErrorV
    decreases rs.len(),
{
    if rs.len() == 0 {
        ErrorV::InvalidResponse(empty_stream_text())
    } else {
        match rs[0] {
            Err(e) => e,
            Ok(_) => first_err(rs.drop_first()),
        }
    }
}

/// The items of an all-item sequence.
pub open spec fn oks<V>(rs: Seq<Result<V, ErrorV>>) -> Seq<V> {
    rs.map_values(|r: Result<V, ErrorV>| r->Ok_0)
}

/// The ordered concatenation of the items' incremental payloads.
pub open spec fn concat_payloads<T: StreamHandler>(items: Seq<T::V>) -> Seq<char>
    decreases items.len(),
{
    if items.len() == 0 {
        Seq::empty()
    } else {
        concat_payloads::<T>(items.drop_last()) + T::payload_of(items.last())
    }
}

/// What folding an adapted stream yields: the first error anywhere aborts
/// the fold and is returned as it stands; an empty stream is an explicit
/// invalid-response error; otherwise the last item is rewritten with the
/// concatenated payload and the first item's ordering key.
pub open spec fn spec_aggregate<T: StreamHandler>(rs: Seq<Result<T::V, ErrorV>>) -> Result<
    T::V,
    ErrorV,
> {
    if !all_ok(rs) {
        Err(first_err(rs))
    } else if rs.len() == 0 {
        Err(ErrorV::InvalidResponse(empty_stream_text()))
    } else {
        Ok(T::merged(oks(rs).last(), oks(rs)[0], concat_payloads::<T>(oks(rs))))
    }
}

/// Aggregating an empty stream fails with an explicit, catchable error.
pub proof fn lemma_empty_stream_aggregate<T: StreamHandler>()
    ensures
        spec_aggregate::<T>(Seq::empty()) == Err::<T::V, ErrorV>(
            ErrorV::InvalidResponse(empty_stream_text()),
        ),
{
    assert(all_ok(Seq::<Result<T::V, ErrorV>>::empty()));
}

/// In a stream where exactly one chunk is malformed and every other chunk
/// carries a well-formed item, the adapted sequence holds a decode-error
/// element at exactly the malformed chunk's position and the decoded item at
/// every other position, in delivery order.
pub proof fn lemma_one_malformed_chunk<T: StreamHandler>(
    cs: Seq<Result<Seq<u8>, Seq<char>>>,
    k: int,
)
    requires
        0 <= k < cs.len(),
        (cs[k] matches Ok(b) && valid_utf8(b) && spec_json_doc(decode_utf8(b)) is None),
        forall|i: int|
            #![trigger cs[i]]
            0 <= i < cs.len() && i != k ==> (cs[i] matches Ok(b) && valid_utf8(b) && (
            spec_json_doc(decode_utf8(b)) matches Some(doc) && T::decode_of(doc) is Some)),
    ensures
        spec_adapted::<T>(cs).len() == cs.len(),
        spec_adapted::<T>(cs)[k] == Err::<T::V, ErrorV>(
            ErrorV::InvalidResponse(malformed_chunk_text()),
        ),
        forall|i: int|
            0 <= i < cs.len() && i != k ==> #[trigger] spec_adapted::<T>(cs)[i] == Ok::<
                T::V,
                ErrorV,
            >(T::decode_of(spec_json_doc(decode_utf8(cs[i]->Ok_0))->Some_0)->Some_0),
{
    assert forall|i: int| 0 <= i < cs.len() && i != k implies #[trigger] spec_adapted::<T>(
        cs,
    )[i] == Ok::<T::V, ErrorV>(
        T::decode_of(spec_json_doc(decode_utf8(cs[i]->Ok_0))->Some_0)->Some_0,
    ) by {
        assert(spec_adapted::<T>(cs)[i] == spec_adapt_chunk::<T>(cs[i]));
    }
}

/// Adapts one transport chunk into one element.
pub fn adapt_chunk<T: StreamHandler>(chunk: Result<Vec<u8>, String>) -> (r: Result<T, OllamaError>)
    ensures
        res_view(r) == spec_adapt_chunk::<T>(chunk_view(chunk)),
{
    match chunk {
        Err(m) => Err(OllamaError::StreamError(m)),
        Ok(b) => {
            match string_from_utf8(&b) {
                None => Err(OllamaError::InvalidResponse(String::from_str("malformed JSON line"))),
                Some(text) => {
                    let cs = str_to_chars(text.as_str());
                    match parse_json(&cs) {
                        Some(doc) => match T::from_json(&doc) {
                            Some(t) => Ok(t),
                            None => Err(
                                OllamaError::InvalidResponse(
                                    String::from_str("unexpected response shape"),
                                ),
                            ),
                        },
                        None => Err(
                            OllamaError::InvalidResponse(String::from_str("malformed JSON line")),
                        ),
                    }
                },
            }
        },
    }
}

/// Adapts a whole chunk sequence, one element per chunk, in delivery order.
pub fn adapt_stream<T: StreamHandler>(chunks: Vec<Result<Vec<u8>, String>>) -> (out: Vec<
    Result<T, OllamaError>,
>)
    ensures
        out@.len() == chunks@.len(),
        forall|i: int|
            0 <= i < chunks@.len() ==> res_view(#[trigger] out@[i]) == spec_adapt_chunk::<T>(
                chunk_view(chunks@[i]),
            ),
{
    let ghost cs0 = chunks@;
    let mut rem = chunks;
    let mut out: Vec<Result<T, OllamaError>> = Vec::new();
    while rem.len() > 0
        invariant
            out@.len() + rem@.len() == cs0.len(),
            rem@ =~= cs0.subrange(out@.len() as int, cs0.len() as int),
            forall|i: int|
                0 <= i < out@.len() ==> res_view(#[trigger] out@[i]) == spec_adapt_chunk::<T>(
                    chunk_view(cs0[i]),
                ),
        decreases rem@.len(),
    {
        let ghost rem0 = rem@;
        let ghost k = out@.len() as int;
        let c = rem.remove(0);
        proof {
            assert(rem0[0] == cs0.subrange(k, cs0.len() as int)[0]);
            assert(c == cs0[k]);
            assert(rem@ =~= cs0.subrange(k + 1, cs0.len() as int));
        }
        let e = adapt_chunk::<T>(c);
        out.push(e);
    }
    out
}

/// An error right after an all-item prefix is the sequence's first error.
proof fn lemma_first_err_skips_oks<V>(rs: Seq<Result<V, ErrorV>>, k: int)
    requires
        0 <= k < rs.len(),
        forall|j: int| 0 <= j < k ==> rs[j] is Ok,
        rs[k] is Err,
    ensures
        first_err(rs) == rs[k]->Err_0,
    decreases k,
{
    if k == 0 {
    } else {
        lemma_first_err_skips_oks(rs.drop_first(), k - 1);
    }
}

/// Folds an adapted stream into one terminal item.
pub fn stream_to_response<T: StreamHandler>(results: Vec<Result<T, OllamaError>>) -> (r: Result<
    T,
    OllamaError,
>)
    ensures
        res_view(r) == spec_aggregate::<T>(results_view(results@)),
{
    let ghost rv = results_view(results@);
    let mut items: Vec<T> = Vec::new();
    let mut payload = String::new();
    let n = results.len();
    let mut i: usize = 0;
    while i < n
        invariant
            i <= n,
            n == results@.len(),
            rv == results_view(results@),
            rv.len() == n,
            forall|j: int| 0 <= j < i ==> rv[j] is Ok,
            items@.len() == i,
            items_view(items@) =~= oks(rv.subrange(0, i as int)),
            payload@ == concat_payloads::<T>(items_view(items@)),
        decreases n - i,
    {
        proof {
            assert(rv[i as int] == res_view(results@[i as int]));
        }
        let ghost items0 = items_view(items@);
        match &results[i] {
            Ok(item) => {
                let p = item.payload();
                payload.append(p.as_str());
                items.push(item.duplicate());
                proof {
                    assert(items_view(items@) =~= items0.push(results@[i as int]->Ok_0@));
                    assert(items_view(items@).drop_last() =~= items0);
                    assert(items_view(items@) =~= oks(rv.subrange(0, i + 1 as int))) by {
                        assert(oks(rv.subrange(0, i + 1 as int)).len() == i + 1);
                        assert(forall|j: int|
                            0 <= j < i + 1 ==> #[trigger] oks(rv.subrange(0, i + 1 as int))[j]
                                == rv.subrange(0, i + 1 as int)[j]->Ok_0);
                    }
                    assert(payload@ == concat_payloads::<T>(items_view(items@)));
                }
            },
            Err(err) => {
                proof {
                    lemma_first_err_skips_oks(rv, i as int);
                    assert(!all_ok(rv));
                }
                return Err(err.duplicate());
            },
        }
        i = i + 1;
    }
    proof {
        assert(all_ok(rv));
        assert(rv.subrange(0, rv.len() as int) =~= rv);
    }
    if items.len() == 0 {
        proof {
            assert(oks(rv).len() == 0);
        }
        return Err(OllamaError::InvalidResponse(String::from_str("empty stream")));
    }
    let ghost itemsv = items_view(items@);
    proof {
        assert(itemsv =~= oks(rv));
    }
    let last = match items.pop() {
        Some(t) => t,
        None => {
            proof {
                assert(false);
            }
            return Err(OllamaError::InvalidResponse(String::from_str("empty stream")));
        },
    };
    proof {
        assert(last@ == itemsv.last());
    }
    if items.len() == 0 {
        let first = last.duplicate();
        proof {
            assert(itemsv[0] == last@);
        }
        Ok(last.merge(&first, payload))
    } else {
        let r = {
            let first = &items[0];
            proof {
                assert(first@ == items_view(items@)[0]);
                assert(items_view(items@)[0] == itemsv[0]);
            }
            last.merge(first, payload)
        };
        Ok(r)
    }
}

} // verus!
