//! Properties that hold of every document: iteration is deterministic and
//! restartable, lookup agrees with iteration, and truncated input fails
//! cleanly instead of decoding to something else.

use vstd::prelude::*;
use vstd::bytes::spec_u32_from_le_bytes;
use vstd::utf8::{valid_utf8, decode_utf8};
use crate::element::BsonError;
use crate::parse::{
    SpecElement, SpecField, doc_fields, lemma_null_pos_bounds, lemma_parse_field_rest,
    lemma_parse_payload_bounds, null_pos, spec_lookup, spec_open, spec_parse_cstr,
    spec_parse_field, spec_parse_payload, ELEMENT_TYPE_CSTRING,
};

verus! {

/// Iteration yields fields in on-wire order: the field decoded at the head
/// of the bytes comes first, followed by the fields of the remainder, and a
/// failing or exhausted head yields nothing.
pub proof fn lemma_iteration_wire_order(d: Seq<u8>)
    ensures
        spec_parse_field(d) matches Ok(f) ==> doc_fields(d) == seq![(f.name, f.value)]
            + doc_fields(f.rest),
        spec_parse_field(d) is Err ==> doc_fields(d) == Seq::<(Seq<char>, SpecElement)>::empty(),
{
}

/// Iteration is deterministic and restartable: the fields a cursor yields
/// are a function of its remaining bytes alone, so two fresh cursors over
/// the same document yield identical field sequences.
pub proof fn lemma_iteration_deterministic(d1: Seq<u8>, d2: Seq<u8>)
    requires
        d1 == d2,
    ensures
        doc_fields(d1) == doc_fields(d2),
{
}

/// Lookup agrees with iteration: when iterating a document first observes
/// `key` at position `i` of the field sequence, looking `key` up returns
/// exactly the value observed there.
pub proof fn lemma_lookup_matches_iteration(d: Seq<u8>, key: Seq<char>, i: int)
    requires
        0 <= i < doc_fields(d).len(),
        doc_fields(d)[i].0 == key,
        forall|j: int| 0 <= j < i ==> #[trigger] doc_fields(d)[j].0 != key,
    ensures
        spec_lookup(d, key) == Ok::<SpecElement, BsonError>(doc_fields(d)[i].1),
    decreases d.len(),
{
    lemma_parse_field_rest(d);
    match spec_parse_field(d) {
        Ok(f) => {
            assert(doc_fields(d) == seq![(f.name, f.value)] + doc_fields(f.rest));
            if i == 0 {
                assert(doc_fields(d)[0] == (f.name, f.value));
            } else {
                assert(doc_fields(d)[0] == (f.name, f.value));
                assert(doc_fields(d)[0].0 == f.name);
                assert(f.name != key);
                assert(doc_fields(f.rest)[i - 1] == doc_fields(d)[i]);
                assert forall|j: int| 0 <= j < i - 1 implies #[trigger] doc_fields(f.rest)[j].0
                    != key by {
                    assert(doc_fields(f.rest)[j] == doc_fields(d)[j + 1]);
                }
                lemma_lookup_matches_iteration(f.rest, key, i - 1);
            }
        },
        Err(_) => {
            assert(doc_fields(d).len() == 0);
        },
    }
}

/// Truncation safety at the top level: cutting a well-formed buffer anywhere
/// before its declared end makes construction fail with `MalformedHeader`,
/// and cutting at or after it leaves the same document.
pub proof fn lemma_truncation_header(b: Seq<u8>, i: int)
    requires
        0 <= i <= b.len(),
        spec_open(b) is Ok,
    ensures
        i >= spec_u32_from_le_bytes(b.subrange(0, 4)) ==> spec_open(b.take(i)) == spec_open(b),
        i < spec_u32_from_le_bytes(b.subrange(0, 4)) ==> spec_open(b.take(i)) == Err::<
            Seq<u8>,
            BsonError,
        >(BsonError::MalformedHeader),
{
    let l = spec_u32_from_le_bytes(b.subrange(0, 4)) as int;
    let t = b.take(i);
    if i >= 5 {
        assert(t.subrange(0, 4) =~= b.subrange(0, 4));
        if i >= l {
            assert(t[l - 1] == b[l - 1]);
            assert(t.subrange(4, l - 1) =~= b.subrange(4, l - 1));
        }
    }
}

proof fn lemma_null_pos_take(d: Seq<u8>, from: int, i: int)
    requires
        0 <= from,
        0 <= i <= d.len(),
    ensures
        null_pos(d, from) matches Some(p) ==> (p < i ==> null_pos(d.take(i), from) == Some(p)),
        null_pos(d, from) matches Some(p) ==> (p >= i ==> null_pos(d.take(i), from) is None),
        null_pos(d, from) is None ==> null_pos(d.take(i), from) is None,
    decreases d.len() - from,
{
    lemma_null_pos_bounds(d, from);
    if from < i {
        if d[from] != 0 {
            lemma_null_pos_take(d, from + 1, i);
        }
    }
}

proof fn lemma_parse_cstr_take(d: Seq<u8>, q: int, i: int)
    requires
        0 <= i <= d.len(),
        null_pos(d, 0) == Some(q),
        valid_utf8(d.subrange(0, q)),
    ensures
        i <= q ==> spec_parse_cstr(d.take(i)) == Err::<(Seq<char>, Seq<u8>), BsonError>(
            BsonError::Truncated,
        ),
        i > q ==> spec_parse_cstr(d.take(i)) == Ok::<(Seq<char>, Seq<u8>), BsonError>(
            (decode_utf8(d.subrange(0, q)), d.subrange(q + 1, i)),
        ),
{
    lemma_null_pos_bounds(d, 0);
    lemma_null_pos_take(d, 0, i);
    if i > q {
        assert(d.take(i).subrange(0, q) =~= d.subrange(0, q));
        assert(d.take(i).subrange(q + 1, i) =~= d.subrange(q + 1, i));
    }
}

proof fn lemma_truncated_payload(tag: u8, t: Seq<u8>, v: SpecElement, used: int, j: int)
    requires
        spec_parse_payload(tag, t) == Ok::<(SpecElement, int), BsonError>((v, used)),
        0 <= j < used,
    ensures
        spec_parse_payload(tag, t.take(j)) == Err::<(SpecElement, int), BsonError>(
            BsonError::Truncated,
        ),
{
    let tj = t.take(j);
    if j >= 4 {
        assert(tj.subrange(0, 4) =~= t.subrange(0, 4));
    }
    if j >= 8 {
        assert(tj.subrange(4, 8) =~= t.subrange(4, 8));
    }
    if tag == ELEMENT_TYPE_CSTRING {
        lemma_null_pos_bounds(t, 0);
        match null_pos(t, 0) {
            Some(q1) => {
                lemma_parse_cstr_take(t, q1, j);
                if j > q1 {
                    let r1 = t.subrange(q1 + 1, t.len() as int);
                    lemma_null_pos_bounds(r1, 0);
                    match null_pos(r1, 0) {
                        Some(q2) => {
                            let jj = j - q1 - 1;
                            assert(t.subrange(q1 + 1, j) =~= r1.take(jj));
                            lemma_parse_cstr_take(r1, q2, jj);
                        },
                        None => assert(false),
                    }
                }
            },
            None => assert(false),
        }
    }
}

/// Truncation safety at field level: cutting the bytes of a decodable field
/// anywhere before its end makes the field decoder fail with `Truncated` —
/// never a panic, an out-of-bounds read, or a different value.
pub proof fn lemma_truncated_field(d: Seq<u8>, f: SpecField, i: int)
    requires
        spec_parse_field(d) == Ok::<SpecField, BsonError>(f),
        0 <= i < d.len() - f.rest.len(),
    ensures
        spec_parse_field(d.take(i)) == Err::<SpecField, BsonError>(BsonError::Truncated),
{
    lemma_parse_field_rest(d);
    if i > 0 {
        let di = d.take(i);
        let inner = d.subrange(1, d.len() as int);
        let inner_i = di.subrange(1, i);
        assert(inner_i =~= inner.take(i - 1));
        lemma_null_pos_bounds(inner, 0);
        match null_pos(inner, 0) {
            Some(q) => {
                lemma_parse_cstr_take(inner, q, i - 1);
                if i - 1 > q {
                    let t = inner.subrange(q + 1, inner.len() as int);
                    let j = i - q - 2;
                    match spec_parse_payload(d[0], t) {
                        Ok((v, used)) => {
                            lemma_parse_payload_bounds(d[0], t);
                            assert(f.rest == t.subrange(used, t.len() as int));
                            assert(f.rest.len() == t.len() - used);
                            assert(d.len() == 1 + inner.len());
                            assert(inner.len() == q + 1 + t.len());
                            assert(j < used);
                            lemma_truncated_payload(d[0], t, v, used, j);
                            assert(inner.subrange(q + 1, i - 1) =~= t.take(j));
                        },
                        Err(_) => assert(false),
                    }
                }
            },
            None => assert(false),
        }
    }
}

} // verus!
