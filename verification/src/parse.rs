//! The tag-dispatching field decoder and its mathematical model.
//!
//! A document's payload is a flat run of fields, each `tag byte | cstring name
//! | type payload`. The spec functions in this module define, byte for byte,
//! what one field at the head of a suffix decodes to; the executable decoders
//! are proved to return exactly that. All multi-byte integers are
//! little-endian. Every declared length is validated against the remaining
//! bytes before it is used, so malformed input yields a typed error, never an
//! out-of-bounds read.

use vstd::prelude::*;
use vstd::bytes::{spec_u32_from_le_bytes, spec_u64_from_le_bytes, u32_from_le_bytes, u64_from_le_bytes};
use vstd::utf8::{valid_utf8, decode_utf8};
use vstd::slice::{slice_subrange, slice_to_vec};
use crate::element::{Array, Binary, BinaryType, BsonError, Document, Element, ObjectId, spec_subtype};

verus! {

pub const ELEMENT_TYPE_DOUBLE: u8 = 0x01;
pub const ELEMENT_TYPE_STRING: u8 = 0x02;
pub const ELEMENT_TYPE_EMBED_DOCUMENT: u8 = 0x03;
pub const ELEMENT_TYPE_ARRAY_DOCUMENT: u8 = 0x04;
pub const ELEMENT_TYPE_BINARY: u8 = 0x05;
pub const ELEMENT_TYPE_UNDEFINED: u8 = 0x06;
pub const ELEMENT_TYPE_OBJECT_ID: u8 = 0x07;
pub const ELEMENT_TYPE_BOOLEAN: u8 = 0x08;
pub const ELEMENT_TYPE_DATETIME: u8 = 0x09;
pub const ELEMENT_TYPE_NULL: u8 = 0x0A;
pub const ELEMENT_TYPE_CSTRING: u8 = 0x0B;
pub const ELEMENT_TYPE_DBPOINTER: u8 = 0x0C;
pub const ELEMENT_TYPE_JAVASCRIPTCODE: u8 = 0x0D;
pub const ELEMENT_TYPE_SYMBOL: u8 = 0x0E;
pub const ELEMENT_TYPE_JAVASCRIPTCODEWITHSCOPE: u8 = 0x0F;
pub const ELEMENT_TYPE_INT32: u8 = 0x10;
pub const ELEMENT_TYPE_TIMESTAMP: u8 = 0x11;
pub const ELEMENT_TYPE_INT64: u8 = 0x12;
pub const ELEMENT_TYPE_DECIMAL128: u8 = 0x13;
pub const ELEMENT_TYPE_MIN: u8 = 0xFF;
pub const ELEMENT_TYPE_MAX: u8 = 0x7F;

/// The mathematical image of one decoded value. String payloads appear as
/// character sequences, embedded documents and arrays as the raw bytes of
/// their field list (they stay undecoded until walked), fixed-width numbers
/// as their numeric value, and a double as its raw bit pattern.
pub enum SpecElement {
    Double(u64),
    String(Seq<char>),
    EmbededDocument(Seq<u8>),
    ArrayDocument(Seq<u8>),
    Binary(BinaryType, Seq<u8>),
    Cstring(Seq<char>, Seq<char>),
    Undefined,
    ObjectId(Seq<u8>),
    Boolean(bool),
    DateTime(i64),
    Null,
    RegularExpression { pattern: Seq<char>, options: Seq<char> },
    DbPointer(Seq<u8>),
    Javascript(Seq<char>),
    Symbol(Seq<char>),
    JavascriptCode(Seq<char>, Seq<u8>),
    Int32(i32),
    Timestamp(u64),
    Int64(i64),
    Decimal(Seq<u8>),
    Min,
    Max,
}

/// One decoded field: its name, its value, and the unconsumed suffix that
/// follows it.
pub struct SpecField {
    pub name: Seq<char>,
    pub value: SpecElement,
    pub rest: Seq<u8>,
}

/// Whether a tag byte is in the recognized set.
pub open spec fn known_tag(tag: u8) -> bool {
    ||| tag == ELEMENT_TYPE_DOUBLE
    ||| tag == ELEMENT_TYPE_STRING
    ||| tag == ELEMENT_TYPE_EMBED_DOCUMENT
    ||| tag == ELEMENT_TYPE_ARRAY_DOCUMENT
    ||| tag == ELEMENT_TYPE_BINARY
    ||| tag == ELEMENT_TYPE_UNDEFINED
    ||| tag == ELEMENT_TYPE_OBJECT_ID
    ||| tag == ELEMENT_TYPE_BOOLEAN
    ||| tag == ELEMENT_TYPE_DATETIME
    ||| tag == ELEMENT_TYPE_NULL
    ||| tag == ELEMENT_TYPE_CSTRING
    ||| tag == ELEMENT_TYPE_DBPOINTER
    ||| tag == ELEMENT_TYPE_JAVASCRIPTCODE
    ||| tag == ELEMENT_TYPE_SYMBOL
    ||| tag == ELEMENT_TYPE_JAVASCRIPTCODEWITHSCOPE
    ||| tag == ELEMENT_TYPE_INT32
    ||| tag == ELEMENT_TYPE_TIMESTAMP
    ||| tag == ELEMENT_TYPE_INT64
    ||| tag == ELEMENT_TYPE_DECIMAL128
    ||| tag == ELEMENT_TYPE_MIN
    ||| tag == ELEMENT_TYPE_MAX
}

/// The position of the first null byte at or after `from`, if any.
pub open spec fn null_pos(d: Seq<u8>, from: int) -> Option<int>
    decreases d.len() - from,
{
    if from < 0 || from >= d.len() {
        None
    } else if d[from] == 0 {
        Some(from)
    } else {
        null_pos(d, from + 1)
    }
}

pub proof fn lemma_null_pos_bounds(d: Seq<u8>, from: int)
    requires
        0 <= from,
    ensures
        null_pos(d, from) matches Some(p) ==> from <= p < d.len() && d[p] == 0 && (forall|j: int|
            from <= j < p ==> d[j] != 0),
        null_pos(d, from) is None ==> forall|j: int| from <= j < d.len() ==> d[j] != 0,
    decreases d.len() - from,
{
    if from < d.len() && d[from] != 0 {
        lemma_null_pos_bounds(d, from + 1);
    }
}

/// A null-terminated UTF-8 string at the head of `d`: the decoded characters
/// and the suffix after the terminator. A missing terminator is `Truncated`;
/// a non-UTF-8 run is `InvalidUtf8`.
pub open spec fn spec_parse_cstr(d: Seq<u8>) -> Result<(Seq<char>, Seq<u8>), BsonError> {
    match null_pos(d, 0) {
        None => Err(BsonError::Truncated),
        Some(p) => {
            let bytes = d.subrange(0, p);
            if valid_utf8(bytes) {
                Ok((decode_utf8(bytes), d.subrange(p + 1, d.len() as int)))
            } else {
                Err(BsonError::InvalidUtf8)
            }
        },
    }
}

/// A length-prefixed UTF-8 string payload: little-endian `int32` byte length
/// `l` counting the trailing null, then `l - 1` payload bytes, then one null
/// byte. Yields the decoded characters and the bytes consumed. A negative or
/// zero length, or one reaching past the end, is `Truncated`.
pub open spec fn spec_parse_text(t: Seq<u8>) -> Result<(Seq<char>, int), BsonError> {
    if t.len() < 4 {
        Err(BsonError::Truncated)
    } else {
        let l = spec_u32_from_le_bytes(t.subrange(0, 4)) as int;
        if l >= 0x8000_0000 || l < 1 || 4 + l > t.len() {
            Err(BsonError::Truncated)
        } else {
            let bytes = t.subrange(4, 4 + l - 1);
            if valid_utf8(bytes) {
                Ok((decode_utf8(bytes), 4 + l))
            } else {
                Err(BsonError::InvalidUtf8)
            }
        }
    }
}

/// An embedded document or array payload: little-endian `int32` total size
/// `s` counting the size field itself and the trailing null, then `s - 5`
/// field-list bytes, then one null byte. Yields the field-list bytes and the
/// bytes consumed.
pub open spec fn spec_parse_doc_payload(t: Seq<u8>) -> Result<(Seq<u8>, int), BsonError> {
    if t.len() < 4 {
        Err(BsonError::Truncated)
    } else {
        let s = spec_u32_from_le_bytes(t.subrange(0, 4)) as int;
        if s >= 0x8000_0000 || s < 5 || s > t.len() {
            Err(BsonError::Truncated)
        } else {
            Ok((t.subrange(4, s - 1), s))
        }
    }
}

/// A binary payload: little-endian `int32` data length `l`, one subtype
/// byte, then `l` raw bytes. An unmapped subtype byte is `UnknownSubtype`.
pub open spec fn spec_parse_binary_payload(t: Seq<u8>) -> Result<
    ((BinaryType, Seq<u8>), int),
    BsonError,
> {
    if t.len() < 5 {
        Err(BsonError::Truncated)
    } else {
        let l = spec_u32_from_le_bytes(t.subrange(0, 4)) as int;
        if l >= 0x8000_0000 || 5 + l > t.len() {
            Err(BsonError::Truncated)
        } else {
            match spec_subtype(t[4]) {
                Err(e) => Err(e),
                Ok(bt) => Ok(((bt, t.subrange(5, 5 + l)), 5 + l)),
            }
        }
    }
}

/// Two consecutive null-terminated UTF-8 strings, as used by the two-string
/// and regular-expression tag.
pub open spec fn spec_parse_two_strings(t: Seq<u8>) -> Result<
    ((Seq<char>, Seq<char>), int),
    BsonError,
> {
    match spec_parse_cstr(t) {
        Err(e) => Err(e),
        Ok((first, r1)) => match spec_parse_cstr(r1) {
            Err(e) => Err(e),
            Ok((second, r2)) => Ok(((first, second), t.len() - r2.len())),
        },
    }
}

pub proof fn lemma_parse_cstr_rest(d: Seq<u8>)
    ensures
        spec_parse_cstr(d) matches Ok(p) ==> p.1.len() < d.len(),
{
    lemma_null_pos_bounds(d, 0);
}

/// A code-with-scope payload: little-endian `int32` total length counting
/// everything after the two length fields, `int32` code length `ls`, `ls`
/// code bytes, one null byte, then an embedded document filling the remaining
/// `total - ls - 1` bytes, framed as any embedded document.
pub open spec fn spec_parse_code_scope(t: Seq<u8>) -> Result<
    ((Seq<char>, Seq<u8>), int),
    BsonError,
> {
    if t.len() < 8 {
        Err(BsonError::Truncated)
    } else {
        let total = spec_u32_from_le_bytes(t.subrange(0, 4)) as int;
        let ls = spec_u32_from_le_bytes(t.subrange(4, 8)) as int;
        if total >= 0x8000_0000 || ls >= 0x8000_0000 || total < ls + 1 || 8 + total > t.len() {
            Err(BsonError::Truncated)
        } else {
            let region = t.subrange(9 + ls, 8 + total);
            match spec_parse_doc_payload(region) {
                Err(e) => Err(e),
                Ok((doc, _s)) => {
                    let code = t.subrange(8, 8 + ls);
                    if valid_utf8(code) {
                        Ok(((decode_utf8(code), doc), 8 + total))
                    } else {
                        Err(BsonError::InvalidUtf8)
                    }
                },
            }
        }
    }
}

/// The payload of one field, selected by its tag byte: the decoded value and
/// the number of payload bytes consumed.
pub open spec fn spec_parse_payload(tag: u8, t: Seq<u8>) -> Result<
    (SpecElement, int),
    BsonError,
> {
    if tag == ELEMENT_TYPE_DOUBLE {
        if t.len() < 8 {
            Err(BsonError::Truncated)
        } else {
            Ok((SpecElement::Double(spec_u64_from_le_bytes(t.subrange(0, 8))), 8))
        }
    } else if tag == ELEMENT_TYPE_STRING {
        match spec_parse_text(t) {
            Err(e) => Err(e),
            Ok((s, used)) => Ok((SpecElement::String(s), used)),
        }
    } else if tag == ELEMENT_TYPE_EMBED_DOCUMENT {
        match spec_parse_doc_payload(t) {
            Err(e) => Err(e),
            Ok((doc, used)) => Ok((SpecElement::EmbededDocument(doc), used)),
        }
    } else if tag == ELEMENT_TYPE_ARRAY_DOCUMENT {
        match spec_parse_doc_payload(t) {
            Err(e) => Err(e),
            Ok((doc, used)) => Ok((SpecElement::ArrayDocument(doc), used)),
        }
    } else if tag == ELEMENT_TYPE_BINARY {
        match spec_parse_binary_payload(t) {
            Err(e) => Err(e),
            Ok(((bt, data), used)) => Ok((SpecElement::Binary(bt, data), used)),
        }
    } else if tag == ELEMENT_TYPE_UNDEFINED {
        Ok((SpecElement::Undefined, 0))
    } else if tag == ELEMENT_TYPE_OBJECT_ID {
        if t.len() < 12 {
            Err(BsonError::Truncated)
        } else {
            Ok((SpecElement::ObjectId(t.subrange(0, 12)), 12))
        }
    } else if tag == ELEMENT_TYPE_BOOLEAN {
        if t.len() < 1 {
            Err(BsonError::Truncated)
        } else {
            Ok((SpecElement::Boolean(t[0] != 0), 1))
        }
    } else if tag == ELEMENT_TYPE_DATETIME {
        if t.len() < 8 {
            Err(BsonError::Truncated)
        } else {
            Ok((SpecElement::DateTime(spec_i64_of(spec_u64_from_le_bytes(t.subrange(0, 8)))), 8))
        }
    } else if tag == ELEMENT_TYPE_NULL {
        Ok((SpecElement::Null, 0))
    } else if tag == ELEMENT_TYPE_CSTRING {
        match spec_parse_two_strings(t) {
            Err(e) => Err(e),
            Ok(((s1, s2), used)) => Ok((SpecElement::Cstring(s1, s2), used)),
        }
    } else if tag == ELEMENT_TYPE_DBPOINTER {
        if t.len() < 12 {
            Err(BsonError::Truncated)
        } else {
            Ok((SpecElement::DbPointer(t.subrange(0, 12)), 12))
        }
    } else if tag == ELEMENT_TYPE_JAVASCRIPTCODE {
        match spec_parse_text(t) {
            Err(e) => Err(e),
            Ok((s, used)) => Ok((SpecElement::Javascript(s), used)),
        }
    } else if tag == ELEMENT_TYPE_SYMBOL {
        match spec_parse_text(t) {
            Err(e) => Err(e),
            Ok((s, used)) => Ok((SpecElement::Symbol(s), used)),
        }
    } else if tag == ELEMENT_TYPE_JAVASCRIPTCODEWITHSCOPE {
        match spec_parse_code_scope(t) {
            Err(e) => Err(e),
            Ok(((code, doc), used)) => Ok((SpecElement::JavascriptCode(code, doc), used)),
        }
    } else if tag == ELEMENT_TYPE_INT32 {
        if t.len() < 4 {
            Err(BsonError::Truncated)
        } else {
            Ok((SpecElement::Int32(spec_i32_of(spec_u32_from_le_bytes(t.subrange(0, 4)))), 4))
        }
    } else if tag == ELEMENT_TYPE_TIMESTAMP {
        if t.len() < 8 {
            Err(BsonError::Truncated)
        } else {
            Ok((SpecElement::Timestamp(spec_u64_from_le_bytes(t.subrange(0, 8))), 8))
        }
    } else if tag == ELEMENT_TYPE_INT64 {
        if t.len() < 8 {
            Err(BsonError::Truncated)
        } else {
            Ok((SpecElement::Int64(spec_i64_of(spec_u64_from_le_bytes(t.subrange(0, 8)))), 8))
        }
    } else if tag == ELEMENT_TYPE_DECIMAL128 {
        if t.len() < 16 {
            Err(BsonError::Truncated)
        } else {
            Ok((SpecElement::Decimal(t.subrange(0, 16)), 16))
        }
    } else if tag == ELEMENT_TYPE_MIN {
        Ok((SpecElement::Min, 0))
    } else if tag == ELEMENT_TYPE_MAX {
        Ok((SpecElement::Max, 0))
    } else {
        Err(BsonError::UnknownTag(tag))
    }
}

/// The two's-complement signed reading of a 32-bit word.
pub open spec fn spec_i32_of(v: u32) -> i32 {
    if v < 0x8000_0000 {
        v as i32
    } else {
        (v - 0x1_0000_0000) as i32
    }
}

/// The two's-complement signed reading of a 64-bit word.
pub open spec fn spec_i64_of(v: u64) -> i64 {
    if v < 0x8000_0000_0000_0000 {
        v as i64
    } else {
        (v - 0x1_0000_0000_0000_0000) as i64
    }
}

/// One whole field at the head of `d`: the tag byte selects the payload
/// decoder, the null-terminated name follows the tag, and the payload
/// follows the name. An empty suffix is `Truncated`; an unrecognized tag is
/// `UnknownTag`.
pub open spec fn spec_parse_field(d: Seq<u8>) -> Result<SpecField, BsonError> {
    if d.len() == 0 {
        Err(BsonError::Truncated)
    } else {
        let tag = d[0];
        if !known_tag(tag) {
            Err(BsonError::UnknownTag(tag))
        } else {
            match spec_parse_cstr(d.subrange(1, d.len() as int)) {
                Err(e) => Err(e),
                Ok((name, t)) => match spec_parse_payload(tag, t) {
                    Err(e) => Err(e),
                    Ok((value, used)) => Ok(
                        SpecField { name, value, rest: t.subrange(used, t.len() as int) },
                    ),
                },
            }
        }
    }
}

pub proof fn lemma_parse_payload_bounds(tag: u8, t: Seq<u8>)
    ensures
        spec_parse_payload(tag, t) matches Ok(p) ==> 0 <= p.1 <= t.len(),
{
    if spec_parse_payload(tag, t) is Ok {
        if tag == ELEMENT_TYPE_CSTRING {
            lemma_parse_cstr_rest(t);
            match spec_parse_cstr(t) {
                Ok((first, r1)) => lemma_parse_cstr_rest(r1),
                Err(_) => (),
            }
        }
    }
}

/// A successfully decoded field consumes at least its tag and name
/// terminator, so the remaining suffix is strictly shorter.
pub proof fn lemma_parse_field_rest(d: Seq<u8>)
    ensures
        spec_parse_field(d) matches Ok(f) ==> f.rest.len() < d.len(),
{
    if d.len() != 0 && known_tag(d[0]) {
        let inner = d.subrange(1, d.len() as int);
        lemma_null_pos_bounds(inner, 0);
        match spec_parse_cstr(inner) {
            Ok((name, t)) => lemma_parse_payload_bounds(d[0], t),
            Err(_) => (),
        }
    }
}

/// Field lookup by name: fields are decoded from the start of the suffix and
/// discarded until one whose name equals `key` is found. An exhausted field
/// list is `KeyNotFound`; a decode failure is surfaced as is.
pub open spec fn spec_lookup(d: Seq<u8>, key: Seq<char>) -> Result<SpecElement, BsonError>
    decreases d.len(),
    via spec_lookup_decreases
{
    if d.len() == 0 {
        Err(BsonError::KeyNotFound)
    } else {
        match spec_parse_field(d) {
            Err(e) => Err(e),
            Ok(f) => if f.name == key {
                Ok(f.value)
            } else {
                spec_lookup(f.rest, key)
            },
        }
    }
}

#[via_fn]
proof fn spec_lookup_decreases(d: Seq<u8>, key: Seq<char>) {
    lemma_parse_field_rest(d);
}

/// The fields a fresh iteration yields, in on-wire order: fields are decoded
/// from the start of the suffix until it is exhausted, and a decode failure
/// ends the sequence early.
pub open spec fn doc_fields(d: Seq<u8>) -> Seq<(Seq<char>, SpecElement)>
    decreases d.len(),
    via doc_fields_decreases
{
    if d.len() == 0 {
        Seq::empty()
    } else {
        match spec_parse_field(d) {
            Err(_) => Seq::empty(),
            Ok(f) => seq![(f.name, f.value)] + doc_fields(f.rest),
        }
    }
}

#[via_fn]
proof fn doc_fields_decreases(d: Seq<u8>) {
    lemma_parse_field_rest(d);
}

/// Top-level framing of a whole buffer: at least five bytes, a little-endian
/// `int32` total length that is at least five, at most the buffer length and
/// not negative, and a null byte at the declared end. The field-list payload
/// sits between the length prefix and that terminator. Any violation is
/// `MalformedHeader`.
pub open spec fn spec_open(b: Seq<u8>) -> Result<Seq<u8>, BsonError> {
    if b.len() < 5 {
        Err(BsonError::MalformedHeader)
    } else {
        let l = spec_u32_from_le_bytes(b.subrange(0, 4)) as int;
        if l >= 0x8000_0000 || l < 5 || l > b.len() || b[l - 1] != 0 {
            Err(BsonError::MalformedHeader)
        } else {
            Ok(b.subrange(4, l - 1))
        }
    }
}

/// Relies on `String::from_utf8`: it succeeds exactly on valid UTF-8 input
/// and yields the character sequence that input encodes.
#[verifier::external_body]
pub(crate) fn bytes_to_string(bytes: Vec<u8>) -> (r: Option<String>)
    ensures
        r is Some <==> valid_utf8(bytes@),
        r matches Some(s) ==> s@ == decode_utf8(bytes@),
{
    match String::from_utf8(bytes) {
        Ok(s) => Some(s),
        Err(_) => None,
    }
}

/// Reinterprets a 32-bit word as its two's-complement signed reading.
fn i32_of(v: u32) -> (r: i32)
    ensures
        r == spec_i32_of(v),
{
    if v < 0x8000_0000 {
        v as i32
    } else {
        (v as i64 - 0x1_0000_0000i64) as i32
    }
}

/// Reinterprets a 64-bit word as its two's-complement signed reading.
fn i64_of(v: u64) -> (r: i64)
    ensures
        r == spec_i64_of(v),
{
    if v < 0x8000_0000_0000_0000 {
        v as i64
    } else {
        (v as i128 - 0x1_0000_0000_0000_0000i128) as i64
    }
}

/// How an executable cstring parse must relate to the model.
pub open spec fn cstr_result_ok(d: Seq<u8>, r: Result<(String, &[u8]), BsonError>) -> bool {
    match spec_parse_cstr(d) {
        Ok(p) => r matches Ok(q) && q.0@ == p.0 && q.1@ == p.1,
        Err(e) => r matches Err(e2) && e2 == e,
    }
}

/// Decodes the null-terminated UTF-8 string at the head of `input`, returning
/// it together with the suffix after the terminator.
pub(crate) fn parse_estring<'a>(input: &'a [u8]) -> (r: Result<(String, &'a [u8]), BsonError>)
    ensures
        cstr_result_ok(input@, r),
{
    let ghost d = input@;
    let mut i: usize = 0;
    while i < input.len() && input[i] != 0
        invariant
            0 <= i <= d.len(),
            input@ == d,
            null_pos(d, 0) == null_pos(d, i as int),
        decreases d.len() - i,
    {
        i = i + 1;
    }
    if i == input.len() {
        return Err(BsonError::Truncated);
    }
    proof {
        assert(null_pos(d, 0) == Some(i as int));
    }
    let name_bytes = slice_to_vec(slice_subrange(input, 0, i));
    match bytes_to_string(name_bytes) {
        None => Err(BsonError::InvalidUtf8),
        Some(s) => Ok((s, slice_subrange(input, i + 1, input.len()))),
    }
}

/// Decodes a length-prefixed UTF-8 string payload, returning the string and
/// the number of payload bytes consumed.
fn parse_text_payload(t: &[u8]) -> (r: Result<(String, usize), BsonError>)
    ensures
        match spec_parse_text(t@) {
            Ok(p) => r matches Ok(q) && q.0@ == p.0 && q.1 == p.1,
            Err(e) => r matches Err(e2) && e2 == e,
        },
{
    if t.len() < 4 {
        return Err(BsonError::Truncated);
    }
    let l = u32_from_le_bytes(slice_subrange(t, 0, 4));
    if l >= 0x8000_0000 || l < 1 || 4u64 + l as u64 > t.len() as u64 {
        return Err(BsonError::Truncated);
    }
    let lu = l as usize;
    let bytes = slice_to_vec(slice_subrange(t, 4, 4 + lu - 1));
    match bytes_to_string(bytes) {
        None => Err(BsonError::InvalidUtf8),
        Some(s) => Ok((s, 4 + lu)),
    }
}

/// Decodes an embedded document or array payload, returning the owned
/// field-list bytes and the number of payload bytes consumed.
fn parse_doc_payload(t: &[u8]) -> (r: Result<(Vec<u8>, usize), BsonError>)
    ensures
        match spec_parse_doc_payload(t@) {
            Ok(p) => r matches Ok(q) && q.0@ == p.0 && q.1 == p.1,
            Err(e) => r matches Err(e2) && e2 == e,
        },
{
    if t.len() < 4 {
        return Err(BsonError::Truncated);
    }
    let s = u32_from_le_bytes(slice_subrange(t, 0, 4));
    if s >= 0x8000_0000 || s < 5 || s as u64 > t.len() as u64 {
        return Err(BsonError::Truncated);
    }
    let su = s as usize;
    Ok((slice_to_vec(slice_subrange(t, 4, su - 1)), su))
}

/// Decodes a binary payload: data length, subtype byte, raw data.
fn parse_binary_payload(t: &[u8]) -> (r: Result<(Binary, usize), BsonError>)
    ensures
        match spec_parse_binary_payload(t@) {
            Ok(p) => r matches Ok(q) && q.0.binary_type == p.0.0 && q.0.data@ == p.0.1 && q.1
                == p.1,
            Err(e) => r matches Err(e2) && e2 == e,
        },
{
    if t.len() < 5 {
        return Err(BsonError::Truncated);
    }
    let l = u32_from_le_bytes(slice_subrange(t, 0, 4));
    if l >= 0x8000_0000 || 5u64 + l as u64 > t.len() as u64 {
        return Err(BsonError::Truncated);
    }
    let lu = l as usize;
    let data = slice_to_vec(slice_subrange(t, 5, 5 + lu));
    match BinaryType::try_from(t[4]) {
        Err(e) => Err(e),
        Ok(bt) => Ok((Binary { binary_type: bt, data }, 5 + lu)),
    }
}

/// Decodes two consecutive null-terminated strings, returning them and the
/// number of payload bytes consumed.
fn parse_two_strings_payload(t: &[u8]) -> (r: Result<((String, String), usize), BsonError>)
    ensures
        match spec_parse_two_strings(t@) {
            Ok(p) => r matches Ok(q) && q.0.0@ == p.0.0 && q.0.1@ == p.0.1 && q.1 == p.1,
            Err(e) => r matches Err(e2) && e2 == e,
        },
{
    proof {
        lemma_parse_cstr_rest(t@);
    }
    match parse_estring(t) {
        Err(e) => Err(e),
        Ok((first, r1)) => {
            proof {
                lemma_parse_cstr_rest(r1@);
            }
            match parse_estring(r1) {
                Err(e) => Err(e),
                Ok((second, r2)) => Ok(((first, second), t.len() - r2.len())),
            }
        },
    }
}

/// Decodes a code-with-scope payload: the code string and the owned
/// field-list bytes of its scope document.
fn parse_code_scope_payload(t: &[u8]) -> (r: Result<((String, Vec<u8>), usize), BsonError>)
    ensures
        match spec_parse_code_scope(t@) {
            Ok(p) => r matches Ok(q) && q.0.0@ == p.0.0 && q.0.1@ == p.0.1 && q.1 == p.1,
            Err(e) => r matches Err(e2) && e2 == e,
        },
{
    if t.len() < 8 {
        return Err(BsonError::Truncated);
    }
    let total = u32_from_le_bytes(slice_subrange(t, 0, 4));
    let ls = u32_from_le_bytes(slice_subrange(t, 4, 8));
    if total >= 0x8000_0000 || ls >= 0x8000_0000 || (total as u64) < ls as u64 + 1 || 8u64
        + total as u64 > t.len() as u64 {
        return Err(BsonError::Truncated);
    }
    let totalu = total as usize;
    let lsu = ls as usize;
    let region = slice_subrange(t, 9 + lsu, 8 + totalu);
    match parse_doc_payload(region) {
        Err(e) => Err(e),
        Ok((doc, _s)) => {
            let code_bytes = slice_to_vec(slice_subrange(t, 8, 8 + lsu));
            match bytes_to_string(code_bytes) {
                None => Err(BsonError::InvalidUtf8),
                Some(code) => Ok(((code, doc), 8 + totalu)),
            }
        },
    }
}

/// Copies the first twelve bytes of a slice into a fixed array.
fn to_array_12(t: &[u8]) -> (r: [u8; 12])
    requires
        t@.len() >= 12,
    ensures
        r@ == t@.subrange(0, 12),
{
    let r: [u8; 12] = [
        t[0],
        t[1],
        t[2],
        t[3],
        t[4],
        t[5],
        t[6],
        t[7],
        t[8],
        t[9],
        t[10],
        t[11],
    ];
    proof {
        assert(r@ =~= t@.subrange(0, 12));
    }
    r
}

/// Copies the first sixteen bytes of a slice into a fixed array.
fn to_array_16(t: &[u8]) -> (r: [u8; 16])
    requires
        t@.len() >= 16,
    ensures
        r@ == t@.subrange(0, 16),
{
    let r: [u8; 16] = [
        t[0],
        t[1],
        t[2],
        t[3],
        t[4],
        t[5],
        t[6],
        t[7],
        t[8],
        t[9],
        t[10],
        t[11],
        t[12],
        t[13],
        t[14],
        t[15],
    ];
    proof {
        assert(r@ =~= t@.subrange(0, 16));
    }
    r
}

/// How an executable field decode must relate to the model: the same error,
/// or a name, value and remainder whose views are the model's.
pub open spec fn field_result_ok(
    d: Seq<u8>,
    r: Result<(String, Element, &[u8]), BsonError>,
) -> bool {
    match spec_parse_field(d) {
        Ok(f) => r matches Ok(q) && q.0@ == f.name && q.1@ == f.value && q.2@ == f.rest,
        Err(e) => r matches Err(e2) && e2 == e,
    }
}

pub(crate) fn parse_double<'a>(input: &'a [u8]) -> (r: Result<
    (String, Element, &'a [u8]),
    BsonError,
>)
    requires
        input@.len() > 0,
        input@[0] == ELEMENT_TYPE_DOUBLE,
    ensures
        field_result_ok(input@, r),
{
    match parse_estring(slice_subrange(input, 1, input.len())) {
        Err(e) => Err(e),
        Ok((name, t)) => {
            if t.len() < 8 {
                return Err(BsonError::Truncated);
            }
            let bits = u64_from_le_bytes(slice_subrange(t, 0, 8));
            Ok((name, Element::Double(bits), slice_subrange(t, 8, t.len())))
        },
    }
}

pub(crate) fn parse_string<'a>(input: &'a [u8]) -> (r: Result<
    (String, Element, &'a [u8]),
    BsonError,
>)
    requires
        input@.len() > 0,
        input@[0] == ELEMENT_TYPE_STRING,
    ensures
        field_result_ok(input@, r),
{
    match parse_estring(slice_subrange(input, 1, input.len())) {
        Err(e) => Err(e),
        Ok((name, t)) => match parse_text_payload(t) {
            Err(e) => Err(e),
            Ok((s, used)) => Ok((name, Element::String(s), slice_subrange(t, used, t.len()))),
        },
    }
}

pub(crate) fn parse_javascript<'a>(input: &'a [u8]) -> (r: Result<
    (String, Element, &'a [u8]),
    BsonError,
>)
    requires
        input@.len() > 0,
        input@[0] == ELEMENT_TYPE_JAVASCRIPTCODE,
    ensures
        field_result_ok(input@, r),
{
    match parse_estring(slice_subrange(input, 1, input.len())) {
        Err(e) => Err(e),
        Ok((name, t)) => match parse_text_payload(t) {
            Err(e) => Err(e),
            Ok((s, used)) => Ok((name, Element::Javascript(s), slice_subrange(t, used, t.len()))),
        },
    }
}

pub(crate) fn parse_symbol<'a>(input: &'a [u8]) -> (r: Result<
    (String, Element, &'a [u8]),
    BsonError,
>)
    requires
        input@.len() > 0,
        input@[0] == ELEMENT_TYPE_SYMBOL,
    ensures
        field_result_ok(input@, r),
{
    match parse_estring(slice_subrange(input, 1, input.len())) {
        Err(e) => Err(e),
        Ok((name, t)) => match parse_text_payload(t) {
            Err(e) => Err(e),
            Ok((s, used)) => Ok((name, Element::Symbol(s), slice_subrange(t, used, t.len()))),
        },
    }
}

pub(crate) fn parse_embeded_document<'a>(input: &'a [u8]) -> (r: Result<
    (String, Element, &'a [u8]),
    BsonError,
>)
    requires
        input@.len() > 0,
        input@[0] == ELEMENT_TYPE_EMBED_DOCUMENT,
    ensures
        field_result_ok(input@, r),
{
    match parse_estring(slice_subrange(input, 1, input.len())) {
        Err(e) => Err(e),
        Ok((name, t)) => match parse_doc_payload(t) {
            Err(e) => Err(e),
            Ok((data, used)) => Ok(
                (
                    name,
                    Element::EmbededDocument(Document { data }),
                    slice_subrange(t, used, t.len()),
                ),
            ),
        },
    }
}

pub(crate) fn parse_array_document<'a>(input: &'a [u8]) -> (r: Result<
    (String, Element, &'a [u8]),
    BsonError,
>)
    requires
        input@.len() > 0,
        input@[0] == ELEMENT_TYPE_ARRAY_DOCUMENT,
    ensures
        field_result_ok(input@, r),
{
    match parse_estring(slice_subrange(input, 1, input.len())) {
        Err(e) => Err(e),
        Ok((name, t)) => match parse_doc_payload(t) {
            Err(e) => Err(e),
            Ok((data, used)) => Ok(
                (name, Element::ArrayDocument(Array { data }), slice_subrange(t, used, t.len())),
            ),
        },
    }
}

pub(crate) fn parse_binary<'a>(input: &'a [u8]) -> (r: Result<
    (String, Element, &'a [u8]),
    BsonError,
>)
    requires
        input@.len() > 0,
        input@[0] == ELEMENT_TYPE_BINARY,
    ensures
        field_result_ok(input@, r),
{
    match parse_estring(slice_subrange(input, 1, input.len())) {
        Err(e) => Err(e),
        Ok((name, t)) => match parse_binary_payload(t) {
            Err(e) => Err(e),
            Ok((binary, used)) => Ok(
                (name, Element::Binary(binary), slice_subrange(t, used, t.len())),
            ),
        },
    }
}

pub(crate) fn parse_object_id<'a>(input: &'a [u8]) -> (r: Result<
    (String, Element, &'a [u8]),
    BsonError,
>)
    requires
        input@.len() > 0,
        input@[0] == ELEMENT_TYPE_OBJECT_ID,
    ensures
        field_result_ok(input@, r),
{
    match parse_estring(slice_subrange(input, 1, input.len())) {
        Err(e) => Err(e),
        Ok((name, t)) => {
            if t.len() < 12 {
                return Err(BsonError::Truncated);
            }
            let id = to_array_12(t);
            Ok((name, Element::ObjectId(ObjectId { id }), slice_subrange(t, 12, t.len())))
        },
    }
}

pub(crate) fn parse_dbpointer<'a>(input: &'a [u8]) -> (r: Result<
    (String, Element, &'a [u8]),
    BsonError,
>)
    requires
        input@.len() > 0,
        input@[0] == ELEMENT_TYPE_DBPOINTER,
    ensures
        field_result_ok(input@, r),
{
    match parse_estring(slice_subrange(input, 1, input.len())) {
        Err(e) => Err(e),
        Ok((name, t)) => {
            if t.len() < 12 {
                return Err(BsonError::Truncated);
            }
            let ptr = to_array_12(t);
            Ok((name, Element::DbPointer(ptr), slice_subrange(t, 12, t.len())))
        },
    }
}

pub(crate) fn parse_boolean<'a>(input: &'a [u8]) -> (r: Result<
    (String, Element, &'a [u8]),
    BsonError,
>)
    requires
        input@.len() > 0,
        input@[0] == ELEMENT_TYPE_BOOLEAN,
    ensures
        field_result_ok(input@, r),
{
    match parse_estring(slice_subrange(input, 1, input.len())) {
        Err(e) => Err(e),
        Ok((name, t)) => {
            if t.len() < 1 {
                return Err(BsonError::Truncated);
            }
            Ok((name, Element::Boolean(t[0] != 0), slice_subrange(t, 1, t.len())))
        },
    }
}

/// Decodes a signed 64-bit field; the datetime and 64-bit integer tags share
/// this framing and differ only in the variant produced.
pub(crate) fn parse_int64<'a>(input: &'a [u8]) -> (r: Result<
    (String, Element, &'a [u8]),
    BsonError,
>)
    requires
        input@.len() > 0,
        input@[0] == ELEMENT_TYPE_DATETIME || input@[0] == ELEMENT_TYPE_INT64,
    ensures
        field_result_ok(input@, r),
{
    let tag = input[0];
    match parse_estring(slice_subrange(input, 1, input.len())) {
        Err(e) => Err(e),
        Ok((name, t)) => {
            if t.len() < 8 {
                return Err(BsonError::Truncated);
            }
            let v = i64_of(u64_from_le_bytes(slice_subrange(t, 0, 8)));
            let element = if tag == ELEMENT_TYPE_DATETIME {
                Element::DateTime(v)
            } else {
                Element::Int64(v)
            };
            Ok((name, element, slice_subrange(t, 8, t.len())))
        },
    }
}

pub(crate) fn parse_uint64<'a>(input: &'a [u8]) -> (r: Result<
    (String, Element, &'a [u8]),
    BsonError,
>)
    requires
        input@.len() > 0,
        input@[0] == ELEMENT_TYPE_TIMESTAMP,
    ensures
        field_result_ok(input@, r),
{
    match parse_estring(slice_subrange(input, 1, input.len())) {
        Err(e) => Err(e),
        Ok((name, t)) => {
            if t.len() < 8 {
                return Err(BsonError::Truncated);
            }
            let v = u64_from_le_bytes(slice_subrange(t, 0, 8));
            Ok((name, Element::Timestamp(v), slice_subrange(t, 8, t.len())))
        },
    }
}

pub(crate) fn parse_int32<'a>(input: &'a [u8]) -> (r: Result<
    (String, Element, &'a [u8]),
    BsonError,
>)
    requires
        input@.len() > 0,
        input@[0] == ELEMENT_TYPE_INT32,
    ensures
        field_result_ok(input@, r),
{
    match parse_estring(slice_subrange(input, 1, input.len())) {
        Err(e) => Err(e),
        Ok((name, t)) => {
            if t.len() < 4 {
                return Err(BsonError::Truncated);
            }
            let v = i32_of(u32_from_le_bytes(slice_subrange(t, 0, 4)));
            Ok((name, Element::Int32(v), slice_subrange(t, 4, t.len())))
        },
    }
}

pub(crate) fn parse_decimal_128<'a>(input: &'a [u8]) -> (r: Result<
    (String, Element, &'a [u8]),
    BsonError,
>)
    requires
        input@.len() > 0,
        input@[0] == ELEMENT_TYPE_DECIMAL128,
    ensures
        field_result_ok(input@, r),
{
    match parse_estring(slice_subrange(input, 1, input.len())) {
        Err(e) => Err(e),
        Ok((name, t)) => {
            if t.len() < 16 {
                return Err(BsonError::Truncated);
            }
            let d = to_array_16(t);
            Ok((name, Element::Decimal(d), slice_subrange(t, 16, t.len())))
        },
    }
}

pub(crate) fn parse_cstring<'a>(input: &'a [u8]) -> (r: Result<
    (String, Element, &'a [u8]),
    BsonError,
>)
    requires
        input@.len() > 0,
        input@[0] == ELEMENT_TYPE_CSTRING,
    ensures
        field_result_ok(input@, r),
{
    match parse_estring(slice_subrange(input, 1, input.len())) {
        Err(e) => Err(e),
        Ok((name, t)) => match parse_two_strings_payload(t) {
            Err(e) => Err(e),
            Ok(((first, second), used)) => Ok(
                (name, Element::Cstring(first, second), slice_subrange(t, used, t.len())),
            ),
        },
    }
}

pub(crate) fn parse_javascript_with_scope<'a>(input: &'a [u8]) -> (r: Result<
    (String, Element, &'a [u8]),
    BsonError,
>)
    requires
        input@.len() > 0,
        input@[0] == ELEMENT_TYPE_JAVASCRIPTCODEWITHSCOPE,
    ensures
        field_result_ok(input@, r),
{
    match parse_estring(slice_subrange(input, 1, input.len())) {
        Err(e) => Err(e),
        Ok((name, t)) => match parse_code_scope_payload(t) {
            Err(e) => Err(e),
            Ok(((code, data), used)) => Ok(
                (
                    name,
                    Element::JavascriptCode(code, Document { data }),
                    slice_subrange(t, used, t.len()),
                ),
            ),
        },
    }
}

pub(crate) fn parse_null<'a>(input: &'a [u8]) -> (r: Result<
    (String, Element, &'a [u8]),
    BsonError,
>)
    requires
        input@.len() > 0,
        input@[0] == ELEMENT_TYPE_NULL,
    ensures
        field_result_ok(input@, r),
{
    match parse_estring(slice_subrange(input, 1, input.len())) {
        Err(e) => Err(e),
        Ok((name, t)) => Ok((name, Element::Null, slice_subrange(t, 0, t.len()))),
    }
}

pub(crate) fn parse_undefined<'a>(input: &'a [u8]) -> (r: Result<
    (String, Element, &'a [u8]),
    BsonError,
>)
    requires
        input@.len() > 0,
        input@[0] == ELEMENT_TYPE_UNDEFINED,
    ensures
        field_result_ok(input@, r),
{
    match parse_estring(slice_subrange(input, 1, input.len())) {
        Err(e) => Err(e),
        Ok((name, t)) => Ok((name, Element::Undefined, slice_subrange(t, 0, t.len()))),
    }
}

pub(crate) fn parse_min<'a>(input: &'a [u8]) -> (r: Result<(String, Element, &'a [u8]), BsonError>)
    requires
        input@.len() > 0,
        input@[0] == ELEMENT_TYPE_MIN,
    ensures
        field_result_ok(input@, r),
{
    match parse_estring(slice_subrange(input, 1, input.len())) {
        Err(e) => Err(e),
        Ok((name, t)) => Ok((name, Element::Min, slice_subrange(t, 0, t.len()))),
    }
}

pub(crate) fn parse_max<'a>(input: &'a [u8]) -> (r: Result<(String, Element, &'a [u8]), BsonError>)
    requires
        input@.len() > 0,
        input@[0] == ELEMENT_TYPE_MAX,
    ensures
        field_result_ok(input@, r),
{
    match parse_estring(slice_subrange(input, 1, input.len())) {
        Err(e) => Err(e),
        Ok((name, t)) => Ok((name, Element::Max, slice_subrange(t, 0, t.len()))),
    }
}

/// Decodes the field at the head of `input`: the tag byte selects the
/// matching per-type decoder, which returns the field's name, its value, and
/// the unconsumed remainder of the slice. An empty slice is `Truncated`; an
/// unrecognized tag byte is `UnknownTag`.
pub fn parse_any<'a>(input: &'a [u8]) -> (r: Result<(String, Element, &'a [u8]), BsonError>)
    ensures
        field_result_ok(input@, r),
{
    if input.len() == 0 {
        return Err(BsonError::Truncated);
    }
    let tag = input[0];
    if tag == ELEMENT_TYPE_DOUBLE {
        parse_double(input)
    } else if tag == ELEMENT_TYPE_STRING {
        parse_string(input)
    } else if tag == ELEMENT_TYPE_EMBED_DOCUMENT {
        parse_embeded_document(input)
    } else if tag == ELEMENT_TYPE_ARRAY_DOCUMENT {
        parse_array_document(input)
    } else if tag == ELEMENT_TYPE_BINARY {
        parse_binary(input)
    } else if tag == ELEMENT_TYPE_UNDEFINED {
        parse_undefined(input)
    } else if tag == ELEMENT_TYPE_OBJECT_ID {
        parse_object_id(input)
    } else if tag == ELEMENT_TYPE_BOOLEAN {
        parse_boolean(input)
    } else if tag == ELEMENT_TYPE_DATETIME {
        parse_int64(input)
    } else if tag == ELEMENT_TYPE_NULL {
        parse_null(input)
    } else if tag == ELEMENT_TYPE_CSTRING {
        parse_cstring(input)
    } else if tag == ELEMENT_TYPE_DBPOINTER {
        parse_dbpointer(input)
    } else if tag == ELEMENT_TYPE_JAVASCRIPTCODE {
        parse_javascript(input)
    } else if tag == ELEMENT_TYPE_SYMBOL {
        parse_symbol(input)
    } else if tag == ELEMENT_TYPE_JAVASCRIPTCODEWITHSCOPE {
        parse_javascript_with_scope(input)
    } else if tag == ELEMENT_TYPE_INT32 {
        parse_int32(input)
    } else if tag == ELEMENT_TYPE_TIMESTAMP {
        parse_uint64(input)
    } else if tag == ELEMENT_TYPE_INT64 {
        parse_int64(input)
    } else if tag == ELEMENT_TYPE_DECIMAL128 {
        parse_decimal_128(input)
    } else if tag == ELEMENT_TYPE_MIN {
        parse_min(input)
    } else if tag == ELEMENT_TYPE_MAX {
        parse_max(input)
    } else {
        Err(BsonError::UnknownTag(tag))
    }
}

/// Validates the top-level framing of a whole buffer and carves out the
/// field-list payload between the length prefix and the trailing null.
pub(crate) fn parse_document(input: &[u8]) -> (r: Result<Document, BsonError>)
    ensures
        match spec_open(input@) {
            Ok(p) => r matches Ok(doc) && doc@ == p,
            Err(e) => r matches Err(e2) && e2 == e,
        },
{
    if input.len() < 5 {
        return Err(BsonError::MalformedHeader);
    }
    let l = u32_from_le_bytes(slice_subrange(input, 0, 4));
    if l >= 0x8000_0000 || l < 5 || l as u64 > input.len() as u64 {
        return Err(BsonError::MalformedHeader);
    }
    let lu = l as usize;
    if input[lu - 1] != 0 {
        return Err(BsonError::MalformedHeader);
    }
    Ok(Document { data: slice_to_vec(slice_subrange(input, 4, lu - 1)) })
}

} // verus!
