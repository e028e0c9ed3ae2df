//! Typed values, documents, and the error type of the decoder.
//!
//! A [`Document`] or [`Array`] owns the raw field-list bytes of one decoded
//! object — the bytes between its length prefix and its trailing null — and
//! decodes fields lazily: lookup and iteration both replay the field decoder
//! from the start of those bytes. An [`Element`] is one decoded value; its
//! mathematical image is a [`SpecElement`](crate::parse::SpecElement), and
//! every accessor is specified against that image.

use vstd::prelude::*;
use vstd::utf8::{valid_utf8, decode_utf8, partial_valid_utf8, partial_valid_utf8_extend_ascii_block};
use crate::parse::{
    SpecElement, spec_lookup, spec_open, spec_parse_field, parse_any, parse_document,
    bytes_to_string, lemma_parse_field_rest,
};

verus! {

/// A 128-bit decimal payload, kept opaque as its 16 raw bytes.
pub type Decimal = [u8; 16];

/// A 12-byte pointer value.
pub type DbPointer = [u8; 12];

/// A code string together with the document giving its scope.
pub type JavascriptCode = (String, Document);

/// A decoded field: its name and its value.
pub type KeyPair<T> = (String, T);

/// Every way a decode or access operation can fail. Exactly one error is
/// surfaced per failed operation; the decoder never panics on malformed input.
#[derive(Debug, PartialEq, Eq, Clone, Copy)]
pub enum BsonError {
    /// A declared length or offset would read past the end of the available bytes.
    Truncated,
    /// The top-level length prefix is inconsistent with the buffer size or terminator.
    MalformedHeader,
    /// The leading type byte of a field is not in the recognized set.
    UnknownTag(u8),
    /// The subtype byte of a binary field is not in the recognized set.
    UnknownSubtype(u8),
    /// A name or string payload is not valid UTF-8.
    InvalidUtf8,
    /// A lookup exhausted the field list without finding the key.
    KeyNotFound,
    /// A narrowing operation was applied to a value of the wrong variant.
    TypeMismatch,
}

/// The subtype tag carried by a binary field, distinguishing binary content
/// kinds. The payload itself is kept opaque.
#[derive(Debug, PartialEq, Eq, Clone, Copy)]
pub enum BinaryType {
    BinaryGeneric,
    BinaryFunction,
    BinaryBinary,
    BinaryOldUuid,
    BinaryUuid,
    BinaryMd5,
    BinaryEncrypted,
    BinaryCompressed,
    BinaryUserDefined,
}

/// The subtype denoted by a wire subtype byte, or the error for a byte
/// outside the recognized set.
pub open spec fn spec_subtype(value: u8) -> Result<BinaryType, BsonError> {
    if value == 0x00 {
        Ok(BinaryType::BinaryGeneric)
    } else if value == 0x01 {
        Ok(BinaryType::BinaryFunction)
    } else if value == 0x02 {
        Ok(BinaryType::BinaryBinary)
    } else if value == 0x03 {
        Ok(BinaryType::BinaryOldUuid)
    } else if value == 0x04 {
        Ok(BinaryType::BinaryUuid)
    } else if value == 0x05 {
        Ok(BinaryType::BinaryMd5)
    } else if value == 0x06 {
        Ok(BinaryType::BinaryEncrypted)
    } else if value == 0x07 {
        Ok(BinaryType::BinaryCompressed)
    } else if value == 0x80 {
        Ok(BinaryType::BinaryUserDefined)
    } else {
        Err(BsonError::UnknownSubtype(value))
    }
}

impl BinaryType {
    /// Maps a wire subtype byte to its subtype; an unmapped byte is a typed
    /// decode error, never a silent coercion.
    pub fn try_from(value: u8) -> (r: Result<BinaryType, BsonError>)
        ensures
            r == spec_subtype(value),
    {
        match value {
            0x00 => Ok(BinaryType::BinaryGeneric),
            0x01 => Ok(BinaryType::BinaryFunction),
            0x02 => Ok(BinaryType::BinaryBinary),
            0x03 => Ok(BinaryType::BinaryOldUuid),
            0x04 => Ok(BinaryType::BinaryUuid),
            0x05 => Ok(BinaryType::BinaryMd5),
            0x06 => Ok(BinaryType::BinaryEncrypted),
            0x07 => Ok(BinaryType::BinaryCompressed),
            0x80 => Ok(BinaryType::BinaryUserDefined),
            _ => Err(BsonError::UnknownSubtype(value)),
        }
    }
}

/// A binary field's payload: its subtype tag and its raw bytes.
#[derive(Debug, Clone, PartialEq, Eq)]
pub struct Binary {
    pub binary_type: BinaryType,
    pub data: Vec<u8>,
}

/// A fixed 12-byte object identifier, ordered lexicographically by its bytes
/// and rendered as 24 lowercase hex digits.
#[derive(Debug, Clone, Copy, PartialEq, Eq, PartialOrd, Ord, Hash)]
pub struct ObjectId {
    pub id: [u8; 12],
}

/// A decoded value: one variant per wire tag. A double is carried as the raw
/// little-endian bit pattern of its eight payload bytes, so that the numeric
/// reading stays with the caller.
#[derive(Debug, Clone, PartialEq)]
pub enum Element {
    Double(u64),
    String(String),
    EmbededDocument(Document),
    ArrayDocument(Array),
    Binary(Binary),
    Cstring(String, String),
    Undefined,
    ObjectId(ObjectId),
    Boolean(bool),
    DateTime(i64),
    Null,
    RegularExpression { pattern: String, options: String },
    DbPointer([u8; 12]),
    Javascript(String),
    Symbol(String),
    JavascriptCode(String, Document),
    Int32(i32),
    Timestamp(u64),
    Int64(i64),
    Decimal(Decimal),
    Min,
    Max,
}

/// A document: the raw bytes of its field list, decoded on demand.
#[derive(Debug, Clone, PartialEq)]
pub struct Document {
    pub data: Vec<u8>,
}

/// An array: a document whose field names are the decimal renderings of the
/// zero-based indices "0", "1", "2", …
#[derive(Debug, Clone, PartialEq)]
pub struct Array {
    pub data: Vec<u8>,
}

impl View for Document {
    type V = Seq<u8>;

    open spec fn view(&self) -> Seq<u8> {
        self.data@
    }
}

impl View for Array {
    type V = Seq<u8>;

    open spec fn view(&self) -> Seq<u8> {
        self.data@
    }
}

impl View for Element {
    type V = SpecElement;

    open spec fn view(&self) -> SpecElement {
        match self {
            Element::Double(bits) => SpecElement::Double(*bits),
            Element::String(s) => SpecElement::String(s@),
            Element::EmbededDocument(doc) => SpecElement::EmbededDocument(doc@),
            Element::ArrayDocument(arr) => SpecElement::ArrayDocument(arr@),
            Element::Binary(b) => SpecElement::Binary(b.binary_type, b.data@),
            Element::Cstring(s1, s2) => SpecElement::Cstring(s1@, s2@),
            Element::Undefined => SpecElement::Undefined,
            Element::ObjectId(o) => SpecElement::ObjectId(o.id@),
            Element::Boolean(b) => SpecElement::Boolean(*b),
            Element::DateTime(v) => SpecElement::DateTime(*v),
            Element::Null => SpecElement::Null,
            Element::RegularExpression { pattern, options } => SpecElement::RegularExpression {
                pattern: pattern@,
                options: options@,
            },
            Element::DbPointer(p) => SpecElement::DbPointer(p@),
            Element::Javascript(s) => SpecElement::Javascript(s@),
            Element::Symbol(s) => SpecElement::Symbol(s@),
            Element::JavascriptCode(s, doc) => SpecElement::JavascriptCode(s@, doc@),
            Element::Int32(v) => SpecElement::Int32(*v),
            Element::Timestamp(v) => SpecElement::Timestamp(*v),
            Element::Int64(v) => SpecElement::Int64(*v),
            Element::Decimal(d) => SpecElement::Decimal(d@),
            Element::Min => SpecElement::Min,
            Element::Max => SpecElement::Max,
        }
    }
}

impl Element {
    /// Narrows to the bit pattern of a double; any other variant is `TypeMismatch`.
    pub fn as_float(self) -> (r: Result<u64, BsonError>)
        ensures
            self@ matches SpecElement::Double(bits) ==> (r matches Ok(x) && x == bits),
            !(self@ is Double) ==> (r matches Err(e) && e == BsonError::TypeMismatch),
    {
        match self {
            Element::Double(bits) => Ok(bits),
            _ => Err(BsonError::TypeMismatch),
        }
    }

    /// Narrows to a string; any other variant is `TypeMismatch`.
    pub fn as_string(self) -> (r: Result<String, BsonError>)
        ensures
            self@ matches SpecElement::String(s) ==> (r matches Ok(x) && x@ == s),
            !(self@ is String) ==> (r matches Err(e) && e == BsonError::TypeMismatch),
    {
        match self {
            Element::String(s) => Ok(s),
            _ => Err(BsonError::TypeMismatch),
        }
    }

    /// Narrows to an embedded document; any other variant is `TypeMismatch`.
    pub fn as_document(self) -> (r: Result<Document, BsonError>)
        ensures
            self@ matches SpecElement::EmbededDocument(d) ==> (r matches Ok(x) && x@ == d),
            !(self@ is EmbededDocument) ==> (r matches Err(e) && e == BsonError::TypeMismatch),
    {
        match self {
            Element::EmbededDocument(doc) => Ok(doc),
            _ => Err(BsonError::TypeMismatch),
        }
    }

    /// Narrows to a binary payload; any other variant is `TypeMismatch`.
    pub fn as_binary(self) -> (r: Result<Binary, BsonError>)
        ensures
            self@ matches SpecElement::Binary(bt, data) ==> (r matches Ok(x) && x.binary_type == bt
                && x.data@ == data),
            !(self@ is Binary) ==> (r matches Err(e) && e == BsonError::TypeMismatch),
    {
        match self {
            Element::Binary(b) => Ok(b),
            _ => Err(BsonError::TypeMismatch),
        }
    }

    /// Narrows to an object identifier; any other variant is `TypeMismatch`.
    pub fn as_object_id(self) -> (r: Result<ObjectId, BsonError>)
        ensures
            self@ matches SpecElement::ObjectId(b) ==> (r matches Ok(x) && x.id@ == b),
            !(self@ is ObjectId) ==> (r matches Err(e) && e == BsonError::TypeMismatch),
    {
        match self {
            Element::ObjectId(o) => Ok(o),
            _ => Err(BsonError::TypeMismatch),
        }
    }

    /// Narrows to a boolean; any other variant is `TypeMismatch`.
    pub fn as_bool(self) -> (r: Result<bool, BsonError>)
        ensures
            self@ matches SpecElement::Boolean(b) ==> (r matches Ok(x) && x == b),
            !(self@ is Boolean) ==> (r matches Err(e) && e == BsonError::TypeMismatch),
    {
        match self {
            Element::Boolean(b) => Ok(b),
            _ => Err(BsonError::TypeMismatch),
        }
    }

    /// Narrows to a datetime in milliseconds; any other variant is `TypeMismatch`.
    pub fn as_datetime(self) -> (r: Result<i64, BsonError>)
        ensures
            self@ matches SpecElement::DateTime(v) ==> (r matches Ok(x) && x == v),
            !(self@ is DateTime) ==> (r matches Err(e) && e == BsonError::TypeMismatch),
    {
        match self {
            Element::DateTime(v) => Ok(v),
            _ => Err(BsonError::TypeMismatch),
        }
    }

    /// Narrows to a pointer value; any other variant is `TypeMismatch`.
    pub fn as_dbpointer(self) -> (r: Result<DbPointer, BsonError>)
        ensures
            self@ matches SpecElement::DbPointer(b) ==> (r matches Ok(x) && x@ == b),
            !(self@ is DbPointer) ==> (r matches Err(e) && e == BsonError::TypeMismatch),
    {
        match self {
            Element::DbPointer(p) => Ok(p),
            _ => Err(BsonError::TypeMismatch),
        }
    }

    /// Narrows to a code string; any other variant is `TypeMismatch`.
    pub fn as_javascript(self) -> (r: Result<String, BsonError>)
        ensures
            self@ matches SpecElement::Javascript(s) ==> (r matches Ok(x) && x@ == s),
            !(self@ is Javascript) ==> (r matches Err(e) && e == BsonError::TypeMismatch),
    {
        match self {
            Element::Javascript(s) => Ok(s),
            _ => Err(BsonError::TypeMismatch),
        }
    }

    /// Narrows to a symbol string; any other variant is `TypeMismatch`.
    pub fn as_symbol(self) -> (r: Result<String, BsonError>)
        ensures
            self@ matches SpecElement::Symbol(s) ==> (r matches Ok(x) && x@ == s),
            !(self@ is Symbol) ==> (r matches Err(e) && e == BsonError::TypeMismatch),
    {
        match self {
            Element::Symbol(s) => Ok(s),
            _ => Err(BsonError::TypeMismatch),
        }
    }

    /// Narrows to an array; any other variant is `TypeMismatch`.
    pub fn as_array(self) -> (r: Result<Array, BsonError>)
        ensures
            self@ matches SpecElement::ArrayDocument(d) ==> (r matches Ok(x) && x@ == d),
            !(self@ is ArrayDocument) ==> (r matches Err(e) && e == BsonError::TypeMismatch),
    {
        match self {
            Element::ArrayDocument(arr) => Ok(arr),
            _ => Err(BsonError::TypeMismatch),
        }
    }

    /// Narrows to a 32-bit integer; any other variant is `TypeMismatch`.
    pub fn as_int32(self) -> (r: Result<i32, BsonError>)
        ensures
            self@ matches SpecElement::Int32(v) ==> (r matches Ok(x) && x == v),
            !(self@ is Int32) ==> (r matches Err(e) && e == BsonError::TypeMismatch),
    {
        match self {
            Element::Int32(v) => Ok(v),
            _ => Err(BsonError::TypeMismatch),
        }
    }

    /// Narrows to a timestamp; any other variant is `TypeMismatch`.
    pub fn as_timestamp(self) -> (r: Result<u64, BsonError>)
        ensures
            self@ matches SpecElement::Timestamp(v) ==> (r matches Ok(x) && x == v),
            !(self@ is Timestamp) ==> (r matches Err(e) && e == BsonError::TypeMismatch),
    {
        match self {
            Element::Timestamp(v) => Ok(v),
            _ => Err(BsonError::TypeMismatch),
        }
    }

    /// Narrows to a 64-bit integer; any other variant is `TypeMismatch`.
    pub fn as_i64(self) -> (r: Result<i64, BsonError>)
        ensures
            self@ matches SpecElement::Int64(v) ==> (r matches Ok(x) && x == v),
            !(self@ is Int64) ==> (r matches Err(e) && e == BsonError::TypeMismatch),
    {
        match self {
            Element::Int64(v) => Ok(v),
            _ => Err(BsonError::TypeMismatch),
        }
    }

    /// Narrows to a 128-bit decimal payload; any other variant is `TypeMismatch`.
    pub fn as_decimal128(self) -> (r: Result<Decimal, BsonError>)
        ensures
            self@ matches SpecElement::Decimal(b) ==> (r matches Ok(x) && x@ == b),
            !(self@ is Decimal) ==> (r matches Err(e) && e == BsonError::TypeMismatch),
    {
        match self {
            Element::Decimal(d) => Ok(d),
            _ => Err(BsonError::TypeMismatch),
        }
    }

    /// Whether this value is the undefined sentinel.
    pub fn is_undefined(&self) -> (r: Result<bool, BsonError>)
        ensures
            r matches Ok(b) && b == (self@ is Undefined),
    {
        Ok(match self {
            Element::Undefined => true,
            _ => false,
        })
    }

    /// Whether this value is null.
    pub fn is_null(&self) -> (r: Result<bool, BsonError>)
        ensures
            r matches Ok(b) && b == (self@ is Null),
    {
        Ok(match self {
            Element::Null => true,
            _ => false,
        })
    }

    /// Whether this value is the max-key sentinel.
    pub fn is_max(&self) -> (r: Result<bool, BsonError>)
        ensures
            r matches Ok(b) && b == (self@ is Max),
    {
        Ok(match self {
            Element::Max => true,
            _ => false,
        })
    }

    /// Whether this value is the min-key sentinel.
    pub fn is_min(&self) -> (r: Result<bool, BsonError>)
        ensures
            r matches Ok(b) && b == (self@ is Min),
    {
        Ok(match self {
            Element::Min => true,
            _ => false,
        })
    }
}

/// The lowercase hex digit for a value below sixteen.
pub open spec fn hex_digit(d: int) -> char {
    if d == 0 {
        '0'
    } else if d == 1 {
        '1'
    } else if d == 2 {
        '2'
    } else if d == 3 {
        '3'
    } else if d == 4 {
        '4'
    } else if d == 5 {
        '5'
    } else if d == 6 {
        '6'
    } else if d == 7 {
        '7'
    } else if d == 8 {
        '8'
    } else if d == 9 {
        '9'
    } else if d == 10 {
        'a'
    } else if d == 11 {
        'b'
    } else if d == 12 {
        'c'
    } else if d == 13 {
        'd'
    } else if d == 14 {
        'e'
    } else {
        'f'
    }
}

/// The lowercase hex rendering of a byte sequence: two digits per byte, high
/// nibble first.
pub open spec fn hex_chars(s: Seq<u8>) -> Seq<char>
    decreases s.len(),
{
    if s.len() == 0 {
        Seq::empty()
    } else {
        seq![hex_digit(s[0] as int / 16), hex_digit(s[0] as int % 16)] + hex_chars(s.skip(1))
    }
}

/// Relies on `hex::encode`: each input byte becomes two lowercase hex
/// digits, high nibble first.
#[verifier::external_body]
fn hex_encode(bytes: &[u8]) -> (r: String)
    ensures
        r@ == hex_chars(bytes@),
{
    hex::encode(bytes)
}

impl ObjectId {
    /// The 24 lowercase hex digits of this identifier.
    pub fn to_hex(&self) -> (r: String)
        ensures
            r@ == hex_chars(self.id@),
    {
        hex_encode(self.id.as_slice())
    }
}

impl From<[u8; 12]> for ObjectId {
    fn from(bytes: [u8; 12]) -> (r: ObjectId) {
        ObjectId { id: bytes }
    }
}

impl vstd::std_specs::convert::FromSpecImpl<[u8; 12]> for ObjectId {
    open spec fn obeys_from_spec() -> bool {
        true
    }

    open spec fn from_spec(bytes: [u8; 12]) -> ObjectId {
        ObjectId { id: bytes }
    }
}

/// The bytes of the decimal rendering of `n`, most significant digit first.
pub open spec fn dec_bytes(n: nat) -> Seq<u8>
    decreases n,
{
    if n < 10 {
        seq![(48 + n) as u8]
    } else {
        dec_bytes(n / 10).push((48 + n % 10) as u8)
    }
}

/// The field name under which an array stores its entry at index `n`: the
/// decimal rendering of `n`, as characters.
pub open spec fn index_key(n: nat) -> Seq<char> {
    decode_utf8(dec_bytes(n))
}

proof fn lemma_dec_bytes_ascii(n: nat)
    ensures
        forall|i: int| 0 <= i < dec_bytes(n).len() ==> 48 <= #[trigger] dec_bytes(n)[i] <= 57,
    decreases n,
{
    if n >= 10 {
        lemma_dec_bytes_ascii(n / 10);
        let prev = dec_bytes(n / 10);
        let b = dec_bytes(n);
        assert forall|i: int| 0 <= i < b.len() implies 48 <= #[trigger] b[i] <= 57 by {
            if i < prev.len() {
                assert(b[i] == prev[i]);
            } else {
                assert(b[i] == (48 + n % 10) as u8);
            }
        }
    }
}

proof fn lemma_dec_bytes_valid_utf8(n: nat)
    ensures
        valid_utf8(dec_bytes(n)),
{
    let b = dec_bytes(n);
    lemma_dec_bytes_ascii(n);
    assert(b.subrange(0, 0) =~= Seq::<u8>::empty());
    assert(partial_valid_utf8(b, 0));
    partial_valid_utf8_extend_ascii_block(b, 0, b.len() as int);
    assert(b.subrange(0, b.len() as int) =~= b);
}

/// Appends the decimal digits of `m` to `out`, most significant first.
fn push_decimal_digits(m: usize, out: &mut Vec<u8>)
    ensures
        final(out)@ == old(out)@ + dec_bytes(m as nat),
    decreases m,
{
    if m < 10 {
        out.push(48 + m as u8);
        proof {
            assert(out@ =~= old(out)@ + dec_bytes(m as nat));
        }
    } else {
        push_decimal_digits(m / 10, out);
        out.push(48 + (m % 10) as u8);
        proof {
            assert(out@ =~= old(out)@ + dec_bytes(m as nat));
        }
    }
}

/// The decimal rendering of an array index as an owned string.
fn index_key_string(n: usize) -> (r: String)
    ensures
        r@ == index_key(n as nat),
{
    let mut digits: Vec<u8> = Vec::new();
    push_decimal_digits(n, &mut digits);
    proof {
        assert(digits@ =~= dec_bytes(n as nat));
        lemma_dec_bytes_valid_utf8(n as nat);
    }
    match bytes_to_string(digits) {
        Some(s) => s,
        None => vstd::pervasive::unreached(),
    }
}

/// How the result of an executable lookup must relate to the model.
pub open spec fn lookup_result_ok(
    d: Seq<u8>,
    key: Seq<char>,
    r: Result<Element, BsonError>,
) -> bool {
    match spec_lookup(d, key) {
        Ok(v) => r matches Ok(e) && e@ == v,
        Err(err) => r matches Err(e2) && e2 == err,
    }
}

/// Scans the field list from its start, decoding and discarding fields until
/// one named `key` is found. Exhausting the list is `KeyNotFound`; a decode
/// failure is surfaced as is.
fn find_value(input: &[u8], key: &str) -> (r: Result<Element, BsonError>)
    ensures
        lookup_result_ok(input@, key@, r),
{
    let key_string: String = key.to_owned();
    let mut cur: &[u8] = input;
    loop
        invariant
            key_string@ == key@,
            spec_lookup(cur@, key@) == spec_lookup(input@, key@),
        decreases cur@.len(),
    {
        if cur.len() == 0 {
            return Err(BsonError::KeyNotFound);
        }
        match parse_any(cur) {
            Err(e) => {
                return Err(e);
            },
            Ok((name, element, rest)) => {
                if name == key_string {
                    return Ok(element);
                }
                proof {
                    lemma_parse_field_rest(cur@);
                }
                cur = rest;
            },
        }
    }
}


impl Document {
    /// Validates the top-level framing of a raw buffer and takes ownership of
    /// the field-list payload it declares; any violation is `MalformedHeader`.
    pub fn try_from(input: &[u8]) -> (r: Result<Document, BsonError>)
        ensures
            match spec_open(input@) {
                Ok(p) => r matches Ok(doc) && doc@ == p,
                Err(e) => r matches Err(e2) && e2 == e,
            },
    {
        parse_document(input)
    }

    fn get_value(&self, key: &str) -> (r: Result<Element, BsonError>)
        ensures
            lookup_result_ok(self@, key@, r),
    {
        find_value(self.data.as_slice(), key)
    }

    /// Looks up the field named `key` and returns its value, whatever its
    /// variant.
    pub fn get_any(&self, key: &str) -> (r: Result<Element, BsonError>)
        ensures
            lookup_result_ok(self@, key@, r),
    {
        self.get_value(key)
    }

    /// A fresh cursor over this document's fields, starting at the first.
    pub fn iter<'a>(&'a self) -> (r: DocumentIter<'a>)
        ensures
            r@ == self@,
    {
        DocumentIter { doc: self.data.as_slice() }
    }

    /// Looks up the field and narrows its value to the bit pattern of a double; a value of any
    /// other variant is `TypeMismatch`.
    pub fn get_float(&self, key: &str) -> (r: Result<u64, BsonError>)
        ensures
            match spec_lookup(self@, key@) {
                Ok(v) => match v {
                    SpecElement::Double(bits) => r matches Ok(x) && x == bits,
                    _ => r matches Err(e) && e == BsonError::TypeMismatch,
                },
                Err(e) => r matches Err(e2) && e2 == e,
            },
    {
        match self.get_value(key) {
            Ok(Element::Double(x)) => Ok(x),
            Ok(_) => Err(BsonError::TypeMismatch),
            Err(e) => Err(e),
        }
    }

    /// Looks up the field and narrows its value to a string; a value of any
    /// other variant is `TypeMismatch`.
    pub fn get_string(&self, key: &str) -> (r: Result<String, BsonError>)
        ensures
            match spec_lookup(self@, key@) {
                Ok(v) => match v {
                    SpecElement::String(s) => r matches Ok(x) && x@ == s,
                    _ => r matches Err(e) && e == BsonError::TypeMismatch,
                },
                Err(e) => r matches Err(e2) && e2 == e,
            },
    {
        match self.get_value(key) {
            Ok(Element::String(x)) => Ok(x),
            Ok(_) => Err(BsonError::TypeMismatch),
            Err(e) => Err(e),
        }
    }

    /// Looks up the field and narrows its value to an embedded document; a value of any
    /// other variant is `TypeMismatch`.
    pub fn get_document(&self, key: &str) -> (r: Result<Document, BsonError>)
        ensures
            match spec_lookup(self@, key@) {
                Ok(v) => match v {
                    SpecElement::EmbededDocument(d) => r matches Ok(x) && x@ == d,
                    _ => r matches Err(e) && e == BsonError::TypeMismatch,
                },
                Err(e) => r matches Err(e2) && e2 == e,
            },
    {
        match self.get_value(key) {
            Ok(Element::EmbededDocument(x)) => Ok(x),
            Ok(_) => Err(BsonError::TypeMismatch),
            Err(e) => Err(e),
        }
    }

    /// Looks up the field and narrows its value to an array; a value of any
    /// other variant is `TypeMismatch`.
    pub fn get_array(&self, key: &str) -> (r: Result<Array, BsonError>)
        ensures
            match spec_lookup(self@, key@) {
                Ok(v) => match v {
                    SpecElement::ArrayDocument(d) => r matches Ok(x) && x@ == d,
                    _ => r matches Err(e) && e == BsonError::TypeMismatch,
                },
                Err(e) => r matches Err(e2) && e2 == e,
            },
    {
        match self.get_value(key) {
            Ok(Element::ArrayDocument(x)) => Ok(x),
            Ok(_) => Err(BsonError::TypeMismatch),
            Err(e) => Err(e),
        }
    }

    /// Looks up the field and narrows its value to a binary payload; a value of any
    /// other variant is `TypeMismatch`.
    pub fn get_binary(&self, key: &str) -> (r: Result<Binary, BsonError>)
        ensures
            match spec_lookup(self@, key@) {
                Ok(v) => match v {
                    SpecElement::Binary(bt, data) => r matches Ok(x) && x.binary_type == bt && x.data@ == data,
                    _ => r matches Err(e) && e == BsonError::TypeMismatch,
                },
                Err(e) => r matches Err(e2) && e2 == e,
            },
    {
        match self.get_value(key) {
            Ok(Element::Binary(x)) => Ok(x),
            Ok(_) => Err(BsonError::TypeMismatch),
            Err(e) => Err(e),
        }
    }

    /// Looks up the field and narrows its value to an object identifier; a value of any
    /// other variant is `TypeMismatch`.
    pub fn get_object_id(&self, key: &str) -> (r: Result<ObjectId, BsonError>)
        ensures
            match spec_lookup(self@, key@) {
                Ok(v) => match v {
                    SpecElement::ObjectId(b) => r matches Ok(x) && x.id@ == b,
                    _ => r matches Err(e) && e == BsonError::TypeMismatch,
                },
                Err(e) => r matches Err(e2) && e2 == e,
            },
    {
        match self.get_value(key) {
            Ok(Element::ObjectId(x)) => Ok(x),
            Ok(_) => Err(BsonError::TypeMismatch),
            Err(e) => Err(e),
        }
    }

    /// Looks up the field and narrows its value to a boolean; a value of any
    /// other variant is `TypeMismatch`.
    pub fn get_bool(&self, key: &str) -> (r: Result<bool, BsonError>)
        ensures
            match spec_lookup(self@, key@) {
                Ok(v) => match v {
                    SpecElement::Boolean(b) => r matches Ok(x) && x == b,
                    _ => r matches Err(e) && e == BsonError::TypeMismatch,
                },
                Err(e) => r matches Err(e2) && e2 == e,
            },
    {
        match self.get_value(key) {
            Ok(Element::Boolean(x)) => Ok(x),
            Ok(_) => Err(BsonError::TypeMismatch),
            Err(e) => Err(e),
        }
    }

    /// Looks up the field and narrows its value to a datetime in milliseconds; a value of any
    /// other variant is `TypeMismatch`.
    pub fn get_datetime(&self, key: &str) -> (r: Result<i64, BsonError>)
        ensures
            match spec_lookup(self@, key@) {
                Ok(v) => match v {
                    SpecElement::DateTime(v) => r matches Ok(x) && x == v,
                    _ => r matches Err(e) && e == BsonError::TypeMismatch,
                },
                Err(e) => r matches Err(e2) && e2 == e,
            },
    {
        match self.get_value(key) {
            Ok(Element::DateTime(x)) => Ok(x),
            Ok(_) => Err(BsonError::TypeMismatch),
            Err(e) => Err(e),
        }
    }

    /// Looks up the field and narrows its value to a pointer value; a value of any
    /// other variant is `TypeMismatch`.
    pub fn get_dbpointer(&self, key: &str) -> (r: Result<DbPointer, BsonError>)
        ensures
            match spec_lookup(self@, key@) {
                Ok(v) => match v {
                    SpecElement::DbPointer(b) => r matches Ok(x) && x@ == b,
                    _ => r matches Err(e) && e == BsonError::TypeMismatch,
                },
                Err(e) => r matches Err(e2) && e2 == e,
            },
    {
        match self.get_value(key) {
            Ok(Element::DbPointer(x)) => Ok(x),
            Ok(_) => Err(BsonError::TypeMismatch),
            Err(e) => Err(e),
        }
    }

    /// Looks up the field and narrows its value to a code string; a value of any
    /// other variant is `TypeMismatch`.
    pub fn get_javascript(&self, key: &str) -> (r: Result<String, BsonError>)
        ensures
            match spec_lookup(self@, key@) {
                Ok(v) => match v {
                    SpecElement::Javascript(s) => r matches Ok(x) && x@ == s,
                    _ => r matches Err(e) && e == BsonError::TypeMismatch,
                },
                Err(e) => r matches Err(e2) && e2 == e,
            },
    {
        match self.get_value(key) {
            Ok(Element::Javascript(x)) => Ok(x),
            Ok(_) => Err(BsonError::TypeMismatch),
            Err(e) => Err(e),
        }
    }

    /// Looks up the field and narrows its value to a symbol string; a value of any
    /// other variant is `TypeMismatch`.
    pub fn get_symbol(&self, key: &str) -> (r: Result<String, BsonError>)
        ensures
            match spec_lookup(self@, key@) {
                Ok(v) => match v {
                    SpecElement::Symbol(s) => r matches Ok(x) && x@ == s,
                    _ => r matches Err(e) && e == BsonError::TypeMismatch,
                },
                Err(e) => r matches Err(e2) && e2 == e,
            },
    {
        match self.get_value(key) {
            Ok(Element::Symbol(x)) => Ok(x),
            Ok(_) => Err(BsonError::TypeMismatch),
            Err(e) => Err(e),
        }
    }

    /// Looks up the field and narrows its value to a 32-bit integer; a value of any
    /// other variant is `TypeMismatch`.
    pub fn get_int32(&self, key: &str) -> (r: Result<i32, BsonError>)
        ensures
            match spec_lookup(self@, key@) {
                Ok(v) => match v {
                    SpecElement::Int32(v) => r matches Ok(x) && x == v,
                    _ => r matches Err(e) && e == BsonError::TypeMismatch,
                },
                Err(e) => r matches Err(e2) && e2 == e,
            },
    {
        match self.get_value(key) {
            Ok(Element::Int32(x)) => Ok(x),
            Ok(_) => Err(BsonError::TypeMismatch),
            Err(e) => Err(e),
        }
    }

    /// Looks up the field and narrows its value to a timestamp; a value of any
    /// other variant is `TypeMismatch`.
    pub fn get_timestamp(&self, key: &str) -> (r: Result<u64, BsonError>)
        ensures
            match spec_lookup(self@, key@) {
                Ok(v) => match v {
                    SpecElement::Timestamp(v) => r matches Ok(x) && x == v,
                    _ => r matches Err(e) && e == BsonError::TypeMismatch,
                },
                Err(e) => r matches Err(e2) && e2 == e,
            },
    {
        match self.get_value(key) {
            Ok(Element::Timestamp(x)) => Ok(x),
            Ok(_) => Err(BsonError::TypeMismatch),
            Err(e) => Err(e),
        }
    }

    /// Looks up the field and narrows its value to a 64-bit integer; a value of any
    /// other variant is `TypeMismatch`.
    pub fn get_i64(&self, key: &str) -> (r: Result<i64, BsonError>)
        ensures
            match spec_lookup(self@, key@) {
                Ok(v) => match v {
                    SpecElement::Int64(v) => r matches Ok(x) && x == v,
                    _ => r matches Err(e) && e == BsonError::TypeMismatch,
                },
                Err(e) => r matches Err(e2) && e2 == e,
            },
    {
        match self.get_value(key) {
            Ok(Element::Int64(x)) => Ok(x),
            Ok(_) => Err(BsonError::TypeMismatch),
            Err(e) => Err(e),
        }
    }

    /// Looks up the field and narrows its value to a 128-bit decimal payload; a value of any
    /// other variant is `TypeMismatch`.
    pub fn get_decimal128(&self, key: &str) -> (r: Result<Decimal, BsonError>)
        ensures
            match spec_lookup(self@, key@) {
                Ok(v) => match v {
                    SpecElement::Decimal(b) => r matches Ok(x) && x@ == b,
                    _ => r matches Err(e) && e == BsonError::TypeMismatch,
                },
                Err(e) => r matches Err(e2) && e2 == e,
            },
    {
        match self.get_value(key) {
            Ok(Element::Decimal(x)) => Ok(x),
            Ok(_) => Err(BsonError::TypeMismatch),
            Err(e) => Err(e),
        }
    }

    /// Looks up the field and reports whether its value is the undefined sentinel.
    pub fn is_undefined(&self, key: &str) -> (r: Result<bool, BsonError>)
        ensures
            match spec_lookup(self@, key@) {
                Ok(v) => r matches Ok(b) && b == (v is Undefined),
                Err(e) => r matches Err(e2) && e2 == e,
            },
    {
        match self.get_value(key) {
            Err(e) => Err(e),
            Ok(Element::Undefined) => Ok(true),
            Ok(_) => Ok(false),
        }
    }

    /// Looks up the field and reports whether its value is null.
    pub fn is_null(&self, key: &str) -> (r: Result<bool, BsonError>)
        ensures
            match spec_lookup(self@, key@) {
                Ok(v) => r matches Ok(b) && b == (v is Null),
                Err(e) => r matches Err(e2) && e2 == e,
            },
    {
        match self.get_value(key) {
            Err(e) => Err(e),
            Ok(Element::Null) => Ok(true),
            Ok(_) => Ok(false),
        }
    }

    /// Looks up the field and reports whether its value is the max-key sentinel.
    pub fn is_max(&self, key: &str) -> (r: Result<bool, BsonError>)
        ensures
            match spec_lookup(self@, key@) {
                Ok(v) => r matches Ok(b) && b == (v is Max),
                Err(e) => r matches Err(e2) && e2 == e,
            },
    {
        match self.get_value(key) {
            Err(e) => Err(e),
            Ok(Element::Max) => Ok(true),
            Ok(_) => Ok(false),
        }
    }

    /// Looks up the field and reports whether its value is the min-key sentinel.
    pub fn is_min(&self, key: &str) -> (r: Result<bool, BsonError>)
        ensures
            match spec_lookup(self@, key@) {
                Ok(v) => r matches Ok(b) && b == (v is Min),
                Err(e) => r matches Err(e2) && e2 == e,
            },
    {
        match self.get_value(key) {
            Err(e) => Err(e),
            Ok(Element::Min) => Ok(true),
            Ok(_) => Ok(false),
        }
    }
}

impl Array {
    fn get_value(&self, key: usize) -> (r: Result<Element, BsonError>)
        ensures
            lookup_result_ok(self@, index_key(key as nat), r),
    {
        let key_string = index_key_string(key);
        find_value(self.data.as_slice(), key_string.as_str())
    }

    /// Looks up the entry at `key` and returns its value, whatever its
    /// variant.
    pub fn get_any(&self, key: usize) -> (r: Result<Element, BsonError>)
        ensures
            lookup_result_ok(self@, index_key(key as nat), r),
    {
        self.get_value(key)
    }

    /// A fresh cursor over this array's entries, starting at index zero.
    pub fn iter<'a>(&'a self) -> (r: DocumentIter<'a>)
        ensures
            r@ == self@,
    {
        DocumentIter { doc: self.data.as_slice() }
    }

    /// Looks up the field and narrows its value to the bit pattern of a double; a value of any
    /// other variant is `TypeMismatch`.
    pub fn get_float(&self, key: usize) -> (r: Result<u64, BsonError>)
        ensures
            match spec_lookup(self@, index_key(key as nat)) {
                Ok(v) => match v {
                    SpecElement::Double(bits) => r matches Ok(x) && x == bits,
                    _ => r matches Err(e) && e == BsonError::TypeMismatch,
                },
                Err(e) => r matches Err(e2) && e2 == e,
            },
    {
        match self.get_value(key) {
            Ok(Element::Double(x)) => Ok(x),
            Ok(_) => Err(BsonError::TypeMismatch),
            Err(e) => Err(e),
        }
    }

    /// Looks up the field and narrows its value to a string; a value of any
    /// other variant is `TypeMismatch`.
    pub fn get_string(&self, key: usize) -> (r: Result<String, BsonError>)
        ensures
            match spec_lookup(self@, index_key(key as nat)) {
                Ok(v) => match v {
                    SpecElement::String(s) => r matches Ok(x) && x@ == s,
                    _ => r matches Err(e) && e == BsonError::TypeMismatch,
                },
                Err(e) => r matches Err(e2) && e2 == e,
            },
    {
        match self.get_value(key) {
            Ok(Element::String(x)) => Ok(x),
            Ok(_) => Err(BsonError::TypeMismatch),
            Err(e) => Err(e),
        }
    }

    /// Looks up the field and narrows its value to an embedded document; a value of any
    /// other variant is `TypeMismatch`.
    pub fn get_document(&self, key: usize) -> (r: Result<Document, BsonError>)
        ensures
            match spec_lookup(self@, index_key(key as nat)) {
                Ok(v) => match v {
                    SpecElement::EmbededDocument(d) => r matches Ok(x) && x@ == d,
                    _ => r matches Err(e) && e == BsonError::TypeMismatch,
                },
                Err(e) => r matches Err(e2) && e2 == e,
            },
    {
        match self.get_value(key) {
            Ok(Element::EmbededDocument(x)) => Ok(x),
            Ok(_) => Err(BsonError::TypeMismatch),
            Err(e) => Err(e),
        }
    }

    /// Looks up the field and narrows its value to an array; a value of any
    /// other variant is `TypeMismatch`.
    pub fn get_array(&self, key: usize) -> (r: Result<Array, BsonError>)
        ensures
            match spec_lookup(self@, index_key(key as nat)) {
                Ok(v) => match v {
                    SpecElement::ArrayDocument(d) => r matches Ok(x) && x@ == d,
                    _ => r matches Err(e) && e == BsonError::TypeMismatch,
                },
                Err(e) => r matches Err(e2) && e2 == e,
            },
    {
        match self.get_value(key) {
            Ok(Element::ArrayDocument(x)) => Ok(x),
            Ok(_) => Err(BsonError::TypeMismatch),
            Err(e) => Err(e),
        }
    }

    /// Looks up the field and narrows its value to a binary payload; a value of any
    /// other variant is `TypeMismatch`.
    pub fn get_binary(&self, key: usize) -> (r: Result<Binary, BsonError>)
        ensures
            match spec_lookup(self@, index_key(key as nat)) {
                Ok(v) => match v {
                    SpecElement::Binary(bt, data) => r matches Ok(x) && x.binary_type == bt && x.data@ == data,
                    _ => r matches Err(e) && e == BsonError::TypeMismatch,
                },
                Err(e) => r matches Err(e2) && e2 == e,
            },
    {
        match self.get_value(key) {
            Ok(Element::Binary(x)) => Ok(x),
            Ok(_) => Err(BsonError::TypeMismatch),
            Err(e) => Err(e),
        }
    }

    /// Looks up the field and narrows its value to an object identifier; a value of any
    /// other variant is `TypeMismatch`.
    pub fn get_object_id(&self, key: usize) -> (r: Result<ObjectId, BsonError>)
        ensures
            match spec_lookup(self@, index_key(key as nat)) {
                Ok(v) => match v {
                    SpecElement::ObjectId(b) => r matches Ok(x) && x.id@ == b,
                    _ => r matches Err(e) && e == BsonError::TypeMismatch,
                },
                Err(e) => r matches Err(e2) && e2 == e,
            },
    {
        match self.get_value(key) {
            Ok(Element::ObjectId(x)) => Ok(x),
            Ok(_) => Err(BsonError::TypeMismatch),
            Err(e) => Err(e),
        }
    }

    /// Looks up the field and narrows its value to a boolean; a value of any
    /// other variant is `TypeMismatch`.
    pub fn get_bool(&self, key: usize) -> (r: Result<bool, BsonError>)
        ensures
            match spec_lookup(self@, index_key(key as nat)) {
                Ok(v) => match v {
                    SpecElement::Boolean(b) => r matches Ok(x) && x == b,
                    _ => r matches Err(e) && e == BsonError::TypeMismatch,
                },
                Err(e) => r matches Err(e2) && e2 == e,
            },
    {
        match self.get_value(key) {
            Ok(Element::Boolean(x)) => Ok(x),
            Ok(_) => Err(BsonError::TypeMismatch),
            Err(e) => Err(e),
        }
    }

    /// Looks up the field and narrows its value to a datetime in milliseconds; a value of any
    /// other variant is `TypeMismatch`.
    pub fn get_datetime(&self, key: usize) -> (r: Result<i64, BsonError>)
        ensures
            match spec_lookup(self@, index_key(key as nat)) {
                Ok(v) => match v {
                    SpecElement::DateTime(v) => r matches Ok(x) && x == v,
                    _ => r matches Err(e) && e == BsonError::TypeMismatch,
                },
                Err(e) => r matches Err(e2) && e2 == e,
            },
    {
        match self.get_value(key) {
            Ok(Element::DateTime(x)) => Ok(x),
            Ok(_) => Err(BsonError::TypeMismatch),
            Err(e) => Err(e),
        }
    }

    /// Looks up the field and narrows its value to a code string; a value of any
    /// other variant is `TypeMismatch`.
    pub fn get_javascript(&self, key: usize) -> (r: Result<String, BsonError>)
        ensures
            match spec_lookup(self@, index_key(key as nat)) {
                Ok(v) => match v {
                    SpecElement::Javascript(s) => r matches Ok(x) && x@ == s,
                    _ => r matches Err(e) && e == BsonError::TypeMismatch,
                },
                Err(e) => r matches Err(e2) && e2 == e,
            },
    {
        match self.get_value(key) {
            Ok(Element::Javascript(x)) => Ok(x),
            Ok(_) => Err(BsonError::TypeMismatch),
            Err(e) => Err(e),
        }
    }

    /// Looks up the field and narrows its value to a symbol string; a value of any
    /// other variant is `TypeMismatch`.
    pub fn get_symbol(&self, key: usize) -> (r: Result<String, BsonError>)
        ensures
            match spec_lookup(self@, index_key(key as nat)) {
                Ok(v) => match v {
                    SpecElement::Symbol(s) => r matches Ok(x) && x@ == s,
                    _ => r matches Err(e) && e == BsonError::TypeMismatch,
                },
                Err(e) => r matches Err(e2) && e2 == e,
            },
    {
        match self.get_value(key) {
            Ok(Element::Symbol(x)) => Ok(x),
            Ok(_) => Err(BsonError::TypeMismatch),
            Err(e) => Err(e),
        }
    }

    /// Looks up the field and narrows its value to a pointer value; a value of any
    /// other variant is `TypeMismatch`.
    pub fn get_dbpointer(&self, key: usize) -> (r: Result<DbPointer, BsonError>)
        ensures
            match spec_lookup(self@, index_key(key as nat)) {
                Ok(v) => match v {
                    SpecElement::DbPointer(b) => r matches Ok(x) && x@ == b,
                    _ => r matches Err(e) && e == BsonError::TypeMismatch,
                },
                Err(e) => r matches Err(e2) && e2 == e,
            },
    {
        match self.get_value(key) {
            Ok(Element::DbPointer(x)) => Ok(x),
            Ok(_) => Err(BsonError::TypeMismatch),
            Err(e) => Err(e),
        }
    }

    /// Looks up the field and narrows its value to a 32-bit integer; a value of any
    /// other variant is `TypeMismatch`.
    pub fn get_int32(&self, key: usize) -> (r: Result<i32, BsonError>)
        ensures
            match spec_lookup(self@, index_key(key as nat)) {
                Ok(v) => match v {
                    SpecElement::Int32(v) => r matches Ok(x) && x == v,
                    _ => r matches Err(e) && e == BsonError::TypeMismatch,
                },
                Err(e) => r matches Err(e2) && e2 == e,
            },
    {
        match self.get_value(key) {
            Ok(Element::Int32(x)) => Ok(x),
            Ok(_) => Err(BsonError::TypeMismatch),
            Err(e) => Err(e),
        }
    }

    /// Looks up the field and narrows its value to a timestamp; a value of any
    /// other variant is `TypeMismatch`.
    pub fn get_timestamp(&self, key: usize) -> (r: Result<u64, BsonError>)
        ensures
            match spec_lookup(self@, index_key(key as nat)) {
                Ok(v) => match v {
                    SpecElement::Timestamp(v) => r matches Ok(x) && x == v,
                    _ => r matches Err(e) && e == BsonError::TypeMismatch,
                },
                Err(e) => r matches Err(e2) && e2 == e,
            },
    {
        match self.get_value(key) {
            Ok(Element::Timestamp(x)) => Ok(x),
            Ok(_) => Err(BsonError::TypeMismatch),
            Err(e) => Err(e),
        }
    }

    /// Looks up the field and narrows its value to a 64-bit integer; a value of any
    /// other variant is `TypeMismatch`.
    pub fn get_i64(&self, key: usize) -> (r: Result<i64, BsonError>)
        ensures
            match spec_lookup(self@, index_key(key as nat)) {
                Ok(v) => match v {
                    SpecElement::Int64(v) => r matches Ok(x) && x == v,
                    _ => r matches Err(e) && e == BsonError::TypeMismatch,
                },
                Err(e) => r matches Err(e2) && e2 == e,
            },
    {
        match self.get_value(key) {
            Ok(Element::Int64(x)) => Ok(x),
            Ok(_) => Err(BsonError::TypeMismatch),
            Err(e) => Err(e),
        }
    }

    /// Looks up the field and narrows its value to a 128-bit decimal payload; a value of any
    /// other variant is `TypeMismatch`.
    pub fn get_decimal128(&self, key: usize) -> (r: Result<Decimal, BsonError>)
        ensures
            match spec_lookup(self@, index_key(key as nat)) {
                Ok(v) => match v {
                    SpecElement::Decimal(b) => r matches Ok(x) && x@ == b,
                    _ => r matches Err(e) && e == BsonError::TypeMismatch,
                },
                Err(e) => r matches Err(e2) && e2 == e,
            },
    {
        match self.get_value(key) {
            Ok(Element::Decimal(x)) => Ok(x),
            Ok(_) => Err(BsonError::TypeMismatch),
            Err(e) => Err(e),
        }
    }

    /// Looks up the field and reports whether its value is the undefined sentinel.
    pub fn is_undefined(&self, key: usize) -> (r: Result<bool, BsonError>)
        ensures
            match spec_lookup(self@, index_key(key as nat)) {
                Ok(v) => r matches Ok(b) && b == (v is Undefined),
                Err(e) => r matches Err(e2) && e2 == e,
            },
    {
        match self.get_value(key) {
            Err(e) => Err(e),
            Ok(Element::Undefined) => Ok(true),
            Ok(_) => Ok(false),
        }
    }

    /// Looks up the field and reports whether its value is null.
    pub fn is_null(&self, key: usize) -> (r: Result<bool, BsonError>)
        ensures
            match spec_lookup(self@, index_key(key as nat)) {
                Ok(v) => r matches Ok(b) && b == (v is Null),
                Err(e) => r matches Err(e2) && e2 == e,
            },
    {
        match self.get_value(key) {
            Err(e) => Err(e),
            Ok(Element::Null) => Ok(true),
            Ok(_) => Ok(false),
        }
    }

    /// Looks up the field and reports whether its value is the max-key sentinel.
    pub fn is_max(&self, key: usize) -> (r: Result<bool, BsonError>)
        ensures
            match spec_lookup(self@, index_key(key as nat)) {
                Ok(v) => r matches Ok(b) && b == (v is Max),
                Err(e) => r matches Err(e2) && e2 == e,
            },
    {
        match self.get_value(key) {
            Err(e) => Err(e),
            Ok(Element::Max) => Ok(true),
            Ok(_) => Ok(false),
        }
    }

    /// Looks up the field and reports whether its value is the min-key sentinel.
    pub fn is_min(&self, key: usize) -> (r: Result<bool, BsonError>)
        ensures
            match spec_lookup(self@, index_key(key as nat)) {
                Ok(v) => r matches Ok(b) && b == (v is Min),
                Err(e) => r matches Err(e2) && e2 == e,
            },
    {
        match self.get_value(key) {
            Err(e) => Err(e),
            Ok(Element::Min) => Ok(true),
            Ok(_) => Ok(false),
        }
    }
}

/// A cursor over the undecoded suffix of a document's field list. Each
/// `next` call decodes one field and advances past it; a fresh cursor starts
/// at the first field.
pub struct DocumentIter<'a> {
    doc: &'a [u8],
}

impl<'a> View for DocumentIter<'a> {
    type V = Seq<u8>;

    closed spec fn view(&self) -> Seq<u8> {
        self.doc@
    }
}

impl<'a> DocumentIter<'a> {
    /// Decodes the field at the cursor and advances past it. An exhausted
    /// cursor yields `None`; so does a decode failure, which leaves the
    /// cursor unchanged and so ends the sequence early.
    pub fn next(&mut self) -> (r: Option<KeyPair<Element>>)
        ensures
            match spec_parse_field(old(self)@) {
                Ok(f) => r matches Some(p) && p.0@ == f.name && p.1@ == f.value && final(self)@
                    == f.rest,
                Err(_) => r is None && final(self)@ == old(self)@,
            },
    {
        if !self.doc.is_empty() {
            match parse_any(self.doc) {
                Ok((name, element, rest)) => {
                    self.doc = rest;
                    Some((name, element))
                },
                Err(_) => None,
            }
        } else {
            None
        }
    }
}

} // verus!
