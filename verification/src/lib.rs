//! A lazy decoder for a length-prefixed, self-describing binary document
//! format. A document is held as its raw field-list bytes; lookup and
//! iteration replay a tag-dispatching field decoder over those bytes on
//! demand, so nothing is materialized up front.

pub mod element;
pub mod laws;
pub mod parse;

pub use element::{
    Array, Binary, BinaryType, BsonError, DbPointer, Decimal, Document, DocumentIter, Element,
    JavascriptCode, KeyPair, ObjectId,
};
