use bson2::{Array, Binary, BinaryType, BsonError, Document, Element, ObjectId};

/// Frames a field-list payload as a whole top-level buffer.
fn doc_bytes(payload: &[u8]) -> Vec<u8> {
    let total = (payload.len() + 5) as u32;
    let mut v = total.to_le_bytes().to_vec();
    v.extend_from_slice(payload);
    v.push(0);
    v
}

#[test]
fn decode_double_payload() {
    let buf = doc_bytes(&[1, 97, 0, 0, 0, 0, 0, 0, 0, 240, 63]);
    let doc = Document::try_from(buf.as_slice()).unwrap();
    assert_eq!(1.0, f64::from_bits(doc.get_float("a").unwrap()));
}

#[test]
fn decode_multibyte_string() {
    let buf = doc_bytes(&[2, 97, 0, 3, 0, 0, 0, 0xC3, 0xA9, 0]);
    let doc = Document::try_from(buf.as_slice()).unwrap();
    assert_eq!("\u{e9}", doc.get_string("a").unwrap());
}

#[test]
fn decode_embedded_document() {
    let buf = doc_bytes(&[
        3, 97, 0, 16, 0, 0, 0, 2, 104, 105, 0, 3, 0, 0, 0, 104, 105, 0, 0,
    ]);
    let doc = Document::try_from(buf.as_slice()).unwrap();
    let inner = doc.get_document("a").unwrap();
    assert_eq!("hi", inner.get_string("hi").unwrap());
}

#[test]
fn decode_user_defined_binary() {
    let buf = doc_bytes(&[5, 97, 0, 2, 0, 0, 0, 0x80, 9, 8]);
    let doc = Document::try_from(buf.as_slice()).unwrap();
    assert_eq!(
        Binary { binary_type: BinaryType::BinaryUserDefined, data: vec![9, 8] },
        doc.get_binary("a").unwrap()
    );
}

#[test]
fn decode_undefined_field() {
    let buf = doc_bytes(&[6, 97, 0]);
    let doc = Document::try_from(buf.as_slice()).unwrap();
    assert_eq!(Ok(true), doc.is_undefined("a"));
    assert_eq!(Ok(false), doc.is_null("a"));
}

#[test]
fn decode_object_id_field() {
    let buf = doc_bytes(&[7, 97, 0, 1, 2, 3, 4, 5, 6, 7, 8, 9, 10, 11, 12]);
    let doc = Document::try_from(buf.as_slice()).unwrap();
    let oid = doc.get_object_id("a").unwrap();
    assert_eq!(ObjectId { id: [1, 2, 3, 4, 5, 6, 7, 8, 9, 10, 11, 12] }, oid);
    assert_eq!("0102030405060708090a0b0c", oid.to_hex());
}

#[test]
fn decode_bool_false() {
    let buf = doc_bytes(&[8, 97, 0, 0]);
    let doc = Document::try_from(buf.as_slice()).unwrap();
    assert_eq!(Ok(false), doc.get_bool("a"));
}

#[test]
fn decode_datetime_field() {
    let buf = doc_bytes(&[9, 97, 0, 0xD2, 0x02, 0x96, 0x49, 0, 0, 0, 0]);
    let doc = Document::try_from(buf.as_slice()).unwrap();
    assert_eq!(Ok(1234567890i64), doc.get_datetime("a"));
}

#[test]
fn decode_null_field() {
    let buf = doc_bytes(&[10, 97, 0]);
    let doc = Document::try_from(buf.as_slice()).unwrap();
    assert_eq!(Ok(true), doc.is_null("a"));
    assert_eq!(Ok(false), doc.is_undefined("a"));
}

#[test]
fn decode_two_string_field() {
    let buf = doc_bytes(&[11, 97, 0, 112, 0, 113, 0]);
    let doc = Document::try_from(buf.as_slice()).unwrap();
    assert_eq!(
        Ok(Element::Cstring("p".to_string(), "q".to_string())),
        doc.get_any("a")
    );
}

#[test]
fn decode_dbpointer_field() {
    let buf = doc_bytes(&[12, 97, 0, 12, 11, 10, 9, 8, 7, 6, 5, 4, 3, 2, 1]);
    let doc = Document::try_from(buf.as_slice()).unwrap();
    assert_eq!(
        Ok([12, 11, 10, 9, 8, 7, 6, 5, 4, 3, 2, 1]),
        doc.get_dbpointer("a")
    );
}

#[test]
fn decode_javascript_field() {
    let buf = doc_bytes(&[13, 97, 0, 3, 0, 0, 0, 104, 105, 0]);
    let doc = Document::try_from(buf.as_slice()).unwrap();
    assert_eq!(Ok("hi".to_string()), doc.get_javascript("a"));
}

#[test]
fn decode_symbol_field() {
    let buf = doc_bytes(&[14, 97, 0, 3, 0, 0, 0, 104, 105, 0]);
    let doc = Document::try_from(buf.as_slice()).unwrap();
    assert_eq!(Ok("hi".to_string()), doc.get_symbol("a"));
}

#[test]
fn decode_code_with_scope() {
    let buf = doc_bytes(&[15, 97, 0, 8, 0, 0, 0, 2, 0, 0, 0, 104, 105, 0, 5, 0, 0, 0, 0]);
    let doc = Document::try_from(buf.as_slice()).unwrap();
    assert_eq!(
        Ok(Element::JavascriptCode(
            "hi".to_string(),
            Document { data: vec![] }
        )),
        doc.get_any("a")
    );
}

#[test]
fn decode_negative_int32() {
    let buf = doc_bytes(&[16, 97, 0, 0xFE, 0xFF, 0xFF, 0xFF]);
    let doc = Document::try_from(buf.as_slice()).unwrap();
    assert_eq!(Ok(-2), doc.get_int32("a"));
}

#[test]
fn decode_timestamp_field() {
    let buf = doc_bytes(&[17, 97, 0, 1, 0, 0, 0, 0, 0, 0, 1]);
    let doc = Document::try_from(buf.as_slice()).unwrap();
    assert_eq!(Ok(1u64 + (1u64 << 56)), doc.get_timestamp("a"));
}

#[test]
fn decode_negative_int64() {
    let buf = doc_bytes(&[18, 97, 0, 0xFF, 0xFF, 0xFF, 0xFF, 0xFF, 0xFF, 0xFF, 0xFF]);
    let doc = Document::try_from(buf.as_slice()).unwrap();
    assert_eq!(Ok(-1i64), doc.get_i64("a"));
}

#[test]
fn decode_decimal_field() {
    let buf = doc_bytes(&[19, 97, 0, 0, 1, 2, 3, 4, 5, 6, 7, 8, 9, 10, 11, 12, 13, 14, 15]);
    let doc = Document::try_from(buf.as_slice()).unwrap();
    assert_eq!(
        Ok([0, 1, 2, 3, 4, 5, 6, 7, 8, 9, 10, 11, 12, 13, 14, 15]),
        doc.get_decimal128("a")
    );
}

#[test]
fn decode_min_and_max_keys() {
    let buf = doc_bytes(&[255, 97, 0, 127, 98, 0]);
    let doc = Document::try_from(buf.as_slice()).unwrap();
    assert_eq!(Ok(true), doc.is_min("a"));
    assert_eq!(Ok(false), doc.is_max("a"));
    assert_eq!(Ok(true), doc.is_max("b"));
    assert_eq!(Ok(false), doc.is_min("b"));
}

#[test]
fn unknown_tag_fails_decoding() {
    let buf = doc_bytes(&[0xAA, 104, 105, 0]);
    let doc = Document::try_from(buf.as_slice()).unwrap();
    assert_eq!(Err(BsonError::UnknownTag(0xAA)), doc.get_any("hi"));
}

#[test]
fn unknown_subtype_fails_decoding() {
    let buf = doc_bytes(&[5, 97, 0, 1, 0, 0, 0, 0x55, 9]);
    let doc = Document::try_from(buf.as_slice()).unwrap();
    assert_eq!(Err(BsonError::UnknownSubtype(0x55)), doc.get_any("a"));
}

#[test]
fn overlong_string_is_truncated() {
    let buf = doc_bytes(&[2, 97, 0, 10, 0, 0, 0, 104]);
    let doc = Document::try_from(buf.as_slice()).unwrap();
    assert_eq!(Err(BsonError::Truncated), doc.get_string("a"));
}

#[test]
fn negative_length_is_truncated() {
    let buf = doc_bytes(&[2, 97, 0, 0xFF, 0xFF, 0xFF, 0xFF]);
    let doc = Document::try_from(buf.as_slice()).unwrap();
    assert_eq!(Err(BsonError::Truncated), doc.get_string("a"));
}

#[test]
fn missing_name_terminator_is_truncated() {
    let buf = doc_bytes(&[16, 97]);
    let doc = Document::try_from(buf.as_slice()).unwrap();
    assert_eq!(Err(BsonError::Truncated), doc.get_int32("a"));
}

#[test]
fn invalid_utf8_payload_is_rejected() {
    let buf = doc_bytes(&[2, 97, 0, 2, 0, 0, 0, 0xFF, 0]);
    let doc = Document::try_from(buf.as_slice()).unwrap();
    assert_eq!(Err(BsonError::InvalidUtf8), doc.get_string("a"));
}

#[test]
fn invalid_utf8_name_is_rejected() {
    let buf = doc_bytes(&[16, 0xFF, 0, 1, 0, 0, 0]);
    let doc = Document::try_from(buf.as_slice()).unwrap();
    assert_eq!(Err(BsonError::InvalidUtf8), doc.get_any("a"));
}

#[test]
fn missing_key_is_key_not_found() {
    let doc = Document::try_from(&[5u8, 0, 0, 0, 0][..]).unwrap();
    assert_eq!(Err(BsonError::KeyNotFound), doc.get_any("a"));
}

#[test]
fn wrong_variant_is_type_mismatch() {
    let value: &[u8] = &[16, 0, 0, 0, 2, 104, 105, 0, 3, 0, 0, 0, 104, 105, 0, 0];
    let doc = Document::try_from(value).unwrap();
    assert_eq!(Err(BsonError::TypeMismatch), doc.get_bool("hi"));
    assert_eq!(Err(BsonError::TypeMismatch), doc.get_int32("hi"));
}

#[test]
fn short_buffer_is_malformed() {
    assert_eq!(
        Err(BsonError::MalformedHeader),
        Document::try_from(&[4u8, 0, 0, 0][..])
    );
}

#[test]
fn overlong_declared_length_is_malformed() {
    assert_eq!(
        Err(BsonError::MalformedHeader),
        Document::try_from(&[6u8, 0, 0, 0, 0][..])
    );
}

#[test]
fn missing_terminator_is_malformed() {
    assert_eq!(
        Err(BsonError::MalformedHeader),
        Document::try_from(&[5u8, 0, 0, 0, 1][..])
    );
}

#[test]
fn trailing_bytes_after_declared_length_are_ignored() {
    let doc = Document::try_from(&[5u8, 0, 0, 0, 0, 99][..]).unwrap();
    assert_eq!(Document { data: vec![] }, doc);
}

#[test]
fn array_int_and_bool_by_index() {
    // an array field holding an int32 at index 0 and a boolean at index 1
    let buf = doc_bytes(&[
        4, 97, 0, 16, 0, 0, 0, 16, 48, 0, 7, 0, 0, 0, 8, 49, 0, 1, 0,
    ]);
    let doc = Document::try_from(buf.as_slice()).unwrap();
    let arr = doc.get_array("a").unwrap();
    assert_eq!(Ok(7), arr.get_int32(0));
    assert_eq!(Ok(true), arr.get_bool(1));
    assert_eq!(Err(BsonError::KeyNotFound), arr.get_any(2));
}

#[test]
fn array_multi_digit_index() {
    let arr = Array { data: vec![16, 49, 50, 0, 7, 0, 0, 0] };
    assert_eq!(Ok(7), arr.get_int32(12));
    assert_eq!(Err(BsonError::KeyNotFound), arr.get_any(1));
}
