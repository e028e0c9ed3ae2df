use bson2::{Array, Binary, BinaryType, BsonError, Document, Element, ObjectId};

/// A buffer holding one field of several different types, used to exercise
/// iteration and lookup together.
fn mixed_buffer() -> Vec<u8> {
    vec![
        157, 0, 0, 0, 8, 98, 111, 111, 108, 0, 1, 2, 115, 116, 114, 105, 110, 103, 0, 7, 0, 0, 0,
        115, 116, 114, 105, 110, 103, 0, 1, 102, 108, 111, 97, 116, 0, 92, 143, 194, 245, 40, 92,
        11, 64, 4, 97, 114, 114, 97, 121, 0, 76, 0, 0, 0, 16, 48, 0, 1, 0, 0, 0, 8, 49, 0, 1, 8,
        50, 0, 0, 1, 51, 0, 0, 0, 0, 0, 0, 0, 240, 63, 3, 52, 0, 20, 0, 0, 0, 2, 116, 101, 115,
        116, 0, 5, 0, 0, 0, 116, 101, 115, 116, 0, 0, 16, 53, 0, 100, 0, 0, 0, 7, 54, 0, 98, 246,
        223, 90, 2, 39, 224, 203, 106, 0, 169, 25, 0, 10, 110, 117, 108, 108, 0, 3, 100, 105, 99,
        116, 0, 16, 0, 0, 0, 2, 104, 105, 0, 3, 0, 0, 0, 104, 105, 0, 0, 0,
    ]
}

fn collect_fields(doc: &Document) -> Vec<(String, Element)> {
    let mut out = Vec::new();
    let mut it = doc.iter();
    while let Some(pair) = it.next() {
        out.push(pair);
    }
    out
}

#[test]
fn iteration_is_restartable_and_ordered() {
    let buf = mixed_buffer();
    let doc = Document::try_from(buf.as_slice()).unwrap();
    let first = collect_fields(&doc);
    let second = collect_fields(&doc);
    assert_eq!(first, second);
    let names: Vec<String> = first.iter().map(|p| p.0.clone()).collect();
    assert_eq!(
        vec!["bool", "string", "float", "array", "null", "dict"],
        names
    );
}

#[test]
fn lookup_agrees_with_iteration() {
    let buf = mixed_buffer();
    let doc = Document::try_from(buf.as_slice()).unwrap();
    for (name, value) in collect_fields(&doc) {
        assert_eq!(Ok(value), doc.get_any(&name));
    }
}

#[test]
fn header_truncation_is_malformed_or_parses() {
    let buf = mixed_buffer();
    for i in 0..buf.len() {
        // the declared length equals the buffer length, so every proper
        // prefix must be rejected as a malformed header
        assert_eq!(
            Err(BsonError::MalformedHeader),
            Document::try_from(&buf[..i])
        );
    }
    assert!(Document::try_from(buf.as_slice()).is_ok());
}

#[test]
fn field_truncation_is_truncated() {
    // one string field; its field list is 11 bytes long
    let payload: &[u8] = &[2, 104, 105, 0, 3, 0, 0, 0, 104, 105, 0];
    for k in 1..payload.len() {
        let doc = Document { data: payload[..k].to_vec() };
        assert_eq!(Err(BsonError::Truncated), doc.get_any("hi"));
    }
    let doc = Document { data: payload.to_vec() };
    assert_eq!(Ok(Element::String("hi".to_string())), doc.get_any("hi"));
    let empty = Document { data: vec![] };
    assert_eq!(Err(BsonError::KeyNotFound), empty.get_any("hi"));
}

fn sample_elements() -> Vec<Element> {
    vec![
        Element::Double(1.5f64.to_bits()),
        Element::String("s".to_string()),
        Element::EmbededDocument(Document { data: vec![] }),
        Element::ArrayDocument(Array { data: vec![] }),
        Element::Binary(Binary { binary_type: BinaryType::BinaryGeneric, data: vec![1] }),
        Element::Cstring("p".to_string(), "q".to_string()),
        Element::Undefined,
        Element::ObjectId(ObjectId { id: [0; 12] }),
        Element::Boolean(true),
        Element::DateTime(5),
        Element::Null,
        Element::RegularExpression { pattern: "x".to_string(), options: "i".to_string() },
        Element::DbPointer([1; 12]),
        Element::Javascript("j".to_string()),
        Element::Symbol("y".to_string()),
        Element::JavascriptCode("c".to_string(), Document { data: vec![] }),
        Element::Int32(-7),
        Element::Timestamp(9),
        Element::Int64(-9),
        Element::Decimal([2; 16]),
        Element::Min,
        Element::Max,
    ]
}

#[test]
fn narrowing_accepts_exactly_one_variant() {
    for e in sample_elements() {
        let is = matches!(e, Element::Double(_));
        let r = e.as_float();
        assert_eq!(is, r.is_ok());
        if !is {
            assert_eq!(Err(BsonError::TypeMismatch), r);
        }
    }
    for e in sample_elements() {
        let is = matches!(e, Element::String(_));
        let r = e.as_string();
        assert_eq!(is, r.is_ok());
        if !is {
            assert_eq!(Err(BsonError::TypeMismatch), r);
        }
    }
    for e in sample_elements() {
        let is = matches!(e, Element::EmbededDocument(_));
        let r = e.as_document();
        assert_eq!(is, r.is_ok());
        if !is {
            assert_eq!(Err(BsonError::TypeMismatch), r);
        }
    }
    for e in sample_elements() {
        let is = matches!(e, Element::ArrayDocument(_));
        let r = e.as_array();
        assert_eq!(is, r.is_ok());
        if !is {
            assert_eq!(Err(BsonError::TypeMismatch), r);
        }
    }
    for e in sample_elements() {
        let is = matches!(e, Element::Binary(_));
        let r = e.as_binary();
        assert_eq!(is, r.is_ok());
        if !is {
            assert_eq!(Err(BsonError::TypeMismatch), r);
        }
    }
    for e in sample_elements() {
        let is = matches!(e, Element::ObjectId(_));
        let r = e.as_object_id();
        assert_eq!(is, r.is_ok());
        if !is {
            assert_eq!(Err(BsonError::TypeMismatch), r);
        }
    }
    for e in sample_elements() {
        let is = matches!(e, Element::Boolean(_));
        let r = e.as_bool();
        assert_eq!(is, r.is_ok());
        if !is {
            assert_eq!(Err(BsonError::TypeMismatch), r);
        }
    }
    for e in sample_elements() {
        let is = matches!(e, Element::DateTime(_));
        let r = e.as_datetime();
        assert_eq!(is, r.is_ok());
        if !is {
            assert_eq!(Err(BsonError::TypeMismatch), r);
        }
    }
    for e in sample_elements() {
        let is = matches!(e, Element::DbPointer(_));
        let r = e.as_dbpointer();
        assert_eq!(is, r.is_ok());
        if !is {
            assert_eq!(Err(BsonError::TypeMismatch), r);
        }
    }
    for e in sample_elements() {
        let is = matches!(e, Element::Javascript(_));
        let r = e.as_javascript();
        assert_eq!(is, r.is_ok());
        if !is {
            assert_eq!(Err(BsonError::TypeMismatch), r);
        }
    }
    for e in sample_elements() {
        let is = matches!(e, Element::Symbol(_));
        let r = e.as_symbol();
        assert_eq!(is, r.is_ok());
        if !is {
            assert_eq!(Err(BsonError::TypeMismatch), r);
        }
    }
    for e in sample_elements() {
        let is = matches!(e, Element::Int32(_));
        let r = e.as_int32();
        assert_eq!(is, r.is_ok());
        if !is {
            assert_eq!(Err(BsonError::TypeMismatch), r);
        }
    }
    for e in sample_elements() {
        let is = matches!(e, Element::Timestamp(_));
        let r = e.as_timestamp();
        assert_eq!(is, r.is_ok());
        if !is {
            assert_eq!(Err(BsonError::TypeMismatch), r);
        }
    }
    for e in sample_elements() {
        let is = matches!(e, Element::Int64(_));
        let r = e.as_i64();
        assert_eq!(is, r.is_ok());
        if !is {
            assert_eq!(Err(BsonError::TypeMismatch), r);
        }
    }
    for e in sample_elements() {
        let is = matches!(e, Element::Decimal(_));
        let r = e.as_decimal128();
        assert_eq!(is, r.is_ok());
        if !is {
            assert_eq!(Err(BsonError::TypeMismatch), r);
        }
    }
}

#[test]
fn sentinel_predicates_cover_exactly_one_variant() {
    for e in sample_elements() {
        assert_eq!(Ok(matches!(e, Element::Undefined)), e.is_undefined());
        assert_eq!(Ok(matches!(e, Element::Null)), e.is_null());
        assert_eq!(Ok(matches!(e, Element::Min)), e.is_min());
        assert_eq!(Ok(matches!(e, Element::Max)), e.is_max());
    }
}
