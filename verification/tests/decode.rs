use spacenav_proxy::json::{parse, Json, Number};
use spacenav_proxy::message::{parse_msg, DecodeError, Message, MessageType};

fn kind_of(frame: &str) -> Result<MessageType, DecodeError> {
    parse_msg(frame.as_bytes()).map(|message| message.kind())
}

#[test]
fn decode_yields_each_message_type() {
    assert_eq!(kind_of("[0,\"id\",1,\"hello\"]"), Ok(MessageType::Welcome));
    assert_eq!(kind_of("[1,\"prefix\",\"uri\"]"), Ok(MessageType::Prefix));
    assert_eq!(kind_of("[2,\"c1\",\"fn\"]"), Ok(MessageType::Call));
    assert_eq!(kind_of("[3,\"c1\",{}]"), Ok(MessageType::CallResult));
    assert_eq!(kind_of("[4,\"c1\",\"err\"]"), Ok(MessageType::CallError));
    assert_eq!(kind_of("[5,\"topic\"]"), Ok(MessageType::Subscribe));
    assert_eq!(kind_of("[6,\"topic\"]"), Ok(MessageType::Unsubscribe));
    assert_eq!(kind_of("[7,\"topic\",null]"), Ok(MessageType::Publish));
    assert_eq!(kind_of("[8,\"topic\",[]]"), Ok(MessageType::Event));
}

#[test]
fn decode_accepts_lengths_two_to_six() {
    assert!(kind_of("[5,1]").is_ok());
    assert!(kind_of("[5,1,2]").is_ok());
    assert!(kind_of("[5,1,2,3]").is_ok());
    assert!(kind_of("[5,1,2,3,4]").is_ok());
    assert!(kind_of("[5,1,2,3,4,5]").is_ok());
}

#[test]
fn decode_rejects_wrong_arity() {
    assert_eq!(kind_of("[]"), Err(DecodeError::WrongArity));
    assert_eq!(kind_of("[5]"), Err(DecodeError::WrongArity));
    assert_eq!(kind_of("[5,1,2,3,4,5,6]"), Err(DecodeError::WrongArity));
    // The length is looked at before the tag.
    assert_eq!(kind_of("[\"x\"]"), Err(DecodeError::WrongArity));
}

#[test]
fn decode_rejects_invalid_tags() {
    assert_eq!(kind_of("[9,\"topic\"]"), Err(DecodeError::InvalidTag));
    assert_eq!(kind_of("[18446744073709551615,\"topic\"]"), Err(DecodeError::InvalidTag));
    assert_eq!(kind_of("[-1,\"topic\"]"), Err(DecodeError::InvalidTag));
    assert_eq!(kind_of("[\"5\",\"topic\"]"), Err(DecodeError::InvalidTag));
    assert_eq!(kind_of("[null,\"topic\"]"), Err(DecodeError::InvalidTag));
    assert_eq!(kind_of("[[5],\"topic\"]"), Err(DecodeError::InvalidTag));
    assert_eq!(kind_of("[true,\"topic\"]"), Err(DecodeError::InvalidTag));
}

#[test]
fn decode_rejects_a_tag_written_as_a_fraction() {
    assert_eq!(kind_of("[5.0,\"topic\"]"), Err(DecodeError::InvalidTag));
    assert_eq!(kind_of("[2.5,\"topic\"]"), Err(DecodeError::InvalidTag));
}

#[test]
fn decode_rejects_what_is_no_array() {
    assert_eq!(kind_of("{\"a\":1}"), Err(DecodeError::NotAnArray));
    assert_eq!(kind_of("5"), Err(DecodeError::NotAnArray));
    assert_eq!(kind_of("\"[5,1]\""), Err(DecodeError::NotAnArray));
    assert_eq!(kind_of("null"), Err(DecodeError::NotAnArray));
}

#[test]
fn decode_rejects_malformed_json() {
    assert_eq!(kind_of(""), Err(DecodeError::MalformedJson));
    assert_eq!(kind_of("[5,\"topic\""), Err(DecodeError::MalformedJson));
    assert_eq!(kind_of("[5,\"topic\"] x"), Err(DecodeError::MalformedJson));
    assert_eq!(kind_of("hello"), Err(DecodeError::MalformedJson));
    assert_eq!(parse_msg(&[0xff, 0xfe]).map(|m| m.kind()), Err(DecodeError::MalformedJson));
}

#[test]
fn decode_keeps_the_elements_in_order() {
    let message = parse_msg(b"[2,\"c1\",\"3dx_rpc:create\",\"3dconnexion:3dmouse\",\"0.6.0\"]")
        .unwrap();
    let elements = message.elements();
    assert_eq!(elements.len(), 5);
    assert_eq!(elements[0], Json::Number(Number { unsigned: Some(2), bits: 2.0f64.to_bits() }));
    assert_eq!(elements[1], Json::Text("c1".to_string()));
    assert_eq!(elements[2], Json::Text("3dx_rpc:create".to_string()));
    assert_eq!(elements[3], Json::Text("3dconnexion:3dmouse".to_string()));
    assert_eq!(elements[4], Json::Text("0.6.0".to_string()));
}

#[test]
fn message_from_json_agrees_with_decoding() {
    let document = Json::Array(vec![
        Json::Number(Number { unsigned: Some(5), bits: 5.0f64.to_bits() }),
        Json::Text("topic".to_string()),
    ]);
    let built = Message::from_json(document).unwrap();
    let decoded = parse_msg(b"[5,\"topic\"]").unwrap();
    assert_eq!(built, decoded);
    assert_eq!(built.kind(), MessageType::Subscribe);
}

#[test]
fn message_from_json_reports_each_error() {
    assert_eq!(Message::from_json(Json::Null), Err(DecodeError::NotAnArray));
    assert_eq!(Message::from_json(Json::Array(vec![])), Err(DecodeError::WrongArity));
    assert_eq!(
        Message::from_json(Json::Array(vec![Json::Null, Json::Null])),
        Err(DecodeError::InvalidTag)
    );
    assert_eq!(
        Message::from_json(Json::Array(vec![
            Json::Number(Number { unsigned: Some(9), bits: 9.0f64.to_bits() }),
            Json::Null
        ])),
        Err(DecodeError::InvalidTag)
    );
    assert_eq!(
        Message::from_json(Json::Array(vec![
            Json::Number(Number { unsigned: None, bits: 2.0f64.to_bits() }),
            Json::Null
        ])),
        Err(DecodeError::InvalidTag)
    );
}

#[test]
fn message_type_from_u64_covers_all_tags() {
    let all = [
        MessageType::Welcome,
        MessageType::Prefix,
        MessageType::Call,
        MessageType::CallResult,
        MessageType::CallError,
        MessageType::Subscribe,
        MessageType::Unsubscribe,
        MessageType::Publish,
        MessageType::Event,
    ];
    for (tag, kind) in all.iter().enumerate() {
        assert_eq!(MessageType::from_u64(tag as u64), *kind);
        assert_eq!(kind.code(), tag as u64);
    }
}

#[test]
fn message_type_from_u64_reads_unknown_tags_as_welcome() {
    assert_eq!(MessageType::from_u64(9), MessageType::Welcome);
    assert_eq!(MessageType::from_u64(u64::MAX), MessageType::Welcome);
}

#[test]
fn parse_reads_scalars() {
    assert_eq!(parse(b"null"), Some(Json::Null));
    assert_eq!(parse(b"true"), Some(Json::Bool(true)));
    assert_eq!(parse(b"false"), Some(Json::Bool(false)));
    assert_eq!(parse(b"\"a\\\"b\""), Some(Json::Text("a\"b".to_string())));
    assert_eq!(parse(b"{"), None);
}

#[test]
fn parse_reads_numbers_as_integer_and_bits() {
    assert_eq!(
        parse(b"7"),
        Some(Json::Number(Number { unsigned: Some(7), bits: 7.0f64.to_bits() }))
    );
    assert_eq!(
        parse(b"-7"),
        Some(Json::Number(Number { unsigned: None, bits: (-7.0f64).to_bits() }))
    );
    assert_eq!(
        parse(b"1.5"),
        Some(Json::Number(Number { unsigned: None, bits: 1.5f64.to_bits() }))
    );
    assert_eq!(
        parse(b"0.054270774126052856"),
        Some(Json::Number(Number { unsigned: None, bits: 0.054270774126052856f64.to_bits() }))
    );
    assert_eq!(
        parse(b"18446744073709551615"),
        Some(Json::Number(Number {
            unsigned: Some(u64::MAX),
            bits: 18446744073709551615.0f64.to_bits()
        }))
    );
}

#[test]
fn parse_reads_nested_documents() {
    let document = parse(b"[1,[2,[3]],{\"b\":{\"c\":[true]},\"a\":null}]").unwrap();
    let number = |n: u64| Json::Number(Number { unsigned: Some(n), bits: (n as f64).to_bits() });
    assert_eq!(
        document,
        Json::Array(vec![
            number(1),
            Json::Array(vec![number(2), Json::Array(vec![number(3)])]),
            Json::Object(vec![
                ("a".to_string(), Json::Null),
                (
                    "b".to_string(),
                    Json::Object(vec![("c".to_string(), Json::Array(vec![Json::Bool(true)]))])
                ),
            ]),
        ])
    );
}

#[test]
fn json_get_finds_members_of_objects_only() {
    let document = parse(b"{\"frame\":{\"time\":12.5},\"focus\":true}").unwrap();
    assert_eq!(document.get("focus"), Some(&Json::Bool(true)));
    assert_eq!(document.get("missing"), None);
    let frame = document.get("frame").unwrap();
    assert!(frame.is_object());
    assert_eq!(
        frame.get("time"),
        Some(&Json::Number(Number { unsigned: None, bits: 12.5f64.to_bits() }))
    );
    assert_eq!(Json::Array(vec![]).get("frame"), None);
    assert_eq!(Json::Text("frame".to_string()).get("frame"), None);
    assert!(!Json::Null.is_object());
}

#[test]
fn json_get_takes_the_first_of_equal_names() {
    let document = Json::Object(vec![
        ("k".to_string(), Json::Bool(true)),
        ("k".to_string(), Json::Bool(false)),
    ]);
    assert_eq!(document.get("k"), Some(&Json::Bool(true)));
}

#[test]
fn json_accessors_tell_the_variants_apart() {
    let text = Json::Text("t".to_string());
    let number = Json::Number(Number { unsigned: Some(3), bits: 3.0f64.to_bits() });
    let array = Json::Array(vec![Json::Null]);
    assert_eq!(text.as_text(), Some(&"t".to_string()));
    assert_eq!(number.as_text(), None);
    assert_eq!(number.as_number(), Some(Number { unsigned: Some(3), bits: 3.0f64.to_bits() }));
    assert_eq!(text.as_number(), None);
    assert_eq!(array.as_array(), Some(&vec![Json::Null]));
    assert_eq!(text.as_array(), None);
}

#[test]
fn scalars_take_the_leading_numbers() {
    let items = match parse(b"[1.5,2,-3,\"x\"]").unwrap() {
        Json::Array(items) => items,
        _ => unreachable!(),
    };
    assert_eq!(
        spacenav_proxy::json::scalars(&items, 3),
        Some(vec![1.5f64.to_bits(), 2.0f64.to_bits(), (-3.0f64).to_bits()])
    );
    assert_eq!(spacenav_proxy::json::scalars(&items, 0), Some(vec![]));
    assert_eq!(spacenav_proxy::json::scalars(&items, 4), None);
    assert_eq!(spacenav_proxy::json::scalars(&items, 5), None);
}
