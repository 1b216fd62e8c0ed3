use ai_agent_core::chunks::join_chunks;
use ai_agent_core::chunks::next_chunk;
use ai_agent_core::data_exchange::SCHEMA_VERSION;
use ai_agent_core::DataExchange;
use ai_agent_core::ErrorKind;
use ai_agent_core::ExchangeEnvelope;
use ai_agent_core::Origin;
use ai_agent_core::Value;
use ai_agent_core::ValueType;

fn round_trip(value: Value) {
    let requested = value.value_type();
    let envelope = DataExchange::new(value.clone()).serialize();
    assert_eq!(envelope.schema_version, SCHEMA_VERSION);
    let back = DataExchange::deserialize(&envelope, requested).unwrap();
    assert_eq!(back.data, value);
    let wire = envelope.to_bytes();
    let parsed = ExchangeEnvelope::from_bytes(&wire).unwrap();
    assert_eq!(parsed, envelope);
}

#[test]
fn every_kind_of_value_round_trips() {
    round_trip(Value::Null);
    round_trip(Value::Bool(true));
    round_trip(Value::Bool(false));
    round_trip(Value::Int(0));
    round_trip(Value::Int(-1));
    round_trip(Value::Int(i64::MIN));
    round_trip(Value::Int(i64::MAX));
    round_trip(Value::Text(String::new()));
    round_trip(Value::Text("héllo, wörld ✓".to_string()));
    round_trip(Value::Bytes(vec![]));
    round_trip(Value::Bytes(vec![0, 255, 128, 7]));
    round_trip(Value::List(vec![]));
    round_trip(Value::List(vec![Value::Null, Value::Bool(true), Value::Int(-7)]));
    round_trip(Value::List(vec![
        Value::Text("a".to_string()),
        Value::List(vec![Value::Bytes(vec![1, 2]), Value::List(vec![]), Value::List(vec![Value::Null])]),
        Value::Text(String::new()),
    ]));
}

#[test]
fn deeply_nested_lists_round_trip() {
    let mut value = Value::Int(1);
    for _ in 0..200 {
        value = Value::List(vec![value, Value::Null]);
    }
    round_trip(value);
}

#[test]
fn list_body_layout_is_exact() {
    let value = Value::List(vec![Value::Bool(true), Value::Text("hi".to_string()), Value::List(vec![])]);
    let e = DataExchange::new(value).serialize();
    assert_eq!(e.type_tag, "list");
    let mut expected = vec![0, 0, 0, 0, 0, 0, 0, 3];
    expected.extend([1, 0, 0, 0, 0, 0, 0, 0, 1, 1]);
    expected.extend([3, 0, 0, 0, 0, 0, 0, 0, 2, b'h', b'i']);
    expected.extend([5, 0, 0, 0, 0, 0, 0, 0, 8, 0, 0, 0, 0, 0, 0, 0, 0]);
    assert_eq!(e.body, expected);
}

#[test]
fn malformed_lists_are_refused() {
    let bad = |body: Vec<u8>| {
        let envelope = ExchangeEnvelope { schema_version: SCHEMA_VERSION, type_tag: "list".to_string(), body };
        DataExchange::deserialize(&envelope, ValueType::List).unwrap_err().kind
    };
    let good = DataExchange::new(Value::List(vec![Value::Int(1), Value::Bool(false)])).serialize().body;
    // cut anywhere, or with anything behind it
    for cut in 0..good.len() {
        assert_eq!(bad(good[..cut].to_vec()), ErrorKind::DecodeError);
    }
    let mut longer = good.clone();
    longer.push(0);
    assert_eq!(bad(longer), ErrorKind::DecodeError);
    // a count that promises more items than there are
    let mut more = good.clone();
    more[7] = 3;
    assert_eq!(bad(more), ErrorKind::DecodeError);
    // a count that promises fewer
    let mut fewer = good.clone();
    fewer[7] = 1;
    assert_eq!(bad(fewer), ErrorKind::DecodeError);
    // an item of an unknown type
    let mut unknown = good.clone();
    unknown[8] = 6;
    assert_eq!(bad(unknown), ErrorKind::DecodeError);
    // an item whose own body is malformed
    let mut inner = good.clone();
    let last = inner.len() - 1;
    inner[last] = 2;
    assert_eq!(bad(inner), ErrorKind::DecodeError);
    // an item length beyond the body
    let huge = vec![0, 0, 0, 0, 0, 0, 0, 1, 4, 255, 255, 255, 255, 255, 255, 255, 255, 1];
    assert_eq!(bad(huge), ErrorKind::DecodeError);
    // a huge count over an empty rest
    assert_eq!(bad(vec![255, 255, 255, 255, 255, 255, 255, 255]), ErrorKind::DecodeError);
}

#[test]
fn integer_body_is_big_endian_twos_complement() {
    let e = DataExchange::new(Value::Int(258)).serialize();
    assert_eq!(e.type_tag, "int");
    assert_eq!(e.body, vec![0, 0, 0, 0, 0, 0, 1, 2]);
    let e = DataExchange::new(Value::Int(-2)).serialize();
    assert_eq!(e.body, vec![255, 255, 255, 255, 255, 255, 255, 254]);
}

#[test]
fn bodies_of_the_other_types() {
    assert_eq!(DataExchange::new(Value::Null).serialize().body, Vec::<u8>::new());
    assert_eq!(DataExchange::new(Value::Bool(true)).serialize().body, vec![1]);
    assert_eq!(DataExchange::new(Value::Bool(false)).serialize().body, vec![0]);
    let e = DataExchange::new(Value::Text("hé".to_string())).serialize();
    assert_eq!(e.type_tag, "text");
    assert_eq!(e.body, vec![b'h', 0xc3, 0xa9]);
    let e = DataExchange::new(Value::Bytes(vec![9, 8])).serialize();
    assert_eq!(e.type_tag, "bytes");
    assert_eq!(e.body, vec![9, 8]);
}

#[test]
fn unknown_schema_version_is_refused() {
    let envelope = ExchangeEnvelope {
        schema_version: 999,
        type_tag: "int".to_string(),
        body: vec![0, 0, 0, 0, 0, 0, 0, 1],
    };
    let err = DataExchange::deserialize(&envelope, ValueType::Int).unwrap_err();
    assert_eq!(err.kind, ErrorKind::UnsupportedSchema);
    assert_eq!(err.origin, Origin::Native);
    assert!(err.cause.is_none());
    // The version is judged before anything else in the envelope.
    let junk = ExchangeEnvelope { schema_version: 999, type_tag: "nonsense".to_string(), body: vec![1, 2, 3] };
    let err = DataExchange::deserialize(&junk, ValueType::Null).unwrap_err();
    assert_eq!(err.kind, ErrorKind::UnsupportedSchema);
}

#[test]
fn mismatched_type_tag_is_refused() {
    let envelope = DataExchange::new(Value::Int(5)).serialize();
    let err = DataExchange::deserialize(&envelope, ValueType::Text).unwrap_err();
    assert_eq!(err.kind, ErrorKind::TypeMismatch);
    let err = DataExchange::deserialize(&envelope, ValueType::Bytes).unwrap_err();
    assert_eq!(err.kind, ErrorKind::TypeMismatch);
}

#[test]
fn malformed_bodies_are_refused() {
    let bad = |tag: &str, body: Vec<u8>, requested: ValueType| {
        let envelope = ExchangeEnvelope { schema_version: SCHEMA_VERSION, type_tag: tag.to_string(), body };
        DataExchange::deserialize(&envelope, requested).unwrap_err().kind
    };
    assert_eq!(bad("null", vec![0], ValueType::Null), ErrorKind::DecodeError);
    assert_eq!(bad("bool", vec![2], ValueType::Bool), ErrorKind::DecodeError);
    assert_eq!(bad("bool", vec![], ValueType::Bool), ErrorKind::DecodeError);
    assert_eq!(bad("bool", vec![1, 1], ValueType::Bool), ErrorKind::DecodeError);
    assert_eq!(bad("int", vec![0; 7], ValueType::Int), ErrorKind::DecodeError);
    assert_eq!(bad("int", vec![0; 9], ValueType::Int), ErrorKind::DecodeError);
    assert_eq!(bad("text", vec![0xff, 0xfe], ValueType::Text), ErrorKind::DecodeError);
    assert_eq!(bad("text", vec![0xc3], ValueType::Text), ErrorKind::DecodeError);
}

#[test]
fn frame_layout_is_exact() {
    let envelope = ExchangeEnvelope { schema_version: 1, type_tag: "int".to_string(), body: vec![7, 8] };
    let wire = envelope.to_bytes();
    assert_eq!(
        wire,
        vec![0, 0, 0, 1, 0, 0, 0, 0, 0, 0, 0, 3, b'i', b'n', b't', 0, 0, 0, 0, 0, 0, 0, 2, 7, 8]
    );
}

#[test]
fn damaged_frames_are_refused() {
    let wire = DataExchange::new(Value::Text("abc".to_string())).serialize().to_bytes();
    for cut in 0..wire.len() {
        let err = ExchangeEnvelope::from_bytes(&wire[..cut]).unwrap_err();
        assert_eq!(err.kind, ErrorKind::DecodeError);
    }
    let mut longer = wire.clone();
    longer.push(0);
    assert_eq!(ExchangeEnvelope::from_bytes(&longer).unwrap_err().kind, ErrorKind::DecodeError);
    // a type tag that is not UTF-8
    let bad_tag = vec![0, 0, 0, 1, 0, 0, 0, 0, 0, 0, 0, 1, 0xff, 0, 0, 0, 0, 0, 0, 0, 0];
    assert_eq!(ExchangeEnvelope::from_bytes(&bad_tag).unwrap_err().kind, ErrorKind::DecodeError);
    // a tag length far beyond the frame
    let huge = vec![0, 0, 0, 1, 255, 255, 255, 255, 255, 255, 255, 255, 0, 0, 0, 0];
    assert_eq!(ExchangeEnvelope::from_bytes(&huge).unwrap_err().kind, ErrorKind::DecodeError);
}

fn stream(data: &[u8], limit: usize) -> Vec<Vec<u8>> {
    let mut chunks = Vec::new();
    let mut offset = 0;
    while offset < data.len() {
        let (chunk, next) = next_chunk(data, offset, limit);
        chunks.push(chunk.to_vec());
        offset = next;
    }
    chunks
}

#[test]
fn payloads_within_the_limit_travel_whole() {
    let data = vec![1u8, 2, 3, 4];
    assert_eq!(stream(&data, 4), vec![data.clone()]);
    assert_eq!(stream(&data, 100), vec![data.clone()]);
    assert_eq!(stream(&[], 4), Vec::<Vec<u8>>::new());
}

#[test]
fn payloads_above_the_limit_travel_in_chunks() {
    let data: Vec<u8> = (0..10).collect();
    let chunks = stream(&data, 4);
    assert_eq!(chunks, vec![vec![0, 1, 2, 3], vec![4, 5, 6, 7], vec![8, 9]]);
    assert_eq!(join_chunks(&chunks), data);
    // a limit of zero still makes progress, one byte at a time
    let chunks = stream(&data, 0);
    assert_eq!(chunks.len(), 10);
    assert_eq!(join_chunks(&chunks), data);
    // an offset past the end yields an empty chunk at the end
    let (chunk, next) = next_chunk(&data, 50, 4);
    assert!(chunk.is_empty());
    assert_eq!(next, 10);
}
