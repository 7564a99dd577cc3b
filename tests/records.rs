use signer_rest_api::{
    decode_request, decode_signed, failed_publish, request_record, response_record, Correlator,
    DecodeError, Header, MsgSigned, MsgToSign, OutRecord, Record,
};

fn header(key: &str, value: &[u8]) -> Header {
    Header { key: key.to_string(), value: Some(value.to_vec()) }
}

fn record(headers: Vec<Header>, payload: &[u8]) -> Record {
    Record { headers: Some(headers), payload: Some(payload.to_vec()) }
}

/// What the broker delivers for a record that was published as `out`.
fn delivered(out: &OutRecord) -> Record {
    let headers = out.headers.iter().map(|(k, v)| header(k, v.as_bytes())).collect();
    record(headers, out.payload.as_bytes())
}

#[test]
fn decode_signed_reads_headers_and_body() {
    let rec = record(vec![header("msg_id", b"m1"), header("resp_id", b"r1")], b"c2ln");
    let m = decode_signed(&rec).unwrap();
    assert_eq!(m.msg_id(), "m1");
    assert_eq!(m.resp_id(), "r1");
    assert_eq!(m.signed_msg(), "c2ln");
}

#[test]
fn decode_signed_errors() {
    let no_headers = Record { headers: None, payload: Some(b"x".to_vec()) };
    assert_eq!(decode_signed(&no_headers).err(), Some(DecodeError::MissingHeaders));

    let one = record(vec![header("msg_id", b"m1")], b"x");
    assert_eq!(decode_signed(&one).err(), Some(DecodeError::MissingHeader { index: 1 }));

    let none = record(vec![], b"x");
    assert_eq!(decode_signed(&none).err(), Some(DecodeError::MissingHeader { index: 0 }));

    let swapped = record(vec![header("resp_id", b"r1"), header("msg_id", b"m1")], b"x");
    assert_eq!(decode_signed(&swapped).err(), Some(DecodeError::UnexpectedKey { index: 0 }));

    let null = record(
        vec![header("msg_id", b"m1"), Header { key: "resp_id".to_string(), value: None }],
        b"x",
    );
    assert_eq!(decode_signed(&null).err(), Some(DecodeError::MissingValue { index: 1 }));

    let bad_text = record(vec![header("msg_id", &[0xff, 0xfe]), header("resp_id", b"r")], b"x");
    assert_eq!(decode_signed(&bad_text).err(), Some(DecodeError::ValueNotText { index: 0 }));

    let no_body = Record {
        headers: Some(vec![header("msg_id", b"m1"), header("resp_id", b"r1")]),
        payload: None,
    };
    assert_eq!(decode_signed(&no_body).err(), Some(DecodeError::MissingPayload));

    let bad_body = record(vec![header("msg_id", b"m1"), header("resp_id", b"r1")], &[0xc3, 0x28]);
    assert_eq!(decode_signed(&bad_body).err(), Some(DecodeError::PayloadNotText));
}

#[test]
fn decode_request_reads_headers_and_body() {
    let rec = record(vec![header("msg_id", b"m2"), header("resp_topic", b"replies")], b"hello");
    let r = decode_request(&rec).unwrap();
    assert_eq!(r.msg_id(), "m2");
    assert_eq!(r.resp_topic(), "replies");
    assert_eq!(r.msg(), "hello");

    let wrong = record(vec![header("msg_id", b"m2"), header("resp_id", b"replies")], b"hello");
    assert_eq!(decode_request(&wrong).err(), Some(DecodeError::UnexpectedKey { index: 1 }));
}

#[test]
fn request_record_layout() {
    let req = MsgToSign::from_parts("m3".to_string(), "replies".to_string(), "body".to_string());
    let out = request_record(&req);
    assert_eq!(
        out.headers,
        vec![
            ("msg_id".to_string(), "m3".to_string()),
            ("resp_topic".to_string(), "replies".to_string())
        ]
    );
    assert_eq!(out.payload, "body");
}

#[test]
fn response_record_layout() {
    let m = MsgSigned::new("m4".to_string(), "r4".to_string(), "c2ln".to_string());
    let out = response_record(&m);
    assert_eq!(
        out.headers,
        vec![("msg_id".to_string(), "m4".to_string()), ("resp_id".to_string(), "r4".to_string())]
    );
    assert_eq!(out.payload, "c2ln");
}

#[test]
fn failed_publish_is_attributed_to_its_request() {
    let req = MsgToSign::from_parts("m5".to_string(), "replies".to_string(), "x".to_string());
    let rec = delivered(&request_record(&req));
    let err = failed_publish(&rec, "timed out".to_string());
    assert_eq!(err.msg_id(), Some("m5"));
    assert_eq!(err.source_err(), "timed out");

    let bare = Record { headers: None, payload: None };
    assert_eq!(failed_publish(&bare, 3u8).msg_id(), None);
    let other = record(vec![header("resp_topic", b"t")], b"x");
    assert_eq!(failed_publish(&other, 3u8).msg_id(), None);
}

#[test]
fn hello_round_trip_through_stub_signer() {
    let mut engine: Correlator<u32> = Correlator::new();
    let req = MsgToSign::new("hello".to_string(), "replies".to_string());
    let id = req.msg_id().to_string();
    let published = request_record(&req);
    engine.accept(id.clone(), 42).unwrap();

    // the signing actor reads the request and answers on the reply topic
    let seen = decode_request(&delivered(&published)).unwrap();
    assert_eq!(seen.resp_topic(), "replies");
    let answer = response_record(&MsgSigned::from_unsigned(seen));

    let back = decode_signed(&delivered(&answer)).unwrap();
    let s = engine.settle::<String>(Ok(back)).unwrap();
    assert_eq!(s.pending, 42);
    let m = s.resolution.ok().unwrap();
    assert_eq!(m.msg_id(), id);
    assert_eq!(m.signed_msg(), "aGVsbG8=");
    assert_eq!(engine.waiting_count(), 0);
}

#[test]
fn failed_publish_settles_caller_without_round_trip() {
    let mut engine: Correlator<u32> = Correlator::new();
    let req = MsgToSign::new("x".to_string(), "replies".to_string());
    let id = req.msg_id().to_string();
    let published = request_record(&req);
    engine.accept(id.clone(), 1).unwrap();
    let err = failed_publish(&delivered(&published), "broker refused".to_string());
    let s = engine.settle(Err(err)).unwrap();
    let e = s.resolution.err().unwrap();
    assert_eq!(e.msg_id(), Some(id.as_str()));
    assert_eq!(e.source_err(), "broker refused");
}
