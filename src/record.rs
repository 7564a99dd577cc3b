use vstd::prelude::*;
use vstd::utf8::{decode_utf8, valid_utf8};

use crate::messages::{MsgSigned, MsgToSign, TopicConsumeErr};

verus! {

/// Header key of the correlation id, on requests and on responses.
pub const MSG_ID_KEY: &'static str = "msg_id";

/// Header key of the topic a request is to be answered on.
pub const RESP_TOPIC_KEY: &'static str = "resp_topic";

/// Header key of the signer's own id for a response.
pub const RESP_ID_KEY: &'static str = "resp_id";

/// The text that UTF-8 bytes spell, or `None` where they are not valid UTF-8.
pub open spec fn utf8_text(b: Seq<u8>) -> Option<Seq<char>> {
    if valid_utf8(b) {
        Some(decode_utf8(b))
    } else {
        None
    }
}

/// Relies on String::from_utf8: the bytes are taken as they are when they are
/// valid UTF-8, and refused otherwise.
#[verifier::external_body]
fn text_of(b: &Vec<u8>) -> (r: Option<String>)
    ensures
        match utf8_text(b@) {
            Some(s) => r is Some && r->0@ == s,
            None => r is None,
        },
{
    String::from_utf8(b.clone()).ok()
}

/// One header of a broker record as it was received: a key and, unless it was
/// null, a value of raw bytes.
#[derive(Debug, Clone)]
pub struct Header {
    pub key: String,
    pub value: Option<Vec<u8>>,
}

/// A broker record as it was received.
#[derive(Debug, Clone)]
pub struct Record {
    pub headers: Option<Vec<Header>>,
    pub payload: Option<Vec<u8>>,
}

/// A broker record to be published: text headers, in this order, and a text body.
#[derive(Debug, Clone)]
pub struct OutRecord {
    pub headers: Vec<(String, String)>,
    pub payload: String,
}

/// Why a received record could not be read.
#[derive(Debug, PartialEq, Eq, Structural, Clone, Copy)]
pub enum DecodeError {
    MissingHeaders,
    MissingHeader { index: usize },
    UnexpectedKey { index: usize },
    MissingValue { index: usize },
    ValueNotText { index: usize },
    MissingPayload,
    PayloadNotText,
}

/// The text of header `index`, which must be present, keyed `key`, and valid
/// UTF-8.
pub open spec fn header_text(headers: Seq<Header>, index: usize, key: Seq<char>) -> Result<Seq<char>, DecodeError> {
    if index >= headers.len() {
        Err(DecodeError::MissingHeader { index })
    } else if headers[index as int].key@ != key {
        Err(DecodeError::UnexpectedKey { index })
    } else {
        match headers[index as int].value {
            None => Err(DecodeError::MissingValue { index }),
            Some(v) => match utf8_text(v@) {
                None => Err(DecodeError::ValueNotText { index }),
                Some(s) => Ok(s),
            },
        }
    }
}

/// A record with header 0 keyed `first`, header 1 keyed `second` and a text
/// body gives the two header values and the body; the first fault found, in
/// that order, is the error otherwise.
pub open spec fn record_fields(rec: Record, first: Seq<char>, second: Seq<char>) -> Result<(Seq<char>, Seq<char>, Seq<char>), DecodeError> {
    match rec.headers {
        None => Err(DecodeError::MissingHeaders),
        Some(hs) => match header_text(hs@, 0, first) {
            Err(e) => Err(e),
            Ok(a) => match header_text(hs@, 1, second) {
                Err(e) => Err(e),
                Ok(b) => match rec.payload {
                    None => Err(DecodeError::MissingPayload),
                    Some(p) => match utf8_text(p@) {
                        None => Err(DecodeError::PayloadNotText),
                        Some(t) => Ok((a, b, t)),
                    },
                },
            },
        },
    }
}

fn read_header(headers: &Vec<Header>, index: usize, key: &str) -> (r: Result<String, DecodeError>)
    ensures
        match header_text(headers@, index, key@) {
            Ok(s) => r is Ok && r->Ok_0@ == s,
            Err(e) => r == Err::<String, DecodeError>(e),
        },
{
    if index >= headers.len() {
        return Err(DecodeError::MissingHeader { index });
    }
    let h = &headers[index];
    let expected = key.to_owned();
    if h.key != expected {
        return Err(DecodeError::UnexpectedKey { index });
    }
    match &h.value {
        None => Err(DecodeError::MissingValue { index }),
        Some(v) => match text_of(v) {
            None => Err(DecodeError::ValueNotText { index }),
            Some(s) => Ok(s),
        },
    }
}

fn read_fields(rec: &Record, first: &str, second: &str) -> (r: Result<(String, String, String), DecodeError>)
    ensures
        match record_fields(*rec, first@, second@) {
            Ok((a, b, t)) => r is Ok && r->Ok_0.0@ == a && r->Ok_0.1@ == b && r->Ok_0.2@ == t,
            Err(e) => r == Err::<(String, String, String), DecodeError>(e),
        },
{
    let hs = match &rec.headers {
        None => return Err(DecodeError::MissingHeaders),
        Some(hs) => hs,
    };
    let a = match read_header(hs, 0, first) {
        Err(e) => return Err(e),
        Ok(a) => a,
    };
    let b = match read_header(hs, 1, second) {
        Err(e) => return Err(e),
        Ok(b) => b,
    };
    let t = match &rec.payload {
        None => return Err(DecodeError::MissingPayload),
        Some(p) => match text_of(p) {
            None => return Err(DecodeError::PayloadNotText),
            Some(t) => t,
        },
    };
    Ok((a, b, t))
}

/// Reads a response of the signer: header `msg_id`, then header `resp_id`,
/// then the signed text as body.
pub fn decode_signed(rec: &Record) -> (r: Result<MsgSigned, DecodeError>)
    ensures
        match record_fields(*rec, MSG_ID_KEY@, RESP_ID_KEY@) {
            Ok((id, resp_id, body)) => r is Ok && r->Ok_0.spec_msg_id() == id
                && r->Ok_0.spec_resp_id() == resp_id && r->Ok_0.spec_signed_msg() == body,
            Err(e) => r == Err::<MsgSigned, DecodeError>(e),
        },
{
    match read_fields(rec, MSG_ID_KEY, RESP_ID_KEY) {
        Ok((id, resp_id, body)) => Ok(MsgSigned::new(id, resp_id, body)),
        Err(e) => Err(e),
    }
}

/// Reads a request to sign: header `msg_id`, then header `resp_topic`, then
/// the text to sign as body.
pub fn decode_request(rec: &Record) -> (r: Result<MsgToSign, DecodeError>)
    ensures
        match record_fields(*rec, MSG_ID_KEY@, RESP_TOPIC_KEY@) {
            Ok((id, topic, body)) => r is Ok && r->Ok_0.spec_msg_id() == id
                && r->Ok_0.spec_resp_topic() == topic && r->Ok_0.spec_msg() == body,
            Err(e) => r == Err::<MsgToSign, DecodeError>(e),
        },
{
    match read_fields(rec, MSG_ID_KEY, RESP_TOPIC_KEY) {
        Ok((id, topic, body)) => Ok(MsgToSign::from_parts(id, topic, body)),
        Err(e) => Err(e),
    }
}

/// The record that publishes a request: headers `msg_id` and `resp_topic`,
/// in that order, and the text to sign as body.
pub fn request_record(req: &MsgToSign) -> (r: OutRecord)
    ensures
        r.headers@.len() == 2,
        r.headers@[0].0@ == MSG_ID_KEY@,
        r.headers@[0].1@ == req.spec_msg_id(),
        r.headers@[1].0@ == RESP_TOPIC_KEY@,
        r.headers@[1].1@ == req.spec_resp_topic(),
        r.payload@ == req.spec_msg(),
{
    let mut headers: Vec<(String, String)> = Vec::new();
    headers.push((MSG_ID_KEY.to_owned(), req.msg_id().to_owned()));
    headers.push((RESP_TOPIC_KEY.to_owned(), req.resp_topic().to_owned()));
    OutRecord { headers, payload: req.msg().to_owned() }
}

/// The record that publishes a response: headers `msg_id` and `resp_id`, in
/// that order, and the signed text as body.
pub fn response_record(resp: &MsgSigned) -> (r: OutRecord)
    ensures
        r.headers@.len() == 2,
        r.headers@[0].0@ == MSG_ID_KEY@,
        r.headers@[0].1@ == resp.spec_msg_id(),
        r.headers@[1].0@ == RESP_ID_KEY@,
        r.headers@[1].1@ == resp.spec_resp_id(),
        r.payload@ == resp.spec_signed_msg(),
{
    let mut headers: Vec<(String, String)> = Vec::new();
    headers.push((MSG_ID_KEY.to_owned(), resp.msg_id().to_owned()));
    headers.push((RESP_ID_KEY.to_owned(), resp.resp_id().to_owned()));
    OutRecord { headers, payload: resp.signed_msg().to_owned() }
}

/// The error that reports a refused publish of `rec` to the request it
/// carried. The id is read from the record's own header `msg_id`; a record
/// without a readable one gives an error that no request can be blamed for.
pub fn failed_publish<E>(rec: &Record, cause: E) -> (r: TopicConsumeErr<E>)
    ensures
        r.spec_source_err() == cause,
        match rec.headers {
            Some(hs) => match header_text(hs@, 0, MSG_ID_KEY@) {
                Ok(id) => r.spec_msg_id() == Some(id),
                Err(_) => r.spec_msg_id() is None,
            },
            None => r.spec_msg_id() is None,
        },
{
    let id = match &rec.headers {
        None => None,
        Some(hs) => match read_header(hs, 0, MSG_ID_KEY) {
            Ok(id) => Some(id),
            Err(_) => None,
        },
    };
    TopicConsumeErr::new(id, cause)
}

} // verus!
