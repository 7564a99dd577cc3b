use vstd::prelude::*;

verus! {

/// A lowercase hexadecimal digit.
pub open spec fn is_lower_hex(c: char) -> bool {
    ('0' <= c && c <= '9') || ('a' <= c && c <= 'f')
}

/// The hyphenated lowercase text of a version 4 UUID: 32 hex digits in groups
/// of 8-4-4-4-12, version digit `4`, and a variant digit of `8`, `9`, `a` or `b`.
pub open spec fn is_uuid_v4_text(s: Seq<char>) -> bool {
    &&& s.len() == 36
    &&& forall|i: int|
        0 <= i < 36 ==> if i == 8 || i == 13 || i == 18 || i == 23 {
            #[trigger] s[i] == '-'
        } else if i == 14 {
            s[i] == '4'
        } else if i == 19 {
            s[i] == '8' || s[i] == '9' || s[i] == 'a' || s[i] == 'b'
        } else {
            is_lower_hex(s[i])
        }
}

/// Relies on uuid::Uuid::new_v4, which draws random bits and fixes the version
/// and variant bits, and on its `Display`, which writes the hyphenated
/// lowercase form.
#[verifier::external_body]
fn fresh_id() -> (r: String)
    ensures
        is_uuid_v4_text(r@),
{
    uuid::Uuid::new_v4().to_string()
}

/// A request to sign `msg`, to be answered on `resp_topic`.
#[derive(Debug, Clone)]
pub struct MsgToSign {
    msg_id: String,
    resp_topic: String,
    msg: String,
}

impl MsgToSign {
    pub closed spec fn spec_msg_id(&self) -> Seq<char> {
        self.msg_id@
    }

    pub closed spec fn spec_resp_topic(&self) -> Seq<char> {
        self.resp_topic@
    }

    pub closed spec fn spec_msg(&self) -> Seq<char> {
        self.msg@
    }

    /// A new request with a fresh random correlation id.
    pub fn new(msg: String, resp_topic: String) -> (r: Self)
        ensures
            r.spec_msg()== msg@,
            r.spec_resp_topic() == resp_topic@,
            is_uuid_v4_text(r.spec_msg_id()),
    {
        MsgToSign { msg_id: fresh_id(), resp_topic, msg }
    }

    /// A request that already carries its correlation id, as read back from a
    /// broker record.
    pub fn from_parts(msg_id: String, resp_topic: String, msg: String) -> (r: Self)
        ensures
            r.spec_msg_id() == msg_id@,
            r.spec_resp_topic() == resp_topic@,
            r.spec_msg() == msg@,
    {
        MsgToSign { msg_id, resp_topic, msg }
    }

    pub fn msg_id(&self) -> (r: &str)
        ensures
            r@ == self.spec_msg_id(),
    {
        self.msg_id.as_str()
    }

    pub fn resp_topic(&self) -> (r: &str)
        ensures
            r@ == self.spec_resp_topic(),
    {
        self.resp_topic.as_str()
    }

    pub fn msg(&self) -> (r: &str)
        ensures
            r@ == self.spec_msg(),
    {
        self.msg.as_str()
    }
}

/// What base64 with the standard alphabet and padding makes of the UTF-8
/// bytes of a text.
pub uninterp spec fn base64_of(s: Seq<char>) -> Seq<char>;

/// Relies on base64::encode (standard alphabet, padded): the result depends on
/// the input alone, and an empty input gives an empty output.
#[verifier::external_body]
fn encode_base64(s: &str) -> (r: String)
    ensures
        r@ == base64_of(s@),
        s@.len() == 0 ==> r@.len() == 0,
{
    base64::encode(s)
}

/// The answer to a `MsgToSign`: `msg_id` echoes the request's correlation id,
/// `resp_id` is the signer's own id for this answer.
#[derive(Debug, Clone)]
pub struct MsgSigned {
    msg_id: String,
    resp_id: String,
    signed_msg: String,
}

impl MsgSigned {
    pub closed spec fn spec_msg_id(&self) -> Seq<char> {
        self.msg_id@
    }

    pub closed spec fn spec_resp_id(&self) -> Seq<char> {
        self.resp_id@
    }

    pub closed spec fn spec_signed_msg(&self) -> Seq<char> {
        self.signed_msg@
    }

    pub fn new(req_msg_id: String, resp_msg_id: String, signed_msg: String) -> (r: Self)
        ensures
            r.spec_msg_id() == req_msg_id@,
            r.spec_resp_id() == resp_msg_id@,
            r.spec_signed_msg() == signed_msg@,
    {
        MsgSigned { msg_id: req_msg_id, resp_id: resp_msg_id, signed_msg }
    }

    /// The stub signer's answer: the request's payload in base64, under the
    /// request's correlation id and a fresh response id.
    pub fn from_unsigned(msg_to_sign: MsgToSign) -> (r: Self)
        ensures
            r.spec_msg_id() == msg_to_sign.spec_msg_id(),
            r.spec_signed_msg() == base64_of(msg_to_sign.spec_msg()),
            is_uuid_v4_text(r.spec_resp_id()),
    {
        let signed_msg = encode_base64(msg_to_sign.msg.as_str());
        MsgSigned { msg_id: msg_to_sign.msg_id, resp_id: fresh_id(), signed_msg }
    }

    pub fn msg_id(&self) -> (r: &str)
        ensures
            r@ == self.spec_msg_id(),
    {
        self.msg_id.as_str()
    }

    pub fn resp_id(&self) -> (r: &str)
        ensures
            r@ == self.spec_resp_id(),
    {
        self.resp_id.as_str()
    }

    pub fn signed_msg(&self) -> (r: &str)
        ensures
            r@ == self.spec_signed_msg(),
    {
        self.signed_msg.as_str()
    }
}

/// A failure to obtain a response. `msg_id` names the request that failed
/// when the failure can be traced to one (a publish that was refused); a fault
/// of the broker's inbound stream carries none.
#[derive(Debug, Clone)]
pub struct TopicConsumeErr<E> {
    msg_id: Option<String>,
    source_err: E,
}

impl<E> TopicConsumeErr<E> {
    pub closed spec fn spec_msg_id(&self) -> Option<Seq<char>> {
        match self.msg_id {
            Some(s) => Some(s@),
            None => None,
        }
    }

    pub closed spec fn spec_source_err(&self) -> E {
        self.source_err
    }

    pub fn new(msg_id: Option<String>, source_err: E) -> (r: Self)
        ensures
            r.spec_msg_id() == (match msg_id {
                Some(s) => Some(s@),
                None => None::<Seq<char>>,
            }),
            r.spec_source_err() == source_err,
    {
        TopicConsumeErr { msg_id, source_err }
    }

    /// A fault of the broker's stream, which no request can be blamed for.
    pub fn unattributed(source_err: E) -> (r: Self)
        ensures
            r.spec_msg_id() is None,
            r.spec_source_err() == source_err,
    {
        TopicConsumeErr { msg_id: None, source_err }
    }

    /// The correlation id of the request that failed, if known.
    pub fn msg_id(&self) -> (r: Option<&str>)
        ensures
            r is Some <==> self.spec_msg_id() is Some,
            r is Some ==> r->0@ == self.spec_msg_id()->0,
    {
        match &self.msg_id {
            Some(s) => Some(s.as_str()),
            None => None,
        }
    }

    pub fn source_err(&self) -> (r: &E)
        ensures
            *r == self.spec_source_err(),
    {
        &self.source_err
    }

    pub fn into_source_err(self) -> (r: E)
        ensures
            r == self.spec_source_err(),
    {
        self.source_err
    }
}

} // verus!
