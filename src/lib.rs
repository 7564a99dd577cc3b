//! A correlation engine that turns a broker's publish/subscribe channel into
//! request/response calls: requests get a correlation id, pending requests are
//! kept in a table, and every resolution settles at most one of them.
use vstd::prelude::*;

mod adapter;
mod messages;
mod table;
mod engine;
mod record;
mod merge;

pub use messages::{base64_of, is_lower_hex, is_uuid_v4_text, MsgSigned, MsgToSign, TopicConsumeErr};
pub use table::CorrelationTable;
pub use adapter::{
    frame_action, reply_text, spec_reply_text, ClientFrame, FrameAction, Outcome, CLIENT_TIMEOUT_SECS,
};
pub use engine::{
    lemma_orphan_leaves_table, lemma_settled_at_most_once, lemma_settles_only_its_own,
    resolution_id, settle_table, Correlator, Next, Resolution, Settlement,
};
pub use merge::{broker_step, loopback_step, Polled, Step};
pub use record::{
    decode_request, decode_signed, failed_publish, header_text, record_fields, request_record,
    response_record, utf8_text, DecodeError, Header, OutRecord, Record, MSG_ID_KEY, RESP_ID_KEY,
    RESP_TOPIC_KEY,
};

verus! {

/// Room in each bounded queue: callers to engine, engine to publisher, and
/// publisher back to engine for failed publishes. A sender waits while its
/// queue is full.
pub const QUEUE_CAPACITY: usize = 1024;

/// How long one publish to the broker may take, in seconds.
pub const PUBLISH_TIMEOUT_SECS: u64 = 5;

} // verus!
