use vstd::prelude::*;

use crate::engine::Resolution;
use crate::messages::TopicConsumeErr;
use crate::record::{decode_signed, record_fields, DecodeError, Record, MSG_ID_KEY, RESP_ID_KEY};

verus! {

/// The outcome of polling one source once.
pub enum Polled<T> {
    Ready(T),
    Ended,
    Pending,
}

/// What one poll of the merged response stream hands out.
pub enum Step<E> {
    /// A resolution for the engine to route.
    Resolved(Resolution<E>),
    /// A broker record that could not be read; the stream goes on after it.
    Malformed(DecodeError),
    /// Nothing is ready yet.
    Pending,
    /// A source has ended; so has the merged stream.
    Ended,
}

/// The first half of a poll of the merged stream, on the broker's inbound
/// records. When the broker has something ready, that is the step and the
/// loopback source is not polled at all; `None` means the broker had nothing
/// ready and the loopback source is to be polled next.
pub fn broker_step<E>(a: Polled<Result<Record, E>>) -> (r: Option<Step<E>>)
    ensures
        r is None <==> a is Pending,
        match a {
            Polled::Ready(Ok(rec)) => match record_fields(rec, MSG_ID_KEY@, RESP_ID_KEY@) {
                Ok((id, resp_id, body)) => match r {
                    Some(Step::Resolved(Ok(m))) => m.spec_msg_id() == id && m.spec_resp_id() == resp_id
                        && m.spec_signed_msg() == body,
                    _ => false,
                },
                Err(e) => r == Some(Step::<E>::Malformed(e)),
            },
            Polled::Ready(Err(cause)) => match r {
                Some(Step::Resolved(Err(err))) => err.spec_msg_id() is None && err.spec_source_err() == cause,
                _ => false,
            },
            Polled::Ended => r == Some(Step::<E>::Ended),
            Polled::Pending => true,
        },
{
    match a {
        Polled::Ready(Ok(rec)) => match decode_signed(&rec) {
            Ok(m) => Some(Step::Resolved(Ok(m))),
            Err(e) => Some(Step::Malformed(e)),
        },
        Polled::Ready(Err(cause)) => Some(Step::Resolved(Err(TopicConsumeErr::unattributed(cause)))),
        Polled::Ended => Some(Step::Ended),
        Polled::Pending => None,
    }
}

/// The second half of a poll of the merged stream, on the loopback channel of
/// failed publishes: an error that is ready is handed on as it is.
pub fn loopback_step<E>(b: Polled<TopicConsumeErr<E>>) -> (r: Step<E>)
    ensures
        match b {
            Polled::Ready(err) => r == Step::<E>::Resolved(Err(err)),
            Polled::Ended => r == Step::<E>::Ended,
            Polled::Pending => r == Step::<E>::Pending,
        },
{
    match b {
        Polled::Ready(err) => Step::Resolved(Err(err)),
        Polled::Ended => Step::Ended,
        Polled::Pending => Step::Pending,
    }
}

} // verus!
