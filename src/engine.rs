use vstd::prelude::*;

use crate::merge::Step;
use crate::messages::{MsgSigned, TopicConsumeErr};
use crate::table::CorrelationTable;

verus! {

/// What settles a pending request: the signed answer, or the error that ended it.
pub type Resolution<E> = Result<MsgSigned, TopicConsumeErr<E>>;

/// The correlation id a resolution is addressed to; a fault of the broker's
/// stream is addressed to no request.
pub open spec fn resolution_id<E>(resp: Resolution<E>) -> Option<Seq<char>> {
    match resp {
        Ok(m) => Some(m.spec_msg_id()),
        Err(e) => e.spec_msg_id(),
    }
}

/// The table after a resolution addressed to `id`, and the entry it settles.
pub open spec fn settle_table<T>(m: Map<Seq<char>, T>, id: Option<Seq<char>>) -> (Map<Seq<char>, T>, Option<T>) {
    match id {
        Some(k) => if m.contains_key(k) {
            (m.remove(k), Some(m[k]))
        } else {
            (m, None)
        },
        None => (m, None),
    }
}

/// A resolution that reached its pending request: `pending` is the entry the
/// request was registered with, `resolution` what it is to be settled with.
pub struct Settlement<T, E> {
    pub pending: T,
    pub resolution: Resolution<E>,
}

/// What the engine's loop does after one event.
pub enum Next<T, E> {
    /// Settle this pending request, then go on.
    Deliver(Settlement<T, E>),
    /// A request under an id that is still waiting was refused; its entry
    /// comes back unregistered. Go on.
    Refused(T),
    /// Nothing to settle; go on.
    Continue,
    /// A queue or source has closed; the loop ends.
    Stop,
}

/// The decisions of the correlation engine: it registers each accepted request
/// under its correlation id and hands out its entry once, to the first
/// resolution addressed to that id.
pub struct Correlator<T> {
    waiting: CorrelationTable<T>,
}

impl<T> Correlator<T> {
    /// The requests that wait for a resolution, by correlation id.
    pub closed spec fn view(&self) -> Map<Seq<char>, T> {
        self.waiting@
    }

    pub closed spec fn wf(&self) -> bool {
        self.waiting.wf()
    }

    pub fn new() -> (r: Self)
        ensures
            r.wf(),
            r@ == Map::<Seq<char>, T>::empty(),
    {
        Correlator { waiting: CorrelationTable::new() }
    }

    /// Registers a request that was handed to the publisher. A second request
    /// under an id that is still waiting is refused and handed back; the
    /// waiting one keeps its place.
    pub fn accept(&mut self, msg_id: String, pending: T) -> (r: Result<(), T>)
        requires
            old(self).wf(),
        ensures
            final(self).wf(),
            old(self)@.contains_key(msg_id@) ==> r == Err::<(), T>(pending) && final(self)@ == old(self)@,
            !old(self)@.contains_key(msg_id@) ==> r is Ok && final(self)@ == old(self)@.insert(msg_id@, pending),
    {
        self.waiting.insert(msg_id, pending)
    }

    /// Routes a resolution to the request it is addressed to. That request
    /// leaves the table and its entry comes back with the resolution; one
    /// addressed to no waiting request (an orphan, or a fault of the broker's
    /// stream) is dropped and the table stays as it was.
    pub fn settle<E>(&mut self, resp: Resolution<E>) -> (r: Option<Settlement<T, E>>)
        requires
            old(self).wf(),
        ensures
            final(self).wf(),
            final(self)@ == settle_table(old(self)@, resolution_id(resp)).0,
            match settle_table(old(self)@, resolution_id(resp)).1 {
                Some(p) => r == Some(Settlement { pending: p, resolution: resp }),
                None => r is None,
            },
    {
        let found = match &resp {
            Ok(m) => self.waiting.remove(m.msg_id()),
            Err(e) => match e.msg_id() {
                Some(id) => self.waiting.remove(id),
                None => None,
            },
        };
        match found {
            Some(pending) => Some(Settlement { pending, resolution: resp }),
            None => None,
        }
    }

    /// A caller's request has been offered to the publisher; `forwarded` says
    /// whether the publisher took it. A taken request is registered (or
    /// refused as a duplicate); one the publisher could not take means the
    /// publisher is gone, and the loop stops with the table as it was.
    pub fn on_forwarded<E>(&mut self, msg_id: String, pending: T, forwarded: bool) -> (r: Next<T, E>)
        requires
            old(self).wf(),
        ensures
            final(self).wf(),
            !forwarded ==> r is Stop && final(self)@ == old(self)@,
            forwarded && old(self)@.contains_key(msg_id@) ==> r == Next::<T, E>::Refused(pending)
                && final(self)@ == old(self)@,
            forwarded && !old(self)@.contains_key(msg_id@) ==> r is Continue && final(self)@
                == old(self)@.insert(msg_id@, pending),
    {
        if !forwarded {
            return Next::Stop;
        }
        match self.accept(msg_id, pending) {
            Ok(()) => Next::Continue,
            Err(p) => Next::Refused(p),
        }
    }

    /// One item of the merged response stream: a resolution is routed as
    /// `settle` does, an unreadable record is passed over, and the end of the
    /// stream stops the loop.
    pub fn on_step<E>(&mut self, step: Step<E>) -> (r: Next<T, E>)
        requires
            old(self).wf(),
        ensures
            final(self).wf(),
            match step {
                Step::Resolved(resp) => final(self)@ == settle_table(old(self)@, resolution_id(resp)).0
                    && match settle_table(old(self)@, resolution_id(resp)).1 {
                    Some(p) => r == Next::<T, E>::Deliver(Settlement { pending: p, resolution: resp }),
                    None => r is Continue,
                },
                Step::Malformed(_) | Step::Pending => r is Continue && final(self)@ == old(self)@,
                Step::Ended => r is Stop && final(self)@ == old(self)@,
            },
    {
        match step {
            Step::Resolved(resp) => match self.settle(resp) {
                Some(s) => Next::Deliver(s),
                None => Next::Continue,
            },
            Step::Malformed(_) => Next::Continue,
            Step::Pending => Next::Continue,
            Step::Ended => Next::Stop,
        }
    }

    /// Whether a request with this id is still waiting.
    pub fn is_waiting(&self, msg_id: &str) -> (r: bool)
        requires
            self.wf(),
        ensures
            r == self@.contains_key(msg_id@),
    {
        self.waiting.contains(msg_id)
    }

    /// The number of requests still waiting.
    pub fn waiting_count(&self) -> (r: usize)
        requires
            self.wf(),
        ensures
            r == self@.len(),
    {
        self.waiting.len()
    }
}

/// Once a resolution for `id` has settled an entry, no later resolution for
/// `id` settles anything: each registered request is settled at most once.
pub proof fn lemma_settled_at_most_once<T>(m: Map<Seq<char>, T>, id: Seq<char>)
    ensures
        !settle_table(m, Some(id)).0.contains_key(id),
        settle_table(settle_table(m, Some(id)).0, Some(id)).1 is None,
        settle_table(settle_table(m, Some(id)).0, Some(id)).0 == settle_table(m, Some(id)).0,
{
}

/// A resolution for `id` settles the entry registered under `id` and no
/// other: every other entry stays in the table, unchanged.
pub proof fn lemma_settles_only_its_own<T>(m: Map<Seq<char>, T>, id: Seq<char>, other: Seq<char>)
    requires
        other != id,
    ensures
        m.contains_key(id) ==> settle_table(m, Some(id)).1 == Some(m[id]),
        settle_table(m, Some(id)).0.contains_key(other) == m.contains_key(other),
        m.contains_key(other) ==> settle_table(m, Some(id)).0[other] == m[other],
{
}

/// A resolution for an id that was never registered, or for no id at all,
/// settles nothing and leaves the table as it was.
pub proof fn lemma_orphan_leaves_table<T>(m: Map<Seq<char>, T>, id: Option<Seq<char>>)
    requires
        id is None || !m.contains_key(id->0),
    ensures
        settle_table(m, id) == (m, None::<T>),
{
}

} // verus!
