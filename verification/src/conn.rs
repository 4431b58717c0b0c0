//! The connection loop's state machine: the correlation table, the monotonic
//! id allocator, and the reconnection budget.
//!
//! The runtime owns the socket and drives this state machine: it feeds in
//! outbound requests, inbound replies, socket drops and reconnection
//! outcomes, and performs the returned resolutions (completing each waiting
//! caller's one-shot sink) and status events. Only the loop ever touches the
//! table, so two concurrent calls never race on it.

use vstd::prelude::*;
use crate::error::Error;
use crate::json::JsonValue;

verus! {

/// A caller waits at most this long for its reply.
pub const CALL_TIMEOUT_SECS: u64 = 30;

/// How many times a dropped connection is redialed before giving up.
pub const RECONNECT_ATTEMPTS: u64 = 10;

/// The fixed pause between reconnection attempts.
pub const RECONNECT_DELAY_SECS: u64 = 2;

/// One in-flight call: its correlation id and the method it was issued for.
/// The result sink is identified by the id; the runtime maps ids to senders.
pub struct PendingCall {
    pub id: u64,
    pub method: String,
}

/// The link portion of the loop state.
#[derive(Debug, Clone, Copy, PartialEq, Eq, Structural)]
pub enum LinkState {
    /// A live connection carries frames in both directions.
    Connected,
    /// The connection dropped; `failures` attempts have failed since.
    Reconnecting { failures: u64 },
    /// The retry budget is spent; this loop instance is permanently down.
    Terminated,
}

/// What the engine sent back for one call.
pub enum ReplyBody {
    /// The `result` payload of a successful reply.
    Success(JsonValue),
    /// The `error` payload of a failed reply, surfaced verbatim.
    Failure { code: i64, message: String },
}

/// How a reply body resolves the waiting caller.
pub open spec fn spec_reply_result(body: ReplyBody) -> Result<JsonValue, Error> {
    match body {
        ReplyBody::Success(v) => Ok(v),
        ReplyBody::Failure { code, message } => Err(Error::Protocol { code, message }),
    }
}

/// An instruction to complete the sink of call `id` with `result`.
pub struct Resolution {
    pub id: u64,
    pub result: Result<JsonValue, Error>,
}

/// What the loop does with one inbound reply.
pub enum ReplyAction {
    /// Complete the matching caller's sink.
    Resolve(Resolution),
    /// No call with that id is in flight; the reply is dropped.
    Ignored,
}

/// What the runtime should do after one reconnection attempt.
#[derive(Debug, Clone, Copy, PartialEq, Eq, Structural)]
pub enum ReconnectStep {
    /// The new connection is live; resume the loop with an empty table.
    Resumed,
    /// Wait the fixed delay, then attempt again.
    RetryAfterDelay,
    /// The budget is exhausted; the loop terminates.
    GaveUp,
}

/// The state the connection loop owns exclusively.
pub struct ConnLoop {
    pub link: LinkState,
    /// The next id to allocate; ids below it are never handed out again.
    pub next_id: u64,
    /// The correlation table of in-flight calls.
    pub pending: Vec<PendingCall>,
    /// Every id allocated over the lifetime of this loop.
    pub issued: Ghost<Set<u64>>,
}

impl ConnLoop {
    /// The table holds pairwise distinct ids, every tabled id was issued, and
    /// every issued id lies below the allocator, so it can never come back.
    pub open spec fn wf(self) -> bool {
        &&& 1 <= self.next_id
        &&& (forall|i: int, j: int|
            0 <= i < j < self.pending@.len() ==> self.pending@[i].id != self.pending@[j].id)
        &&& (forall|i: int|
            0 <= i < self.pending@.len() ==> self.issued@.contains(#[trigger] self.pending@[i].id))
        &&& (forall|id: u64| self.issued@.contains(id) ==> id < self.next_id)
        &&& (self.link matches LinkState::Reconnecting { failures } ==> failures
            < RECONNECT_ATTEMPTS)
    }

    /// Whether a call with this id is in flight.
    pub open spec fn has_pending(self, id: u64) -> bool {
        exists|i: int| 0 <= i < self.pending@.len() && self.pending@[i].id == id
    }

    /// A fresh loop over a newly established connection.
    pub fn new() -> (r: Self)
        ensures
            r.wf(),
            r.link is Connected,
            r.pending@.len() == 0,
            r.next_id == 1,
            r.issued@ == Set::<u64>::empty(),
    {
        ConnLoop {
            link: LinkState::Connected,
            next_id: 1,
            pending: Vec::new(),
            issued: Ghost(Set::empty()),
        }
    }

    /// A fresh loop whose allocator starts at a given watermark: when a
    /// terminated client instance is re-initialized, passing the old
    /// allocator value keeps ids unique across the whole process lifetime.
    pub fn resuming_from(next_id: u64) -> (r: Self)
        requires
            next_id >= 1,
        ensures
            r.wf(),
            r.link is Connected,
            r.pending@.len() == 0,
            r.next_id == next_id,
            r.issued@ == Set::<u64>::empty(),
    {
        ConnLoop {
            link: LinkState::Connected,
            next_id,
            pending: Vec::new(),
            issued: Ghost(Set::empty()),
        }
    }

    /// Whether the allocator can still hand out an id.
    pub fn can_issue(&self) -> (r: bool)
        ensures
            r == (self.next_id < u64::MAX),
    {
        self.next_id < u64::MAX
    }

    /// An outbound request arrives at the loop. While connected, the next id
    /// is allocated — fresh: never issued before — and the call enters the
    /// correlation table. While disconnected or terminated nothing is queued
    /// and the caller fails at once with a disconnect error.
    pub fn issue(&mut self, method: String) -> (r: Result<u64, Error>)
        requires
            old(self).wf(),
            old(self).next_id < u64::MAX,
        ensures
            final(self).wf(),
            final(self).link == old(self).link,
            old(self).link is Connected ==> {
                &&& r == Ok::<u64, Error>(old(self).next_id)
                &&& !old(self).issued@.contains(old(self).next_id)
                &&& final(self).next_id == old(self).next_id + 1
                &&& final(self).pending@ == old(self).pending@.push(
                    (PendingCall { id: old(self).next_id, method }),
                )
                &&& final(self).issued@ == old(self).issued@.insert(old(self).next_id)
            },
            !(old(self).link is Connected) ==> {
                &&& r == Err::<u64, Error>(Error::Disconnected)
                &&& final(self).next_id == old(self).next_id
                &&& final(self).pending == old(self).pending
                &&& final(self).issued == old(self).issued
            },
    {
        match self.link {
            LinkState::Connected => {
                let id = self.next_id;
                self.next_id = self.next_id + 1;
                self.pending.push(PendingCall { id, method });
                proof {
                    self.issued@ = self.issued@.insert(id);
                }
                Ok(id)
            },
            _ => Err(Error::Disconnected),
        }
    }

    /// The index of the tabled call with this id, if any.
    fn find_pending(&self, id: u64) -> (r: Option<usize>)
        ensures
            match r {
                Some(k) => 0 <= k < self.pending@.len() && self.pending@[k as int].id == id,
                None => !self.has_pending(id),
            },
    {
        let n = self.pending.len();
        for k in 0..n
            invariant
                n == self.pending@.len(),
                forall|j: int| 0 <= j < k ==> self.pending@[j].id != id,
        {
            if self.pending[k].id == id {
                return Some(k);
            }
        }
        None
    }

    /// The socket write for request `id` was rejected: the entry leaves the
    /// table at once and its caller resolves with a send failure, so nobody
    /// waits on a request that never reached the wire.
    pub fn send_failed(&mut self, id: u64) -> (r: Option<Resolution>)
        requires
            old(self).wf(),
        ensures
            final(self).wf(),
            final(self).link == old(self).link,
            final(self).next_id == old(self).next_id,
            final(self).issued == old(self).issued,
            !final(self).has_pending(id),
            old(self).has_pending(id) ==> {
                &&& (r matches Some(res) && res.id == id && res.result == Err::<
                    JsonValue,
                    Error,
                >(Error::SendFailed))
                &&& exists|k: int|
                    0 <= k < old(self).pending@.len() && old(self).pending@[k].id == id
                        && final(self).pending@ == old(self).pending@.remove(k)
            },
            !old(self).has_pending(id) ==> r is None && final(self).pending == old(self).pending,
    {
        match self.find_pending(id) {
            Some(k) => {
                let entry = self.pending.remove(k);
                proof {
                    assert forall|i: int|
                        0 <= i < self.pending@.len() implies self.pending@[i].id != id by {
                        if i < k {
                            assert(self.pending@[i] == old(self).pending@[i]);
                        } else {
                            assert(self.pending@[i] == old(self).pending@[i + 1]);
                        }
                    }
                }
                Some(Resolution { id, result: Err(Error::SendFailed) })
            },
            None => None,
        }
    }

    /// An inbound reply resolves exactly the pending call whose id matches —
    /// with the engine's result or its error, as the body says — and removes
    /// it from the table. A reply whose id is not in flight (already timed
    /// out and resolved, or never issued here) is ignored and changes
    /// nothing: the loop never fails on an unexpected reply.
    pub fn on_reply(&mut self, id: u64, body: ReplyBody) -> (r: ReplyAction)
        requires
            old(self).wf(),
        ensures
            final(self).wf(),
            final(self).link == old(self).link,
            final(self).next_id == old(self).next_id,
            final(self).issued == old(self).issued,
            !final(self).has_pending(id),
            old(self).has_pending(id) ==> {
                &&& (r matches ReplyAction::Resolve(res) && res.id == id && res.result
                    == spec_reply_result(body))
                &&& exists|k: int|
                    0 <= k < old(self).pending@.len() && old(self).pending@[k].id == id
                        && final(self).pending@ == old(self).pending@.remove(k)
            },
            !old(self).has_pending(id) ==> r is Ignored && final(self).pending == old(self).pending,
    {
        match self.find_pending(id) {
            Some(k) => {
                let entry = self.pending.remove(k);
                proof {
                    assert forall|i: int|
                        0 <= i < self.pending@.len() implies self.pending@[i].id != id by {
                        if i < k {
                            assert(self.pending@[i] == old(self).pending@[i]);
                        } else {
                            assert(self.pending@[i] == old(self).pending@[i + 1]);
                        }
                    }
                }
                let result = match body {
                    ReplyBody::Success(v) => Ok(v),
                    ReplyBody::Failure { code, message } => Err(
                        Error::Protocol { code, message },
                    ),
                };
                ReplyAction::Resolve(Resolution { id, result })
            },
            None => ReplyAction::Ignored,
        }
    }

    /// The transport dropped: every in-flight call resolves with a disconnect
    /// error — none is left hanging — the table empties, and reconnection
    /// begins with a clean failure count. The id allocator is untouched, so
    /// calls issued after a later reconnect stay above every id ever issued.
    pub fn on_socket_down(&mut self) -> (r: Vec<Resolution>)
        requires
            old(self).wf(),
            old(self).link is Connected,
        ensures
            final(self).wf(),
            final(self).link == (LinkState::Reconnecting { failures: 0 }),
            final(self).next_id == old(self).next_id,
            final(self).issued == old(self).issued,
            final(self).pending@.len() == 0,
            r@.len() == old(self).pending@.len(),
            forall|i: int|
                0 <= i < r@.len() ==> r@[i].id == old(self).pending@[i].id && r@[i].result
                    == Err::<JsonValue, Error>(Error::Disconnected),
    {
        let mut resolutions: Vec<Resolution> = Vec::new();
        let n = self.pending.len();
        for i in 0..n
            invariant
                n == self.pending@.len(),
                self.pending == old(self).pending,
                resolutions@.len() == i,
                forall|j: int|
                    0 <= j < i ==> resolutions@[j].id == self.pending@[j].id
                        && resolutions@[j].result == Err::<JsonValue, Error>(Error::Disconnected),
        {
            let id = self.pending[i].id;
            resolutions.push(Resolution { id, result: Err(Error::Disconnected) });
        }
        self.pending.clear();
        self.link = LinkState::Reconnecting { failures: 0 };
        resolutions
    }

    /// One reconnection attempt finished. Success resumes the loop on the
    /// new connection with the already-empty table. Failure either schedules
    /// the next attempt after the fixed delay or, once the budget of
    /// attempts is spent, terminates the loop for good.
    pub fn on_reconnect_attempt(&mut self, success: bool) -> (r: ReconnectStep)
        requires
            old(self).wf(),
            old(self).link is Reconnecting,
        ensures
            final(self).wf(),
            final(self).next_id == old(self).next_id,
            final(self).pending == old(self).pending,
            final(self).issued == old(self).issued,
            success ==> final(self).link is Connected && r == ReconnectStep::Resumed,
            !success ==> final(self).link == spec_link_after_failure(old(self).link) && (r
                == ReconnectStep::GaveUp <==> old(self).link->failures + 1 == RECONNECT_ATTEMPTS)
                && (r == ReconnectStep::RetryAfterDelay <==> old(self).link->failures + 1
                < RECONNECT_ATTEMPTS),
    {
        if success {
            self.link = LinkState::Connected;
            ReconnectStep::Resumed
        } else {
            match self.link {
                LinkState::Reconnecting { failures } => {
                    if failures + 1 < RECONNECT_ATTEMPTS {
                        self.link = LinkState::Reconnecting { failures: failures + 1 };
                        ReconnectStep::RetryAfterDelay
                    } else {
                        self.link = LinkState::Terminated;
                        ReconnectStep::GaveUp
                    }
                },
                _ => {
                    // unreachable: the precondition pins the link state
                    ReconnectStep::GaveUp
                },
            }
        }
    }
}

/// The link state after one more failed reconnection attempt.
pub open spec fn spec_link_after_failure(l: LinkState) -> LinkState {
    match l {
        LinkState::Reconnecting { failures } => if failures + 1 < RECONNECT_ATTEMPTS {
            LinkState::Reconnecting { failures: (failures + 1) as u64 }
        } else {
            LinkState::Terminated
        },
        _ => l,
    }
}

/// The link state after `n` consecutive failed reconnection attempts.
pub open spec fn spec_link_after_failures(l: LinkState, n: nat) -> LinkState
    decreases n,
{
    if n == 0 {
        l
    } else {
        spec_link_after_failure(spec_link_after_failures(l, (n - 1) as nat))
    }
}

/// Reconnection attempts stop after exactly the budgeted number of
/// consecutive failures: while fewer have failed the loop is still trying,
/// and from the budget onward the state is terminated — there is no further
/// attempt.
pub proof fn lemma_reconnect_budget(n: nat)
    ensures
        n < RECONNECT_ATTEMPTS ==> spec_link_after_failures(
            LinkState::Reconnecting { failures: 0 },
            n,
        ) == (LinkState::Reconnecting { failures: n as u64 }),
        n >= RECONNECT_ATTEMPTS ==> spec_link_after_failures(
            LinkState::Reconnecting { failures: 0 },
            n,
        ) == LinkState::Terminated,
    decreases n,
{
    if n > 0 {
        lemma_reconnect_budget((n - 1) as nat);
    }
}

/// The correlation table never holds two calls with one id, so a reply can
/// resolve at most one caller, and exactly the one whose request id matches.
pub proof fn lemma_table_exclusive(c: ConnLoop, i: int, j: int)
    requires
        c.wf(),
        0 <= i < c.pending@.len(),
        0 <= j < c.pending@.len(),
        i != j,
    ensures
        c.pending@[i].id != c.pending@[j].id,
{
}

/// Every id ever issued lies strictly below the allocator, and the allocator
/// survives disconnects and reconnects untouched: a call issued after a
/// reconnect gets an id above every id issued before it, so a stale reply
/// from before the drop can never be attributed to a new call.
pub proof fn lemma_ids_never_reused(c: ConnLoop, id: u64)
    requires
        c.wf(),
        c.issued@.contains(id),
    ensures
        id < c.next_id,
{
}

} // verus!
