//! The client-side resolver: a table of pending requests keyed by
//! correlation id, with content matching on resolution and a sweep that
//! expires entries older than a timeout.
//!
//! A pending request owns the sending half of a single-use completion
//! channel; the receiving half is returned to the caller at registration.
//! An entry leaves the table exactly once: either a matching response
//! removes it and fulfils its channel with the response, or the sweep
//! removes it and fulfils its channel with a timeout error, or closing the
//! resolver removes it and fulfils its channel with a connection-closed
//! error. Because the sending half is consumed by the removal that fulfils
//! it, a channel can never be signalled twice.
//!
//! Time is supplied by the caller as a plain millisecond count; the
//! periodic scheduling of the sweep belongs to the surrounding runtime.

use vstd::prelude::*;

use crate::ops::RustweavedPayloadOps;
use crate::rustweaved_request;
use crate::rustweaved_request::{GetBlockRequestMessage, RustweavedRequest};
use crate::rustweaved_response;
use crate::rustweaved_response::{
    GetBlockResponseMessage, RpcBlock, RpcBlockVerboseData, RpcErrorMessage, RustweavedResponse,
};
use crate::matcher::spec_contains;

verus! {

/// The terminal failures a caller can see instead of a response: the entry
/// expired, the connection closed, or the correlation id was already in use
/// at registration.
#[derive(Clone, Copy, Debug, PartialEq, Eq, Structural)]
pub enum ResolverError {
    Timeout,
    ConnectionClosed,
    DuplicateRequestId,
}

/// What a caller awaits: the matched response, or a terminal resolver error.
pub type RustweavedResponseResult = Result<RustweavedResponse, ResolverError>;

#[verifier::external_type_specification]
#[verifier::external_body]
#[verifier::reject_recursive_types(T)]
pub struct ExOneshotSender<T>(tokio::sync::oneshot::Sender<T>);

#[verifier::external_type_specification]
#[verifier::external_body]
#[verifier::reject_recursive_types(T)]
pub struct ExOneshotReceiver<T>(tokio::sync::oneshot::Receiver<T>);

#[verifier::external_type_specification]
#[verifier::external_body]
pub struct ExOneshotRecvError(tokio::sync::oneshot::error::RecvError);

/// The retained, single-use sending half of a pending request's completion
/// channel.
pub type RustweavedResponseSender = tokio::sync::oneshot::Sender<RustweavedResponseResult>;

/// The receiving half returned to the caller at registration.
pub type RustweavedResponseReceiver = tokio::sync::oneshot::Receiver<RustweavedResponseResult>;

/// Relies on tokio::sync::oneshot::channel: returns the two halves of a
/// fresh single-producer single-consumer channel that carries one value.
#[verifier::external_body]
fn completion_channel() -> (r: (RustweavedResponseSender, RustweavedResponseReceiver)) {
    tokio::sync::oneshot::channel()
}

/// Relies on tokio::sync::oneshot::Sender::send: delivers the outcome to
/// the paired receiver and consumes the sender; returns whether the
/// receiver was still listening. Delivery is the trusted step of fulfilling
/// a completion channel; that it happens at most once per channel is
/// enforced by ownership of the sender.
#[verifier::external_body]
fn fulfil(sender: RustweavedResponseSender, outcome: RustweavedResponseResult) -> (delivered:
    bool) {
    sender.send(outcome).is_ok()
}

/// One outstanding request: its correlation id, operation kind, the original
/// request envelope (kept for content matching), its registration time in
/// milliseconds, and the retained sending half of its completion channel.
#[derive(Debug)]
pub struct PendingRequest {
    pub id: u64,
    pub op: RustweavedPayloadOps,
    pub request: RustweavedRequest,
    pub timestamp: u64,
    pub sender: RustweavedResponseSender,
}

/// Whether some entry carries the given correlation id.
pub open spec fn contains_id(entries: Seq<PendingRequest>, id: u64) -> bool {
    exists|i: int| 0 <= i < entries.len() && (#[trigger] entries[i]).id == id
}

/// The index of the entry carrying the given correlation id (meaningful
/// only when `contains_id` holds; unique under `unique_ids`).
pub open spec fn index_of_id(entries: Seq<PendingRequest>, id: u64) -> int {
    choose|i: int| 0 <= i < entries.len() && (#[trigger] entries[i]).id == id
}

/// Correlation ids are unique among outstanding entries.
pub open spec fn unique_ids(entries: Seq<PendingRequest>) -> bool {
    forall|i: int, j: int|
        0 <= i < j < entries.len() ==> (#[trigger] entries[i]).id != (#[trigger] entries[j]).id
}

/// The effect of delivering `response` to a table: whether it resolves an
/// entry, and the table afterwards. An entry resolves only when its id
/// matches and the content matcher accepts the response; an entry whose
/// content check fails stays pending, since a genuinely matching response
/// may still arrive.
pub open spec fn resolve_effect(entries: Seq<PendingRequest>, response: RustweavedResponse) -> (
    bool,
    Seq<PendingRequest>,
) {
    if contains_id(entries, response.id) {
        let i = index_of_id(entries, response.id);
        if entries[i].request.spec_is_matching(response) {
            (true, entries.remove(i))
        } else {
            (false, entries)
        }
    } else {
        (false, entries)
    }
}

/// An entry is expired at `now` when its age exceeds `timeout`.
pub open spec fn is_expired(entry: PendingRequest, now: u64, timeout: u64) -> bool {
    entry.timestamp + timeout < now
}

/// The entries that survive a sweep at `now`: the non-expired ones, in
/// order.
pub open spec fn retained(entries: Seq<PendingRequest>, now: u64, timeout: u64) -> Seq<
    PendingRequest,
>
    decreases entries.len(),
{
    if entries.len() == 0 {
        entries
    } else {
        let prefix = retained(entries.drop_last(), now, timeout);
        if is_expired(entries.last(), now, timeout) {
            prefix
        } else {
            prefix.push(entries.last())
        }
    }
}

/// Every element surviving a sweep was in the table and is not expired,
/// and every non-expired element survives.
pub proof fn lemma_retained_membership(
    entries: Seq<PendingRequest>,
    now: u64,
    timeout: u64,
    e: PendingRequest,
)
    ensures
        retained(entries, now, timeout).contains(e) <==> entries.contains(e) && !is_expired(
            e,
            now,
            timeout,
        ),
    decreases entries.len(),
{
    if entries.len() == 0 {
    } else {
        lemma_retained_membership(entries.drop_last(), now, timeout, e);
        let prefix = entries.drop_last();
        let last = entries.last();
        assert(entries.contains(e) <==> prefix.contains(e) || e == last) by {
            if entries.contains(e) {
                let i = choose|i: int| 0 <= i < entries.len() && entries[i] == e;
                if i < entries.len() - 1 {
                    assert(prefix[i] == e);
                }
            }
            if prefix.contains(e) {
                let i = choose|i: int| 0 <= i < prefix.len() && prefix[i] == e;
                assert(entries[i] == e);
            }
            if e == last {
                assert(entries[entries.len() - 1] == e);
            }
        }
        if !is_expired(last, now, timeout) {
            let r = retained(entries, now, timeout);
            let rp = retained(prefix, now, timeout);
            assert(r == rp.push(last));
            assert(r.contains(e) <==> rp.contains(e) || e == last) by {
                if r.contains(e) {
                    let i = choose|i: int| 0 <= i < r.len() && r[i] == e;
                    if i < r.len() - 1 {
                        assert(rp[i] == e);
                    }
                }
                if rp.contains(e) {
                    let i = choose|i: int| 0 <= i < rp.len() && rp[i] == e;
                    assert(r[i] == e);
                }
                if e == last {
                    assert(r[r.len() - 1] == e);
                }
            }
        }
    }
}

/// A sweep introduces no correlation id that was not already present.
pub proof fn lemma_retained_ids(entries: Seq<PendingRequest>, now: u64, timeout: u64, id: u64)
    ensures
        contains_id(retained(entries, now, timeout), id) ==> contains_id(entries, id),
{
    let r = retained(entries, now, timeout);
    if contains_id(r, id) {
        let i = choose|i: int| 0 <= i < r.len() && (#[trigger] r[i]).id == id;
        assert(r.contains(r[i]));
        lemma_retained_membership(entries, now, timeout, r[i]);
        let j = choose|j: int| 0 <= j < entries.len() && entries[j] == r[i];
        assert(contains_id(entries, id)) by {
            assert(entries[j].id == id);
        }
    }
}

/// A sweep preserves uniqueness of correlation ids.
pub proof fn lemma_retained_unique(entries: Seq<PendingRequest>, now: u64, timeout: u64)
    requires
        unique_ids(entries),
    ensures
        unique_ids(retained(entries, now, timeout)),
    decreases entries.len(),
{
    if entries.len() == 0 {
    } else {
        let prefix = entries.drop_last();
        let last = entries.last();
        assert(unique_ids(prefix)) by {
            assert(forall|i: int, j: int|
                0 <= i < j < prefix.len() ==> (#[trigger] prefix[i]).id != (
                #[trigger] prefix[j]).id) by {
                assert(forall|i: int|
                    0 <= i < prefix.len() ==> #[trigger] prefix[i] == entries[i]);
            }
        }
        lemma_retained_unique(prefix, now, timeout);
        if !is_expired(last, now, timeout) {
            let rp = retained(prefix, now, timeout);
            let r = retained(entries, now, timeout);
            assert(r == rp.push(last));
            assert(!contains_id(rp, last.id)) by {
                if contains_id(rp, last.id) {
                    lemma_retained_ids(prefix, now, timeout, last.id);
                    let i = index_of_id(prefix, last.id);
                    assert(entries[i].id == entries[entries.len() - 1].id);
                }
            }
            assert forall|i: int, j: int| 0 <= i < j < r.len() implies (#[trigger] r[i]).id != (
            #[trigger] r[j]).id by {
                if j < r.len() - 1 {
                    assert(rp[i].id != rp[j].id);
                } else {
                    if r[i].id == last.id {
                        assert(contains_id(rp, last.id)) by {
                            assert(rp[i].id == last.id);
                        }
                    }
                }
            }
        }
    }
}

/// Law: a sweep is idempotent — sweeping a table that was just swept with
/// the same clock and timeout changes nothing, so an already-expired entry
/// is fulfilled by at most one sweep.
pub proof fn lemma_sweep_idempotent(entries: Seq<PendingRequest>, now: u64, timeout: u64)
    ensures
        retained(retained(entries, now, timeout), now, timeout) == retained(entries, now, timeout),
    decreases entries.len(),
{
    if entries.len() == 0 {
    } else {
        let prefix = entries.drop_last();
        let last = entries.last();
        lemma_sweep_idempotent(prefix, now, timeout);
        if !is_expired(last, now, timeout) {
            let rp = retained(prefix, now, timeout);
            assert(retained(entries, now, timeout) == rp.push(last));
            assert(rp.push(last).drop_last() =~= rp);
            assert(rp.push(last).last() == last);
        }
    }
}

/// Law: after a sweep at `now`, an entry that was expired at `now` is gone:
/// its id no longer has a live entry, so a later sweep — at any later clock
/// or timeout — cannot fulfil it a second time.
pub proof fn lemma_sweep_expires_exactly_once(
    entries: Seq<PendingRequest>,
    now: u64,
    timeout: u64,
    i: int,
)
    requires
        unique_ids(entries),
        0 <= i < entries.len(),
        is_expired(entries[i], now, timeout),
    ensures
        !contains_id(retained(entries, now, timeout), entries[i].id),
        forall|now2: u64, timeout2: u64|
            !contains_id(
                #[trigger] retained(retained(entries, now, timeout), now2, timeout2),
                entries[i].id,
            ),
{
    assert forall|now2: u64, timeout2: u64|
        !contains_id(
            #[trigger] retained(retained(entries, now, timeout), now2, timeout2),
            entries[i].id,
        ) by {
        lemma_sweep_removed_id(entries, now, timeout, i);
        lemma_retained_ids(retained(entries, now, timeout), now2, timeout2, entries[i].id);
    }
    lemma_sweep_removed_id(entries, now, timeout, i);
}

/// After a sweep, an entry expired at that sweep has no live id.
proof fn lemma_sweep_removed_id(entries: Seq<PendingRequest>, now: u64, timeout: u64, i: int)
    requires
        unique_ids(entries),
        0 <= i < entries.len(),
        is_expired(entries[i], now, timeout),
    ensures
        !contains_id(retained(entries, now, timeout), entries[i].id),
{
    let r = retained(entries, now, timeout);
    if contains_id(r, entries[i].id) {
        let j = choose|j: int| 0 <= j < r.len() && (#[trigger] r[j]).id == entries[i].id;
        assert(r.contains(r[j]));
        lemma_retained_membership(entries, now, timeout, r[j]);
        let k = choose|k: int| 0 <= k < entries.len() && entries[k] == r[j];
        assert(k == i);
    }
}

/// Law: a response whose id has no live entry resolves nothing and leaves
/// the table unchanged.
pub proof fn lemma_resolve_unknown_id_no_effect(
    entries: Seq<PendingRequest>,
    response: RustweavedResponse,
)
    requires
        !contains_id(entries, response.id),
    ensures
        resolve_effect(entries, response).0 == false,
        resolve_effect(entries, response).1 == entries,
{
}

/// Law: a response whose id has a live entry and whose content matches the
/// stored request resolves that entry, removes it, and cannot resolve it a
/// second time: the id has no live entry afterwards.
pub proof fn lemma_resolve_matching_resolves_once(
    entries: Seq<PendingRequest>,
    response: RustweavedResponse,
    i: int,
)
    requires
        unique_ids(entries),
        0 <= i < entries.len(),
        entries[i].id == response.id,
        entries[i].request.spec_is_matching(response),
    ensures
        resolve_effect(entries, response).0 == true,
        resolve_effect(entries, response).1 == entries.remove(i),
        !contains_id(entries.remove(i), response.id),
        resolve_effect(entries.remove(i), response).0 == false,
        resolve_effect(entries.remove(i), response).1 == entries.remove(i),
{
    assert(contains_id(entries, response.id)) by {
        assert(entries[i].id == response.id);
    }
    let ci = index_of_id(entries, response.id);
    assert(0 <= ci < entries.len() && entries[ci].id == response.id);
    assert(ci == i);
    let removed = entries.remove(i);
    assert(!contains_id(removed, response.id)) by {
        if contains_id(removed, response.id) {
            let j = choose|j: int|
                0 <= j < removed.len() && (#[trigger] removed[j]).id == response.id;
            if j < i {
                assert(entries[j].id == response.id);
            } else {
                assert(entries[j + 1].id == response.id);
            }
        }
    }
}

/// Law: a block query pending under a response's id is content-addressed —
/// a response whose block carries a different hash than the requested one
/// does not resolve it, and the entry stays pending for a genuinely
/// matching response.
pub proof fn lemma_wrong_hash_does_not_resolve(
    entries: Seq<PendingRequest>,
    response: RustweavedResponse,
    i: int,
    request_message: GetBlockRequestMessage,
    response_message: GetBlockResponseMessage,
    block: RpcBlock,
    verbose_data: RpcBlockVerboseData,
)
    requires
        unique_ids(entries),
        0 <= i < entries.len(),
        entries[i].id == response.id,
        entries[i].request.payload == Some(
            rustweaved_request::Payload::GetBlockRequest(request_message),
        ),
        response.payload == Some(
            rustweaved_response::Payload::GetBlockResponse(response_message),
        ),
        response_message.block == Some(block),
        block.verbose_data == Some(verbose_data),
        verbose_data.hash@ != request_message.hash@,
    ensures
        resolve_effect(entries, response).0 == false,
        resolve_effect(entries, response).1 == entries,
{
    assert(contains_id(entries, response.id)) by {
        assert(entries[i].id == response.id);
    }
    let ci = index_of_id(entries, response.id);
    assert(0 <= ci < entries.len() && entries[ci].id == response.id);
    assert(ci == i);
    assert(!entries[i].request.spec_is_matching(response));
}

/// Law: a block query pending under a response's id resolves on an error
/// response whose message contains the requested hash — the only channel
/// available when the error path does not echo structured fields — and the
/// entry is removed.
pub proof fn lemma_error_mentioning_hash_resolves(
    entries: Seq<PendingRequest>,
    response: RustweavedResponse,
    i: int,
    request_message: GetBlockRequestMessage,
    response_message: GetBlockResponseMessage,
    error: RpcErrorMessage,
)
    requires
        unique_ids(entries),
        0 <= i < entries.len(),
        entries[i].id == response.id,
        entries[i].request.payload == Some(
            rustweaved_request::Payload::GetBlockRequest(request_message),
        ),
        response.payload == Some(
            rustweaved_response::Payload::GetBlockResponse(response_message),
        ),
        response_message.block is None,
        response_message.error == Some(error),
        spec_contains(error.message@, request_message.hash@),
    ensures
        resolve_effect(entries, response).0 == true,
        resolve_effect(entries, response).1 == entries.remove(i),
        !contains_id(entries.remove(i), response.id),
{
    assert(entries[i].request.spec_is_matching(response));
    lemma_resolve_matching_resolves_once(entries, response, i);
}

/// The pending-request table. All mutating operations are atomic with
/// respect to one entry: an entry is removed and its channel fulfilled in
/// the same step, so no entry can be both swept and resolved.
#[derive(Debug)]
pub struct Resolver {
    pending: Vec<PendingRequest>,
}

impl Resolver {
    /// The outstanding entries, oldest first.
    pub closed spec fn entries(&self) -> Seq<PendingRequest> {
        self.pending@
    }

    /// Well-formedness: outstanding correlation ids are unique.
    pub open spec fn wf(&self) -> bool {
        unique_ids(self.entries())
    }

    /// Whether `id` has a live entry.
    pub open spec fn has_pending(&self, id: u64) -> bool {
        contains_id(self.entries(), id)
    }

    /// An empty table.
    pub fn new() -> (r: Resolver)
        ensures
            r.wf(),
            r.entries() == Seq::<PendingRequest>::empty(),
    {
        Resolver { pending: Vec::new() }
    }

    /// The number of outstanding entries.
    pub fn len(&self) -> (n: usize)
        ensures
            n == self.entries().len(),
    {
        self.pending.len()
    }

    /// The index of the entry carrying `id`, if any.
    fn position_of(&self, id: u64) -> (r: Option<usize>)
        ensures
            match r {
                Some(i) => 0 <= i < self.entries().len() && self.entries()[i as int].id == id,
                None => !self.has_pending(id),
            },
    {
        let n = self.pending.len();
        let mut i: usize = 0;
        while i < n
            invariant
                n == self.entries().len(),
                0 <= i <= n,
                forall|k: int| 0 <= k < i ==> (#[trigger] self.entries()[k]).id != id,
            decreases n - i,
        {
            if self.pending[i].id == id {
                return Some(i);
            }
            i += 1;
        }
        None
    }

    /// Registers an outstanding request under its envelope id and hands back
    /// the receiving half of its completion channel. Reusing an id that
    /// still has a live entry is a caller error and is rejected without any
    /// side effect; sending the request out on the wire is the transport
    /// collaborator's job and happens outside the table.
    pub fn register_request(
        &mut self,
        op: RustweavedPayloadOps,
        request: RustweavedRequest,
        timestamp: u64,
    ) -> (r: Result<RustweavedResponseReceiver, ResolverError>)
        requires
            old(self).wf(),
        ensures
            final(self).wf(),
            old(self).has_pending(request.id) ==> {
                &&& r is Err
                &&& r->Err_0 == ResolverError::DuplicateRequestId
                &&& final(self).entries() == old(self).entries()
            },
            !old(self).has_pending(request.id) ==> {
                &&& r is Ok
                &&& final(self).entries().len() == old(self).entries().len() + 1
                &&& final(self).entries().subrange(0, old(self).entries().len() as int)
                    == old(self).entries()
                &&& final(self).entries().last().id == request.id
                &&& final(self).entries().last().op == op
                &&& final(self).entries().last().request == request
                &&& final(self).entries().last().timestamp == timestamp
                &&& final(self).has_pending(request.id)
            },
    {
        if self.position_of(request.id).is_some() {
            return Err(ResolverError::DuplicateRequestId);
        }
        let (sender, receiver) = completion_channel();
        let id = request.id;
        self.pending.push(PendingRequest { id, op, request, timestamp, sender });
        proof {
            assert(contains_id(self.entries(), id)) by {
                assert(self.entries()[self.entries().len() - 1].id == id);
            }
            let oldent = old(self).entries();
            let newent = self.entries();
            assert(newent.subrange(0, oldent.len() as int) =~= oldent);
            assert forall|i: int, j: int| 0 <= i < j < newent.len() implies (
            #[trigger] newent[i]).id != (#[trigger] newent[j]).id by {
                if j < newent.len() - 1 {
                    assert(oldent[i].id != oldent[j].id);
                } else {
                    assert(newent[i] == oldent[i]);
                    if oldent[i].id == id {
                        assert(contains_id(oldent, id));
                    }
                }
            }
        }
        Ok(receiver)
    }

    /// Delivers a response to the table: looks the entry up by the
    /// response's id, checks the content match against the stored request,
    /// and on a match removes the entry and fulfils its channel with the
    /// response. A response that matches no live entry — unknown id or
    /// failed content check — changes nothing and is reported as
    /// unresolved, for the caller to log and discard.
    pub fn resolve(&mut self, response: RustweavedResponse) -> (r: bool)
        requires
            old(self).wf(),
        ensures
            final(self).wf(),
            r == resolve_effect(old(self).entries(), response).0,
            final(self).entries() == resolve_effect(old(self).entries(), response).1,
    {
        match self.position_of(response.id) {
            None => false,
            Some(i) => {
                proof {
                    let oldent = self.entries();
                    assert(contains_id(oldent, response.id)) by {
                        assert(oldent[i as int].id == response.id);
                    }
                    let ci = index_of_id(oldent, response.id);
                    assert(0 <= ci < oldent.len() && oldent[ci].id == response.id);
                    assert(ci == i);
                }
                let entry_matches = self.pending[i].request.is_matching(&response);
                if entry_matches {
                    let entry = self.pending.remove(i);
                    let PendingRequest { id: _, op: _, request: _, timestamp: _, sender } = entry;
                    fulfil(sender, Ok(response));
                    proof {
                        let oldent = old(self).entries();
                        let newent = self.entries();
                        assert(newent == oldent.remove(i as int));
                        assert forall|a: int, b: int| 0 <= a < b < newent.len() implies (
                        #[trigger] newent[a]).id != (#[trigger] newent[b]).id by {
                            let oa = if a < i { a } else { a + 1 };
                            let ob = if b < i { b } else { b + 1 };
                            assert(newent[a] == oldent[oa]);
                            assert(newent[b] == oldent[ob]);
                        }
                    }
                    true
                } else {
                    false
                }
            },
        }
    }

    /// The transport's inbound path hands every received envelope here; a
    /// response that resolves no pending request is a stray and is simply
    /// reported as such.
    pub fn handle_response(&mut self, response: RustweavedResponse) -> (r: bool)
        requires
            old(self).wf(),
        ensures
            final(self).wf(),
            r == resolve_effect(old(self).entries(), response).0,
            final(self).entries() == resolve_effect(old(self).entries(), response).1,
    {
        self.resolve(response)
    }

    /// Sweeps the table at time `now`: every entry older than `timeout` is
    /// removed and its channel fulfilled with a timeout error, exactly once;
    /// the surviving entries keep their order.
    pub fn remove_expired_requests(&mut self, now: u64, timeout: u64)
        requires
            old(self).wf(),
        ensures
            final(self).wf(),
            final(self).entries() == retained(old(self).entries(), now, timeout),
    {
        let ghost orig = self.pending@;
        let mut kept: Vec<PendingRequest> = Vec::new();
        let ghost j: int = 0;
        while self.pending.len() > 0
            invariant
                0 <= j <= orig.len(),
                self.pending@ == orig.subrange(j, orig.len() as int),
                kept@ == retained(orig.subrange(0, j), now, timeout),
            decreases self.pending@.len(),
        {
            let entry = self.pending.remove(0);
            proof {
                assert(orig.subrange(j, orig.len() as int).remove(0) =~= orig.subrange(
                    j + 1,
                    orig.len() as int,
                ));
                assert(entry == orig[j]);
            }
            let expired = if now > entry.timestamp {
                now - entry.timestamp > timeout
            } else {
                false
            };
            assert(expired == is_expired(entry, now, timeout));
            proof {
                let p = orig.subrange(0, j);
                let p1 = orig.subrange(0, j + 1);
                assert(p1.drop_last() =~= p);
                assert(p1.last() == orig[j]);
            }
            if expired {
                let PendingRequest { id: _, op: _, request: _, timestamp: _, sender } = entry;
                fulfil(sender, Err(ResolverError::Timeout));
            } else {
                kept.push(entry);
            }
            proof {
                j = j + 1;
            }
        }
        proof {
            assert(orig.subrange(0, orig.len() as int) =~= orig);
            lemma_retained_unique(orig, now, timeout);
        }
        self.pending = kept;
    }

    /// Fulfils every outstanding entry with a connection-closed error and
    /// empties the table; the transport collaborator calls this on
    /// shutdown, so no caller is left waiting forever.
    pub fn close(&mut self)
        ensures
            final(self).wf(),
            final(self).entries() == Seq::<PendingRequest>::empty(),
    {
        while self.pending.len() > 0
            decreases self.pending@.len(),
        {
            let entry = self.pending.remove(0);
            let PendingRequest { id: _, op: _, request: _, timestamp: _, sender } = entry;
            fulfil(sender, Err(ResolverError::ConnectionClosed));
        }
        assert(self.pending@ =~= Seq::<PendingRequest>::empty());
    }
}

} // verus!
