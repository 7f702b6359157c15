//! The server-side routing table: one handler per operation kind, each
//! wrapped with its concurrency configuration, plus a uniform "not
//! implemented" fallback.
//!
//! The table is built once at startup and is read-only afterwards. Lookup
//! always succeeds: a kind without a registered method falls back to a
//! synthesized error response that preserves the request's correlation id,
//! so the client-side resolver can still complete the matching pending
//! request.

use vstd::prelude::*;

use crate::ops::RustweavedPayloadOps;
use crate::rustweaved_request::RustweavedRequest;
use crate::rustweaved_response::{RpcErrorKind, RpcErrorMessage, RustweavedResponse};

verus! {

/// What a handler's bounded input queue does under contention: refuse the
/// new item, discard the oldest queued item, or make the caller wait.
#[derive(Clone, Copy, Debug, PartialEq, Eq, Structural)]
pub enum RoutingPolicy {
    RejectNew,
    DropOldest,
    BlockCaller,
}

/// The server-side failure: an envelope without a payload. An unregistered
/// kind is not a failure — the fallback answers it with an error response.
#[derive(Clone, Copy, Debug, PartialEq, Eq, Structural)]
pub enum ServerError {
    InvalidRequestPayload,
}

/// A handler's result: the response to send back, or a server-side failure.
pub type ServerResult = Result<RustweavedResponse, ServerError>;

/// A request handler as the routing table invokes it: from the per-server
/// context, the connection the request arrived on, and the request, to a
/// response. Implementations belong to the business-logic collaborator;
/// the table makes no assumption about what they return.
pub trait MethodTrait<Ctx, Conn> {
    fn call(&self, ctx: &Ctx, connection: &Conn, request: &RustweavedRequest) -> ServerResult;
}

/// A handler together with its concurrency configuration: how many worker
/// tasks serve it, how deep its input queue is, and what happens when the
/// queue overflows.
pub struct Method<H> {
    pub handler: H,
    pub tasks: usize,
    pub queue_size: usize,
    pub routing_policy: RoutingPolicy,
}

impl<H> Method<H> {
    /// A method with the default configuration: one worker task, an input
    /// queue of one, and a caller that blocks on overflow.
    pub fn new(handler: H) -> (m: Method<H>)
        ensures
            m.handler == handler,
            m.tasks == 1,
            m.queue_size == 1,
            m.routing_policy == RoutingPolicy::BlockCaller,
    {
        Method { handler, tasks: 1, queue_size: 1, routing_policy: RoutingPolicy::BlockCaller }
    }

    /// A method with an explicit concurrency configuration.
    pub fn with_properties(
        handler: H,
        tasks: usize,
        queue_size: usize,
        routing_policy: RoutingPolicy,
    ) -> (m: Method<H>)
        ensures
            m.handler == handler,
            m.tasks == tasks,
            m.queue_size == queue_size,
            m.routing_policy == routing_policy,
    {
        Method { handler, tasks, queue_size, routing_policy }
    }
}

/// Whether some table row is keyed by `op`.
pub open spec fn table_has<H>(table: Seq<(RustweavedPayloadOps, Method<H>)>, op: RustweavedPayloadOps) -> bool {
    exists|i: int| 0 <= i < table.len() && (#[trigger] table[i]).0 == op
}

/// The index of the row keyed by `op` (meaningful only when `table_has`
/// holds; unique under `unique_ops`).
pub open spec fn index_of_op<H>(table: Seq<(RustweavedPayloadOps, Method<H>)>, op: RustweavedPayloadOps) -> int {
    choose|i: int| 0 <= i < table.len() && (#[trigger] table[i]).0 == op
}

/// The method registered under `op` (meaningful only when `table_has`
/// holds).
pub open spec fn table_lookup<H>(table: Seq<(RustweavedPayloadOps, Method<H>)>, op: RustweavedPayloadOps) -> Method<H> {
    table[index_of_op(table, op)].1
}

/// Each operation kind is registered at most once.
pub open spec fn unique_ops<H>(table: Seq<(RustweavedPayloadOps, Method<H>)>) -> bool {
    forall|i: int, j: int|
        0 <= i < j < table.len() ==> (#[trigger] table[i]).0 != (#[trigger] table[j]).0
}

/// What the fallback synthesizes for `request`: a response carrying the
/// request's own correlation id and an error payload of the request's own
/// kind, whose error has the "not implemented" kind and names the kind in
/// its diagnostic message. An envelope without a payload cannot name a
/// kind and is rejected as invalid instead.
pub open spec fn spec_is_not_implemented(request: RustweavedRequest, r: ServerResult) -> bool {
    match request.payload {
        Some(p) => {
            &&& r is Ok
            &&& r->Ok_0.id == request.id
            &&& exists|error: RpcErrorMessage|
                {
                    &&& error.kind == RpcErrorKind::NotImplemented
                    &&& error.message@ == RustweavedPayloadOps::spec_from_request(p).spec_name()
                    &&& r->Ok_0.payload == Some(
                        #[trigger] RustweavedPayloadOps::spec_from_request(
                            p,
                        ).spec_to_error_response(error),
                    )
                }
        },
        None => {
            &&& r is Err
            &&& r->Err_0 == ServerError::InvalidRequestPayload
        },
    }
}

/// Law: replacing a method twice leaves the table keyed to the second one:
/// after two replacements under the same kind, lookup finds the method
/// given last, so it is the one every later call invokes.
pub proof fn lemma_replace_overrides<H>(
    table: Seq<(RustweavedPayloadOps, Method<H>)>,
    op: RustweavedPayloadOps,
    first: Method<H>,
    second: Method<H>,
)
    requires
        unique_ops(table),
    ensures
        table_lookup(replace_effect(replace_effect(table, op, first), op, second), op) == second,
        unique_ops(replace_effect(replace_effect(table, op, first), op, second)),
{
    lemma_replace_effect(table, op, first);
    lemma_replace_effect(replace_effect(table, op, first), op, second);
}

/// The table after an unconditional replacement: the row keyed by `op` is
/// overwritten in place, or appended if absent.
pub open spec fn replace_effect<H>(
    table: Seq<(RustweavedPayloadOps, Method<H>)>,
    op: RustweavedPayloadOps,
    method: Method<H>,
) -> Seq<(RustweavedPayloadOps, Method<H>)> {
    if table_has(table, op) {
        table.update(index_of_op(table, op), (op, method))
    } else {
        table.push((op, method))
    }
}

/// A replacement keeps kinds unique and keys `op` to the new method.
pub proof fn lemma_replace_effect<H>(
    table: Seq<(RustweavedPayloadOps, Method<H>)>,
    op: RustweavedPayloadOps,
    method: Method<H>,
)
    requires
        unique_ops(table),
    ensures
        unique_ops(replace_effect(table, op, method)),
        table_has(replace_effect(table, op, method), op),
        table_lookup(replace_effect(table, op, method), op) == method,
{
    let r = replace_effect(table, op, method);
    if table_has(table, op) {
        let i = index_of_op(table, op);
        assert(0 <= i < table.len() && table[i].0 == op);
        assert(r[i].0 == op);
        assert(table_has(r, op));
        assert forall|a: int, b: int| 0 <= a < b < r.len() implies (#[trigger] r[a]).0 != (
        #[trigger] r[b]).0 by {
            assert(table[a].0 != table[b].0);
        }
        let ci = index_of_op(r, op);
        assert(0 <= ci < r.len() && r[ci].0 == op);
        assert(ci == i) by {
            if ci != i {
                assert(r[ci].0 == table[ci].0);
            }
        }
    } else {
        assert(r[r.len() - 1].0 == op);
        assert(table_has(r, op));
        assert forall|a: int, b: int| 0 <= a < b < r.len() implies (#[trigger] r[a]).0 != (
        #[trigger] r[b]).0 by {
            if b < r.len() - 1 {
                assert(table[a].0 != table[b].0);
            } else {
                assert(r[a] == table[a]);
                if table[a].0 == op {
                    assert(table_has(table, op));
                }
            }
        }
        let ci = index_of_op(r, op);
        assert(0 <= ci < r.len() && r[ci].0 == op);
        assert(ci == r.len() - 1) by {
            if ci < r.len() - 1 {
                assert(table[ci].0 == op);
                assert(table_has(table, op));
            }
        }
    }
}

/// The routing table of a server connection: the per-server context handed
/// to every handler, and the methods keyed by operation kind.
pub struct Interface<Ctx, H> {
    server_ctx: Ctx,
    methods: Vec<(RustweavedPayloadOps, Method<H>)>,
}

impl<Ctx, H> Interface<Ctx, H> {
    /// The registered rows, in registration order.
    pub closed spec fn table(&self) -> Seq<(RustweavedPayloadOps, Method<H>)> {
        self.methods@
    }

    /// The context handed to every handler.
    pub closed spec fn ctx(&self) -> Ctx {
        self.server_ctx
    }

    /// Well-formedness: each kind registered at most once.
    pub open spec fn wf(&self) -> bool {
        unique_ops(self.table())
    }

    /// Whether a method is registered under `op`.
    pub open spec fn spec_has_method(&self, op: RustweavedPayloadOps) -> bool {
        table_has(self.table(), op)
    }

    /// An interface with no registered methods.
    pub fn new(server_ctx: Ctx) -> (r: Interface<Ctx, H>)
        ensures
            r.wf(),
            r.table() == Seq::<(RustweavedPayloadOps, Method<H>)>::empty(),
            r.ctx() == server_ctx,
    {
        Interface { server_ctx, methods: Vec::new() }
    }

    /// The index of the row keyed by `op`, if any.
    fn position_of(&self, op: RustweavedPayloadOps) -> (r: Option<usize>)
        ensures
            match r {
                Some(i) => 0 <= i < self.table().len() && self.table()[i as int].0 == op,
                None => !self.spec_has_method(op),
            },
    {
        let n = self.methods.len();
        let mut i: usize = 0;
        while i < n
            invariant
                n == self.table().len(),
                0 <= i <= n,
                forall|k: int| 0 <= k < i ==> (#[trigger] self.table()[k]).0 != op,
            decreases n - i,
        {
            if self.methods[i].0 == op {
                return Some(i);
            }
            i += 1;
        }
        None
    }

    /// True exactly when a method is registered under `op`.
    pub fn has_method(&self, op: RustweavedPayloadOps) -> (r: bool)
        ensures
            r == self.spec_has_method(op),
    {
        self.position_of(op).is_some()
    }

    /// Registers a method under `op`. Registering a kind twice is a fatal
    /// wiring error at startup, never a silent overwrite: the duplicate is
    /// excluded by the precondition, so a verified caller cannot make the
    /// call, and an unverified caller must test `has_method` first and
    /// abort as on any startup misconfiguration. Use `replace_method` for
    /// an intentional override.
    pub fn method(&mut self, op: RustweavedPayloadOps, method: Method<H>)
        requires
            old(self).wf(),
            !old(self).spec_has_method(op),
        ensures
            final(self).wf(),
            final(self).ctx() == old(self).ctx(),
            final(self).table() == old(self).table().push((op, method)),
            final(self).spec_has_method(op),
            table_lookup(final(self).table(), op) == method,
    {
        self.methods.push((op, method));
        proof {
            assert(table_has(self.table(), op)) by {
                assert(self.table()[self.table().len() - 1].0 == op);
            }
            assert(table_lookup(self.table(), op) == method) by {
                let t = self.table();
                let ci = index_of_op(t, op);
                assert(0 <= ci < t.len() && t[ci].0 == op);
                if ci < t.len() - 1 {
                    assert(old(self).table()[ci].0 == op);
                    assert(table_has(old(self).table(), op));
                }
            }
            let t = self.table();
            assert forall|a: int, b: int| 0 <= a < b < t.len() implies (#[trigger] t[a]).0 != (
            #[trigger] t[b]).0 by {
                if b < t.len() - 1 {
                    assert(old(self).table()[a].0 != old(self).table()[b].0);
                } else {
                    assert(t[a] == old(self).table()[a]);
                    if old(self).table()[a].0 == op {
                        assert(table_has(old(self).table(), op));
                    }
                }
            }
        }
    }

    /// Replaces the method registered under `op`, or registers it if the
    /// kind was absent: the unconditional entry point for intentional
    /// overrides.
    pub fn replace_method(&mut self, op: RustweavedPayloadOps, method: Method<H>)
        requires
            old(self).wf(),
        ensures
            final(self).wf(),
            final(self).ctx() == old(self).ctx(),
            final(self).table() == replace_effect(old(self).table(), op, method),
            final(self).spec_has_method(op),
            table_lookup(final(self).table(), op) == method,
    {
        proof {
            lemma_replace_effect(old(self).table(), op, method);
        }
        match self.position_of(op) {
            Some(i) => {
                let row = self.methods.remove(i);
                let (_, old_method) = row;
                let Method { handler: _, tasks: _, queue_size: _, routing_policy: _ } = old_method;
                self.methods.insert(i, (op, method));
                proof {
                    assert(self.table() =~= replace_effect(old(self).table(), op, method));
                }
            },
            None => {
                self.methods.push((op, method));
            },
        }
    }

    /// Rewraps the method registered under `op` with new concurrency
    /// settings, keeping its handler; a kind with no registered method is
    /// left untouched.
    pub fn set_method_properties(
        &mut self,
        op: RustweavedPayloadOps,
        tasks: usize,
        queue_size: usize,
        routing_policy: RoutingPolicy,
    )
        requires
            old(self).wf(),
        ensures
            final(self).wf(),
            final(self).ctx() == old(self).ctx(),
            !old(self).spec_has_method(op) ==> final(self).table() == old(self).table(),
            old(self).spec_has_method(op) ==> {
                let i = index_of_op(old(self).table(), op);
                final(self).table() == old(self).table().update(
                    i,
                    (
                        op,
                        Method {
                            handler: old(self).table()[i].1.handler,
                            tasks,
                            queue_size,
                            routing_policy,
                        },
                    ),
                )
            },
    {
        match self.position_of(op) {
            Some(i) => {
                proof {
                    let t = old(self).table();
                    let ci = index_of_op(t, op);
                    assert(0 <= ci < t.len() && t[ci].0 == op);
                    assert(ci == i);
                }
                let row = self.methods.remove(i);
                let (_, old_method) = row;
                let Method { handler, tasks: _, queue_size: _, routing_policy: _ } = old_method;
                self.methods.insert(
                    i,
                    (op, Method { handler, tasks, queue_size, routing_policy }),
                );
                proof {
                    let t = old(self).table();
                    let i = i as int;
                    assert(self.table() =~= t.update(
                        i,
                        (op, Method { handler: t[i].1.handler, tasks, queue_size, routing_policy }),
                    ));
                    assert forall|a: int, b: int|
                        0 <= a < b < self.table().len() implies (#[trigger] self.table()[a]).0 != (
                    #[trigger] self.table()[b]).0 by {
                        assert(t[a].0 != t[b].0);
                        assert(self.table()[a].0 == t[a].0);
                        assert(self.table()[b].0 == t[b].0);
                    }
                }
            },
            None => {},
        }
    }

    /// The method registered under `op`, if any; a caller that schedules
    /// work itself falls back to `not_implemented_call` when none is
    /// registered.
    pub fn get_method(&self, op: RustweavedPayloadOps) -> (r: Option<&Method<H>>)
        requires
            self.wf(),
        ensures
            match r {
                Some(m) => self.spec_has_method(op) && *m == table_lookup(self.table(), op),
                None => !self.spec_has_method(op),
            },
    {
        match self.position_of(op) {
            Some(i) => {
                proof {
                    let t = self.table();
                    let ci = index_of_op(t, op);
                    assert(0 <= ci < t.len() && t[ci].0 == op);
                    assert(ci == i);
                }
                Some(&self.methods[i].1)
            },
            None => None,
        }
    }
}

impl<Ctx, H> Interface<Ctx, H> {
    /// Dispatches a request: invokes the handler registered under `op` on
    /// the server context, the given connection and the given request, or
    /// synthesizes the "not implemented" error response when the kind has
    /// no registered method. Never fails on an unknown kind: the fallback
    /// covers the whole kind domain. For a registered kind the result is a
    /// possible result of that handler on exactly those arguments — no more
    /// can be promised of a handler the collaborator implements.
    pub fn call<Conn>(
        &self,
        op: RustweavedPayloadOps,
        connection: &Conn,
        request: &RustweavedRequest,
    ) -> (r: ServerResult) where H: MethodTrait<Ctx, Conn>
        requires
            self.wf(),
        ensures
            !self.spec_has_method(op) ==> spec_is_not_implemented(*request, r),
            self.spec_has_method(op) ==> call_ensures(
                H::call,
                (&table_lookup(self.table(), op).handler, &self.ctx(), connection, request),
                r,
            ),
    {
        match self.position_of(op) {
            Some(i) => {
                proof {
                    let t = self.table();
                    assert(table_has(t, op)) by {
                        assert(t[i as int].0 == op);
                    }
                    let ci = index_of_op(t, op);
                    assert(0 <= ci < t.len() && t[ci].0 == op);
                    assert(ci == i);
                }
                self.methods[i].1.handler.call(&self.server_ctx, connection, request)
            },
            None => not_implemented_call(request),
        }
    }
}

/// The shared fallback: synthesizes the "not implemented" error response
/// for a request whose kind has no registered method, preserving the
/// request's id and kind; an envelope without a payload is rejected as
/// invalid instead.
pub fn not_implemented_call(request: &RustweavedRequest) -> (r: ServerResult)
    ensures
        spec_is_not_implemented(*request, r),
{
    match &request.payload {
        Some(p) => {
            let op = RustweavedPayloadOps::from_request(p);
            let error = RpcErrorMessage {
                kind: RpcErrorKind::NotImplemented,
                message: op.name().to_owned(),
            };
            let ghost witness = error;
            let payload = op.to_error_response(error);
            let r = Ok(RustweavedResponse { id: request.id, payload: Some(payload) });
            proof {
                assert(payload == RustweavedPayloadOps::spec_from_request(*p).spec_to_error_response(
                    witness,
                ));
            }
            r
        },
        None => Err(ServerError::InvalidRequestPayload),
    }
}

} // verus!
