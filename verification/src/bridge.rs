//! The per-request bridging lifecycle.
//!
//! One inbound request is handed to a freshly instantiated guest together
//! with a set-once response placeholder. The bridge then races two
//! independent completion signals: the placeholder yielding a value, and the
//! guest task finishing on its own. Exactly one observable outcome is
//! produced for the caller: a delivered response or a single bridge error.

use vstd::prelude::*;

use crate::sandbox::CapabilityContext;
use crate::sandbox::ProxyTemplate;

verus! {

/// What a guest may place into its response placeholder: a finished response
/// or an explicitly signaled failure.
#[derive(Debug, PartialEq, Eq)]
pub enum GuestReply<R, E> {
    Response(R),
    Failure(E),
}

/// What the bridge observes on the placeholder channel: a delivered reply, or
/// the channel closed because the guest finished (or was dropped) without
/// ever delivering one.
#[derive(Debug, PartialEq, Eq)]
pub enum ChannelEvent<R, E> {
    Delivered(GuestReply<R, E>),
    Closed,
}

/// How the guest task itself ended: the handler returned, the execution
/// faulted at runtime, or observing the task's outcome failed at the
/// scheduler level.
#[derive(Debug, PartialEq, Eq)]
pub enum TaskEvent<E, J> {
    Completed,
    Faulted(E),
    JoinFailed(J),
}

/// The single outcome reported to the caller of one request.
#[derive(Debug, PartialEq, Eq)]
pub enum BridgeOutcome<R, E, J> {
    /// The guest delivered a response; it is relayed at once.
    ResponseDelivered(R),
    /// The guest delivered an explicit failure payload.
    GuestError(E),
    /// The guest returned without ever delivering a response: a protocol
    /// violation.
    GuestSilent,
    /// Guest execution faulted; the original cause is carried along.
    GuestTrap(E),
    /// Observing the guest task's outcome itself failed.
    TaskJoinError(J),
}

/// Every outcome other than a delivered response is a bridge error.
pub open spec fn is_bridge_error<R, E, J>(out: BridgeOutcome<R, E, J>) -> bool {
    !(out is ResponseDelivered)
}

/// The set-once response placeholder bound to one request. The guest is the
/// only producer and may deliver at most once; the bridge is the only
/// consumer.
pub struct PendingResponse<R, E> {
    /// The reply delivered so far, if any. At most one is ever stored.
    pub slot: Option<GuestReply<R, E>>,
}

impl<R, E> PendingResponse<R, E> {
    /// A fresh placeholder holds no reply yet.
    pub fn empty() -> (p: Self)
        ensures
            p.slot is None,
    {
        PendingResponse { slot: None }
    }

    /// The delivery primitive: callable only while no reply has been
    /// delivered, so a second delivery through the same placeholder is
    /// impossible.
    pub fn deliver(&mut self, reply: GuestReply<R, E>)
        requires
            old(self).slot is None,
        ensures
            final(self).slot == Some(reply),
    {
        self.slot = Some(reply);
    }

    /// Consume the placeholder as the bridge does once the producer side is
    /// gone: a stored reply is observed as delivered, an empty placeholder as
    /// closed without a value.
    pub fn receive(self) -> (ev: ChannelEvent<R, E>)
        ensures
            ev == receive_spec(self),
    {
        match self.slot {
            Some(reply) => ChannelEvent::Delivered(reply),
            None => ChannelEvent::Closed,
        }
    }
}

/// What [`PendingResponse::receive`] observes for a given placeholder state.
pub open spec fn receive_spec<R, E>(p: PendingResponse<R, E>) -> ChannelEvent<R, E> {
    match p.slot {
        Some(reply) => ChannelEvent::Delivered(reply),
        None => ChannelEvent::Closed,
    }
}

/// The resolution of one request, as a function of the channel event and, on
/// the closed-without-value path only, the awaited guest task outcome.
pub open spec fn resolve_spec<R, E, J>(
    chan: ChannelEvent<R, E>,
    task: Option<TaskEvent<E, J>>,
) -> BridgeOutcome<R, E, J> {
    match chan {
        ChannelEvent::Delivered(GuestReply::Response(r)) => BridgeOutcome::ResponseDelivered(r),
        ChannelEvent::Delivered(GuestReply::Failure(e)) => BridgeOutcome::GuestError(e),
        ChannelEvent::Closed => match task {
            Some(TaskEvent::Completed) => BridgeOutcome::GuestSilent,
            Some(TaskEvent::Faulted(e)) => BridgeOutcome::GuestTrap(e),
            Some(TaskEvent::JoinFailed(j)) => BridgeOutcome::TaskJoinError(j),
            None => BridgeOutcome::GuestSilent,
        },
    }
}

/// Resolve one request from the two completion signals.
///
/// The precondition is the bridge's waiting protocol: the guest task's
/// outcome is awaited exactly when the channel closed without a value. A
/// delivered reply therefore resolves the request without consulting the
/// task at all, and the silent, trap and join-failure outcomes are reached
/// only after the task itself has been observed.
pub fn resolve<R, E, J>(chan: ChannelEvent<R, E>, task: Option<TaskEvent<E, J>>) -> (out:
    BridgeOutcome<R, E, J>)
    requires
        chan is Closed <==> task is Some,
    ensures
        out == resolve_spec(chan, task),
{
    match chan {
        ChannelEvent::Delivered(GuestReply::Response(r)) => BridgeOutcome::ResponseDelivered(r),
        ChannelEvent::Delivered(GuestReply::Failure(e)) => BridgeOutcome::GuestError(e),
        ChannelEvent::Closed => match task {
            Some(TaskEvent::Completed) => BridgeOutcome::GuestSilent,
            Some(TaskEvent::Faulted(e)) => BridgeOutcome::GuestTrap(e),
            Some(TaskEvent::JoinFailed(j)) => BridgeOutcome::TaskJoinError(j),
            None => BridgeOutcome::GuestSilent,
        },
    }
}

/// One request's complete guest behaviour, as the bridge can observe it: the
/// reply delivered through the placeholder before the guest let go of it, if
/// any, and how the guest task itself ended.
#[derive(Debug, PartialEq, Eq)]
pub struct GuestRun<R, E, J> {
    /// The reply the guest delivered, if it ever called the delivery
    /// primitive.
    pub delivered: Option<GuestReply<R, E>>,
    /// How the guest task ended.
    pub task: TaskEvent<E, J>,
}

/// The outcome one request resolves to, as a function of that request's own
/// guest behaviour and of nothing else.
pub open spec fn handle_spec<R, E, J>(run: GuestRun<R, E, J>) -> BridgeOutcome<R, E, J> {
    match run.delivered {
        Some(GuestReply::Response(r)) => BridgeOutcome::ResponseDelivered(r),
        Some(GuestReply::Failure(e)) => BridgeOutcome::GuestError(e),
        None => match run.task {
            TaskEvent::Completed => BridgeOutcome::GuestSilent,
            TaskEvent::Faulted(e) => BridgeOutcome::GuestTrap(e),
            TaskEvent::JoinFailed(j) => BridgeOutcome::TaskJoinError(j),
        },
    }
}

/// Drive one request through its whole lifecycle: bind a fresh set-once
/// placeholder, let the guest's observed behaviour act on it, and resolve the
/// race to the single outcome owed to the caller.
pub fn handle<R, E, J>(run: GuestRun<R, E, J>) -> (out: BridgeOutcome<R, E, J>)
    ensures
        out == handle_spec(run),
{
    let GuestRun { delivered, task } = run;
    let mut pending = PendingResponse::empty();
    match delivered {
        Some(reply) => pending.deliver(reply),
        None => (),
    }
    let ev = pending.receive();
    let joined: Option<TaskEvent<E, J>> = match ev {
        ChannelEvent::Closed => Some(task),
        _ => None,
    };
    resolve(ev, joined)
}

/// The phases one request passes through, strictly in order.
#[derive(Debug, Clone, Copy, PartialEq, Eq, Structural)]
pub enum BridgePhase {
    /// The native request was received.
    Created,
    /// A fresh capability context was built and the placeholder bound.
    ContextBuilt,
    /// The guest task was spawned against the context.
    TaskSpawned,
    /// The single outcome was produced for the caller.
    Resolved,
}

/// One request's passage through the bridge: its phase, the capability
/// context it exclusively owns from `ContextBuilt` on, and the outcome it
/// ends with — exactly one, exactly at `Resolved`.
pub struct RequestBridge<R, E, J> {
    pub phase: BridgePhase,
    pub context: Option<CapabilityContext>,
    pub outcome: Option<BridgeOutcome<R, E, J>>,
}

impl<R, E, J> RequestBridge<R, E, J> {
    /// The phase invariant: a context exists from `ContextBuilt` on, and an
    /// outcome exists exactly once the request is resolved.
    pub open spec fn wf(self) -> bool {
        match self.phase {
            BridgePhase::Created => self.context is None && self.outcome is None,
            BridgePhase::ContextBuilt => self.context is Some && self.outcome is None,
            BridgePhase::TaskSpawned => self.context is Some && self.outcome is None,
            BridgePhase::Resolved => self.context is Some && self.outcome is Some,
        }
    }

    /// Receive one native request.
    pub fn new() -> (b: Self)
        ensures
            b.phase is Created,
            b.wf(),
    {
        RequestBridge { phase: BridgePhase::Created, context: None, outcome: None }
    }

    /// Build the fresh capability context this request will exclusively own.
    pub fn build_context(&mut self, template: &ProxyTemplate, request_id: u64)
        requires
            old(self).phase is Created,
            old(self).wf(),
        ensures
            final(self).wf(),
            final(self).phase is ContextBuilt,
            final(self).context matches Some(c) && c == CapabilityContext::fresh_spec(
                *template,
                request_id,
            ),
            final(self).outcome is None,
    {
        self.context = Some(CapabilityContext::fresh(template, request_id));
        self.phase = BridgePhase::ContextBuilt;
    }

    /// Spawn the guest task against the context; the task's own ending is
    /// tracked independently of the placeholder from here on.
    pub fn spawn_task(&mut self)
        requires
            old(self).phase is ContextBuilt,
            old(self).wf(),
        ensures
            final(self).wf(),
            final(self).phase is TaskSpawned,
            final(self).context == old(self).context,
            final(self).outcome is None,
    {
        self.phase = BridgePhase::TaskSpawned;
    }

    /// Resolve the race from the guest's observed behaviour. The single
    /// outcome is produced here and nowhere else: before this step none
    /// exists, after it exactly this one does.
    pub fn resolve_run(&mut self, run: GuestRun<R, E, J>)
        requires
            old(self).phase is TaskSpawned,
            old(self).wf(),
        ensures
            final(self).wf(),
            final(self).phase is Resolved,
            final(self).context == old(self).context,
            final(self).outcome == Some(handle_spec(run)),
    {
        let out = handle(run);
        self.outcome = Some(out);
        self.phase = BridgePhase::Resolved;
    }
}

/// Every run resolves to exactly one of a delivered response and a bridge
/// error: never neither, never both.
pub proof fn lemma_exactly_one_outcome<R, E, J>(run: GuestRun<R, E, J>)
    ensures
        handle_spec(run) is ResponseDelivered || is_bridge_error(handle_spec(run)),
        !(handle_spec(run) is ResponseDelivered && is_bridge_error(handle_spec(run))),
{
}

/// A reply delivered through the placeholder resolves the request by itself:
/// the outcome does not depend on the guest task's own ending in any way, so
/// the bridge never waits for it, and a delivered response is relayed
/// unchanged.
pub proof fn lemma_delivery_resolves_without_join<R, E, J>(
    run: GuestRun<R, E, J>,
    other_task: TaskEvent<E, J>,
)
    requires
        run.delivered is Some,
    ensures
        handle_spec(run) == handle_spec(GuestRun { task: other_task, ..run }),
        run.delivered matches Some(GuestReply::Response(r)) ==> handle_spec(run)
            == BridgeOutcome::<R, E, J>::ResponseDelivered(r),
        run.delivered matches Some(GuestReply::Failure(e)) ==> handle_spec(run)
            == BridgeOutcome::<R, E, J>::GuestError(e),
{
}

/// A guest that returns without ever delivering resolves to `GuestSilent`,
/// and `GuestSilent` arises on no other path: the placeholder was empty and
/// the task itself had completed (the waiting protocol of [`resolve`] makes
/// that observation happen only after the task is joined).
pub proof fn lemma_silent_iff_undelivered_completion<R, E, J>(run: GuestRun<R, E, J>)
    ensures
        handle_spec(run) is GuestSilent <==> (run.delivered is None && run.task is Completed),
{
}

/// A runtime fault resolves to `GuestTrap` carrying the original cause, and a
/// trap outcome can only come from a faulted task that never delivered: by
/// the set-once contract no response value exists in that case.
pub proof fn lemma_trap_carries_cause<R, E, J>(run: GuestRun<R, E, J>)
    ensures
        run.task matches TaskEvent::Faulted(e) ==> (run.delivered is None ==> handle_spec(run)
            == BridgeOutcome::<R, E, J>::GuestTrap(e)),
        handle_spec(run) matches BridgeOutcome::GuestTrap(e) ==> run.delivered is None
            && run.task == TaskEvent::<E, J>::Faulted(e),
{
}

/// Two requests resolve independently: each outcome is a function of its own
/// run alone, so responses delivered concurrently under one shared template
/// are never swapped between callers.
pub proof fn lemma_no_cross_request_leakage<R, E, J>(
    run_a: GuestRun<R, E, J>,
    run_b: GuestRun<R, E, J>,
    resp_a: R,
    resp_b: R,
)
    requires
        run_a.delivered == Some(GuestReply::<R, E>::Response(resp_a)),
        run_b.delivered == Some(GuestReply::<R, E>::Response(resp_b)),
        resp_a != resp_b,
    ensures
        handle_spec(run_a) == BridgeOutcome::<R, E, J>::ResponseDelivered(resp_a),
        handle_spec(run_b) == BridgeOutcome::<R, E, J>::ResponseDelivered(resp_b),
        handle_spec(run_a) != handle_spec(run_b),
{
}

} // verus!
