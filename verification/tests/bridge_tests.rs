use shippingbridge::bridge::BridgeOutcome;
use shippingbridge::bridge::BridgePhase;
use shippingbridge::bridge::RequestBridge;
use shippingbridge::bridge::ChannelEvent;
use shippingbridge::bridge::GuestReply;
use shippingbridge::bridge::GuestRun;
use shippingbridge::bridge::PendingResponse;
use shippingbridge::bridge::TaskEvent;
use shippingbridge::bridge::handle;
use shippingbridge::bridge::resolve;
use shippingbridge::sandbox::CapabilitySet;
use shippingbridge::sandbox::EngineConfig;
use shippingbridge::sandbox::ProxyTemplate;

type Out = BridgeOutcome<String, String, String>;
type Run = GuestRun<String, String, String>;

#[test]
fn delivered_response_resolves_immediately() {
    // The task outcome is not consulted: no task event is passed at all.
    let out: Out = resolve(
        ChannelEvent::Delivered(GuestReply::Response("hello".to_string())),
        None,
    );
    assert_eq!(out, BridgeOutcome::ResponseDelivered("hello".to_string()));
}

#[test]
fn delivered_failure_resolves_to_guest_error() {
    let out: Out = resolve(
        ChannelEvent::Delivered(GuestReply::Failure("boom".to_string())),
        None,
    );
    assert_eq!(out, BridgeOutcome::GuestError("boom".to_string()));
}

#[test]
fn closed_with_completed_task_is_guest_silent() {
    let out: Out = resolve(ChannelEvent::Closed, Some(TaskEvent::Completed));
    assert_eq!(out, BridgeOutcome::GuestSilent);
}

#[test]
fn closed_with_faulted_task_is_guest_trap_with_cause() {
    let out: Out = resolve(
        ChannelEvent::Closed,
        Some(TaskEvent::Faulted("trap: unreachable".to_string())),
    );
    assert_eq!(out, BridgeOutcome::GuestTrap("trap: unreachable".to_string()));
}

#[test]
fn closed_with_join_failure_is_task_join_error() {
    let out: Out = resolve(
        ChannelEvent::Closed,
        Some(TaskEvent::JoinFailed("cancelled".to_string())),
    );
    assert_eq!(out, BridgeOutcome::TaskJoinError("cancelled".to_string()));
}

#[test]
fn handle_relays_delivered_response_whatever_the_task_did() {
    // The guest delivered, then trapped on its own time: the caller still
    // gets the response.
    let run: Run = GuestRun {
        delivered: Some(GuestReply::Response("resp".to_string())),
        task: TaskEvent::Faulted("late trap".to_string()),
    };
    assert_eq!(handle(run), BridgeOutcome::ResponseDelivered("resp".to_string()));
}

#[test]
fn handle_reports_silence_once_the_task_completed() {
    let run: Run = GuestRun {
        delivered: None,
        task: TaskEvent::Completed,
    };
    assert_eq!(handle(run), BridgeOutcome::GuestSilent);
}

#[test]
fn handle_reports_trap_cause_when_nothing_was_delivered() {
    let run: Run = GuestRun {
        delivered: None,
        task: TaskEvent::Faulted("divide by zero".to_string()),
    };
    assert_eq!(handle(run), BridgeOutcome::GuestTrap("divide by zero".to_string()));
}

#[test]
fn concurrent_requests_keep_their_own_responses() {
    // Two interleaved requests with distinguishable payloads, resolved under
    // one shared template: each outcome matches only its own request.
    let run_a: Run = GuestRun {
        delivered: Some(GuestReply::Response("payload-a".to_string())),
        task: TaskEvent::Completed,
    };
    let run_b: Run = GuestRun {
        delivered: Some(GuestReply::Response("payload-b".to_string())),
        task: TaskEvent::Faulted("late".to_string()),
    };
    let out_a = handle(run_a);
    let out_b = handle(run_b);
    assert_eq!(out_a, BridgeOutcome::ResponseDelivered("payload-a".to_string()));
    assert_eq!(out_b, BridgeOutcome::ResponseDelivered("payload-b".to_string()));
    assert_ne!(out_a, out_b);
}

#[test]
fn one_request_walks_the_phases_to_a_single_outcome() {
    let template = ProxyTemplate {
        engine: EngineConfig::for_guest(),
        granted: CapabilitySet::proxy_grant(),
    };
    let mut bridge: RequestBridge<String, String, String> = RequestBridge::new();
    assert_eq!(bridge.phase, BridgePhase::Created);
    assert!(bridge.outcome.is_none());

    bridge.build_context(&template, 7);
    assert_eq!(bridge.phase, BridgePhase::ContextBuilt);
    let ctx = bridge.context.expect("a built context accompanies ContextBuilt");
    assert_eq!(ctx.request_id, 7);

    bridge.spawn_task();
    assert_eq!(bridge.phase, BridgePhase::TaskSpawned);
    assert!(bridge.outcome.is_none());

    bridge.resolve_run(GuestRun {
        delivered: Some(GuestReply::Response("done".to_string())),
        task: TaskEvent::Completed,
    });
    assert_eq!(bridge.phase, BridgePhase::Resolved);
    assert_eq!(
        bridge.outcome,
        Some(BridgeOutcome::ResponseDelivered("done".to_string()))
    );
}

#[test]
fn placeholder_is_empty_until_delivery() {
    let p: PendingResponse<String, String> = PendingResponse::empty();
    assert_eq!(p.receive(), ChannelEvent::Closed);
}

#[test]
fn placeholder_hands_out_the_delivered_reply() {
    let mut p: PendingResponse<String, String> = PendingResponse::empty();
    p.deliver(GuestReply::Response("once".to_string()));
    assert_eq!(
        p.receive(),
        ChannelEvent::Delivered(GuestReply::Response("once".to_string()))
    );
}
