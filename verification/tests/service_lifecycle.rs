//! The service-acquisition state machine and the core meta-service client:
//! lazy resolution, FIFO queueing, failure and reconnect behavior, and the
//! typed classification of core responses.

use sidl_client::core_service::{
    CoreAddEventListenerReceiver, CoreGetServiceReceiver, CoreGetServiceReceiverDelegate,
    CoreHasServiceReceiver, CoreHasServiceReceiverDelegate, CoreReleaseObjectReceiver,
    CoreRemoveEventListenerReceiver, CoreService, CoreSimpleReceiverDelegate, GetServiceOutcome,
    HasServiceOutcome, SimpleOutcome,
};
use std::sync::{Arc, Mutex};
use sidl_client::messages::{
    BaseMessageKind, CoreRequest, CoreResponse, EnableEventListenerResponse, GetServiceResponse,
    HasServiceResponse, ReleaseObjectResponse,
};
use sidl_client::service_state::{ResolutionState, ServiceClient, SubmitAction, TaskSender};
use sidl_client::session::Session;

struct RecordingDelegate {
    successes: Vec<u32>,
    errors: u32,
}

impl RecordingDelegate {
    fn new() -> Self {
        RecordingDelegate { successes: Vec::new(), errors: 0 }
    }
}

impl CoreGetServiceReceiverDelegate for RecordingDelegate {
    fn on_success(&mut self, service_id: u32) {
        self.successes.push(service_id);
    }
    fn on_error(&mut self) {
        self.errors += 1;
    }
}

/// Records every delegate invocation: `Some(answer)` per `on_success`,
/// `None` per `on_error`.
struct BoolDelegate {
    record: Arc<Mutex<Vec<Option<bool>>>>,
}

impl CoreHasServiceReceiverDelegate for BoolDelegate {
    fn on_success(&mut self, result: bool) {
        self.record.lock().unwrap().push(Some(result));
    }
    fn on_error(&mut self) {
        self.record.lock().unwrap().push(None);
    }
}

struct SimpleDelegate {
    successes: u32,
    errors: u32,
}

impl CoreSimpleReceiverDelegate for SimpleDelegate {
    fn on_success(&mut self) {
        self.successes += 1;
    }
    fn on_error(&mut self) {
        self.errors += 1;
    }
}

#[test]
fn queue_drains_once_in_fifo_order() {
    let mut c: ServiceClient<&'static str, ()> =
        ServiceClient::new("Foo".to_string(), "fp1".to_string());

    // First submission triggers resolution; later ones only queue.
    assert!(matches!(c.submit("one"), SubmitAction::QueuedStartResolve));
    assert!(matches!(c.submit("two"), SubmitAction::Queued));
    assert!(matches!(c.submit("three"), SubmitAction::Queued));

    let (tasks, listeners) = c.on_resolve_success(7);
    assert_eq!(tasks, vec!["one", "two", "three"], "drained in submission order");
    assert!(listeners.is_empty());
    assert_eq!(c.state(), ResolutionState::Ready(7));

    // Nothing left to drain twice: a Ready client runs tasks directly.
    match c.submit("four") {
        SubmitAction::Run(t) => assert_eq!(t, "four"),
        _ => panic!("a ready service runs tasks immediately"),
    }
}

#[test]
fn resolution_success_transitions_to_ready() {
    // Scenario: open session, ask for the service, the daemon answers
    // Success(7): the client becomes Ready with remote id 7 and the queued
    // call drains.
    let mut session: Session<u32, (), ()> = Session::new(true);
    let core = CoreService::new();
    let mut client: ServiceClient<&'static str, ()> =
        ServiceClient::new("Foo".to_string(), "fp1".to_string());

    assert!(matches!(client.submit("call"), SubmitAction::QueuedStartResolve));

    let mut receiver = CoreGetServiceReceiver::new(RecordingDelegate::new());
    let request = core.get_service("Foo", "fp1", &mut receiver);
    match &request {
        CoreRequest::GetService(q) => {
            assert_eq!(q.name, "Foo");
            assert_eq!(q.fingerprint, "fp1");
        }
        _ => panic!("expected a GetService request"),
    }
    // The encoded request travels as the content of a core envelope.
    let msg = core.send_request(&mut session, vec![0xAA], 1).unwrap();
    assert_eq!((msg.service, msg.object), (0, 0));
    assert!(matches!(msg.kind, BaseMessageKind::Request(1)));

    // Daemon reply: Success(7).
    let outcome =
        receiver.on_message(Some(CoreResponse::GetService(GetServiceResponse::Success(7))));
    assert_eq!(outcome, GetServiceOutcome::Success(7));

    let (tasks, _) = client.on_resolve_success(7);
    assert_eq!(tasks, vec!["call"]);
    assert_eq!(client.state(), ResolutionState::Ready(7));
}

#[test]
fn fingerprint_mismatch_leaves_unresolved() {
    // Scenario: resolution is answered with FingerprintMismatch — the
    // caller sees a failure, no implementation is constructed, and the
    // state falls back to Unresolved.
    let mut client: ServiceClient<&'static str, ()> =
        ServiceClient::new("Foo".to_string(), "fp1".to_string());
    assert!(matches!(client.submit("call"), SubmitAction::QueuedStartResolve));

    let mut receiver = CoreGetServiceReceiver::new(RecordingDelegate::new());
    let outcome =
        receiver.on_message(Some(CoreResponse::GetService(GetServiceResponse::FingerprintMismatch)));
    assert_eq!(outcome, GetServiceOutcome::Error);

    client.on_resolve_failure();
    assert_eq!(client.state(), ResolutionState::Unresolved);
    // The queue survives for the next trigger.
    assert!(matches!(client.submit("again"), SubmitAction::QueuedStartResolve));
    let (tasks, _) = client.on_resolve_success(3);
    assert_eq!(tasks, vec!["call", "again"]);
}

#[test]
fn every_get_service_failure_variant_is_an_error() {
    let failures = vec![
        GetServiceResponse::UnknownService,
        GetServiceResponse::FingerprintMismatch,
        GetServiceResponse::MissingPermission,
        GetServiceResponse::InternalError("boom".to_string()),
    ];
    for f in failures {
        let mut receiver = CoreGetServiceReceiver::new(RecordingDelegate::new());
        assert_eq!(
            receiver.on_message(Some(CoreResponse::GetService(f))),
            GetServiceOutcome::Error
        );
    }
    // A decode mismatch (wrong variant, or nothing decodable) is an error
    // too, never a panic.
    let mut receiver = CoreGetServiceReceiver::new(RecordingDelegate::new());
    assert_eq!(receiver.on_message(None), GetServiceOutcome::Error);
    let mut receiver = CoreGetServiceReceiver::new(RecordingDelegate::new());
    assert_eq!(
        receiver.on_message(Some(CoreResponse::HasService(HasServiceResponse { success: true }))),
        GetServiceOutcome::Error
    );
}

#[test]
fn disconnect_replaces_queue_only_when_ready() {
    let mut c: ServiceClient<&'static str, ()> =
        ServiceClient::new("Foo".to_string(), "fp1".to_string());

    // Still resolving: the queued work survives a disconnect untouched.
    assert!(matches!(c.submit("pending"), SubmitAction::QueuedStartResolve));
    c.on_disconnect(vec!["replay"], vec![]);
    assert_eq!(c.state(), ResolutionState::Unresolved);
    let start = c.on_reconnect();
    assert!(start, "an unresolved client re-triggers resolution on reconnect");
    let (tasks, _) = c.on_resolve_success(5);
    assert_eq!(tasks, vec!["pending"], "unexecuted work is kept, not replaced");

    // Ready: the reconnect work replaces the (empty) queue.
    c.on_disconnect(vec!["replay"], vec![]);
    let start = c.on_reconnect();
    assert!(start);
    let (tasks, _) = c.on_resolve_success(6);
    assert_eq!(tasks, vec!["replay"]);

    // Ready clients ignore further reconnect notifications.
    assert!(!c.on_reconnect());
}

#[test]
fn pending_listeners_queue_and_unqueue() {
    let mut c: ServiceClient<(), &'static str> =
        ServiceClient::new("Settings".to_string(), "fp".to_string());
    c.queue_listener(5, "h1", 100);
    c.queue_listener(6, "h2", 200);
    c.queue_listener(5, "h3", 100);

    // Removing by key drops only the first match.
    c.unqueue_listener(100);
    // Unknown keys change nothing.
    c.unqueue_listener(999);

    assert!(matches!(c.submit(()), SubmitAction::QueuedStartResolve));
    let (_, listeners) = c.on_resolve_success(2);
    assert_eq!(listeners, vec![(6, "h2", 200), (5, "h3", 100)]);
}

#[test]
fn get_service_request_carries_name_and_fingerprint() {
    let c: ServiceClient<(), ()> = ServiceClient::new("Time".to_string(), "fpT".to_string());
    let q = c.get_service_request();
    assert_eq!(q.name, "Time");
    assert_eq!(q.fingerprint, "fpT");
}

#[test]
fn has_service_delivers_the_answer_either_way() {
    // The boolean is the answer: a "no" reaches the delegate as a value,
    // never as a failure; only a decode mismatch is an error.
    let core = CoreService::new();
    let record = Arc::new(Mutex::new(Vec::new()));
    let mut receiver = CoreHasServiceReceiver::new(BoolDelegate { record: Arc::clone(&record) });
    let request = core.has_service("Foo", &mut receiver);
    assert!(matches!(request, CoreRequest::HasService(ref q) if q.name == "Foo"));

    let outcome =
        receiver.on_message(Some(CoreResponse::HasService(HasServiceResponse { success: false })));
    assert_eq!(outcome, HasServiceOutcome::Answer(false));
    let outcome =
        receiver.on_message(Some(CoreResponse::HasService(HasServiceResponse { success: true })));
    assert_eq!(outcome, HasServiceOutcome::Answer(true));
    let outcome = receiver.on_message(None);
    assert_eq!(outcome, HasServiceOutcome::Error);
    let outcome =
        receiver.on_message(Some(CoreResponse::GetService(GetServiceResponse::UnknownService)));
    assert_eq!(outcome, HasServiceOutcome::Error);

    assert_eq!(*record.lock().unwrap(), vec![Some(false), Some(true), None, None]);
}

#[test]
fn event_toggle_and_release_requests_and_outcomes() {
    let core = CoreService::new();

    let mut add = CoreAddEventListenerReceiver::new(SimpleDelegate { successes: 0, errors: 0 });
    let req = core.enable_event_listeners(3, 1, 5, &mut add);
    assert!(matches!(
        req,
        CoreRequest::EnableEvent(ref e) if e.service == 3 && e.object == 1 && e.event == 5
    ));
    assert_eq!(
        add.on_message(Some(CoreResponse::EnableEvent(EnableEventListenerResponse {
            success: true
        }))),
        SimpleOutcome::Success
    );
    assert_eq!(add.on_message(None), SimpleOutcome::Error);

    let mut remove =
        CoreRemoveEventListenerReceiver::new(SimpleDelegate { successes: 0, errors: 0 });
    let req = core.disable_event_listeners(3, 1, 5, &mut remove);
    assert!(matches!(
        req,
        CoreRequest::DisableEvent(ref e) if e.service == 3 && e.object == 1 && e.event == 5
    ));

    let mut release = CoreReleaseObjectReceiver::new(SimpleDelegate { successes: 0, errors: 0 });
    let req = core.release_object(3, 9, &mut release);
    assert!(matches!(
        req,
        CoreRequest::ReleaseObject(ref e) if e.service == 3 && e.object == 9
    ));
    assert_eq!(
        release.on_message(Some(CoreResponse::ReleaseObject(ReleaseObjectResponse {
            success: false
        }))),
        SimpleOutcome::Error
    );
}

#[test]
fn task_sender_targets_the_service_object() {
    let mut session: Session<u32, (), ()> = Session::new(true);
    let sender = TaskSender::new(12);
    let msg = sender.send_task(&mut session, vec![1, 2], 1).unwrap();
    assert_eq!((msg.service, msg.object), (12, 0));
    assert_eq!(msg.content, vec![1, 2]);
}
