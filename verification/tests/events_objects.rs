//! The event-listener registry edges, the remote-object lifetime proxy, the
//! time service client, and the identifier plumbing.

use sidl_client::bridge::{NetworkState, NetworkType, ObjectIdGenerator};
use sidl_client::client_object::ClientObject;
use sidl_client::contacts::{FilterByOption, FilterOption};
use sidl_client::event_manager::EventManager;
use sidl_client::messages::{EnableEventListenerRequest, ObjectRef, SystemTime};
use sidl_client::session::Session;
use sidl_client::time_service::{
    classify_elapsed_real_time, classify_set_time, classify_set_timezone, CallbackReason,
    ElapsedRealTimeOutcome, ObserverDispatch, ObserverWrapper, TaskOutcome, TimeClient, TimeInfo,
    TimeServiceFromClient, TimeServiceToClient,
};
use sidl_client::traits::{EventIds, EventMapKey, IdFactory, SessionTrackerId};

#[test]
fn event_enable_disable_edge_triggers() {
    let mut m: EventManager<&'static str> = EventManager::new(3, 0);

    // First listener for a type: exactly one enable request.
    let enable = m.add_event_listener(5, "h1", 10);
    let enable = enable.expect("first listener must enable the event");
    assert_eq!((enable.service, enable.object, enable.event), (3, 0, 5));

    // Second listener for the same type: no further enable.
    assert!(m.add_event_listener(5, "h2", 11).is_none());

    // First listener for another type: its own enable, independent of the
    // table being non-empty.
    let enable6 = m.add_event_listener(6, "h3", 12).expect("new event type enables");
    assert_eq!(enable6.event, 6);

    // Removing a non-last listener: no disable.
    assert!(m.remove_event_listener(5, 10).is_none());

    // Removing the last listener: exactly one disable, and the entry is
    // gone — adding again re-enables.
    let disable = m.remove_event_listener(5, 11).expect("last listener must disable");
    assert_eq!((disable.service, disable.object, disable.event), (3, 0, 5));
    assert!(m.add_event_listener(5, "h4", 13).is_some());
}

#[test]
fn remove_listener_for_event_five_clears_entry() {
    // Scenario: one listener for event type 5; removing it issues exactly
    // one disable naming (service, object, 5) and the entry disappears.
    let mut m: EventManager<&'static str> = EventManager::new(7, 2);
    m.add_event_listener(5, "only", 42).expect("enable");

    let mut disables = 0;
    if let Some(req) = m.remove_event_listener(5, 42) {
        assert_eq!((req.service, req.object, req.event), (7, 2, 5));
        disables += 1;
    }
    assert_eq!(disables, 1);

    // The entry is gone: a snapshot finds nothing.
    assert!(m.get_listeners_to_reconnect().is_empty());
}

#[test]
fn remove_with_unknown_key_or_event_does_nothing() {
    let mut m: EventManager<&'static str> = EventManager::new(1, 0);
    assert!(m.remove_event_listener(9, 1).is_none(), "absent event type");
    m.add_event_listener(9, "h", 1);
    assert!(m.remove_event_listener(9, 999).is_none(), "unknown key");
    // The listener is still there: removing it now disables.
    assert!(m.remove_event_listener(9, 1).is_some());
}

#[test]
fn listeners_snapshot_clears_table() {
    let mut m: EventManager<&'static str> = EventManager::new(2, 0);
    m.add_event_listener(1, "a", 10);
    m.add_event_listener(1, "b", 11);
    m.add_event_listener(4, "c", 12);

    let snapshot = m.get_listeners_to_reconnect();
    assert_eq!(snapshot, vec![(1, "a", 10), (1, "b", 11), (4, "c", 12)]);

    // Cleared: the daemon-side enable state must be rebuilt from scratch.
    assert!(m.get_listeners_to_reconnect().is_empty());
    assert!(m.add_event_listener(1, "a", 10).is_some(), "re-adding enables again");
}

#[test]
fn client_object_releases_exactly_once() {
    let mut session: Session<u32, &'static str, ()> = Session::new(true);
    let proxy = ClientObject::new(4, 9, "handler", &mut session);
    assert_eq!(proxy.object_ref(), 9);
    assert_eq!(session.get_object(4, 9), Some(&"handler"));

    // Tearing down consumes the proxy: one release request, no way to ask twice.
    let release = proxy.teardown(&mut session);
    let release = release.expect("exactly one release for (4, 9)");
    assert_eq!((release.service, release.object), (4, 9));
    assert!(session.get_object(4, 9).is_none(), "always unregistered");
}

#[test]
fn dont_release_suppresses_the_release() {
    let mut session: Session<u32, &'static str, ()> = Session::new(true);
    let mut proxy = ClientObject::new(4, 9, "handler", &mut session);
    proxy.dont_release();
    proxy.dont_release(); // idempotent
    assert!(proxy.teardown(&mut session).is_none(), "zero release requests");
    assert!(session.get_object(4, 9).is_none(), "still unregistered");
}

#[test]
fn time_client_observer_lifecycle() {
    let mut session: Session<u32, &'static str, ()> = Session::new(true);
    let mut time: TimeClient<&'static str> = TimeClient::new(8);

    let (id1, req1) = time.add_observer(
        CallbackReason::TimeChanged,
        "obs1",
        100,
        "wrapper1",
        &mut session,
    );
    assert_eq!(id1, 1, "first observer object id is 1; 0 is the service itself");
    assert!(matches!(
        req1,
        TimeServiceFromClient::TimeAddObserver(CallbackReason::TimeChanged, ObjectRef(1))
    ));
    assert_eq!(session.get_object(8, 1), Some(&"wrapper1"));

    let (id2, _) = time.add_observer(
        CallbackReason::TimezoneChanged,
        "obs2",
        200,
        "wrapper2",
        &mut session,
    );
    assert_eq!(id2, 2);
    assert_eq!(time.get_observer_id(100), Some(1));
    assert_eq!(time.get_observer_id(999), None);

    // Wrong reason: the request still names the first key match, but no
    // entry is removed and nothing is released.
    let out = time.remove_observer(CallbackReason::TimezoneChanged, 100, &mut session);
    assert!(matches!(
        out.request,
        Some(TimeServiceFromClient::TimeRemoveObserver(
            CallbackReason::TimezoneChanged,
            ObjectRef(1)
        ))
    ));
    assert!(out.release.is_none());
    assert_eq!(session.get_object(8, 1), Some(&"wrapper1"));

    // Matching reason and key: the entry goes, its remote object released.
    let out = time.remove_observer(CallbackReason::TimeChanged, 100, &mut session);
    let release = out.release.expect("the removed observer's object is released");
    assert_eq!((release.service, release.object), (8, 1));
    assert!(session.get_object(8, 1).is_none());

    // Unknown key: nothing at all.
    let out = time.remove_observer(CallbackReason::TimeChanged, 100, &mut session);
    assert!(out.request.is_none() && out.release.is_none());
}

#[test]
fn reconnect_tasks_replay_observers_without_release() {
    let mut session: Session<u32, &'static str, ()> = Session::new(true);
    let mut time: TimeClient<&'static str> = TimeClient::new(8);
    time.add_observer(CallbackReason::TimeChanged, "obs1", 100, "w1", &mut session);
    time.add_observer(CallbackReason::TimezoneChanged, "obs2", 200, "w2", &mut session);

    // The connection died: regenerate the registrations; the stale remote
    // ids must never be released.
    session.disconnect();
    let tasks = time.tasks_to_reconnect();
    assert_eq!(
        tasks,
        vec![
            (CallbackReason::TimeChanged, "obs1", 100),
            (CallbackReason::TimezoneChanged, "obs2", 200),
        ]
    );
    assert_eq!(time.get_observer_id(100), None, "the registry is cleared");
}

#[test]
fn time_request_builders() {
    let time: TimeClient<()> = TimeClient::new(8);
    assert!(matches!(
        time.set_timezone("UTC".to_string()),
        TimeServiceFromClient::TimeSetTimezone(tz) if tz == "UTC"
    ));
    assert!(matches!(
        time.set_time(SystemTime(1_234)),
        TimeServiceFromClient::TimeSet(SystemTime(1_234))
    ));
    assert!(matches!(
        time.get_elapsed_real_time(),
        TimeServiceFromClient::TimeGetElapsedRealTime
    ));
}

#[test]
fn time_response_classification() {
    assert_eq!(
        classify_set_timezone(Some(TimeServiceToClient::TimeSetTimezoneSuccess)),
        TaskOutcome::Resolved
    );
    assert_eq!(
        classify_set_timezone(Some(TimeServiceToClient::TimeSetTimezoneError)),
        TaskOutcome::Rejected
    );
    // A mismatched variant is ignored, not misreported.
    assert_eq!(
        classify_set_timezone(Some(TimeServiceToClient::TimeSetSuccess)),
        TaskOutcome::Ignored
    );
    assert_eq!(classify_set_time(None), TaskOutcome::Ignored);
    assert_eq!(
        classify_elapsed_real_time(Some(TimeServiceToClient::TimeGetElapsedRealTimeSuccess(88))),
        ElapsedRealTimeOutcome::Resolved(88)
    );
    assert_eq!(
        classify_elapsed_real_time(Some(TimeServiceToClient::TimeGetElapsedRealTimeError)),
        ElapsedRealTimeOutcome::Rejected
    );
}

#[test]
fn observer_wrapper_acknowledges_callbacks() {
    let w: ObserverWrapper<&'static str> = ObserverWrapper::new("obs", 8, 3);
    assert_eq!(w.get_ids(), (8, 3));

    let info = TimeInfo {
        reason: CallbackReason::TimezoneChanged,
        timezone: "UTC".to_string(),
        delta: -60,
    };
    match w.handle_request(41, Some(TimeServiceToClient::TimeObserverCallback(info))) {
        ObserverDispatch::Notify(delivered, reply) => {
            assert_eq!(delivered.reason, CallbackReason::TimezoneChanged);
            assert_eq!(delivered.timezone, "UTC");
            assert_eq!(delivered.delta, -60);
            assert_eq!((reply.service, reply.object, reply.request_id), (8, 3, 41));
            assert!(matches!(
                reply.payload,
                TimeServiceFromClient::TimeObserverCallbackSuccess
            ));
        }
        ObserverDispatch::Ignored => panic!("a callback must be delivered and acknowledged"),
    }

    // Anything else — including a decode mismatch — is ignored, no reply.
    assert!(matches!(
        w.handle_request(42, Some(TimeServiceToClient::TimeSetSuccess)),
        ObserverDispatch::Ignored
    ));
    assert!(matches!(w.handle_request(43, None), ObserverDispatch::Ignored));
}

#[test]
fn callback_reason_codes_round_trip() {
    assert_eq!(CallbackReason::from_i16(1), CallbackReason::TimeChanged);
    assert_eq!(CallbackReason::from_i16(2), CallbackReason::TimezoneChanged);
    assert_eq!(CallbackReason::from_i16(0), CallbackReason::NoReason);
    assert_eq!(CallbackReason::from_i16(-7), CallbackReason::NoReason);
    for reason in [
        CallbackReason::TimeChanged,
        CallbackReason::TimezoneChanged,
        CallbackReason::NoReason,
    ] {
        assert_eq!(CallbackReason::from_i16(reason.to_i16()), reason);
    }
}

#[test]
fn id_factory_steps_by_two_from_base() {
    let mut f = IdFactory::new(1);
    assert_eq!(f.next(), 3);
    assert_eq!(f.next(), 5);
    let mut g = IdFactory::new(0);
    assert_eq!(g.next(), 2, "the daemon side generates even ids");
}

#[test]
fn event_map_key_and_session_tracker() {
    let req = EnableEventListenerRequest { service: 1, object: 2, event: 3 };
    assert_eq!(req.ids(), (1, 2, 3));
    assert_eq!(EventMapKey::from_ids(&req), EventMapKey::new(1, 2, 3));

    let mut id = SessionTrackerId::from(5, 6);
    assert_eq!(id.session(), 5);
    assert_eq!(id.service(), 6, "the service accessor reads the id half");
    id.set_session(9);
    assert_eq!(id.session(), 9);
}

#[test]
fn object_id_generator_starts_at_one() {
    let mut g = ObjectIdGenerator::default();
    assert_eq!(g.next_id(), 1);
    assert_eq!(g.next_id(), 2);
}

#[test]
fn object_ref_round_trip() {
    let r = ObjectRef::from(17u32);
    assert_eq!(u32::from(r), 17);
    assert_eq!(ObjectRef::from(0u32), ObjectRef(0));
}

#[test]
fn host_integer_conversions() {
    assert_eq!(NetworkState::from(1), NetworkState::NetworkStateConnected);
    assert_eq!(NetworkState::from(-1), NetworkState::NetworkStateUnknown);
    assert_eq!(NetworkState::from(77), NetworkState::NetworkStateUnknown);
    assert_eq!(NetworkType::from(0), NetworkType::NetworkTypeWifi);
    assert_eq!(NetworkType::from(13), NetworkType::NetworkTypeMobileXcap);
    assert_eq!(NetworkType::from(-1), NetworkType::NetworkTypeUnknown);

    assert_eq!(FilterByOption::from_u16(3), Some(FilterByOption::Tel));
    assert_eq!(FilterByOption::from_u16(6), None);
    assert_eq!(FilterOption::from_u16(4), Some(FilterOption::FuzzyMatch));
    assert_eq!(FilterOption::from_u16(5), None);
    assert_eq!(FilterOption::from_u16_or_equals(5), FilterOption::Equals);
    assert_eq!(FilterOption::from_u16_or_equals(2), FilterOption::Match);
}
