//! Transport-session behavior: request-id allocation, response and event
//! routing, disconnect recovery, and connection-observer bookkeeping.

use sidl_client::messages::{BaseMessage, BaseMessageKind, PermissionError};
use sidl_client::session::{DispatchAction, Session, UdsError};

fn envelope(service: u32, object: u32, kind: BaseMessageKind, content: Vec<u8>) -> BaseMessage {
    BaseMessage { service, object, kind, content }
}

#[test]
fn request_ids_strictly_increase() {
    let mut s: Session<u32, u8, ()> = Session::new(true);
    let mut last = 0u64;
    for k in 0..5u32 {
        let msg = s.send_request(1, 0, vec![k as u8], k).expect("connected send");
        let id = msg.request();
        assert!(id > last, "ids must strictly increase");
        last = id;
    }
    assert_eq!(last, 5);
    assert_eq!(s.pending_count(), 5);
}

#[test]
fn response_routing_fires_exactly_once() {
    let mut s: Session<u32, u8, ()> = Session::new(true);
    let msg = s.send_request(1, 0, vec![], 77).unwrap();
    let id = msg.request();

    let mut fired = 0;
    match s.dispatch(envelope(1, 0, BaseMessageKind::Response(id), vec![9])) {
        DispatchAction::Respond(cb, m) => {
            assert_eq!(cb, 77);
            assert_eq!(m.response(), id);
            assert_eq!(m.content, vec![9]);
            fired += 1;
        }
        _ => panic!("expected the registered callback"),
    }
    assert_eq!(fired, 1);
    assert_eq!(s.pending_count(), 0);

    // The same id again: no callback is registered any more, nothing fires.
    match s.dispatch(envelope(1, 0, BaseMessageKind::Response(id), vec![])) {
        DispatchAction::Dropped => {}
        _ => panic!("a second response to the same id must be dropped"),
    }
}

#[test]
fn response_to_unknown_id_is_dropped() {
    let mut s: Session<u32, u8, ()> = Session::new(true);
    match s.dispatch(envelope(1, 0, BaseMessageKind::Response(123), vec![])) {
        DispatchAction::Dropped => {}
        _ => panic!("unknown response id must be dropped"),
    }
}

#[test]
fn event_routing_hits_registered_object_unmodified() {
    let mut s: Session<u32, u8, ()> = Session::new(true);
    s.register_session_object(9, 2, 42);
    match s.dispatch(envelope(9, 2, BaseMessageKind::Event, vec![1, 2, 3])) {
        DispatchAction::DeliverEvent(service, object, payload) => {
            assert_eq!((service, object), (9, 2));
            assert_eq!(payload, vec![1, 2, 3]);
            assert_eq!(s.get_object(9, 2), Some(&42));
        }
        _ => panic!("expected delivery to the registered object"),
    }
}

#[test]
fn event_without_match_is_dropped() {
    let mut s: Session<u32, u8, ()> = Session::new(true);
    s.register_session_object(9, 2, 42);
    match s.dispatch(envelope(9, 3, BaseMessageKind::Event, vec![1])) {
        DispatchAction::Dropped => {}
        _ => panic!("no object is registered for (9, 3)"),
    }
    // Unregistering removes the route.
    s.unregister_session_object(9, 2);
    match s.dispatch(envelope(9, 2, BaseMessageKind::Event, vec![1])) {
        DispatchAction::Dropped => {}
        _ => panic!("the object was unregistered"),
    }
}

#[test]
fn server_request_reaches_registered_object() {
    let mut s: Session<u32, u8, ()> = Session::new(true);
    s.register_session_object(4, 1, 7);
    match s.dispatch(envelope(4, 1, BaseMessageKind::Request(66), vec![5])) {
        DispatchAction::HandleRequest(service, object, id, m) => {
            assert_eq!((service, object, id), (4, 1, 66));
            assert_eq!(m.request(), 66);
        }
        _ => panic!("expected the request to reach the object"),
    }
}

#[test]
fn permission_error_is_reported_not_fatal() {
    let mut s: Session<u32, u8, ()> = Session::new(true);
    let details = PermissionError {
        request: 3,
        permission: "camera".to_string(),
        message: "denied".to_string(),
    };
    match s.dispatch(envelope(0, 0, BaseMessageKind::PermissionError(details), vec![])) {
        DispatchAction::PermissionDenied(e) => {
            assert_eq!(e.request, 3);
            assert_eq!(e.permission, "camera");
        }
        _ => panic!("expected the permission error to surface"),
    }
    // The session still works.
    assert!(s.send_request(1, 0, vec![], 1).is_ok());
}

#[test]
fn send_while_disconnected_fails_without_registering() {
    let mut s: Session<u32, u8, ()> = Session::new(false);
    assert!(!s.is_ready());
    match s.send_request(1, 0, vec![], 50) {
        Err(UdsError::NoStreamAvailable) => {}
        _ => panic!("a disconnected session must refuse to send"),
    }
    assert_eq!(s.pending_count(), 0, "no callback may be left dangling");

    // send_message is gated the same way.
    let msg = envelope(1, 0, BaseMessageKind::Event, vec![]);
    assert!(matches!(s.send_message(&msg), Err(UdsError::NoStreamAvailable)));
    s.reconnect();
    assert!(s.send_message(&msg).is_ok());
}

#[test]
fn disconnect_clears_inflight_state_and_keeps_observers() {
    let mut s: Session<u32, u8, &'static str> = Session::new(true);
    let a = s.add_connection_observer("a");
    let b = s.add_connection_observer("b");
    assert_ne!(a, b);

    s.send_request(1, 0, vec![], 10).unwrap();
    s.send_request(1, 0, vec![], 11).unwrap();
    s.register_session_object(1, 1, 9);
    assert_eq!(s.pending_count(), 2);

    // Simulated stream failure.
    s.disconnect();
    assert!(!s.is_ready());
    assert_eq!(s.pending_count(), 0, "pending responses are dropped");
    assert!(s.get_object(1, 1).is_none(), "routing table is cleared");

    // Every registered observer is notified exactly once: the read loop
    // walks exactly this id list.
    let ids = s.observer_ids();
    assert_eq!(ids, vec![a, b]);
    let mut notified = 0;
    for id in ids {
        assert!(s.get_observer(id).is_some());
        notified += 1;
    }
    assert_eq!(notified, 2);

    // Ids are not reused after a disconnect/reconnect cycle.
    s.reconnect();
    assert!(s.is_ready());
    let msg = s.send_request(1, 0, vec![], 12).unwrap();
    assert_eq!(msg.request(), 3, "request ids keep increasing across reconnects");
}

#[test]
fn connection_observers_add_remove() {
    let mut s: Session<u32, u8, &'static str> = Session::new(true);
    assert_eq!(s.next_connection_observer_id(), 1);
    let a = s.add_connection_observer("a");
    let b = s.add_connection_observer("b");
    let c = s.add_connection_observer("c");
    assert_eq!((a, b, c), (1, 2, 3));

    s.remove_connection_observer(b);
    assert_eq!(s.observer_ids(), vec![a, c]);
    assert!(s.get_observer(b).is_none());
    assert_eq!(s.get_observer(c), Some(&"c"));

    // Removing an unknown id is harmless.
    s.remove_connection_observer(99);
    assert_eq!(s.observer_ids(), vec![a, c]);
}

#[test]
fn base_message_helpers() {
    let m = BaseMessage {
        service: 7,
        object: 8,
        kind: BaseMessageKind::Request(21),
        content: vec![1, 2],
    };
    assert_eq!(m.request(), 21);
    let empty = BaseMessage::empty_from(&m);
    assert_eq!(empty.service, 7);
    assert_eq!(empty.object, 8);
    assert!(matches!(empty.kind, BaseMessageKind::Request(21)));
    assert!(empty.content.is_empty());

    let r = BaseMessage {
        service: 7,
        object: 8,
        kind: BaseMessageKind::Response(4),
        content: vec![],
    };
    assert_eq!(r.response(), 4);
}
