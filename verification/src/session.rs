//! The transport session: one per stream connection.  It allocates request
//! ids, keeps the table of in-flight response callbacks, routes inbound
//! messages to the right callback or session object, and tracks the
//! connection observers that must hear about disconnections and reconnects.
//!
//! The session itself never touches the socket or the codec: sending hands
//! back the envelope to write, and the read loop feeds every decoded frame to
//! [`Session::dispatch`], which answers with the action to perform.  The
//! callback, object and observer handles are opaque type parameters: the
//! session only stores and returns them.

use crate::messages::{BaseMessage, BaseMessageKind, PermissionError};
use std::collections::HashMap;
use vstd::prelude::*;

verus! {

broadcast use vstd::std_specs::hash::group_hash_axioms;

/// Errors reported by the transport layer.
#[derive(Debug)]
pub enum UdsError {
    /// The framing codec failed; the payload describes how.
    Frame(String),
    /// No stream is available: the session is disconnected.
    NoStreamAvailable,
    Generic(String),
}

impl From<String> for UdsError {
    /// Free-form errors wrap their description.
    fn from(val: String) -> (r: Self) {
        UdsError::Generic(val)
    }
}

impl vstd::std_specs::convert::FromSpecImpl<String> for UdsError {
    open spec fn obeys_from_spec() -> bool {
        true
    }

    open spec fn from_spec(val: String) -> Self {
        UdsError::Generic(val)
    }
}

/// A response dispatcher: receives the response message matching a request.
pub trait ResponseReceiver: Send {
    fn on_message(&mut self, message: BaseMessage);
}

/// Implemented by session objects: anything routable by (service, object)
/// that can receive events and server-initiated requests.
pub trait SessionObject: Send {
    /// Handles a request initiated by the daemon; a returned message is sent
    /// back by the transport layer.
    fn on_request(&mut self, request: BaseMessage, request_id: u64) -> Option<BaseMessage>;

    /// Handles an event payload addressed to this object.
    fn on_event(&mut self, event: Vec<u8>);

    /// The (service, object) pair this object answers for.
    fn get_ids(&self) -> (u32, u32);
}

/// The routing-table key for the object `(service, object)`: the service id
/// in the high 32 bits, the object id in the low 32 bits.
pub open spec fn object_key(service: u32, object: u32) -> u64 {
    ((service as u64) << 32u64) | (object as u64)
}

/// Packs a (service, object) pair into its routing-table key.
pub fn compute_object_key(service: u32, object: u32) -> (r: u64)
    ensures
        r == object_key(service, object),
{
    ((service as u64) << 32u64) | (object as u64)
}

/// Law: distinct (service, object) pairs always get distinct routing keys,
/// so one registered object never shadows another.
pub proof fn lemma_object_key_injective(s1: u32, o1: u32, s2: u32, o2: u32)
    ensures
        object_key(s1, o1) == object_key(s2, o2) ==> (s1 == s2 && o1 == o2),
{
    assert((((s1 as u64) << 32u64) | (o1 as u64)) == (((s2 as u64) << 32u64) | (o2 as u64)) ==> (s1
        == s2 && o1 == o2)) by (bit_vector);
}

/// What the read loop must do with a message it handed to `dispatch`.
pub enum DispatchAction<C> {
    /// Invoke this response callback, exactly once, with the message.
    Respond(C, BaseMessage),
    /// Hand the event payload to the object registered for (service, object).
    DeliverEvent(u32, u32, Vec<u8>),
    /// Let the object registered for (service, object) handle this
    /// server-initiated request (the `u64` is the request id); the object may
    /// answer with a reply envelope to send.
    HandleRequest(u32, u32, u64, BaseMessage),
    /// A permission error: reported, never retried.
    PermissionDenied(PermissionError),
    /// Nothing was registered for the message: logged and dropped.
    Dropped,
}

/// The per-connection session state.
///
/// `C` is the response-callback handle stored until the matching response
/// arrives, `O` the session-object handle stored in the routing table, and
/// `B` the connection-observer handle.
pub struct Session<C, O, B> {
    /// In-flight response callbacks, keyed by request id.
    pending: HashMap<u64, C>,
    /// The most recently allocated request id.
    request_id: u64,
    /// The routing table, keyed by `object_key(service, object)`.
    objects: HashMap<u64, O>,
    /// Whether a live stream is attached.
    connected: bool,
    /// The connection observers, each under the id it was registered with.
    observers: Vec<(usize, B)>,
    /// The most recently assigned observer id.
    observer_id: usize,
}

impl<C, O, B> Session<C, O, B> {
    /// The in-flight response callbacks, keyed by request id.
    pub closed spec fn pending_map(self) -> Map<u64, C> {
        self.pending@
    }

    /// The most recently allocated request id (0 before any request).
    pub closed spec fn last_request_id(self) -> u64 {
        self.request_id
    }

    /// The routing table of session objects.
    pub closed spec fn objects_map(self) -> Map<u64, O> {
        self.objects@
    }

    /// Whether a live stream is attached.
    pub closed spec fn connected(self) -> bool {
        self.connected
    }

    /// The registered connection observers, in registration order.
    pub closed spec fn observers_seq(self) -> Seq<(usize, B)> {
        self.observers@
    }

    /// The most recently assigned observer id (0 before any registration).
    pub closed spec fn last_observer_id(self) -> usize {
        self.observer_id
    }

    /// Whether an object is registered for `(service, object)`.
    pub open spec fn has_object(self, service: u32, object: u32) -> bool {
        self.objects_map().contains_key(object_key(service, object))
    }

    /// Whether an observer is registered under `id`.
    pub open spec fn has_observer(self, id: usize) -> bool {
        exists|i: int|
            0 <= i < self.observers_seq().len() && (#[trigger] self.observers_seq()[i]).0 == id
    }

    /// Session well-formedness: every pending request id was allocated by
    /// this session (so the next allocation can never collide), and observer
    /// ids are unique and were all assigned by this session.
    pub open spec fn wf(self) -> bool {
        &&& forall|id: u64| #[trigger]
            self.pending_map().contains_key(id) ==> 1 <= id <= self.last_request_id()
        &&& forall|i: int, j: int|
            0 <= i < j < self.observers_seq().len() ==> (#[trigger] self.observers_seq()[i]).0 != (
            #[trigger] self.observers_seq()[j]).0
        &&& forall|i: int|
            0 <= i < self.observers_seq().len() ==> 1 <= (#[trigger] self.observers_seq()[i]).0
                <= self.last_observer_id()
    }

    /// A fresh session.  `connected` tells whether the transport open
    /// succeeded; a session that starts disconnected is served by the read
    /// loop's reconnect attempts.
    pub fn new(connected: bool) -> (r: Self)
        ensures
            r.wf(),
            r.pending_map() == Map::<u64, C>::empty(),
            r.objects_map() == Map::<u64, O>::empty(),
            r.observers_seq() == Seq::<(usize, B)>::empty(),
            r.last_request_id() == 0,
            r.last_observer_id() == 0,
            r.connected() == connected,
    {
        Session {
            pending: HashMap::new(),
            request_id: 0,
            objects: HashMap::new(),
            connected,
            observers: Vec::new(),
            observer_id: 0,
        }
    }

    /// The most recently allocated request id; the next send uses the id
    /// after it.
    pub fn current_request_id(&self) -> (r: u64)
        ensures
            r == self.last_request_id(),
    {
        self.request_id
    }

    /// The most recently assigned observer id.
    pub fn current_observer_id(&self) -> (r: usize)
        ensures
            r == self.last_observer_id(),
    {
        self.observer_id
    }

    /// How many requests are in flight, their responses still awaited.
    pub fn pending_count(&self) -> (r: usize)
        ensures
            r == self.pending_map().len(),
    {
        self.pending.len()
    }

    /// Whether the session currently has a live stream.
    pub fn is_ready(&self) -> (r: bool)
        ensures
            r == self.connected(),
    {
        self.connected
    }

    /// Law: the request id that the next send will allocate is not pending,
    /// so an id is never reused while its response is outstanding.
    pub proof fn lemma_next_request_id_fresh(self)
        requires
            self.wf(),
            self.last_request_id() < u64::MAX,
        ensures
            !self.pending_map().contains_key((self.last_request_id() + 1) as u64),
    {
    }

    /// Allocates a fresh request id, registers `callback` under it, and
    /// returns the envelope to write to the stream.  When the session is
    /// disconnected it returns the error immediately, registering nothing:
    /// the caller fails the call outright instead of leaving a dangling
    /// registration.
    pub fn send_request(&mut self, service: u32, object: u32, content: Vec<u8>, callback: C) -> (r:
        Result<BaseMessage, UdsError>)
        requires
            old(self).wf(),
            old(self).last_request_id() < u64::MAX,
        ensures
            final(self).wf(),
            !old(self).connected() ==> {
                &&& r matches Err(e) && e is NoStreamAvailable
                &&& *final(self) == *old(self)
            },
            old(self).connected() ==> ({
                let id = (old(self).last_request_id() + 1) as u64;
                &&& r matches Ok(m) && m.service == service && m.object == object && m.kind
                    == BaseMessageKind::Request(id) && m.content@ == content@
                &&& !old(self).pending_map().contains_key(id)
                &&& final(self).pending_map() == old(self).pending_map().insert(id, callback)
                &&& final(self).last_request_id() == id
                &&& final(self).objects_map() == old(self).objects_map()
                &&& final(self).observers_seq() == old(self).observers_seq()
                &&& final(self).last_observer_id() == old(self).last_observer_id()
                &&& final(self).connected()
            }),
    {
        if !self.connected {
            return Err(UdsError::NoStreamAvailable);
        }
        self.request_id = self.request_id + 1;
        let id = self.request_id;
        self.pending.insert(id, callback);
        proof {
            assert(self.pending_map() == old(self).pending_map().insert(id, callback));
            assert(self.observers_seq() == old(self).observers_seq());
        }
        Ok(BaseMessage { service, object, kind: BaseMessageKind::Request(id), content })
    }

    /// Gate for writing a fully-formed envelope (replies to server-initiated
    /// requests, fire-and-forget acknowledgements): succeeds exactly when a
    /// stream is attached; the caller then performs the write.
    pub fn send_message(&self, message: &BaseMessage) -> (r: Result<(), UdsError>)
        ensures
            self.connected() ==> (r matches Ok(u) && u == ()),
            !self.connected() ==> (r matches Err(e) && e is NoStreamAvailable),
    {
        if self.connected {
            Ok(())
        } else {
            Err(UdsError::NoStreamAvailable)
        }
    }

    /// Registers `handle` as the session object answering for
    /// `(service, object)`, replacing any previous registration.
    pub fn register_session_object(&mut self, service: u32, object: u32, handle: O)
        requires
            old(self).wf(),
        ensures
            final(self).wf(),
            final(self).objects_map() == old(self).objects_map().insert(
                object_key(service, object),
                handle,
            ),
            final(self).pending_map() == old(self).pending_map(),
            final(self).last_request_id() == old(self).last_request_id(),
            final(self).connected() == old(self).connected(),
            final(self).observers_seq() == old(self).observers_seq(),
            final(self).last_observer_id() == old(self).last_observer_id(),
    {
        let key = compute_object_key(service, object);
        self.objects.insert(key, handle);
        proof {
            assert(self.pending_map() == old(self).pending_map());
            assert(self.observers_seq() == old(self).observers_seq());
        }
    }

    /// Removes the session object registered for `(service, object)`, if any.
    pub fn unregister_session_object(&mut self, service: u32, object: u32)
        requires
            old(self).wf(),
        ensures
            final(self).wf(),
            final(self).objects_map() == old(self).objects_map().remove(
                object_key(service, object),
            ),
            final(self).pending_map() == old(self).pending_map(),
            final(self).last_request_id() == old(self).last_request_id(),
            final(self).connected() == old(self).connected(),
            final(self).observers_seq() == old(self).observers_seq(),
            final(self).last_observer_id() == old(self).last_observer_id(),
    {
        let key = compute_object_key(service, object);
        self.objects.remove(&key);
        proof {
            assert(self.pending_map() == old(self).pending_map());
            assert(self.observers_seq() == old(self).observers_seq());
        }
    }

    /// The session object registered for `(service, object)`, if any.
    pub fn get_object(&self, service: u32, object: u32) -> (r: Option<&O>)
        ensures
            match r {
                Some(o) => self.has_object(service, object) && *o == self.objects_map()[object_key(
                    service,
                    object,
                )],
                None => !self.has_object(service, object),
            },
    {
        let key = compute_object_key(service, object);
        self.objects.get(&key)
    }

    /// Routes one inbound message, invoked only by the read loop.
    ///
    /// A `Response(id)` pops the callback registered under `id` — it fires
    /// exactly once and is removed — or is dropped without effect when none
    /// is registered.  An `Event` or `Request` is handed to the object
    /// registered for its (service, object), or dropped.  A permission error
    /// is reported and dropped.  Nothing here ever panics.
    pub fn dispatch(&mut self, message: BaseMessage) -> (action: DispatchAction<C>)
        requires
            old(self).wf(),
        ensures
            final(self).wf(),
            final(self).objects_map() == old(self).objects_map(),
            final(self).last_request_id() == old(self).last_request_id(),
            final(self).connected() == old(self).connected(),
            final(self).observers_seq() == old(self).observers_seq(),
            final(self).last_observer_id() == old(self).last_observer_id(),
            match message.kind {
                BaseMessageKind::Response(id) => {
                    if old(self).pending_map().contains_key(id) {
                        &&& action matches DispatchAction::Respond(c, m) && c == old(
                            self,
                        ).pending_map()[id] && m == message
                        &&& final(self).pending_map() == old(self).pending_map().remove(id)
                    } else {
                        &&& action is Dropped
                        &&& final(self).pending_map() == old(self).pending_map()
                    }
                },
                BaseMessageKind::Event => {
                    &&& final(self).pending_map() == old(self).pending_map()
                    &&& if old(self).has_object(message.service, message.object) {
                        action matches DispatchAction::DeliverEvent(s, o, c) && s == message.service
                            && o == message.object && c@ == message.content@
                    } else {
                        action is Dropped
                    }
                },
                BaseMessageKind::Request(id) => {
                    &&& final(self).pending_map() == old(self).pending_map()
                    &&& if old(self).has_object(message.service, message.object) {
                        action matches DispatchAction::HandleRequest(s, o, i, m) && s
                            == message.service && o == message.object && i == id && m == message
                    } else {
                        action is Dropped
                    }
                },
                BaseMessageKind::PermissionError(e) => {
                    &&& final(self).pending_map() == old(self).pending_map()
                    &&& action matches DispatchAction::PermissionDenied(e2) && e2.same_as(e)
                },
            },
    {
        let kind = message.kind.clone();
        match kind {
            BaseMessageKind::Response(id) => {
                let popped = self.pending.remove(&id);
                proof {
                    assert(self.observers_seq() == old(self).observers_seq());
                    if old(self).pending_map().contains_key(id) {
                        assert(self.pending_map() == old(self).pending_map().remove(id));
                    } else {
                        assert(self.pending_map() == old(self).pending_map());
                    }
                }
                match popped {
                    Some(receiver) => DispatchAction::Respond(receiver, message),
                    None => DispatchAction::Dropped,
                }
            },
            BaseMessageKind::Event => {
                let key = compute_object_key(message.service, message.object);
                if self.objects.contains_key(&key) {
                    DispatchAction::DeliverEvent(message.service, message.object, message.content)
                } else {
                    DispatchAction::Dropped
                }
            },
            BaseMessageKind::Request(id) => {
                let key = compute_object_key(message.service, message.object);
                if self.objects.contains_key(&key) {
                    DispatchAction::HandleRequest(message.service, message.object, id, message)
                } else {
                    DispatchAction::Dropped
                }
            },
            BaseMessageKind::PermissionError(e) => DispatchAction::PermissionDenied(e),
        }
    }

    /// Marks the session broken after a stream failure: every in-flight
    /// response callback is dropped (never invoked), the routing table is
    /// cleared, the stream handle is gone.  The connection observers are
    /// preserved: the read loop notifies each of them once.
    pub fn disconnect(&mut self)
        requires
            old(self).wf(),
        ensures
            final(self).wf(),
            final(self).pending_map() == Map::<u64, C>::empty(),
            final(self).objects_map() == Map::<u64, O>::empty(),
            !final(self).connected(),
            final(self).observers_seq() == old(self).observers_seq(),
            final(self).last_observer_id() == old(self).last_observer_id(),
            final(self).last_request_id() == old(self).last_request_id(),
    {
        self.pending.clear();
        self.objects.clear();
        self.connected = false;
        proof {
            assert(self.pending_map() == Map::<u64, C>::empty());
            assert(self.observers_seq() == old(self).observers_seq());
        }
    }

    /// Installs a fresh stream after a successful reconnect attempt; all
    /// other state is untouched (the tables were already cleared when the
    /// connection broke).
    pub fn reconnect(&mut self)
        requires
            old(self).wf(),
        ensures
            final(self).wf(),
            final(self).connected(),
            final(self).pending_map() == old(self).pending_map(),
            final(self).objects_map() == old(self).objects_map(),
            final(self).observers_seq() == old(self).observers_seq(),
            final(self).last_observer_id() == old(self).last_observer_id(),
            final(self).last_request_id() == old(self).last_request_id(),
    {
        self.connected = true;
        proof {
            assert(self.pending_map() == old(self).pending_map());
            assert(self.observers_seq() == old(self).observers_seq());
        }
    }

    /// The id the next `add_connection_observer` call will assign.
    pub fn next_connection_observer_id(&self) -> (r: usize)
        requires
            self.last_observer_id() < usize::MAX,
        ensures
            r == self.last_observer_id() + 1,
    {
        self.observer_id + 1
    }

    /// Registers a connection observer and returns its id.
    pub fn add_connection_observer(&mut self, observer: B) -> (id: usize)
        requires
            old(self).wf(),
            old(self).last_observer_id() < usize::MAX,
        ensures
            final(self).wf(),
            id == old(self).last_observer_id() + 1,
            final(self).observers_seq() == old(self).observers_seq().push((id, observer)),
            final(self).last_observer_id() == id,
            !old(self).has_observer(id),
            final(self).pending_map() == old(self).pending_map(),
            final(self).objects_map() == old(self).objects_map(),
            final(self).last_request_id() == old(self).last_request_id(),
            final(self).connected() == old(self).connected(),
    {
        self.observer_id = self.observer_id + 1;
        let id = self.observer_id;
        self.observers.push((id, observer));
        proof {
            assert(self.pending_map() == old(self).pending_map());
            let s = old(self).observers_seq();
            let t = self.observers_seq();
            assert(t == s.push((id, observer)));
            assert forall|i: int, j: int| 0 <= i < j < t.len() implies (#[trigger] t[i]).0 != (
            #[trigger] t[j]).0 by {
                if j < s.len() {
                    assert(s[i].0 != s[j].0);
                } else {
                    assert(t[j].0 == id);
                    assert(s[i].0 <= old(self).last_observer_id());
                }
            }
        }
        id
    }

    /// Unregisters the observer that was registered under `id`, if any.
    pub fn remove_connection_observer(&mut self, id: usize)
        requires
            old(self).wf(),
        ensures
            final(self).wf(),
            !final(self).has_observer(id),
            old(self).has_observer(id) ==> ({
                let s = old(self).observers_seq();
                exists|i: int|
                    0 <= i < s.len() && (#[trigger] s[i]).0 == id && final(self).observers_seq()
                        == s.remove(i)
            }),
            !old(self).has_observer(id) ==> final(self).observers_seq() == old(
                self,
            ).observers_seq(),
            final(self).pending_map() == old(self).pending_map(),
            final(self).objects_map() == old(self).objects_map(),
            final(self).last_request_id() == old(self).last_request_id(),
            final(self).connected() == old(self).connected(),
            final(self).last_observer_id() == old(self).last_observer_id(),
    {
        let ghost s = self.observers@;
        let mut i: usize = 0;
        while i < self.observers.len()
            invariant
                *self == *old(self),
                old(self).wf(),
                s == self.observers@,
                0 <= i <= s.len(),
                forall|j: int| 0 <= j < i ==> (#[trigger] s[j]).0 != id,
            decreases s.len() - i,
        {
            if self.observers[i].0 == id {
                self.observers.remove(i);
                proof {
                    assert(self.pending_map() == old(self).pending_map());
                    let t = self.observers_seq();
                    assert(t == s.remove(i as int));
                    s.remove_ensures(i as int);
                    assert forall|a: int, b: int| 0 <= a < b < s.len() implies (#[trigger] s[a]).0
                        != (#[trigger] s[b]).0 by {
                        assert(old(self).observers_seq()[a].0 != old(self).observers_seq()[b].0);
                    }
                    assert(s[i as int].0 == id);
                    assert(old(self).observers_seq()[i as int].0 == id);
                    assert(old(self).has_observer(id));
                    assert forall|j: int| 0 <= j < t.len() implies (#[trigger] t[j]).0 != id by {
                        if j < i {
                            assert(t[j] == s[j]);
                        } else {
                            assert(t[j] == s[j + 1]);
                        }
                    }
                    assert forall|a: int, b: int| 0 <= a < b < t.len() implies (#[trigger] t[a]).0
                        != (#[trigger] t[b]).0 by {
                        let a2: int = if a < i { a } else { a + 1 };
                        let b2: int = if b < i { b } else { b + 1 };
                        assert(t[a] == s[a2]);
                        assert(t[b] == s[b2]);
                        assert(s[a2].0 != s[b2].0);
                    }
                    assert forall|a: int| 0 <= a < t.len() implies 1 <= (#[trigger] t[a]).0
                        <= self.last_observer_id() by {
                        let a2: int = if a < i { a } else { a + 1 };
                        assert(t[a] == s[a2]);
                        assert(1 <= old(self).observers_seq()[a2].0 <= old(
                            self,
                        ).last_observer_id());
                    }
                }
                return ;
            }
            i = i + 1;
        }
        proof {
            assert(self.pending_map() == old(self).pending_map());
            assert(self.observers_seq() == old(self).observers_seq());
        }
    }

    /// The ids of the registered observers, in registration order: the read
    /// loop notifies exactly these when the connection state changes.
    pub fn observer_ids(&self) -> (ids: Vec<usize>)
        ensures
            ids@.len() == self.observers_seq().len(),
            forall|j: int|
                0 <= j < ids@.len() ==> ids@[j] == (#[trigger] self.observers_seq()[j]).0,
    {
        let mut ids: Vec<usize> = Vec::new();
        let mut i: usize = 0;
        while i < self.observers.len()
            invariant
                0 <= i <= self.observers@.len(),
                ids@.len() == i,
                forall|j: int| 0 <= j < i ==> ids@[j] == (#[trigger] self.observers@[j]).0,
            decreases self.observers@.len() - i,
        {
            ids.push(self.observers[i].0);
            i = i + 1;
        }
        ids
    }

    /// The observer registered under `id`, if any.
    pub fn get_observer(&self, id: usize) -> (r: Option<&B>)
        requires
            self.wf(),
        ensures
            match r {
                Some(b) => ({
                    let s = self.observers_seq();
                    self.has_observer(id) && exists|i: int|
                        0 <= i < s.len() && #[trigger] s[i] == (id, *b)
                }),
                None => !self.has_observer(id),
            },
    {
        let ghost s = self.observers@;
        let mut i: usize = 0;
        while i < self.observers.len()
            invariant
                self.wf(),
                self.observers@ == s,
                0 <= i <= s.len(),
                forall|j: int| 0 <= j < i ==> (#[trigger] s[j]).0 != id,
            decreases s.len() - i,
        {
            if self.observers[i].0 == id {
                proof {
                    assert(self.observers_seq()[i as int].0 == id);
                    assert(self.has_observer(id));
                    let b = self.observers_seq()[i as int].1;
                    assert(self.observers_seq()[i as int] == (id, b));
                }
                return Some(&self.observers[i].1);
            }
            i = i + 1;
        }
        None
    }
}

} // verus!
