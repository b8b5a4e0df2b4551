//! The time service client, the worked per-service instance of the generated
//! client shape: typed request construction, typed response classification,
//! an observer registry backed by [`ClientObject`] proxies, and the
//! regeneration of observer registrations after a reconnect.

use crate::client_object::ClientObject;
use crate::messages::{BaseMessage, ObjectRef, ReleaseObjectRequest, SystemTime};
use crate::session::{object_key, Session};
use crate::traits::TrackerId;
use vstd::prelude::*;

verus! {

/// The schema fingerprint the daemon must agree on for this service.
pub const SERVICE_FINGERPRINT: &'static str =
    "d76f2b662bafaf981ee817c61e66698be414446732db362e245ace81c399928";

/// Why a time observer is being notified.
#[derive(Clone, Copy, Debug, Eq, Hash, PartialEq, Structural)]
pub enum CallbackReason {
    NoReason,
    TimeChanged,
    TimezoneChanged,
}

impl CallbackReason {
    /// The reason encoded by a host-side integer: 1 and 2 name the two real
    /// reasons, everything else means none.
    pub fn from_i16(value: i16) -> (r: CallbackReason)
        ensures
            value == 1 ==> r == CallbackReason::TimeChanged,
            value == 2 ==> r == CallbackReason::TimezoneChanged,
            (value != 1 && value != 2) ==> r == CallbackReason::NoReason,
    {
        match value {
            1 => CallbackReason::TimeChanged,
            2 => CallbackReason::TimezoneChanged,
            _ => CallbackReason::NoReason,
        }
    }

    /// The host-side integer for this reason; inverse of `from_i16` on the
    /// real reasons.
    pub fn to_i16(self) -> (r: i16)
        ensures
            self == CallbackReason::NoReason ==> r == 0,
            self == CallbackReason::TimeChanged ==> r == 1,
            self == CallbackReason::TimezoneChanged ==> r == 2,
    {
        match self {
            CallbackReason::NoReason => 0,
            CallbackReason::TimeChanged => 1,
            CallbackReason::TimezoneChanged => 2,
        }
    }
}

/// The payload of an observer notification.
#[derive(Clone, Debug)]
pub struct TimeInfo {
    pub reason: CallbackReason,
    pub timezone: String,
    pub delta: i64,
}

/// The requests the time service accepts from this client.
#[derive(Clone, Debug)]
pub enum TimeServiceFromClient {
    TimeAddObserver(CallbackReason, ObjectRef),
    TimeGet,
    TimeGetElapsedRealTime,
    TimeRemoveObserver(CallbackReason, ObjectRef),
    TimeSet(SystemTime),
    TimeSetTimezone(String),
    TimeObserverCallbackSuccess,
    TimeObserverCallbackError,
}

/// The responses and events the time service sends to this client.
#[derive(Clone, Debug)]
pub enum TimeServiceToClient {
    TimeAddObserverSuccess,
    TimeAddObserverError,
    TimeGetSuccess(SystemTime),
    TimeGetError,
    TimeGetElapsedRealTimeSuccess(i64),
    TimeGetElapsedRealTimeError,
    TimeRemoveObserverSuccess,
    TimeRemoveObserverError,
    TimeSetSuccess,
    TimeSetError,
    TimeSetTimezoneSuccess,
    TimeSetTimezoneError,
    TimeTimeChangedEvent,
    TimeTimezoneChangedEvent,
    TimeObserverCallback(TimeInfo),
}

/// What a decoded response means to the caller waiting on a call with no
/// return value: resolved, rejected, or — after a decode mismatch — neither,
/// with the mismatch merely reported.
#[derive(Clone, Copy, Debug, PartialEq, Eq, Structural)]
pub enum TaskOutcome {
    Resolved,
    Rejected,
    Ignored,
}

/// What a decoded response to `TimeGetElapsedRealTime` means to the caller.
#[derive(Clone, Copy, Debug, PartialEq, Eq, Structural)]
pub enum ElapsedRealTimeOutcome {
    Resolved(i64),
    Rejected,
    Ignored,
}

/// Classification of a response to `TimeAddObserver`.
pub open spec fn add_observer_outcome(r: Option<TimeServiceToClient>) -> TaskOutcome {
    match r {
        Some(TimeServiceToClient::TimeAddObserverSuccess) => TaskOutcome::Resolved,
        Some(TimeServiceToClient::TimeAddObserverError) => TaskOutcome::Rejected,
        _ => TaskOutcome::Ignored,
    }
}

/// Classification of a response to `TimeRemoveObserver`.
pub open spec fn remove_observer_outcome(r: Option<TimeServiceToClient>) -> TaskOutcome {
    match r {
        Some(TimeServiceToClient::TimeRemoveObserverSuccess) => TaskOutcome::Resolved,
        Some(TimeServiceToClient::TimeRemoveObserverError) => TaskOutcome::Rejected,
        _ => TaskOutcome::Ignored,
    }
}

/// Classification of a response to `TimeSet`.
pub open spec fn set_time_outcome(r: Option<TimeServiceToClient>) -> TaskOutcome {
    match r {
        Some(TimeServiceToClient::TimeSetSuccess) => TaskOutcome::Resolved,
        Some(TimeServiceToClient::TimeSetError) => TaskOutcome::Rejected,
        _ => TaskOutcome::Ignored,
    }
}

/// Classification of a response to `TimeSetTimezone`.
pub open spec fn set_timezone_outcome(r: Option<TimeServiceToClient>) -> TaskOutcome {
    match r {
        Some(TimeServiceToClient::TimeSetTimezoneSuccess) => TaskOutcome::Resolved,
        Some(TimeServiceToClient::TimeSetTimezoneError) => TaskOutcome::Rejected,
        _ => TaskOutcome::Ignored,
    }
}

/// Classification of a response to `TimeGetElapsedRealTime`.
pub open spec fn elapsed_real_time_outcome(r: Option<TimeServiceToClient>) -> ElapsedRealTimeOutcome {
    match r {
        Some(
            TimeServiceToClient::TimeGetElapsedRealTimeSuccess(v),
        ) => ElapsedRealTimeOutcome::Resolved(v),
        Some(TimeServiceToClient::TimeGetElapsedRealTimeError) => ElapsedRealTimeOutcome::Rejected,
        _ => ElapsedRealTimeOutcome::Ignored,
    }
}

/// Classifies a decoded response for a caller waiting on `TimeAddObserver`.
pub fn classify_add_observer(r: Option<TimeServiceToClient>) -> (o: TaskOutcome)
    ensures
        o == add_observer_outcome(r),
{
    match r {
        Some(TimeServiceToClient::TimeAddObserverSuccess) => TaskOutcome::Resolved,
        Some(TimeServiceToClient::TimeAddObserverError) => TaskOutcome::Rejected,
        _ => TaskOutcome::Ignored,
    }
}

/// Classifies a decoded response for a caller waiting on `TimeRemoveObserver`.
pub fn classify_remove_observer(r: Option<TimeServiceToClient>) -> (o: TaskOutcome)
    ensures
        o == remove_observer_outcome(r),
{
    match r {
        Some(TimeServiceToClient::TimeRemoveObserverSuccess) => TaskOutcome::Resolved,
        Some(TimeServiceToClient::TimeRemoveObserverError) => TaskOutcome::Rejected,
        _ => TaskOutcome::Ignored,
    }
}

/// Classifies a decoded response for a caller waiting on `TimeSet`.
pub fn classify_set_time(r: Option<TimeServiceToClient>) -> (o: TaskOutcome)
    ensures
        o == set_time_outcome(r),
{
    match r {
        Some(TimeServiceToClient::TimeSetSuccess) => TaskOutcome::Resolved,
        Some(TimeServiceToClient::TimeSetError) => TaskOutcome::Rejected,
        _ => TaskOutcome::Ignored,
    }
}

/// Classifies a decoded response for a caller waiting on `TimeSetTimezone`.
pub fn classify_set_timezone(r: Option<TimeServiceToClient>) -> (o: TaskOutcome)
    ensures
        o == set_timezone_outcome(r),
{
    match r {
        Some(TimeServiceToClient::TimeSetTimezoneSuccess) => TaskOutcome::Resolved,
        Some(TimeServiceToClient::TimeSetTimezoneError) => TaskOutcome::Rejected,
        _ => TaskOutcome::Ignored,
    }
}

/// Classifies a decoded response for a caller waiting on the elapsed
/// real-time value.
pub fn classify_elapsed_real_time(r: Option<TimeServiceToClient>) -> (o: ElapsedRealTimeOutcome)
    ensures
        o == elapsed_real_time_outcome(r),
{
    match r {
        Some(TimeServiceToClient::TimeGetElapsedRealTimeSuccess(v)) => ElapsedRealTimeOutcome::Resolved(
            v,
        ),
        Some(TimeServiceToClient::TimeGetElapsedRealTimeError) => ElapsedRealTimeOutcome::Rejected,
        _ => ElapsedRealTimeOutcome::Ignored,
    }
}

/// The reply a time observer owes the daemon for one notification request.
#[derive(Clone, Debug)]
pub struct ObserverReply {
    pub service: u32,
    pub object: u32,
    pub request_id: u64,
    pub payload: TimeServiceFromClient,
}

/// What an observer wrapper does with one server-initiated request.
#[derive(Debug)]
pub enum ObserverDispatch {
    /// Notify the wrapped observer with the payload, on its own thread, and
    /// send the reply envelope back.
    Notify(TimeInfo, ObserverReply),
    /// Not an observer callback: reported and dropped, no reply.
    Ignored,
}

/// Wraps a host observer handle as the session object for one
/// `(service, object)` pair, translating daemon notifications into calls on
/// the handle.
pub struct ObserverWrapper<H> {
    handle: H,
    service_id: TrackerId,
    object_id: TrackerId,
}

impl<H> ObserverWrapper<H> {
    pub closed spec fn spec_service_id(self) -> TrackerId {
        self.service_id
    }

    pub closed spec fn spec_object_id(self) -> TrackerId {
        self.object_id
    }

    /// The host observer handle kept inside.
    pub closed spec fn spec_handle(self) -> H {
        self.handle
    }

    pub fn new(handle: H, service_id: TrackerId, object_id: TrackerId) -> (r: Self)
        ensures
            r.spec_service_id() == service_id,
            r.spec_object_id() == object_id,
            r.spec_handle() == handle,
    {
        ObserverWrapper { handle, service_id, object_id }
    }

    /// The wrapped host observer handle.
    pub fn handle(&self) -> (r: &H)
        ensures
            *r == self.spec_handle(),
    {
        &self.handle
    }

    /// The (service, object) pair this wrapper answers for.
    pub fn get_ids(&self) -> (r: (u32, u32))
        ensures
            r == (self.spec_service_id(), self.spec_object_id()),
    {
        (self.service_id, self.object_id)
    }

    /// Handles one server-initiated request, already decoded (`None` after a
    /// decode mismatch).  An observer callback is dispatched to the handle
    /// and unconditionally acknowledged with a success reply addressed from
    /// this object under the same request id; anything else is dropped.
    pub fn handle_request(&self, request_id: u64, decoded: Option<TimeServiceToClient>) -> (r:
        ObserverDispatch)
        ensures
            match decoded {
                Some(TimeServiceToClient::TimeObserverCallback(info)) => r matches
                    ObserverDispatch::Notify(i, rep) && i == info && rep == (ObserverReply {
                    service: self.spec_service_id(),
                    object: self.spec_object_id(),
                    request_id,
                    payload: TimeServiceFromClient::TimeObserverCallbackSuccess,
                }),
                _ => r is Ignored,
            },
    {
        match decoded {
            Some(TimeServiceToClient::TimeObserverCallback(info)) => {
                let reply = ObserverReply {
                    service: self.service_id,
                    object: self.object_id,
                    request_id,
                    payload: TimeServiceFromClient::TimeObserverCallbackSuccess,
                };
                ObserverDispatch::Notify(info, reply)
            },
            _ => ObserverDispatch::Ignored,
        }
    }
}

/// One registered time observer: its assigned object id, the caller's
/// identity key, the proxy that owns the remote object's lifetime, the
/// reason it listens for, and the host handle kept for reconnect replay.
pub struct TimeObserverEntry<H> {
    pub object_id: TrackerId,
    pub key: usize,
    pub proxy: ClientObject,
    pub reason: CallbackReason,
    pub handle: H,
}

/// `p` is the position of the first entry registered under `key`.
pub open spec fn is_first_observer_key<H>(s: Seq<TimeObserverEntry<H>>, key: usize, p: int) -> bool {
    &&& 0 <= p < s.len()
    &&& (#[trigger] s[p]).key == key
    &&& forall|q: int| 0 <= q < p ==> (#[trigger] s[q]).key != key
}

/// `p` is the position of the first entry registered under `key` for
/// `reason`.
pub open spec fn is_first_observer_match<H>(
    s: Seq<TimeObserverEntry<H>>,
    key: usize,
    reason: CallbackReason,
    p: int,
) -> bool {
    &&& 0 <= p < s.len()
    &&& (#[trigger] s[p]).key == key && s[p].reason == reason
    &&& forall|q: int| 0 <= q < p ==> !((#[trigger] s[q]).key == key && s[q].reason == reason)
}

/// What removing an observer produced: the request to send if a registered
/// observer was found under the key, and the release owed for the entry that
/// was actually removed, if any.
pub struct RemoveObserverOutcome {
    pub request: Option<TimeServiceFromClient>,
    pub release: Option<ReleaseObjectRequest>,
}

/// The typed time-service client: owns the observer registry and builds the
/// wire requests; the surrounding state machine decides when they may be
/// sent.
pub struct TimeClient<H> {
    service_id: TrackerId,
    observers: Vec<TimeObserverEntry<H>>,
    current_object_id: TrackerId,
}

impl<H> TimeClient<H> {
    pub closed spec fn spec_service_id(self) -> TrackerId {
        self.service_id
    }

    /// The registered observers, in registration order.
    pub closed spec fn observers_seq(self) -> Seq<TimeObserverEntry<H>> {
        self.observers@
    }

    /// The next object id to assign.
    pub closed spec fn spec_current_object_id(self) -> TrackerId {
        self.current_object_id
    }

    /// Every observer entry owns a proxy for its own object under this
    /// service, with the remote release still owed, and object ids are
    /// assigned from 1 upward, never reused while the entry lives.
    pub open spec fn wf(self) -> bool {
        &&& self.spec_current_object_id() >= 1
        &&& forall|i: int|
            0 <= i < self.observers_seq().len() ==> {
                let e = #[trigger] self.observers_seq()[i];
                &&& e.proxy.spec_service_id() == self.spec_service_id()
                &&& e.proxy.spec_object_id() == e.object_id
                &&& e.proxy.releases_on_teardown()
                &&& 1 <= e.object_id < self.spec_current_object_id()
            }
    }

    /// The resolved service id this client talks to.
    pub fn service_id(&self) -> (r: TrackerId)
        ensures
            r == self.spec_service_id(),
    {
        self.service_id
    }

    /// The object id the next registered observer will be assigned.
    pub fn current_object_id(&self) -> (r: TrackerId)
        ensures
            r == self.spec_current_object_id(),
    {
        self.current_object_id
    }

    /// A fresh client for the resolved service `service_id`.  Object ids
    /// start at 1: id 0 is reserved for the service object itself.
    pub fn new(service_id: TrackerId) -> (r: Self)
        ensures
            r.wf(),
            r.spec_service_id() == service_id,
            r.observers_seq() == Seq::<TimeObserverEntry<H>>::empty(),
            r.spec_current_object_id() == 1,
    {
        TimeClient { service_id, observers: Vec::new(), current_object_id: 1 }
    }

    /// Registers a new observer: assigns it the next object id, registers
    /// `object_handle` with the transport under `(service, object id)`, and
    /// returns the id with the `TimeAddObserver` request to send.
    pub fn add_observer<C, O, B>(
        &mut self,
        reason: CallbackReason,
        handle: H,
        key: usize,
        object_handle: O,
        transport: &mut Session<C, O, B>,
    ) -> (r: (TrackerId, TimeServiceFromClient))
        requires
            old(self).wf(),
            old(self).spec_current_object_id() < u32::MAX,
            old(transport).wf(),
        ensures
            final(self).wf(),
            r.0 == old(self).spec_current_object_id(),
            r.1 == TimeServiceFromClient::TimeAddObserver(reason, ObjectRef(r.0)),
            final(self).spec_service_id() == old(self).spec_service_id(),
            final(self).spec_current_object_id() == old(self).spec_current_object_id() + 1,
            final(self).observers_seq().len() == old(self).observers_seq().len() + 1,
            forall|i: int|
                0 <= i < old(self).observers_seq().len() ==> final(self).observers_seq()[i] == old(
                    self,
                ).observers_seq()[i],
            ({
                let e = final(self).observers_seq().last();
                &&& e.object_id == r.0
                &&& e.key == key
                &&& e.reason == reason
                &&& e.handle == handle
            }),
            final(transport).wf(),
            final(transport).objects_map() == old(transport).objects_map().insert(
                object_key(old(self).spec_service_id(), r.0),
                object_handle,
            ),
            final(transport).pending_map() == old(transport).pending_map(),
            final(transport).connected() == old(transport).connected(),
            final(transport).last_request_id() == old(transport).last_request_id(),
            final(transport).observers_seq() == old(transport).observers_seq(),
    {
        let object_id = self.current_object_id;
        self.current_object_id = self.current_object_id + 1;
        let proxy = ClientObject::new(self.service_id, object_id, object_handle, transport);
        let entry = TimeObserverEntry { object_id, key, proxy, reason, handle };
        self.observers.push(entry);
        proof {
            let t = self.observers_seq();
            let t0 = old(self).observers_seq();
            assert forall|i: int| 0 <= i < t.len() implies {
                let e = #[trigger] t[i];
                &&& e.proxy.spec_service_id() == self.spec_service_id()
                &&& e.proxy.spec_object_id() == e.object_id
                &&& e.proxy.releases_on_teardown()
                &&& 1 <= e.object_id < self.spec_current_object_id()
            } by {
                if i < t0.len() {
                    assert(t[i] == t0[i]);
                    assert(1 <= t0[i].object_id < old(self).spec_current_object_id());
                } else {
                    assert(t[i] == entry);
                    assert(entry.proxy.spec_service_id() == self.spec_service_id());
                    assert(entry.proxy.spec_object_id() == object_id);
                    assert(entry.proxy.releases_on_teardown());
                    assert(1 <= object_id < self.spec_current_object_id());
                }
            }
        }
        (object_id, TimeServiceFromClient::TimeAddObserver(reason, ObjectRef(object_id)))
    }

    /// The object id of the first observer registered under `key`, if any.
    pub fn get_observer_id(&self, key: usize) -> (r: Option<TrackerId>)
        ensures
            match r {
                Some(id) => exists|p: int|
                    is_first_observer_key(self.observers_seq(), key, p) && (
                    #[trigger] self.observers_seq()[p]).object_id == id,
                None => forall|p: int|
                    0 <= p < self.observers_seq().len() ==> (#[trigger] self.observers_seq()[p]).key
                        != key,
            },
    {
        let ghost s = self.observers@;
        let mut p: usize = 0;
        while p < self.observers.len() && self.observers[p].key != key
            invariant
                s == self.observers@,
                0 <= p <= s.len(),
                forall|q: int| 0 <= q < p ==> (#[trigger] s[q]).key != key,
            decreases s.len() - p,
        {
            p = p + 1;
        }
        if p < self.observers.len() {
            proof {
                assert(is_first_observer_key(s, key, p as int));
            }
            Some(self.observers[p].object_id)
        } else {
            None
        }
    }

    /// Removes the observer registered under `key` for `reason`.  Mirroring
    /// the daemon protocol: the `TimeRemoveObserver` request names the
    /// object id of the first entry under `key` regardless of reason, while
    /// the entry actually removed — and whose remote object is released —
    /// must match both.  No entry under `key` at all: nothing happens.
    pub fn remove_observer<C, O, B>(
        &mut self,
        reason: CallbackReason,
        key: usize,
        transport: &mut Session<C, O, B>,
    ) -> (r: RemoveObserverOutcome)
        requires
            old(self).wf(),
            old(transport).wf(),
        ensures
            final(self).wf(),
            final(self).spec_service_id() == old(self).spec_service_id(),
            final(self).spec_current_object_id() == old(self).spec_current_object_id(),
            final(transport).wf(),
            final(transport).pending_map() == old(transport).pending_map(),
            final(transport).connected() == old(transport).connected(),
            final(transport).last_request_id() == old(transport).last_request_id(),
            final(transport).observers_seq() == old(transport).observers_seq(),
            (exists|p: int| is_first_observer_key(old(self).observers_seq(), key, p)) ==> forall|
                p: int,
            |
                is_first_observer_key(old(self).observers_seq(), key, p) ==> r.request == Some(
                    TimeServiceFromClient::TimeRemoveObserver(
                        reason,
                        ObjectRef(old(self).observers_seq()[p].object_id),
                    ),
                ),
            !(exists|p: int| is_first_observer_key(old(self).observers_seq(), key, p))
                ==> r.request is None,
            (exists|p: int| is_first_observer_match(old(self).observers_seq(), key, reason, p))
                ==> forall|p: int|
                is_first_observer_match(old(self).observers_seq(), key, reason, p) ==> {
                    let e = old(self).observers_seq()[p];
                    &&& final(self).observers_seq() == old(self).observers_seq().remove(p)
                    &&& r.release == Some(ReleaseObjectRequest {
                        service: old(self).spec_service_id(),
                        object: e.object_id,
                    })
                    &&& final(transport).objects_map() == old(transport).objects_map().remove(
                        object_key(old(self).spec_service_id(), e.object_id),
                    )
                },
            !(exists|p: int| is_first_observer_match(old(self).observers_seq(), key, reason, p))
                ==> {
                &&& final(self).observers_seq() == old(self).observers_seq()
                &&& r.release is None
                &&& final(transport).objects_map() == old(transport).objects_map()
            },
    {
        let ghost s = self.observers@;
        // The request names the object id of the first entry under the key.
        let request = match self.get_observer_id(key) {
            Some(object_id) => Some(
                TimeServiceFromClient::TimeRemoveObserver(reason, ObjectRef(object_id)),
            ),
            None => None,
        };
        proof {
            if exists|p: int| is_first_observer_key(s, key, p) {
                assert forall|p: int, p2: int|
                    is_first_observer_key(s, key, p) && is_first_observer_key(
                        s,
                        key,
                        p2,
                    ) implies p == p2 by {
                    if p < p2 {
                        assert(s[p].key != key);
                    } else if p2 < p {
                        assert(s[p2].key != key);
                    }
                }
            }
        }
        // The entry removed must match key and reason both.
        let mut p: usize = 0;
        while p < self.observers.len() && !(self.observers[p].key == key && self.observers[p].reason
            == reason)
            invariant
                old(self).wf(),
                *self == *old(self),
                s == self.observers@,
                0 <= p <= s.len(),
                forall|q: int| 0 <= q < p ==> !((#[trigger] s[q]).key == key && s[q].reason
                    == reason),
            decreases s.len() - p,
        {
            p = p + 1;
        }
        if p < self.observers.len() {
            proof {
                assert(is_first_observer_match(s, key, reason, p as int));
                assert forall|p2: int| is_first_observer_match(s, key, reason, p2) implies p2
                    == p by {
                    if p2 < p {
                        assert(!(s[p2].key == key && s[p2].reason == reason));
                    } else if p2 > p {
                        assert(!(s[p as int].key == key && s[p as int].reason == reason));
                    }
                }
            }
            let entry = self.observers.remove(p);
            let release = entry.proxy.teardown(transport);
            proof {
                s.remove_ensures(p as int);
                assert(self.observers_seq() =~= s.remove(p as int));
                assert forall|i: int| 0 <= i < self.observers_seq().len() implies {
                    let e = #[trigger] self.observers_seq()[i];
                    &&& e.proxy.spec_service_id() == self.spec_service_id()
                    &&& e.proxy.spec_object_id() == e.object_id
                    &&& e.proxy.releases_on_teardown()
                    &&& 1 <= e.object_id < self.spec_current_object_id()
                } by {
                    let i2: int = if i < p { i } else { i + 1 };
                    assert(self.observers_seq()[i] == s[i2]);
                    assert(old(self).observers_seq()[i2] == s[i2]);
                }
            }
            RemoveObserverOutcome { request, release }
        } else {
            proof {
                assert forall|p2: int| !is_first_observer_match(s, key, reason, p2) by {
                    if 0 <= p2 < s.len() {
                        assert(!(s[p2].key == key && s[p2].reason == reason));
                    }
                }
            }
            RemoveObserverOutcome { request, release: None }
        }
    }

    /// The request setting the daemon's timezone.
    pub fn set_timezone(&self, timezone: String) -> (r: TimeServiceFromClient)
        ensures
            r == TimeServiceFromClient::TimeSetTimezone(timezone),
    {
        TimeServiceFromClient::TimeSetTimezone(timezone)
    }

    /// The request setting the daemon's clock.
    pub fn set_time(&self, time: SystemTime) -> (r: TimeServiceFromClient)
        ensures
            r == TimeServiceFromClient::TimeSet(time),
    {
        TimeServiceFromClient::TimeSet(time)
    }

    /// The request reading the elapsed real time.
    pub fn get_elapsed_real_time(&self) -> (r: TimeServiceFromClient)
        ensures
            r == TimeServiceFromClient::TimeGetElapsedRealTime,
    {
        TimeServiceFromClient::TimeGetElapsedRealTime
    }

    /// Regenerates, after a disconnect, the registration work needed to
    /// restore daemon-side state: one (reason, handle, key) triple per live
    /// observer, in registration order, while the registry empties.  Every
    /// proxy is marked `dont_release` first — the remote ids died with the
    /// connection, so no release request is ever produced here, which is
    /// exactly what `discard`'s precondition checks.
    pub fn tasks_to_reconnect(&mut self) -> (r: Vec<(CallbackReason, H, usize)>)
        requires
            old(self).wf(),
        ensures
            final(self).wf(),
            final(self).spec_service_id() == old(self).spec_service_id(),
            final(self).spec_current_object_id() == old(self).spec_current_object_id(),
            final(self).observers_seq() == Seq::<TimeObserverEntry<H>>::empty(),
            r@.len() == old(self).observers_seq().len(),
            forall|i: int|
                0 <= i < r@.len() ==> #[trigger] r@[i] == (
                (#[trigger] old(self).observers_seq()[i]).reason,
                old(self).observers_seq()[i].handle,
                old(self).observers_seq()[i].key,
                ),
    {
        let ghost s = self.observers@;
        let mut r: Vec<(CallbackReason, H, usize)> = Vec::new();
        while self.observers.len() > 0
            invariant
                self.spec_service_id() == old(self).spec_service_id(),
                self.spec_current_object_id() == old(self).spec_current_object_id(),
                old(self).wf(),
                s == old(self).observers_seq(),
                r@.len() + self.observers@.len() == s.len(),
                forall|x: int|
                    0 <= x < self.observers@.len() ==> #[trigger] self.observers@[x] == s[r@.len()
                        + x],
                forall|x: int|
                    0 <= x < r@.len() ==> #[trigger] r@[x] == (
                    s[x].reason,
                    s[x].handle,
                    s[x].key,
                    ),
            decreases self.observers@.len(),
        {
            let ghost done = r@.len();
            let mut entry = self.observers.remove(0);
            proof {
                assert(entry == s[done as int]);
                assert(old(self).observers_seq()[done as int] == s[done as int]);
            }
            entry.proxy.dont_release();
            entry.proxy.discard();
            r.push((entry.reason, entry.handle, entry.key));
        }
        proof {
            assert(self.observers_seq() =~= Seq::<TimeObserverEntry<H>>::empty());
        }
        r
    }
}

} // verus!
