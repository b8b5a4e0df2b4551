//! The settings service message schema: names mapped to values, observers
//! notified on changes.  A setting value is a JSON document; it travels here
//! as its text, the codec being external.

use crate::client_object::ClientObject;
use crate::event_manager::{is_first_key_index, EventManager};
use crate::messages::{
    DisableEventListenerRequest, EnableEventListenerRequest, ObjectRef, ReleaseObjectRequest,
};
use crate::session::{object_key, Session};
use crate::traits::TrackerId;
use vstd::prelude::*;

verus! {

/// The schema fingerprint the daemon must agree on for this service.
pub const SERVICE_FINGERPRINT: &'static str =
    "d2e7699bc8cdc73421e28699cfb91dc2b149c8a64823efc2416f1382826dc0";

/// Why reading a setting failed.
#[derive(Clone, Copy, Debug, PartialEq, Eq, Structural)]
pub enum GetErrorReason {
    UnknownError,
    NonExistingSetting,
}

/// The error returned when reading a setting fails.
#[derive(Clone, Debug)]
pub struct GetError {
    pub name: String,
    pub reason: GetErrorReason,
}

/// One named setting and its value, as JSON text.
#[derive(Clone, Debug)]
pub struct SettingInfo {
    pub name: String,
    pub value: String,
}

/// The requests the settings service accepts from this client.
#[derive(Clone, Debug)]
pub enum SettingsManagerFromClient {
    SettingsFactoryAddObserver(String, ObjectRef),
    SettingsFactoryClear,
    SettingsFactoryGet(String),
    SettingsFactoryGetBatch(Vec<String>),
    SettingsFactoryRemoveObserver(String, ObjectRef),
    SettingsFactorySet(Vec<SettingInfo>),
    SettingObserverCallbackSuccess,
    SettingObserverCallbackError,
}

/// The responses and events the settings service sends to this client.
#[derive(Clone, Debug)]
pub enum SettingsManagerToClient {
    SettingsFactoryAddObserverSuccess,
    SettingsFactoryAddObserverError,
    SettingsFactoryClearSuccess,
    SettingsFactoryClearError,
    SettingsFactoryGetSuccess(SettingInfo),
    SettingsFactoryGetError(GetError),
    SettingsFactoryGetBatchSuccess(Vec<SettingInfo>),
    SettingsFactoryGetBatchError,
    SettingsFactoryRemoveObserverSuccess,
    SettingsFactoryRemoveObserverError,
    SettingsFactorySetSuccess,
    SettingsFactorySetError,
    SettingsFactoryChangeEvent(SettingInfo),
    SettingObserverCallback(SettingInfo),
}

/// One registered settings observer: its assigned object id, the caller's
/// identity key, the proxy that owns the remote object's lifetime, the
/// setting name it watches, and the host handle kept for reconnect replay.
pub struct SettingsObserverEntry<H> {
    pub object_id: TrackerId,
    pub key: usize,
    pub proxy: ClientObject,
    pub name: String,
    pub handle: H,
}

/// `p` is the position of the first entry registered under `key`.
pub open spec fn is_first_settings_key<H>(
    s: Seq<SettingsObserverEntry<H>>,
    key: usize,
    p: int,
) -> bool {
    &&& 0 <= p < s.len()
    &&& (#[trigger] s[p]).key == key
    &&& forall|q: int| 0 <= q < p ==> (#[trigger] s[q]).key != key
}

/// `p` is the position of the first entry registered under `key` for the
/// setting named `name`.
pub open spec fn is_first_settings_match<H>(
    s: Seq<SettingsObserverEntry<H>>,
    key: usize,
    name: Seq<char>,
    p: int,
) -> bool {
    &&& 0 <= p < s.len()
    &&& (#[trigger] s[p]).key == key && s[p].name@ == name
    &&& forall|q: int| 0 <= q < p ==> !((#[trigger] s[q]).key == key && s[q].name@ == name)
}

/// What removing a settings observer produced.
pub struct RemoveSettingsObserverOutcome {
    pub request: Option<SettingsManagerFromClient>,
    pub release: Option<ReleaseObjectRequest>,
}

/// The typed settings-service client: owns the observer registry and the
/// event-listener table, and builds the wire requests; the surrounding
/// state machine decides when they may be sent.  `H` is the observer
/// handle, `L` the event-listener handle.
pub struct SettingsClient<H, L> {
    service_id: TrackerId,
    event_manager: EventManager<L>,
    observers: Vec<SettingsObserverEntry<H>>,
    current_object_id: TrackerId,
}

impl<H, L> SettingsClient<H, L> {
    pub closed spec fn spec_service_id(self) -> TrackerId {
        self.service_id
    }

    /// The registered observers, in registration order.
    pub closed spec fn observers_seq(self) -> Seq<SettingsObserverEntry<H>> {
        self.observers@
    }

    /// The event-listener table.
    pub closed spec fn listener_table(self) -> Seq<(u32, Seq<(L, usize)>)> {
        self.event_manager.table()
    }

    /// The object id the next registered observer will be assigned.
    pub closed spec fn spec_current_object_id(self) -> TrackerId {
        self.current_object_id
    }

    /// The event-listener registry itself.
    pub closed spec fn spec_event_manager(self) -> EventManager<L> {
        self.event_manager
    }

    /// Every observer entry owns a proxy for its own object under this
    /// service, release still owed; object ids start at 1; the listener
    /// table targets the service object itself.
    pub open spec fn wf(self) -> bool {
        &&& self.spec_current_object_id() >= 1
        &&& forall|i: int|
            0 <= i < self.observers_seq().len() ==> {
                let e = #[trigger] self.observers_seq()[i];
                &&& e.proxy.spec_service_id() == self.spec_service_id()
                &&& e.proxy.spec_object_id() == e.object_id
                &&& e.proxy.releases_on_teardown()
                &&& 1 <= e.object_id < self.spec_current_object_id()
            }
        &&& self.spec_event_manager().wf()
        &&& self.spec_event_manager().spec_service_id() == self.spec_service_id()
        &&& self.spec_event_manager().spec_object_id() == 0
    }

    /// A fresh client for the resolved service `service_id`.  Object ids
    /// start at 1: id 0 is reserved for the service object itself, which is
    /// also what its event listeners target.
    pub fn new(service_id: TrackerId) -> (r: Self)
        ensures
            r.wf(),
            r.spec_service_id() == service_id,
            r.observers_seq() == Seq::<SettingsObserverEntry<H>>::empty(),
            r.listener_table() == Seq::<(u32, Seq<(L, usize)>)>::empty(),
            r.spec_current_object_id() == 1,
    {
        SettingsClient {
            service_id,
            event_manager: EventManager::new(service_id, 0),
            observers: Vec::new(),
            current_object_id: 1,
        }
    }

    /// The request clearing every setting.
    pub fn clear(&self) -> (r: SettingsManagerFromClient)
        ensures
            r == SettingsManagerFromClient::SettingsFactoryClear,
    {
        SettingsManagerFromClient::SettingsFactoryClear
    }

    /// The request writing a batch of settings.
    pub fn set(&self, settings: Vec<SettingInfo>) -> (r: SettingsManagerFromClient)
        ensures
            r == SettingsManagerFromClient::SettingsFactorySet(settings),
    {
        SettingsManagerFromClient::SettingsFactorySet(settings)
    }

    /// The request reading one setting.
    pub fn get(&self, name: String) -> (r: SettingsManagerFromClient)
        ensures
            r == SettingsManagerFromClient::SettingsFactoryGet(name),
    {
        SettingsManagerFromClient::SettingsFactoryGet(name)
    }

    /// The request reading a batch of settings.
    pub fn get_batch(&self, names: Vec<String>) -> (r: SettingsManagerFromClient)
        ensures
            r == SettingsManagerFromClient::SettingsFactoryGetBatch(names),
    {
        SettingsManagerFromClient::SettingsFactoryGetBatch(names)
    }

    /// Registers a new observer for the setting `name`: assigns it the next
    /// object id, registers `object_handle` with the transport under it,
    /// and returns the id with the request to send.
    pub fn add_observer<C, O, B>(
        &mut self,
        name: String,
        handle: H,
        key: usize,
        object_handle: O,
        transport: &mut Session<C, O, B>,
    ) -> (r: (TrackerId, SettingsManagerFromClient))
        requires
            old(self).wf(),
            old(self).spec_current_object_id() < u32::MAX,
            old(transport).wf(),
        ensures
            final(self).wf(),
            r.0 == old(self).spec_current_object_id(),
            r.1 matches SettingsManagerFromClient::SettingsFactoryAddObserver(n, o) && n@ == name@
                && o == ObjectRef(r.0),
            final(self).spec_service_id() == old(self).spec_service_id(),
            final(self).spec_current_object_id() == old(self).spec_current_object_id() + 1,
            final(self).listener_table() == old(self).listener_table(),
            final(self).observers_seq().len() == old(self).observers_seq().len() + 1,
            forall|i: int|
                0 <= i < old(self).observers_seq().len() ==> final(self).observers_seq()[i] == old(self).observers_seq()[i],
            ({
                let e = final(self).observers_seq().last();
                &&& e.object_id == r.0
                &&& e.key == key
                &&& e.name@ == name@
                &&& e.handle == handle
            }),
            final(transport).wf(),
            final(transport).objects_map() == old(transport).objects_map().insert(
                object_key(old(self).spec_service_id(), r.0),
                object_handle,
            ),
            final(transport).pending_map() == old(transport).pending_map(),
            final(transport).connected() == old(transport).connected(),
            final(transport).last_request_id() == old(transport).last_request_id(),
            final(transport).observers_seq() == old(transport).observers_seq(),
    {
        let object_id = self.current_object_id;
        self.current_object_id = self.current_object_id + 1;
        let proxy = ClientObject::new(self.service_id, object_id, object_handle, transport);
        let entry = SettingsObserverEntry { object_id, key, proxy, name: name.clone(), handle };
        self.observers.push(entry);
        proof {
            let t = self.observers_seq();
            let t0 = old(self).observers_seq();
            assert forall|i: int| 0 <= i < t.len() implies {
                let e = #[trigger] t[i];
                &&& e.proxy.spec_service_id() == self.spec_service_id()
                &&& e.proxy.spec_object_id() == e.object_id
                &&& e.proxy.releases_on_teardown()
                &&& 1 <= e.object_id < self.spec_current_object_id()
            } by {
                if i < t0.len() {
                    assert(t[i] == t0[i]);
                    assert(1 <= t0[i].object_id < old(self).spec_current_object_id());
                } else {
                    assert(t[i] == entry);
                }
            }
        }
        (object_id, SettingsManagerFromClient::SettingsFactoryAddObserver(name, ObjectRef(object_id)))
    }

    /// The object id of the first observer registered under `key`, if any.
    pub fn get_observer_id(&self, key: usize) -> (r: Option<TrackerId>)
        ensures
            match r {
                Some(id) => exists|p: int|
                    is_first_settings_key(self.observers_seq(), key, p) && (
                    #[trigger] self.observers_seq()[p]).object_id == id,
                None => forall|p: int|
                    0 <= p < self.observers_seq().len() ==> (#[trigger] self.observers_seq()[p]).key
                        != key,
            },
    {
        let ghost s = self.observers@;
        let mut p: usize = 0;
        while p < self.observers.len() && self.observers[p].key != key
            invariant
                s == self.observers@,
                0 <= p <= s.len(),
                forall|q: int| 0 <= q < p ==> (#[trigger] s[q]).key != key,
            decreases s.len() - p,
        {
            p = p + 1;
        }
        if p < self.observers.len() {
            proof {
                assert(is_first_settings_key(s, key, p as int));
                assert(self.observers_seq()[p as int].object_id == self.observers@[p as int
                ].object_id);
            }
            Some(self.observers[p].object_id)
        } else {
            None
        }
    }

    /// Removes the observer registered under `key` for the setting `name`.
    /// Mirroring the daemon protocol: the request names the object id of
    /// the first entry under `key` regardless of name, while the entry
    /// actually removed — and whose remote object is released — must match
    /// both.  No entry under `key` at all: nothing happens.
    pub fn remove_observer<C, O, B>(
        &mut self,
        name: String,
        key: usize,
        transport: &mut Session<C, O, B>,
    ) -> (r: RemoveSettingsObserverOutcome)
        requires
            old(self).wf(),
            old(transport).wf(),
        ensures
            final(self).wf(),
            final(self).spec_service_id() == old(self).spec_service_id(),
            final(self).spec_current_object_id() == old(self).spec_current_object_id(),
            final(self).listener_table() == old(self).listener_table(),
            final(transport).wf(),
            final(transport).pending_map() == old(transport).pending_map(),
            final(transport).connected() == old(transport).connected(),
            final(transport).last_request_id() == old(transport).last_request_id(),
            final(transport).observers_seq() == old(transport).observers_seq(),
            (exists|p: int| is_first_settings_key(old(self).observers_seq(), key, p)) ==> forall|
                p: int,
            |
                is_first_settings_key(old(self).observers_seq(), key, p) ==> (
                r.request matches Some(q) && q matches
                    SettingsManagerFromClient::SettingsFactoryRemoveObserver(n, o) && n@ == name@
                    && o == ObjectRef(old(self).observers_seq()[p].object_id)),
            !(exists|p: int| is_first_settings_key(old(self).observers_seq(), key, p))
                ==> r.request is None,
            (exists|p: int| is_first_settings_match(old(self).observers_seq(), key, name@, p))
                ==> forall|p: int|
                is_first_settings_match(old(self).observers_seq(), key, name@, p) ==> {
                    let e = old(self).observers_seq()[p];
                    &&& final(self).observers_seq() == old(self).observers_seq().remove(p)
                    &&& r.release == Some(ReleaseObjectRequest {
                        service: old(self).spec_service_id(),
                        object: e.object_id,
                    })
                    &&& final(transport).objects_map() == old(transport).objects_map().remove(
                        object_key(old(self).spec_service_id(), e.object_id),
                    )
                },
            !(exists|p: int| is_first_settings_match(old(self).observers_seq(), key, name@, p))
                ==> {
                &&& final(self).observers_seq() == old(self).observers_seq()
                &&& r.release is None
                &&& final(transport).objects_map() == old(transport).objects_map()
            },
    {
        let ghost s = self.observers@;
        // The request names the object id of the first entry under the key.
        let request = match self.get_observer_id(key) {
            Some(object_id) => Some(
                SettingsManagerFromClient::SettingsFactoryRemoveObserver(
                    name.clone(),
                    ObjectRef(object_id),
                ),
            ),
            None => None,
        };
        proof {
            if exists|p: int| is_first_settings_key(s, key, p) {
                assert forall|p: int, p2: int|
                    is_first_settings_key(s, key, p) && is_first_settings_key(
                        s,
                        key,
                        p2,
                    ) implies p == p2 by {
                    if p < p2 {
                        assert(s[p].key != key);
                    } else if p2 < p {
                        assert(s[p2].key != key);
                    }
                }
            }
        }
        // The entry removed must match key and name both.
        let mut p: usize = 0;
        while p < self.observers.len() && !(self.observers[p].key == key && string_eq(
            &self.observers[p].name,
            &name,
        ))
            invariant
                old(self).wf(),
                *self == *old(self),
                s == self.observers@,
                0 <= p <= s.len(),
                forall|q: int| 0 <= q < p ==> !((#[trigger] s[q]).key == key && s[q].name@
                    == name@),
            decreases s.len() - p,
        {
            p = p + 1;
        }
        if p < self.observers.len() {
            proof {
                assert(is_first_settings_match(s, key, name@, p as int));
                assert forall|p2: int| is_first_settings_match(s, key, name@, p2) implies p2
                    == p by {
                    if p2 < p {
                        assert(!(s[p2].key == key && s[p2].name@ == name@));
                    } else if p2 > p {
                        assert(!(s[p as int].key == key && s[p as int].name@ == name@));
                    }
                }
            }
            let entry = self.observers.remove(p);
            let release = entry.proxy.teardown(transport);
            proof {
                s.remove_ensures(p as int);
                assert(self.observers_seq() =~= s.remove(p as int));
                assert forall|i: int| 0 <= i < self.observers_seq().len() implies {
                    let e = #[trigger] self.observers_seq()[i];
                    &&& e.proxy.spec_service_id() == self.spec_service_id()
                    &&& e.proxy.spec_object_id() == e.object_id
                    &&& e.proxy.releases_on_teardown()
                    &&& 1 <= e.object_id < self.spec_current_object_id()
                } by {
                    let i2: int = if i < p { i } else { i + 1 };
                    assert(self.observers_seq()[i] == s[i2]);
                    assert(old(self).observers_seq()[i2] == s[i2]);
                }
            }
            RemoveSettingsObserverOutcome { request, release }
        } else {
            proof {
                assert forall|p2: int| !is_first_settings_match(s, key, name@, p2) by {
                    if 0 <= p2 < s.len() {
                        assert(!(s[p2].key == key && s[p2].name@ == name@));
                    }
                }
            }
            RemoveSettingsObserverOutcome { request, release: None }
        }
    }

    /// Appends `(handler, key)` to the listeners for `event`, handing back
    /// the "enable" request exactly when the event type was absent until
    /// now: a fresh row is then added, otherwise the existing row grows.
    pub fn add_event_listener(&mut self, event: u32, handler: L, key: usize) -> (r: Option<
        EnableEventListenerRequest,
    >)
        requires
            old(self).wf(),
        ensures
            final(self).wf(),
            final(self).spec_service_id() == old(self).spec_service_id(),
            final(self).spec_current_object_id() == old(self).spec_current_object_id(),
            final(self).observers_seq() == old(self).observers_seq(),
            final(self).event_manager_has(event),
            !old(self).event_manager_has(event) ==> {
                &&& r == Some(EnableEventListenerRequest {
                    service: old(self).spec_service_id(),
                    object: 0,
                    event,
                })
                &&& final(self).listener_table() == old(self).listener_table().push(
                    (event, seq![(handler, key)]),
                )
            },
            old(self).event_manager_has(event) ==> {
                &&& r is None
                &&& forall|i: int|
                    (0 <= i < old(self).listener_table().len() && (
                    #[trigger] old(self).listener_table()[i]).0 == event) ==> final(self).listener_table() == old(self).listener_table().update(
                        i,
                        (event, old(self).listener_table()[i].1.push((handler, key))),
                    )
            },
    {
        let r = self.event_manager.add_event_listener(event, handler, key);
        proof {
            assert(self.observers_seq() == old(self).observers_seq());
        }
        r
    }

    /// Whether any listener is registered for `event`.
    pub open spec fn event_manager_has(self, event: u32) -> bool {
        self.spec_event_manager().has_event(event)
    }

    /// Removes the first listener registered under `key` for `event`, if
    /// both exist; the row's remaining listeners stay.  When the row
    /// thereby loses its last listener it disappears and the "disable"
    /// request to send comes back; in every other case nothing is owed and
    /// the table is otherwise untouched.
    pub fn remove_event_listener(&mut self, event: u32, key: usize) -> (r: Option<
        DisableEventListenerRequest,
    >)
        requires
            old(self).wf(),
        ensures
            final(self).wf(),
            final(self).spec_service_id() == old(self).spec_service_id(),
            final(self).spec_current_object_id() == old(self).spec_current_object_id(),
            final(self).observers_seq() == old(self).observers_seq(),
            !old(self).event_manager_has(event) ==> final(self).listener_table() == old(self).listener_table() && r is None,
            old(self).event_manager_has(event) ==> forall|i: int|
                (0 <= i < old(self).listener_table().len() && (
                #[trigger] old(self).listener_table()[i]).0 == event) ==> {
                    let lst = old(self).listener_table()[i].1;
                    if exists|p: int| is_first_key_index(lst, key, p) {
                        forall|p: int|
                            is_first_key_index(lst, key, p) ==> if lst.len() == 1 {
                                final(self).listener_table() == old(self).listener_table().remove(i) && r == Some(
                                    DisableEventListenerRequest {
                                        service: old(self).spec_service_id(),
                                        object: 0,
                                        event,
                                    },
                                )
                            } else {
                                final(self).listener_table() == old(self).listener_table().update(
                                    i,
                                    (event, lst.remove(p)),
                                ) && r is None
                            }
                    } else {
                        final(self).listener_table() == old(self).listener_table() && r is None
                    }
                },
    {
        let r = self.event_manager.remove_event_listener(event, key);
        proof {
            assert(self.observers_seq() == old(self).observers_seq());
        }
        r
    }

    /// Snapshots and clears the event-listener table for reconnect replay.
    pub fn get_event_listeners_to_reconnect(&mut self) -> (r: Vec<(u32, L, usize)>)
        requires
            old(self).wf(),
        ensures
            final(self).wf(),
            final(self).spec_service_id() == old(self).spec_service_id(),
            final(self).spec_current_object_id() == old(self).spec_current_object_id(),
            final(self).observers_seq() == old(self).observers_seq(),
            r@ == crate::event_manager::flatten_listeners(old(self).listener_table()),
            final(self).listener_table() == Seq::<(u32, Seq<(L, usize)>)>::empty(),
    {
        let r = self.event_manager.get_listeners_to_reconnect();
        proof {
            assert(self.observers_seq() == old(self).observers_seq());
        }
        r
    }

    /// Regenerates, after a disconnect, the observer registrations to
    /// replay: one (name, handle, key) triple per live observer, in
    /// registration order, while the registry empties.  The stale proxies
    /// are never released.
    pub fn tasks_to_reconnect(&mut self) -> (r: Vec<(String, H, usize)>)
        requires
            old(self).wf(),
        ensures
            final(self).wf(),
            final(self).spec_service_id() == old(self).spec_service_id(),
            final(self).spec_current_object_id() == old(self).spec_current_object_id(),
            final(self).listener_table() == old(self).listener_table(),
            final(self).observers_seq() == Seq::<SettingsObserverEntry<H>>::empty(),
            r@.len() == old(self).observers_seq().len(),
            forall|i: int|
                0 <= i < r@.len() ==> (#[trigger] r@[i]).0@ == (#[trigger] old(self).observers_seq()[i]).name@ && r@[i].1 == old(self).observers_seq()[i].handle
                    && r@[i].2 == old(self).observers_seq()[i].key,
    {
        let ghost s = self.observers@;
        let mut r: Vec<(String, H, usize)> = Vec::new();
        while self.observers.len() > 0
            invariant
                self.spec_service_id() == old(self).spec_service_id(),
                self.spec_current_object_id() == old(self).spec_current_object_id(),
                self.listener_table() == old(self).listener_table(),
                self.event_manager.wf(),
                self.event_manager.spec_service_id() == old(self).spec_service_id(),
                self.event_manager.spec_object_id() == 0,
                old(self).wf(),
                s == old(self).observers_seq(),
                r@.len() + self.observers@.len() == s.len(),
                forall|x: int|
                    0 <= x < self.observers@.len() ==> #[trigger] self.observers@[x] == s[r@.len()
                        + x],
                forall|x: int|
                    0 <= x < r@.len() ==> (#[trigger] r@[x]).0@ == s[x].name@ && r@[x].1
                        == s[x].handle && r@[x].2 == s[x].key,
            decreases self.observers@.len(),
        {
            let ghost done = r@.len();
            let mut entry = self.observers.remove(0);
            proof {
                assert(entry == s[done as int]);
                assert(old(self).observers_seq()[done as int] == s[done as int]);
            }
            entry.proxy.dont_release();
            entry.proxy.discard();
            r.push((entry.name, entry.handle, entry.key));
        }
        proof {
            assert(self.observers_seq() =~= Seq::<SettingsObserverEntry<H>>::empty());
        }
        r
    }
}

/// The reply a settings observer owes the daemon for one notification
/// request.
#[derive(Clone, Debug)]
pub struct SettingsObserverReply {
    pub service: u32,
    pub object: u32,
    pub request_id: u64,
    pub payload: SettingsManagerFromClient,
}

/// What a settings observer wrapper does with one server-initiated request.
#[derive(Debug)]
pub enum SettingsObserverDispatch {
    /// Notify the wrapped observer with the changed setting, on its own
    /// thread, and send the reply envelope back.
    Notify(SettingInfo, SettingsObserverReply),
    /// Not an observer callback: reported and dropped, no reply.
    Ignored,
}

/// Wraps a host observer handle as the session object for one
/// `(service, object)` pair, translating daemon setting-change callbacks
/// into calls on the handle.
pub struct SettingsObserverWrapper<H> {
    handle: H,
    service_id: TrackerId,
    object_id: TrackerId,
}

impl<H> SettingsObserverWrapper<H> {
    pub closed spec fn spec_service_id(self) -> TrackerId {
        self.service_id
    }

    pub closed spec fn spec_object_id(self) -> TrackerId {
        self.object_id
    }

    /// The host observer handle kept inside.
    pub closed spec fn spec_handle(self) -> H {
        self.handle
    }

    pub fn new(handle: H, service_id: TrackerId, object_id: TrackerId) -> (r: Self)
        ensures
            r.spec_service_id() == service_id,
            r.spec_object_id() == object_id,
            r.spec_handle() == handle,
    {
        SettingsObserverWrapper { handle, service_id, object_id }
    }

    /// The wrapped host observer handle.
    pub fn handle(&self) -> (r: &H)
        ensures
            *r == self.spec_handle(),
    {
        &self.handle
    }

    /// The (service, object) pair this wrapper answers for.
    pub fn get_ids(&self) -> (r: (u32, u32))
        ensures
            r == (self.spec_service_id(), self.spec_object_id()),
    {
        (self.service_id, self.object_id)
    }

    /// Handles one server-initiated request, already decoded (`None` after
    /// a decode mismatch).  An observer callback is dispatched to the
    /// handle and unconditionally acknowledged with a success reply
    /// addressed from this object under the same request id; anything else
    /// is dropped.
    pub fn handle_request(&self, request_id: u64, decoded: Option<SettingsManagerToClient>) -> (r:
        SettingsObserverDispatch)
        ensures
            match decoded {
                Some(SettingsManagerToClient::SettingObserverCallback(info)) => r matches
                    SettingsObserverDispatch::Notify(i, rep) && i == info && rep == (
                SettingsObserverReply {
                    service: self.spec_service_id(),
                    object: self.spec_object_id(),
                    request_id,
                    payload: SettingsManagerFromClient::SettingObserverCallbackSuccess,
                }),
                _ => r is Ignored,
            },
    {
        match decoded {
            Some(SettingsManagerToClient::SettingObserverCallback(info)) => {
                let reply = SettingsObserverReply {
                    service: self.service_id,
                    object: self.object_id,
                    request_id,
                    payload: SettingsManagerFromClient::SettingObserverCallbackSuccess,
                };
                SettingsObserverDispatch::Notify(info, reply)
            },
            _ => SettingsObserverDispatch::Ignored,
        }
    }
}

/// Whether two strings hold the same characters.
pub fn string_eq(a: &String, b: &String) -> (r: bool)
    ensures
        r == (a@ == b@),
{
    *a == *b
}

/// The changed setting carried by a decoded settings event (`None` after a
/// decode mismatch or an unexpected variant, which is reported and
/// dropped).  Every listener registered for the change event type receives
/// the payload, each on its own thread.
pub fn settings_change_event(decoded: Option<SettingsManagerToClient>) -> (r: Option<SettingInfo>)
    ensures
        match decoded {
            Some(SettingsManagerToClient::SettingsFactoryChangeEvent(info)) => r == Some(info),
            _ => r is None,
        },
{
    match decoded {
        Some(SettingsManagerToClient::SettingsFactoryChangeEvent(info)) => Some(info),
        _ => None,
    }
}

} // verus!
