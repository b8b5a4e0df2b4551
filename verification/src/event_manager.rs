//! The per-object event-listener registry.  For one `(service, object)`
//! target it keeps, per event type, the list of registered listeners; an
//! event type is present in the table exactly while at least one listener is
//! registered for it.  Adding the first listener for an event type hands
//! back the "enable" request to send to the daemon, removing the last one
//! hands back the "disable" request — all other changes are local.

use crate::messages::{DisableEventListenerRequest, EnableEventListenerRequest};
use crate::traits::TrackerId;
use vstd::prelude::*;

verus! {

/// `p` is the position of the first entry in `lst` registered under `key`.
pub open spec fn is_first_key_index<L>(lst: Seq<(L, usize)>, key: usize, p: int) -> bool {
    &&& 0 <= p < lst.len()
    &&& (#[trigger] lst[p]).1 == key
    &&& forall|q: int| 0 <= q < p ==> (#[trigger] lst[q]).1 != key
}

/// The whole table flattened into (event, listener, key) triples, in table
/// order.
pub open spec fn flatten_listeners<L>(t: Seq<(u32, Seq<(L, usize)>)>) -> Seq<(u32, L, usize)>
    decreases t.len(),
{
    if t.len() == 0 {
        Seq::empty()
    } else {
        t[0].1.map_values(|e: (L, usize)| (t[0].0, e.0, e.1)) + flatten_listeners(t.drop_first())
    }
}

/// The event-listener registry for one `(service, object)` target.  `L` is
/// the listener handle type; listeners are told apart by their identity key.
pub struct EventManager<L> {
    handlers: Vec<(u32, Vec<(L, usize)>)>,
    service_id: TrackerId,
    object_id: TrackerId,
}

impl<L> EventManager<L> {
    /// The table: per event type, the registered (listener, key) pairs.
    pub closed spec fn table(self) -> Seq<(u32, Seq<(L, usize)>)> {
        Seq::new(self.handlers@.len(), |i: int| (self.handlers@[i].0, self.handlers@[i].1@))
    }

    pub closed spec fn spec_service_id(self) -> TrackerId {
        self.service_id
    }

    pub closed spec fn spec_object_id(self) -> TrackerId {
        self.object_id
    }

    /// Whether any listener is registered for `event`.
    pub open spec fn has_event(self, event: u32) -> bool {
        exists|i: int| 0 <= i < self.table().len() && (#[trigger] self.table()[i]).0 == event
    }

    /// Table well-formedness: one entry per event type, and an entry exists
    /// only while it has listeners — the data-model invariant that makes the
    /// enable/disable edges meaningful.
    pub open spec fn wf(self) -> bool {
        &&& forall|i: int, j: int|
            0 <= i < j < self.table().len() ==> (#[trigger] self.table()[i]).0 != (
            #[trigger] self.table()[j]).0
        &&& forall|i: int| 0 <= i < self.table().len() ==> (#[trigger] self.table()[i]).1.len() >= 1
    }

    /// An empty registry for the object `(service_id, object_id)`.
    pub fn new(service_id: TrackerId, object_id: TrackerId) -> (r: Self)
        ensures
            r.wf(),
            r.table() == Seq::<(u32, Seq<(L, usize)>)>::empty(),
            r.spec_service_id() == service_id,
            r.spec_object_id() == object_id,
    {
        let r = EventManager { handlers: Vec::new(), service_id, object_id };
        proof {
            assert(r.table() =~= Seq::<(u32, Seq<(L, usize)>)>::empty());
        }
        r
    }

    /// Appends `(handler, key)` to the listeners for `event`.  When `event`
    /// was absent — its key transitions from absent to present — the daemon
    /// must start delivering it, and the matching "enable" request is
    /// returned; otherwise nothing is owed.
    pub fn add_event_listener(&mut self, event: u32, handler: L, key: usize) -> (r: Option<
        EnableEventListenerRequest,
    >)
        requires
            old(self).wf(),
        ensures
            final(self).wf(),
            final(self).spec_service_id() == old(self).spec_service_id(),
            final(self).spec_object_id() == old(self).spec_object_id(),
            final(self).has_event(event),
            !old(self).has_event(event) ==> {
                &&& r == Some(EnableEventListenerRequest {
                    service: old(self).spec_service_id(),
                    object: old(self).spec_object_id(),
                    event,
                })
                &&& final(self).table() == old(self).table().push(
                    (event, seq![(handler, key)]),
                )
            },
            old(self).has_event(event) ==> {
                &&& r is None
                &&& forall|i: int|
                    (0 <= i < old(self).table().len() && (#[trigger] old(self).table()[i]).0
                        == event) ==> final(self).table() == old(self).table().update(
                        i,
                        (event, old(self).table()[i].1.push((handler, key))),
                    )
            },
    {
        let ghost t = self.table();
        let mut i: usize = 0;
        while i < self.handlers.len()
            invariant
                old(self).wf(),
                *self == *old(self),
                t == self.table(),
                0 <= i <= t.len(),
                forall|j: int| 0 <= j < i ==> (#[trigger] t[j]).0 != event,
            decreases t.len() - i,
        {
            if self.handlers[i].0 == event {
                let mut entry = self.handlers.remove(i);
                entry.1.push((handler, key));
                self.handlers.insert(i, entry);
                proof {
                    assert(t[i as int].0 == event);
                    assert(old(self).has_event(event));
                    let t2 = self.table();
                    assert forall|j: int| 0 <= j < t2.len() implies #[trigger] t2[j] == t.update(
                        i as int,
                        (event, t[i as int].1.push((handler, key))),
                    )[j] by {
                        if j < i {
                        } else if j == i {
                        } else {
                        }
                    }
                    assert(t2 =~= t.update(i as int, (event, t[i as int].1.push((handler, key)))));
                    assert forall|a: int|
                        (0 <= a < t.len() && (#[trigger] t[a]).0 == event) implies a == i by {
                        if a < i {
                            assert(t[a].0 != event);
                        } else if a > i {
                            assert(t[i as int].0 != t[a].0);
                        }
                    }
                    assert forall|a: int, b: int| 0 <= a < b < t2.len() implies (
                    #[trigger] t2[a]).0 != (#[trigger] t2[b]).0 by {
                        assert(t[a].0 != t[b].0);
                    }
                    assert(final(self).has_event(event)) by {
                        assert(t2[i as int].0 == event);
                    }
                }
                return None;
            }
            i = i + 1;
        }
        let mut fresh: Vec<(L, usize)> = Vec::new();
        fresh.push((handler, key));
        let ghost fresh_list = fresh@;
        self.handlers.push((event, fresh));
        let service = self.service_id;
        let object = self.object_id;
        proof {
            assert(!old(self).has_event(event));
            let t2 = self.table();
            assert(fresh_list =~= seq![(handler, key)]);
            assert forall|j: int|
                0 <= j < t2.len() implies #[trigger] t2[j] == t.push(
                (event, seq![(handler, key)]),
            )[j] by {
                if j < t.len() {
                } else {
                }
            }
            assert(t2 =~= t.push((event, seq![(handler, key)])));
            assert forall|a: int, b: int| 0 <= a < b < t2.len() implies (#[trigger] t2[a]).0 != (
            #[trigger] t2[b]).0 by {
                if b < t.len() {
                    assert(t[a].0 != t[b].0);
                } else {
                    assert(t2[b].0 == event);
                    assert(t[a].0 != event);
                }
            }
            assert(final(self).has_event(event)) by {
                assert(t2[t.len() as int].0 == event);
            }
        }
        Some(EnableEventListenerRequest { service, object, event })
    }

    /// Removes the listener registered under `key` for `event`, if both the
    /// event entry and a matching listener exist; only the first match goes.
    /// When the entry thereby loses its last listener it disappears — the
    /// key transitions from present to absent — and the matching "disable"
    /// request to send is returned; otherwise nothing is owed.
    pub fn remove_event_listener(&mut self, event: u32, key: usize) -> (r: Option<
        DisableEventListenerRequest,
    >)
        requires
            old(self).wf(),
        ensures
            final(self).wf(),
            final(self).spec_service_id() == old(self).spec_service_id(),
            final(self).spec_object_id() == old(self).spec_object_id(),
            !old(self).has_event(event) ==> final(self).table() == old(self).table() && r is None,
            old(self).has_event(event) ==> forall|i: int|
                (0 <= i < old(self).table().len() && (#[trigger] old(self).table()[i]).0
                    == event) ==> {
                    let lst = old(self).table()[i].1;
                    if exists|p: int| is_first_key_index(lst, key, p) {
                        forall|p: int|
                            is_first_key_index(lst, key, p) ==> if lst.len() == 1 {
                                final(self).table() == old(self).table().remove(i) && r == Some(
                                    DisableEventListenerRequest {
                                        service: old(self).spec_service_id(),
                                        object: old(self).spec_object_id(),
                                        event,
                                    },
                                )
                            } else {
                                final(self).table() == old(self).table().update(
                                    i,
                                    (event, lst.remove(p)),
                                ) && r is None
                            }
                    } else {
                        final(self).table() == old(self).table() && r is None
                    }
                },
    {
        let ghost t = self.table();
        let mut i: usize = 0;
        while i < self.handlers.len()
            invariant
                old(self).wf(),
                *self == *old(self),
                t == self.table(),
                0 <= i <= t.len(),
                forall|j: int| 0 <= j < i ==> (#[trigger] t[j]).0 != event,
            decreases t.len() - i,
        {
            if self.handlers[i].0 == event {
                proof {
                    assert(t[i as int].0 == event);
                    assert(old(self).has_event(event));
                    assert forall|a: int|
                        (0 <= a < t.len() && (#[trigger] t[a]).0 == event) implies a == i by {
                        if a < i {
                        } else if a > i {
                            assert(t[i as int].0 != t[a].0);
                        }
                    }
                }
                let ghost lst = t[i as int].1;
                let mut entry = self.handlers.remove(i);
                let mut p: usize = 0;
                while p < entry.1.len() && entry.1[p].1 != key
                    invariant
                        entry.1@ == lst,
                        0 <= p <= lst.len(),
                        forall|q: int| 0 <= q < p ==> (#[trigger] lst[q]).1 != key,
                    decreases lst.len() - p,
                {
                    p = p + 1;
                }
                let found = p < entry.1.len();
                proof {
                    if p < lst.len() {
                        assert(is_first_key_index(lst, key, p as int));
                    }
                }
                if !found {
                    // No matching listener: put the entry back untouched.
                    self.handlers.insert(i, entry);
                    proof {
                        assert forall|p2: int| !is_first_key_index(lst, key, p2) by {
                            if 0 <= p2 < lst.len() {
                                assert(lst[p2].1 != key);
                            }
                        }
                        assert(self.table() =~= t);
                    }
                    return None;
                }
                entry.1.remove(p);
                proof {
                    lst.remove_ensures(p as int);
                    assert forall|p2: int| is_first_key_index(lst, key, p2) implies p2 == p by {
                        if p2 < p {
                            assert(lst[p2].1 != key);
                        } else if p2 > p {
                            assert(lst[p as int].1 != key);
                        }
                    }
                }
                if entry.1.len() == 0 {
                    proof {
                        assert(lst.len() == 1);
                        let t2 = self.table();
                        t.remove_ensures(i as int);
                        assert forall|j: int|
                            0 <= j < t2.len() implies #[trigger] t2[j] == t.remove(i as int)[j] by {
                            if j < i {
                            } else {
                            }
                        }
                        assert(t2 =~= t.remove(i as int));
                        assert forall|a: int, b: int| 0 <= a < b < t2.len() implies (
                        #[trigger] t2[a]).0 != (#[trigger] t2[b]).0 by {
                            let a2: int = if a < i { a } else { a + 1 };
                            let b2: int = if b < i { b } else { b + 1 };
                            assert(t2[a] == t[a2]);
                            assert(t2[b] == t[b2]);
                            assert(t[a2].0 != t[b2].0);
                        }
                        assert forall|a: int| 0 <= a < t2.len() implies (#[trigger] t2[a]).1.len()
                            >= 1 by {
                            let a2: int = if a < i { a } else { a + 1 };
                            assert(t2[a] == t[a2]);
                            assert(t[a2].1.len() >= 1);
                        }
                    }
                    let service = self.service_id;
                    let object = self.object_id;
                    return Some(DisableEventListenerRequest { service, object, event });
                }
                self.handlers.insert(i, entry);
                proof {
                    let t2 = self.table();
                    assert(lst.len() != 1);
                    assert forall|j: int| 0 <= j < t2.len() implies #[trigger] t2[j] == t.update(
                        i as int,
                        (event, lst.remove(p as int)),
                    )[j] by {
                        if j < i {
                        } else if j == i {
                        } else {
                        }
                    }
                    assert(t2 =~= t.update(i as int, (event, lst.remove(p as int))));
                    assert forall|a: int, b: int| 0 <= a < b < t2.len() implies (
                    #[trigger] t2[a]).0 != (#[trigger] t2[b]).0 by {
                        assert(t[a].0 != t[b].0);
                    }
                    assert forall|a: int| 0 <= a < t2.len() implies (#[trigger] t2[a]).1.len()
                        >= 1 by {
                        if a != i {
                            assert(t2[a] == t[a]);
                            assert(t[a].1.len() >= 1);
                        } else {
                            lst.remove_ensures(p as int);
                        }
                    }
                }
                return None;
            }
            i = i + 1;
        }
        proof {
            assert(!old(self).has_event(event));
            assert(self.table() == t);
        }
        None
    }

    /// How many listeners are registered for `event`; an event delivered to
    /// this object is dispatched to exactly that many.
    pub fn listener_count(&self, event: u32) -> (n: usize)
        requires
            self.wf(),
        ensures
            !self.has_event(event) ==> n == 0,
            self.has_event(event) ==> forall|i: int|
                (0 <= i < self.table().len() && (#[trigger] self.table()[i]).0 == event) ==> n
                    == self.table()[i].1.len(),
    {
        let ghost t = self.table();
        let mut i: usize = 0;
        while i < self.handlers.len() && self.handlers[i].0 != event
            invariant
                self.wf(),
                t == self.table(),
                0 <= i <= t.len(),
                forall|j: int| 0 <= j < i ==> (#[trigger] t[j]).0 != event,
            decreases t.len() - i,
        {
            i = i + 1;
        }
        if i < self.handlers.len() {
            proof {
                assert(t[i as int].0 == event);
                assert forall|a: int|
                    (0 <= a < t.len() && (#[trigger] t[a]).0 == event) implies a == i by {
                    if a > i {
                        assert(t[i as int].0 != t[a].0);
                    }
                }
            }
            self.handlers[i].1.len()
        } else {
            0
        }
    }

    /// The listener at position `pos` in the list registered for `event`.
    pub fn listener_at(&self, event: u32, pos: usize) -> (r: Option<&(L, usize)>)
        requires
            self.wf(),
        ensures
            !self.has_event(event) ==> r is None,
            self.has_event(event) ==> forall|i: int|
                (0 <= i < self.table().len() && (#[trigger] self.table()[i]).0 == event) ==> ({
                    if pos < self.table()[i].1.len() {
                        r matches Some(l) && *l == self.table()[i].1[pos as int]
                    } else {
                        r is None
                    }
                }),
    {
        let ghost t = self.table();
        let mut i: usize = 0;
        while i < self.handlers.len() && self.handlers[i].0 != event
            invariant
                self.wf(),
                t == self.table(),
                0 <= i <= t.len(),
                forall|j: int| 0 <= j < i ==> (#[trigger] t[j]).0 != event,
            decreases t.len() - i,
        {
            i = i + 1;
        }
        if i < self.handlers.len() {
            proof {
                assert(t[i as int].0 == event);
                assert forall|a: int|
                    (0 <= a < t.len() && (#[trigger] t[a]).0 == event) implies a == i by {
                    if a > i {
                        assert(t[i as int].0 != t[a].0);
                    }
                }
            }
            if pos < self.handlers[i].1.len() {
                Some(&self.handlers[i].1[pos])
            } else {
                None
            }
        } else {
            None
        }
    }

    /// Snapshots the whole table as (event, listener, key) triples, in table
    /// order, and clears it.  Used on reconnect, when the daemon-side enable
    /// state is necessarily lost and every listener must be re-registered.
    pub fn get_listeners_to_reconnect(&mut self) -> (r: Vec<(u32, L, usize)>)
        requires
            old(self).wf(),
        ensures
            final(self).wf(),
            final(self).spec_service_id() == old(self).spec_service_id(),
            final(self).spec_object_id() == old(self).spec_object_id(),
            r@ == flatten_listeners(old(self).table()),
            final(self).table() == Seq::<(u32, Seq<(L, usize)>)>::empty(),
    {
        let ghost goal = self.table();
        let mut r: Vec<(u32, L, usize)> = Vec::new();
        while self.handlers.len() > 0
            invariant
                self.spec_service_id() == old(self).spec_service_id(),
                self.spec_object_id() == old(self).spec_object_id(),
                flatten_listeners(goal) == r@ + flatten_listeners(self.table()),
            decreases self.handlers@.len(),
        {
            let ghost prev = self.table();
            let entry = self.handlers.remove(0);
            let ev = entry.0;
            let mut lst = entry.1;
            let ghost tb = self.table();
            let ghost lst0 = lst@;
            let ghost base = r@;
            let ghost mapped0 = lst0.map_values(|e: (L, usize)| (ev, e.0, e.1));
            proof {
                assert(prev[0] == (ev, lst0));
                assert(prev.drop_first() =~= tb);
                assert(flatten_listeners(prev) == prev[0].1.map_values(
                    |e: (L, usize)| (prev[0].0, e.0, e.1),
                ) + flatten_listeners(prev.drop_first()));
                assert(prev[0].1.map_values(|e: (L, usize)| (prev[0].0, e.0, e.1))
                    =~= mapped0);
                assert(flatten_listeners(prev) == mapped0 + flatten_listeners(tb));
            }
            while lst.len() > 0
                invariant
                    r@.len() == base.len() + (lst0.len() - lst@.len()),
                    lst0.len() >= lst@.len(),
                    forall|x: int| 0 <= x < lst@.len() ==> #[trigger] lst@[x] == lst0[lst0.len()
                        - lst@.len() + x],
                    forall|x: int| 0 <= x < base.len() ==> #[trigger] r@[x] == base[x],
                    forall|x: int|
                        0 <= x < lst0.len() - lst@.len() ==> #[trigger] r@[base.len() + x] == (
                        ev,
                        lst0[x].0,
                        lst0[x].1,
                        ),
                decreases lst@.len(),
            {
                let ghost consumed = lst0.len() - lst@.len();
                let item = lst.remove(0);
                r.push((ev, item.0, item.1));
                proof {
                    assert(item == lst0[consumed]);
                }
            }
            proof {
                assert forall|x: int| 0 <= x < mapped0.len() implies #[trigger] mapped0[x] == (
                ev,
                lst0[x].0,
                lst0[x].1,
                ) by {}
                assert forall|i: int| 0 <= i < r@.len() implies r@[i] == (base + mapped0)[i] by {
                    if i >= base.len() {
                        let x = i - base.len();
                        assert(r@[base.len() + x] == (ev, lst0[x].0, lst0[x].1));
                    }
                }
                assert(r@ =~= base + mapped0);
                assert((base + mapped0) + flatten_listeners(tb) =~= base + (mapped0
                    + flatten_listeners(tb)));
                assert(flatten_listeners(goal) == r@ + flatten_listeners(tb));
            }
        }
        proof {
            assert(self.table() =~= Seq::<(u32, Seq<(L, usize)>)>::empty());
            assert(flatten_listeners(self.table()) =~= Seq::<(u32, L, usize)>::empty());
            assert(r@ + flatten_listeners(self.table()) =~= r@);
        }
        r
    }
}

} // verus!
