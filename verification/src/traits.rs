//! Identifier plumbing shared by every service client: tracker ids, the
//! composite key that names an event target, and the factories that hand out
//! fresh identifiers.

use crate::messages::{DisableEventListenerRequest, EnableEventListenerRequest};
use vstd::prelude::*;

verus! {

/// Identifier handed to an event dispatcher when it registers.
pub type DispatcherId = u32;

/// A 32-bit locally-scoped identifier for a service or object; 0 is reserved
/// for "the service object itself" / "no object".
pub type TrackerId = u32;

/// Anything that can report the (service, object, event) triple it targets.
pub trait EventIds {
    /// The triple, as a spec-level value.
    spec fn spec_ids(&self) -> (u32, u32, u32);

    /// The (service, object, event) triple.
    fn ids(&self) -> (r: (u32, u32, u32))
        ensures
            r == self.spec_ids(),
    ;
}

impl EventIds for EnableEventListenerRequest {
    open spec fn spec_ids(&self) -> (u32, u32, u32) {
        (self.service, self.object, self.event)
    }

    fn ids(&self) -> (r: (u32, u32, u32)) {
        (self.service, self.object, self.event)
    }
}

impl EventIds for DisableEventListenerRequest {
    open spec fn spec_ids(&self) -> (u32, u32, u32) {
        (self.service, self.object, self.event)
    }

    fn ids(&self) -> (r: (u32, u32, u32)) {
        (self.service, self.object, self.event)
    }
}

/// A composite key identifying an event target.
#[derive(Debug, Eq, PartialEq, Structural, Hash)]
pub struct EventMapKey {
    pub service: u32,
    pub object: u32,
    pub event: u32,
}

impl EventMapKey {
    pub fn new(service: u32, object: u32, event: u32) -> (r: Self)
        ensures
            r == (EventMapKey { service, object, event }),
    {
        Self { service, object, event }
    }

    /// The key naming whatever triple `source` reports.
    pub fn from_ids<T: EventIds>(source: &T) -> (r: Self)
        ensures
            r == (EventMapKey {
                service: source.spec_ids().0,
                object: source.spec_ids().1,
                event: source.spec_ids().2,
            }),
    {
        let (service, object, event) = source.ids();
        Self { service, object, event }
    }
}

/// Hands out identifiers spaced two apart from a base index, so that two id
/// sources with different bases never collide; the daemon side generates the
/// even request ids.
#[derive(Debug)]
pub struct IdFactory {
    current: u64,
}

impl IdFactory {
    /// The id most recently handed out (or the base, before any `next` call).
    pub closed spec fn spec_current(self) -> u64 {
        self.current
    }

    /// A factory starting from `base`.
    pub fn new(base: u32) -> (r: Self)
        ensures
            r.spec_current() == base as u64,
    {
        IdFactory { current: base as u64 }
    }

    /// The next id: always two more than the previous one.
    pub fn next(&mut self) -> (r: u64)
        requires
            old(self).spec_current() + 2 <= u64::MAX,
        ensures
            r == old(self).spec_current() + 2,
            final(self).spec_current() == r,
    {
        self.current = self.current + 2;
        self.current
    }
}

/// An object whose tracker id is fixed; the default is the reserved id 0.
pub trait SimpleObjectTracker {
    fn id(&self) -> TrackerId {
        0
    }
}

/// Keys that an object tracker can enumerate, starting from `first` and
/// stepping with `next`.
pub trait ObjectTrackerKey: Copy {
    /// Whether this key still has a successor.
    spec fn has_next(&self) -> bool;

    fn first() -> Self;

    fn next(&self) -> Self
        requires
            self.has_next(),
    ;
}

impl ObjectTrackerKey for TrackerId {
    open spec fn has_next(&self) -> bool {
        *self < u32::MAX
    }

    /// Starts at 1 because 0 is reserved for "no object" in the protocol.
    fn first() -> (r: Self)
        ensures
            r == 1u32,
    {
        1
    }

    fn next(&self) -> (r: Self)
        ensures
            r == *self + 1,
    {
        self + 1
    }
}

/// A tracker key that also remembers which session it belongs to.
#[derive(Hash, PartialEq, Eq, Structural, Clone, Copy, Debug)]
pub struct SessionTrackerId {
    pub session: u32,
    pub id: u32,
}

impl ObjectTrackerKey for SessionTrackerId {
    open spec fn has_next(&self) -> bool {
        self.id < u32::MAX
    }

    fn first() -> (r: Self)
        ensures
            r == (SessionTrackerId { session: 1, id: 1 }),
    {
        SessionTrackerId { session: 1, id: 1 }
    }

    fn next(&self) -> (r: Self)
        ensures
            r == (SessionTrackerId { session: self.session, id: (self.id + 1) as u32 }),
    {
        SessionTrackerId { session: self.session, id: self.id + 1 }
    }
}

impl SessionTrackerId {
    pub fn from(session: u32, id: u32) -> (r: Self)
        ensures
            r == (SessionTrackerId { session, id }),
    {
        SessionTrackerId { session, id }
    }

    /// The service half of the key (kept under the name the callers use).
    pub fn service(self) -> (r: u32)
        ensures
            r == self.id,
    {
        self.id
    }

    pub fn session(self) -> (r: u32)
        ensures
            r == self.session,
    {
        self.session
    }

    pub fn set_session(&mut self, session: u32)
        ensures
            *final(self) == (SessionTrackerId { session, id: old(self).id }),
    {
        self.session = session;
    }
}

/// The operations a container of tracked objects offers its service client.
pub trait ObjectTrackerMethods<T, K: Eq + core::hash::Hash + ObjectTrackerKey> {
    fn next_id(&self) -> K;

    fn track(&mut self, obj: T) -> K;

    fn untrack(&mut self, id: K) -> bool;

    fn get(&self, id: K) -> Option<&T>;

    fn get_mut(&mut self, id: K) -> Option<&mut T>;

    fn clear(&mut self);

    fn track_with(&mut self, obj: T, key: K);
}

} // verus!
