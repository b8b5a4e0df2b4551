//! The service-acquisition state machine.  A named service starts
//! `Unresolved`; the first caller operation moves it to `Resolving` and asks
//! the core meta-service for its id; operations arriving meanwhile are
//! queued, never triggering a second resolution.  When resolution succeeds
//! the queues drain — exactly once, in submission order — and the service is
//! `Ready`; when it fails the state falls back to `Unresolved` with the
//! queue intact, so the next operation retries.  A disconnect falls back to
//! `Unresolved` too, seeding the queue with whatever the live implementation
//! needs replayed after reconnecting.

use crate::messages::{BaseMessage, GetServiceRequest};
use crate::session::{Session, UdsError};
use crate::traits::TrackerId;
use vstd::prelude::*;

verus! {

/// Where a service client stands in acquiring its remote service id.
#[derive(Clone, Copy, Debug, PartialEq, Eq, Structural)]
pub enum ResolutionState {
    /// No remote id known and no resolution in flight.
    Unresolved,
    /// A `get_service` call is in flight.
    Resolving,
    /// The remote id is known; the live implementation is in place.
    Ready(TrackerId),
}

/// What the caller must do with a task it submitted.
pub enum SubmitAction<T> {
    /// The service is ready: run the task now.
    Run(T),
    /// Queued; a resolution is already in flight.
    Queued,
    /// Queued, and the caller must issue the `get_service` request now.
    QueuedStartResolve,
}

/// `p` is the position of the first queued listener registered under `key`.
pub open spec fn is_first_pending_key<L>(s: Seq<(u32, L, usize)>, key: usize, p: int) -> bool {
    &&& 0 <= p < s.len()
    &&& (#[trigger] s[p]).2 == key
    &&& forall|q: int| 0 <= q < p ==> (#[trigger] s[q]).2 != key
}

/// Per-service client state: the name to resolve, the resolution state, and
/// the operations and event-listener registrations queued while the service
/// is not yet usable.  `T` is the caller-operation (task) type, `L` the
/// listener handle type.
pub struct ServiceClient<T, L> {
    service_name: String,
    service_fingerprint: String,
    state: ResolutionState,
    pending_tasks: Vec<T>,
    pending_listeners: Vec<(u32, L, usize)>,
}

impl<T, L> ServiceClient<T, L> {
    pub closed spec fn spec_state(self) -> ResolutionState {
        self.state
    }

    /// The queued caller operations, in submission order.
    pub closed spec fn queue(self) -> Seq<T> {
        self.pending_tasks@
    }

    /// The queued (event, listener, key) registrations, in submission order.
    pub closed spec fn listener_queue(self) -> Seq<(u32, L, usize)> {
        self.pending_listeners@
    }

    pub closed spec fn spec_service_name(self) -> Seq<char> {
        self.service_name@
    }

    pub closed spec fn spec_service_fingerprint(self) -> Seq<char> {
        self.service_fingerprint@
    }

    /// A fresh client for the service `service_name`, not yet resolving.
    pub fn new(service_name: String, service_fingerprint: String) -> (r: Self)
        ensures
            r.spec_state() == ResolutionState::Unresolved,
            r.queue() == Seq::<T>::empty(),
            r.listener_queue() == Seq::<(u32, L, usize)>::empty(),
            r.spec_service_name() == service_name@,
            r.spec_service_fingerprint() == service_fingerprint@,
    {
        ServiceClient {
            service_name,
            service_fingerprint,
            state: ResolutionState::Unresolved,
            pending_tasks: Vec::new(),
            pending_listeners: Vec::new(),
        }
    }

    /// The current resolution state.
    pub fn state(&self) -> (r: ResolutionState)
        ensures
            r == self.spec_state(),
    {
        self.state
    }

    /// The `get_service` request that resolves this service.
    pub fn get_service_request(&self) -> (r: GetServiceRequest)
        ensures
            r.name@ == self.spec_service_name(),
            r.fingerprint@ == self.spec_service_fingerprint(),
    {
        GetServiceRequest {
            name: self.service_name.clone(),
            fingerprint: self.service_fingerprint.clone(),
        }
    }

    /// Accepts one caller operation.  `Ready`: hand it back to run at once,
    /// nothing queued.  `Resolving`: append it to the queue.  `Unresolved`:
    /// append it to the queue and move to `Resolving` — the caller must now
    /// issue the `get_service` call, and exactly this transition issues one.
    pub fn submit(&mut self, task: T) -> (r: SubmitAction<T>)
        ensures
            final(self).spec_service_name() == old(self).spec_service_name(),
            final(self).spec_service_fingerprint() == old(self).spec_service_fingerprint(),
            final(self).listener_queue() == old(self).listener_queue(),
            match old(self).spec_state() {
                ResolutionState::Ready(id) => {
                    &&& r matches SubmitAction::Run(t) && t == task
                    &&& final(self).spec_state() == ResolutionState::Ready(id)
                    &&& final(self).queue() == old(self).queue()
                },
                ResolutionState::Resolving => {
                    &&& r is Queued
                    &&& final(self).spec_state() == ResolutionState::Resolving
                    &&& final(self).queue() == old(self).queue().push(task)
                },
                ResolutionState::Unresolved => {
                    &&& r is QueuedStartResolve
                    &&& final(self).spec_state() == ResolutionState::Resolving
                    &&& final(self).queue() == old(self).queue().push(task)
                },
            },
    {
        match self.state {
            ResolutionState::Ready(_) => SubmitAction::Run(task),
            ResolutionState::Resolving => {
                self.pending_tasks.push(task);
                SubmitAction::Queued
            },
            ResolutionState::Unresolved => {
                self.pending_tasks.push(task);
                self.state = ResolutionState::Resolving;
                SubmitAction::QueuedStartResolve
            },
        }
    }

    /// Queues an event-listener registration issued before the service is
    /// usable; it is replayed when resolution succeeds.
    pub fn queue_listener(&mut self, event: u32, handler: L, key: usize)
        requires
            !(old(self).spec_state() is Ready),
        ensures
            final(self).spec_state() == old(self).spec_state(),
            final(self).spec_service_name() == old(self).spec_service_name(),
            final(self).spec_service_fingerprint() == old(self).spec_service_fingerprint(),
            final(self).queue() == old(self).queue(),
            final(self).listener_queue() == old(self).listener_queue().push(
                (event, handler, key),
            ),
    {
        self.pending_listeners.push((event, handler, key));
    }

    /// Removes the first queued listener registration under `key`, if any:
    /// a listener removed before the service ever resolved must not be
    /// replayed.
    pub fn unqueue_listener(&mut self, key: usize)
        ensures
            final(self).spec_state() == old(self).spec_state(),
            final(self).spec_service_name() == old(self).spec_service_name(),
            final(self).spec_service_fingerprint() == old(self).spec_service_fingerprint(),
            final(self).queue() == old(self).queue(),
            (exists|p: int| is_first_pending_key(old(self).listener_queue(), key, p)) ==> forall|
                p: int,
            |
                is_first_pending_key(old(self).listener_queue(), key, p) ==> final(self).listener_queue() == old(self).listener_queue().remove(p),
            !(exists|p: int| is_first_pending_key(old(self).listener_queue(), key, p)) ==> final(self).listener_queue() == old(self).listener_queue(),
    {
        let ghost s = self.pending_listeners@;
        let mut p: usize = 0;
        while p < self.pending_listeners.len() && self.pending_listeners[p].2 != key
            invariant
                *self == *old(self),
                s == self.pending_listeners@,
                0 <= p <= s.len(),
                forall|q: int| 0 <= q < p ==> (#[trigger] s[q]).2 != key,
            decreases s.len() - p,
        {
            p = p + 1;
        }
        if p < self.pending_listeners.len() {
            proof {
                assert(is_first_pending_key(s, key, p as int));
                assert forall|p2: int| is_first_pending_key(s, key, p2) implies p2 == p by {
                    if p2 < p {
                        assert(s[p2].2 != key);
                    } else if p2 > p {
                        assert(s[p as int].2 != key);
                    }
                }
            }
            self.pending_listeners.remove(p);
        } else {
            proof {
                assert forall|p2: int| !is_first_pending_key(s, key, p2) by {
                    if 0 <= p2 < s.len() {
                        assert(s[p2].2 != key);
                    }
                }
            }
        }
    }

    /// Resolution succeeded with `service_id`: the state becomes `Ready` and
    /// both queues drain — the caller runs the returned tasks against the
    /// live implementation and replays the returned listener registrations,
    /// each exactly once, in submission order.
    pub fn on_resolve_success(&mut self, service_id: TrackerId) -> (drained: (
        Vec<T>,
        Vec<(u32, L, usize)>,
    ))
        requires
            old(self).spec_state() is Resolving,
        ensures
            final(self).spec_state() == ResolutionState::Ready(service_id),
            final(self).spec_service_name() == old(self).spec_service_name(),
            final(self).spec_service_fingerprint() == old(self).spec_service_fingerprint(),
            drained.0@ == old(self).queue(),
            drained.1@ == old(self).listener_queue(),
            final(self).queue() == Seq::<T>::empty(),
            final(self).listener_queue() == Seq::<(u32, L, usize)>::empty(),
    {
        self.state = ResolutionState::Ready(service_id);
        let mut tasks: Vec<T> = Vec::new();
        let mut listeners: Vec<(u32, L, usize)> = Vec::new();
        core::mem::swap(&mut tasks, &mut self.pending_tasks);
        core::mem::swap(&mut listeners, &mut self.pending_listeners);
        (tasks, listeners)
    }

    /// Resolution failed: back to `Unresolved`, queues intact.  Nothing is
    /// retried automatically — the next caller operation re-triggers
    /// resolution with the accumulated queue.
    pub fn on_resolve_failure(&mut self)
        requires
            old(self).spec_state() is Resolving,
        ensures
            final(self).spec_state() == ResolutionState::Unresolved,
            final(self).spec_service_name() == old(self).spec_service_name(),
            final(self).spec_service_fingerprint() == old(self).spec_service_fingerprint(),
            final(self).queue() == old(self).queue(),
            final(self).listener_queue() == old(self).listener_queue(),
    {
        self.state = ResolutionState::Unresolved;
    }

    /// The connection died.  A `Ready` client loses its implementation: the
    /// queues are replaced by the regenerated registration work the caller
    /// collected from it.  A client still resolving keeps its queues — those
    /// operations were never executed.  Either way the state falls back to
    /// `Unresolved`.
    pub fn on_disconnect(
        &mut self,
        reconnect_tasks: Vec<T>,
        reconnect_listeners: Vec<(u32, L, usize)>,
    )
        ensures
            final(self).spec_state() == ResolutionState::Unresolved,
            final(self).spec_service_name() == old(self).spec_service_name(),
            final(self).spec_service_fingerprint() == old(self).spec_service_fingerprint(),
            old(self).spec_state() is Ready ==> final(self).queue() == reconnect_tasks@ && final(self).listener_queue() == reconnect_listeners@,
            !(old(self).spec_state() is Ready) ==> final(self).queue() == old(self).queue()
                && final(self).listener_queue() == old(self).listener_queue(),
    {
        let ready = match self.state {
            ResolutionState::Ready(_) => true,
            _ => false,
        };
        if ready {
            self.pending_tasks = reconnect_tasks;
            self.pending_listeners = reconnect_listeners;
        }
        self.state = ResolutionState::Unresolved;
    }

    /// The connection is back: an `Unresolved` client immediately starts a
    /// fresh resolution (the caller must issue the `get_service` call when
    /// `true` comes back), draining the regenerated queue once it succeeds.
    pub fn on_reconnect(&mut self) -> (start: bool)
        ensures
            final(self).spec_service_name() == old(self).spec_service_name(),
            final(self).spec_service_fingerprint() == old(self).spec_service_fingerprint(),
            final(self).queue() == old(self).queue(),
            final(self).listener_queue() == old(self).listener_queue(),
            old(self).spec_state() is Unresolved ==> start && final(self).spec_state()
                == ResolutionState::Resolving,
            !(old(self).spec_state() is Unresolved) ==> !start && final(self).spec_state() == old(self).spec_state(),
    {
        match self.state {
            ResolutionState::Unresolved => {
                self.state = ResolutionState::Resolving;
                true
            },
            _ => false,
        }
    }
}

/// An operation that executes asynchronously on a target thread, carrying
/// everything it needs; the host's dispatch primitive runs it there.
pub trait SidlTask {
    fn run(&self);
}

/// A caller-supplied callback with a success and an error case; the
/// response receiver resolves or rejects it, on the caller's own thread.
pub trait SidlCallback {
    type Success;

    type Error;

    fn resolve(&self, value: &Self::Success);

    fn reject(&self, value: &Self::Error);
}

/// A caller-supplied event handler, invoked on the caller's own thread for
/// each event delivered to its object.
pub trait SidlEvent {
    type Success;

    fn handle_event(&self, value: &Self::Success);
}

/// Sends a service's requests: all of them target object 0, the service
/// object itself, on the service's own id.
#[derive(Clone, Copy, Debug)]
pub struct TaskSender {
    service_id: TrackerId,
}

impl TaskSender {
    pub closed spec fn spec_service_id(self) -> TrackerId {
        self.service_id
    }

    pub fn new(service_id: TrackerId) -> (r: Self)
        ensures
            r.spec_service_id() == service_id,
    {
        TaskSender { service_id }
    }

    /// Sends one already-encoded task payload, registering `receiver` for
    /// its response; the envelope to write comes back.
    pub fn send_task<C, O, B>(
        &self,
        transport: &mut Session<C, O, B>,
        content: Vec<u8>,
        receiver: C,
    ) -> (r: Result<BaseMessage, UdsError>)
        requires
            old(transport).wf(),
            old(transport).last_request_id() < u64::MAX,
        ensures
            final(transport).wf(),
            !old(transport).connected() ==> {
                &&& r matches Err(e) && e is NoStreamAvailable
                &&& *final(transport) == *old(transport)
            },
            old(transport).connected() ==> ({
                let id = (old(transport).last_request_id() + 1) as u64;
                &&& r matches Ok(m) && m.service == self.spec_service_id() && m.object == 0
                    && m.kind == crate::messages::BaseMessageKind::Request(id) && m.content@
                    == content@
                &&& final(transport).pending_map() == old(transport).pending_map().insert(
                    id,
                    receiver,
                )
                &&& final(transport).last_request_id() == id
                &&& final(transport).objects_map() == old(transport).objects_map()
                &&& final(transport).connected()
            }),
    {
        transport.send_request(self.service_id, 0, content, receiver)
    }
}

/// The queue a client ends up with after submitting `ts`, one at a time, to
/// a service that never becomes `Ready` meanwhile: each submission appends.
pub open spec fn queue_after_submits<T>(q0: Seq<T>, ts: Seq<T>) -> Seq<T>
    decreases ts.len(),
{
    if ts.len() == 0 {
        q0
    } else {
        queue_after_submits(q0.push(ts[0]), ts.drop_first())
    }
}

/// Law: operations submitted while a service is `Unresolved` or `Resolving`
/// stand in the queue in submission order, after whatever was already there;
/// with `on_resolve_success` handing back exactly the queue and emptying it,
/// each is drained exactly once, in order, and none before resolution.
pub proof fn lemma_queue_fifo<T>(q0: Seq<T>, ts: Seq<T>)
    ensures
        queue_after_submits(q0, ts) == q0 + ts,
    decreases ts.len(),
{
    if ts.len() == 0 {
        assert(queue_after_submits(q0, ts) =~= q0 + ts);
    } else {
        lemma_queue_fifo(q0.push(ts[0]), ts.drop_first());
        assert(q0.push(ts[0]) + ts.drop_first() =~= q0 + ts);
    }
}

} // verus!
