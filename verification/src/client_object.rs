//! Proxy for an object with a client-side lifetime.  Constructing it
//! registers the object's handler in the session routing table; tearing it
//! down always unregisters, and additionally owes the daemon exactly one
//! "release object" call for its identifier pair — unless releasing was
//! suppressed because the connection the remote id belonged to is gone.

use crate::messages::ReleaseObjectRequest;
use crate::session::{object_key, Session};
use crate::traits::TrackerId;
use vstd::prelude::*;

verus! {

/// Ties a locally-implemented remote-callable object to its assigned
/// `(service, object)` identifier pair.
///
/// The proxy can be destroyed only through [`ClientObject::teardown`], which
/// consumes it: the remote release can therefore never be issued twice.
pub struct ClientObject {
    service_id: TrackerId,
    object_id: TrackerId,
    should_release: bool,
}

impl ClientObject {
    /// The service half of the identifier pair.
    pub closed spec fn spec_service_id(self) -> TrackerId {
        self.service_id
    }

    /// The object half of the identifier pair.
    pub closed spec fn spec_object_id(self) -> TrackerId {
        self.object_id
    }

    /// Whether teardown will still issue the remote release call.
    pub closed spec fn releases_on_teardown(self) -> bool {
        self.should_release
    }

    /// Registers `handle` with the transport session under
    /// `(service_id, object_id)` and records that identity; the proxy owes a
    /// release call until `dont_release` is invoked.
    pub fn new<C, O, B>(
        service_id: TrackerId,
        object_id: TrackerId,
        handle: O,
        transport: &mut Session<C, O, B>,
    ) -> (r: Self)
        requires
            old(transport).wf(),
        ensures
            r.spec_service_id() == service_id,
            r.spec_object_id() == object_id,
            r.releases_on_teardown(),
            final(transport).wf(),
            final(transport).objects_map() == old(transport).objects_map().insert(
                object_key(service_id, object_id),
                handle,
            ),
            final(transport).pending_map() == old(transport).pending_map(),
            final(transport).last_request_id() == old(transport).last_request_id(),
            final(transport).connected() == old(transport).connected(),
            final(transport).observers_seq() == old(transport).observers_seq(),
            final(transport).last_observer_id() == old(transport).last_observer_id(),
    {
        transport.register_session_object(service_id, object_id, handle);
        ClientObject { service_id, object_id, should_release: true }
    }

    /// The local object id, for embedding in outgoing messages that refer to
    /// this object.
    pub fn object_ref(&self) -> (r: TrackerId)
        ensures
            r == self.spec_object_id(),
    {
        self.object_id
    }

    /// Suppresses the remote release call on teardown.  Idempotent; used
    /// exclusively when the owning connection is known dead, since a release
    /// over a dead or freshly-reopened session would target a stale id.
    pub fn dont_release(&mut self)
        ensures
            !final(self).releases_on_teardown(),
            final(self).spec_service_id() == old(self).spec_service_id(),
            final(self).spec_object_id() == old(self).spec_object_id(),
    {
        self.should_release = false;
    }

    /// Destroys the proxy without touching any session: only allowed once
    /// `dont_release` has been called, that is, when the connection the
    /// remote id belonged to is gone and the routing table has already been
    /// cleared, so that neither an unregistration nor a release is owed.
    pub fn discard(self)
        requires
            !self.releases_on_teardown(),
    {
    }

    /// Destroys the proxy: always removes its entry from the session routing
    /// table, and returns the "release object" request to send — exactly one
    /// when releasing is still enabled, none after `dont_release`.
    pub fn teardown<C, O, B>(self, transport: &mut Session<C, O, B>) -> (r: Option<
        ReleaseObjectRequest,
    >)
        requires
            old(transport).wf(),
        ensures
            self.releases_on_teardown() ==> (r matches Some(q) && q.service
                == self.spec_service_id() && q.object == self.spec_object_id()),
            !self.releases_on_teardown() ==> r is None,
            final(transport).wf(),
            final(transport).objects_map() == old(transport).objects_map().remove(
                object_key(self.spec_service_id(), self.spec_object_id()),
            ),
            final(transport).pending_map() == old(transport).pending_map(),
            final(transport).last_request_id() == old(transport).last_request_id(),
            final(transport).connected() == old(transport).connected(),
            final(transport).observers_seq() == old(transport).observers_seq(),
            final(transport).last_observer_id() == old(transport).last_observer_id(),
    {
        transport.unregister_session_object(self.service_id, self.object_id);
        if self.should_release {
            Some(ReleaseObjectRequest { service: self.service_id, object: self.object_id })
        } else {
            None
        }
    }
}

} // verus!
