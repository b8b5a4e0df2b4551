//! The core meta-service client: four thin request/response operations
//! against the privileged service/object pair `(0, 0)` — resolving a named
//! service to its id, probing for a service, toggling event delivery, and
//! releasing remote objects.
//!
//! Each operation builds the request value and primes a typed receiver; the
//! external codec turns the value into bytes.  When the response bytes come
//! back, the decoded `CoreResponse` (or `None`, after a decode mismatch) is
//! handed to the receiver, which classifies it and drives its delegate:
//! a wrong or missing variant is an error to the waiting caller, never a
//! panic and never fatal to the session.

use crate::messages::{
    BaseMessage, CoreRequest, CoreResponse, DisableEventListenerRequest,
    EnableEventListenerRequest, GetServiceRequest, GetServiceResponse, HasServiceRequest,
    ReleaseObjectRequest,
};
use crate::session::{Session, SessionObject, UdsError};
use crate::traits::TrackerId;
use vstd::prelude::*;

verus! {

/// The core meta-service client; every operation targets `(0, 0)`.
pub struct CoreService {}

impl SessionObject for CoreService {
    /// The core service never answers server-initiated requests.
    fn on_request(&mut self, _request: BaseMessage, _id: u64) -> (r: Option<BaseMessage>) {
        None
    }

    /// The core service has no events.
    fn on_event(&mut self, _event: Vec<u8>) {
    }

    fn get_ids(&self) -> (u32, u32) {
        (0, 0)
    }
}

/// What a `GetService` response means to the waiting caller.
#[derive(Clone, Copy, Debug, PartialEq, Eq, Structural)]
pub enum GetServiceOutcome {
    /// The daemon resolved the service to this id.
    Success(TrackerId),
    /// Any failure variant, or a response that decoded to the wrong variant.
    Error,
}

/// What a `HasService` response means to the waiting caller.
#[derive(Clone, Copy, Debug, PartialEq, Eq, Structural)]
pub enum HasServiceOutcome {
    /// The daemon's answer: whether the named service exists.  A "no" is an
    /// answer, not a failure.
    Answer(bool),
    /// A response that decoded to the wrong variant, or none at all.
    Error,
}

/// What a boolean-success core response means to the waiting caller.
#[derive(Clone, Copy, Debug, PartialEq, Eq, Structural)]
pub enum SimpleOutcome {
    Success,
    Error,
}

/// Classification of a decoded `GetService` response: only the `Success`
/// variant of the right response arm succeeds; everything else — a named
/// failure, another variant, or a decode mismatch (`None`) — is an error.
pub open spec fn get_service_outcome(response: Option<CoreResponse>) -> GetServiceOutcome {
    match response {
        Some(
            CoreResponse::GetService(GetServiceResponse::Success(id)),
        ) => GetServiceOutcome::Success(id),
        _ => GetServiceOutcome::Error,
    }
}

/// Classification of a decoded `HasService` response: the right response
/// variant carries the boolean answer, for either value; only a decode
/// mismatch is an error.
pub open spec fn has_service_outcome(response: Option<CoreResponse>) -> HasServiceOutcome {
    match response {
        Some(CoreResponse::HasService(r)) => HasServiceOutcome::Answer(r.success),
        _ => HasServiceOutcome::Error,
    }
}

/// Classification of a decoded `EnableEvent` response.
pub open spec fn enable_event_outcome(response: Option<CoreResponse>) -> SimpleOutcome {
    match response {
        Some(CoreResponse::EnableEvent(r)) => if r.success {
            SimpleOutcome::Success
        } else {
            SimpleOutcome::Error
        },
        _ => SimpleOutcome::Error,
    }
}

/// Classification of a decoded `DisableEvent` response.
pub open spec fn disable_event_outcome(response: Option<CoreResponse>) -> SimpleOutcome {
    match response {
        Some(CoreResponse::DisableEvent(r)) => if r.success {
            SimpleOutcome::Success
        } else {
            SimpleOutcome::Error
        },
        _ => SimpleOutcome::Error,
    }
}

/// Classification of a decoded `ReleaseObject` response.
pub open spec fn release_object_outcome(response: Option<CoreResponse>) -> SimpleOutcome {
    match response {
        Some(CoreResponse::ReleaseObject(r)) => if r.success {
            SimpleOutcome::Success
        } else {
            SimpleOutcome::Error
        },
        _ => SimpleOutcome::Error,
    }
}

/// Receives the outcome of a `GetService` call.
pub trait CoreGetServiceReceiverDelegate: Send {
    fn on_success(&mut self, service_id: TrackerId);

    fn on_error(&mut self);
}

/// Receives the outcome of a `HasService` call.
pub trait CoreHasServiceReceiverDelegate: Send {
    fn on_success(&mut self, result: bool);

    fn on_error(&mut self);
}

/// Receives the outcome of a core call whose response carries only success
/// or failure.
pub trait CoreSimpleReceiverDelegate: Send {
    fn on_success(&mut self);

    fn on_error(&mut self);
}

/// Translates `GetService` responses for its delegate.
pub struct CoreGetServiceReceiver<D: CoreGetServiceReceiverDelegate> {
    service_name: Option<String>,
    delegate: D,
}

impl<D: CoreGetServiceReceiverDelegate> CoreGetServiceReceiver<D> {
    /// The service name recorded when the request was issued.
    pub closed spec fn spec_service_name(self) -> Option<String> {
        self.service_name
    }

    /// The delegate driven by every classified response.
    pub closed spec fn spec_delegate(self) -> D {
        self.delegate
    }

    pub fn new(delegate: D) -> (r: Self)
        ensures
            r.spec_service_name() is None,
            r.spec_delegate() == delegate,
    {
        Self { delegate, service_name: None }
    }

    /// Classifies the decoded response (`None` after a decode mismatch) and
    /// drives the delegate: `on_success` with the service id exactly when
    /// the daemon resolved the service, `on_error` otherwise.
    pub fn on_message(&mut self, response: Option<CoreResponse>) -> (r: GetServiceOutcome)
        ensures
            r == get_service_outcome(response),
    {
        match response {
            Some(CoreResponse::GetService(GetServiceResponse::Success(id))) => {
                self.delegate.on_success(id);
                GetServiceOutcome::Success(id)
            },
            _ => {
                self.delegate.on_error();
                GetServiceOutcome::Error
            },
        }
    }
}

/// Translates `HasService` responses for its delegate.
pub struct CoreHasServiceReceiver<D: CoreHasServiceReceiverDelegate> {
    service_name: Option<String>,
    delegate: D,
}

impl<D: CoreHasServiceReceiverDelegate> CoreHasServiceReceiver<D> {
    /// The service name recorded when the request was issued.
    pub closed spec fn spec_service_name(self) -> Option<String> {
        self.service_name
    }

    /// The delegate driven by every classified response.
    pub closed spec fn spec_delegate(self) -> D {
        self.delegate
    }

    pub fn new(delegate: D) -> (r: Self)
        ensures
            r.spec_service_name() is None,
            r.spec_delegate() == delegate,
    {
        Self { delegate, service_name: None }
    }

    /// Classifies the decoded response and drives the delegate: the boolean
    /// answer goes to `on_success` for either value — a "no" is an answer,
    /// not a failure; only a decode mismatch is an error.
    pub fn on_message(&mut self, response: Option<CoreResponse>) -> (r: HasServiceOutcome)
        ensures
            r == has_service_outcome(response),
    {
        match response {
            Some(CoreResponse::HasService(h)) => {
                self.delegate.on_success(h.success);
                HasServiceOutcome::Answer(h.success)
            },
            _ => {
                self.delegate.on_error();
                HasServiceOutcome::Error
            },
        }
    }
}

/// Translates `EnableEvent` responses for its delegate.
pub struct CoreAddEventListenerReceiver<D: CoreSimpleReceiverDelegate> {
    params: Option<(u32, u32, u32)>,
    delegate: D,
}

impl<D: CoreSimpleReceiverDelegate> CoreAddEventListenerReceiver<D> {
    /// The (service, object, event) triple recorded at request time.
    pub closed spec fn spec_params(self) -> Option<(u32, u32, u32)> {
        self.params
    }

    /// The delegate driven by every classified response.
    pub closed spec fn spec_delegate(self) -> D {
        self.delegate
    }

    pub fn new(delegate: D) -> (r: Self)
        ensures
            r.spec_params() is None,
            r.spec_delegate() == delegate,
    {
        Self { delegate, params: None }
    }

    /// Classifies the decoded response and drives the delegate.
    pub fn on_message(&mut self, response: Option<CoreResponse>) -> (r: SimpleOutcome)
        ensures
            r == enable_event_outcome(response),
    {
        match response {
            Some(CoreResponse::EnableEvent(e)) => {
                if e.success {
                    self.delegate.on_success();
                    SimpleOutcome::Success
                } else {
                    self.delegate.on_error();
                    SimpleOutcome::Error
                }
            },
            _ => {
                self.delegate.on_error();
                SimpleOutcome::Error
            },
        }
    }
}

/// Translates `DisableEvent` responses for its delegate.
pub struct CoreRemoveEventListenerReceiver<D: CoreSimpleReceiverDelegate> {
    params: Option<(u32, u32, u32)>,
    delegate: D,
}

impl<D: CoreSimpleReceiverDelegate> CoreRemoveEventListenerReceiver<D> {
    /// The (service, object, event) triple recorded at request time.
    pub closed spec fn spec_params(self) -> Option<(u32, u32, u32)> {
        self.params
    }

    /// The delegate driven by every classified response.
    pub closed spec fn spec_delegate(self) -> D {
        self.delegate
    }

    pub fn new(delegate: D) -> (r: Self)
        ensures
            r.spec_params() is None,
            r.spec_delegate() == delegate,
    {
        Self { delegate, params: None }
    }

    /// Classifies the decoded response and drives the delegate.
    pub fn on_message(&mut self, response: Option<CoreResponse>) -> (r: SimpleOutcome)
        ensures
            r == disable_event_outcome(response),
    {
        match response {
            Some(CoreResponse::DisableEvent(e)) => {
                if e.success {
                    self.delegate.on_success();
                    SimpleOutcome::Success
                } else {
                    self.delegate.on_error();
                    SimpleOutcome::Error
                }
            },
            _ => {
                self.delegate.on_error();
                SimpleOutcome::Error
            },
        }
    }
}

/// Translates `ReleaseObject` responses for its delegate.
pub struct CoreReleaseObjectReceiver<D: CoreSimpleReceiverDelegate> {
    params: Option<(u32, u32)>,
    delegate: D,
}

impl<D: CoreSimpleReceiverDelegate> CoreReleaseObjectReceiver<D> {
    /// The (service, object) pair recorded at request time.
    pub closed spec fn spec_params(self) -> Option<(u32, u32)> {
        self.params
    }

    /// The delegate driven by every classified response.
    pub closed spec fn spec_delegate(self) -> D {
        self.delegate
    }

    pub fn new(delegate: D) -> (r: Self)
        ensures
            r.spec_params() is None,
            r.spec_delegate() == delegate,
    {
        Self { delegate, params: None }
    }

    /// Classifies the decoded response and drives the delegate.
    pub fn on_message(&mut self, response: Option<CoreResponse>) -> (r: SimpleOutcome)
        ensures
            r == release_object_outcome(response),
    {
        match response {
            Some(CoreResponse::ReleaseObject(e)) => {
                if e.success {
                    self.delegate.on_success();
                    SimpleOutcome::Success
                } else {
                    self.delegate.on_error();
                    SimpleOutcome::Error
                }
            },
            _ => {
                self.delegate.on_error();
                SimpleOutcome::Error
            },
        }
    }
}

impl CoreService {
    pub fn new() -> (r: Self) {
        Self {  }
    }

    /// The identity the core service answers for: the privileged pair
    /// `(0, 0)`.  Same value as its `SessionObject::get_ids`, which as a
    /// trait method carries no contract of its own; registration in the
    /// routing table can cite this one.
    pub fn ids(&self) -> (r: (u32, u32))
        ensures
            r == (0u32, 0u32),
    {
        (0, 0)
    }

    /// Sends an already-encoded core request over the transport: allocates
    /// the request id and registers `callback`, addressing `(0, 0)`.
    pub fn send_request<C, O, B>(
        &self,
        transport: &mut Session<C, O, B>,
        content: Vec<u8>,
        callback: C,
    ) -> (r: Result<BaseMessage, UdsError>)
        requires
            old(transport).wf(),
            old(transport).last_request_id() < u64::MAX,
        ensures
            final(transport).wf(),
            !old(transport).connected() ==> {
                &&& r matches Err(e) && e is NoStreamAvailable
                &&& *final(transport) == *old(transport)
            },
            old(transport).connected() ==> ({
                let id = (old(transport).last_request_id() + 1) as u64;
                &&& r matches Ok(m) && m.service == 0 && m.object == 0 && m.kind
                    == crate::messages::BaseMessageKind::Request(id) && m.content@ == content@
                &&& final(transport).pending_map() == old(transport).pending_map().insert(
                    id,
                    callback,
                )
                &&& final(transport).last_request_id() == id
                &&& final(transport).objects_map() == old(transport).objects_map()
                &&& final(transport).connected()
            }),
    {
        transport.send_request(0, 0, content, callback)
    }

    /// Builds the `GetService` request resolving `service_name` against
    /// `service_fingerprint`, and primes the receiver with the name.
    pub fn get_service<D: CoreGetServiceReceiverDelegate>(
        &self,
        service_name: &str,
        service_fingerprint: &str,
        response_task: &mut CoreGetServiceReceiver<D>,
    ) -> (r: CoreRequest)
        ensures
            r matches CoreRequest::GetService(q) && q.name@ == service_name@ && q.fingerprint@
                == service_fingerprint@,
            final(response_task).spec_service_name() matches Some(n) && n@ == service_name@,
    {
        response_task.service_name = Some(service_name.to_owned());
        CoreRequest::GetService(
            GetServiceRequest {
                name: service_name.to_owned(),
                fingerprint: service_fingerprint.to_owned(),
            },
        )
    }

    /// Builds the `HasService` request for `service_name` and primes the
    /// receiver with the name.
    pub fn has_service<D: CoreHasServiceReceiverDelegate>(
        &self,
        service_name: &str,
        response_task: &mut CoreHasServiceReceiver<D>,
    ) -> (r: CoreRequest)
        ensures
            r matches CoreRequest::HasService(q) && q.name@ == service_name@,
            final(response_task).spec_service_name() matches Some(n) && n@ == service_name@,
    {
        response_task.service_name = Some(service_name.to_owned());
        CoreRequest::HasService(HasServiceRequest { name: service_name.to_owned() })
    }

    /// Builds the request enabling delivery of `event` events for
    /// `(service, object)`, and primes the receiver with the triple.
    pub fn enable_event_listeners<D: CoreSimpleReceiverDelegate>(
        &self,
        service: u32,
        object: u32,
        event: u32,
        response_task: &mut CoreAddEventListenerReceiver<D>,
    ) -> (r: CoreRequest)
        ensures
            r == CoreRequest::EnableEvent(EnableEventListenerRequest { service, object, event }),
            final(response_task).spec_params() == Some((service, object, event)),
    {
        response_task.params = Some((service, object, event));
        CoreRequest::EnableEvent(EnableEventListenerRequest { service, object, event })
    }

    /// Builds the request disabling delivery of `event` events for
    /// `(service, object)`, and primes the receiver with the triple.
    pub fn disable_event_listeners<D: CoreSimpleReceiverDelegate>(
        &self,
        service: u32,
        object: u32,
        event: u32,
        response_task: &mut CoreRemoveEventListenerReceiver<D>,
    ) -> (r: CoreRequest)
        ensures
            r == CoreRequest::DisableEvent(DisableEventListenerRequest { service, object, event }),
            final(response_task).spec_params() == Some((service, object, event)),
    {
        response_task.params = Some((service, object, event));
        CoreRequest::DisableEvent(DisableEventListenerRequest { service, object, event })
    }

    /// Builds the best-effort request releasing the remote object
    /// `(service, object)`, and primes the receiver with the pair.
    pub fn release_object<D: CoreSimpleReceiverDelegate>(
        &self,
        service: u32,
        object: u32,
        response_task: &mut CoreReleaseObjectReceiver<D>,
    ) -> (r: CoreRequest)
        ensures
            r == CoreRequest::ReleaseObject(ReleaseObjectRequest { service, object }),
            final(response_task).spec_params() == Some((service, object)),
    {
        response_task.params = Some((service, object));
        CoreRequest::ReleaseObject(ReleaseObjectRequest { service, object })
    }
}

} // verus!
