//! The wire message model: every payload exchanged with the daemon travels
//! inside a [`BaseMessage`] envelope that carries the routing metadata
//! (service id, object id, message kind) next to an opaque content blob.
//! The core meta-service request and response payloads are defined here as
//! well; turning them into bytes is the business of the external codec.

use crate::traits::TrackerId;
use vstd::prelude::*;

verus! {

/// A reference to a tracked object, as carried inside message payloads.
#[derive(Clone, Copy, Debug, Eq, Hash, PartialEq, Structural)]
pub struct ObjectRef(pub TrackerId);

impl From<TrackerId> for ObjectRef {
    fn from(val: TrackerId) -> (r: Self) {
        ObjectRef(val)
    }
}

impl vstd::std_specs::convert::FromSpecImpl<TrackerId> for ObjectRef {
    open spec fn obeys_from_spec() -> bool {
        true
    }

    open spec fn from_spec(v: TrackerId) -> Self {
        ObjectRef(v)
    }
}

impl From<ObjectRef> for TrackerId {
    fn from(val: ObjectRef) -> (r: Self) {
        val.0
    }
}

impl vstd::std_specs::convert::FromSpecImpl<ObjectRef> for TrackerId {
    open spec fn obeys_from_spec() -> bool {
        true
    }

    open spec fn from_spec(v: ObjectRef) -> Self {
        v.0
    }
}

/// A point in time, carried on the wire as signed milliseconds since the
/// Unix epoch.
#[derive(Clone, Copy, Debug, Eq, Hash, PartialEq, Structural)]
pub struct SystemTime(pub i64);

/// Details attached to a permission failure reported by the daemon.
#[derive(Debug)]
pub struct PermissionError {
    /// The id of the request that failed.
    pub request: u64,
    /// The name of the missing permission.
    pub permission: String,
    /// Additional context for the failure.
    pub message: String,
}

/// The different kinds of messages that a service or object can process:
/// requests, responses, events and permission errors.
#[derive(Debug)]
pub enum BaseMessageKind {
    Request(u64),
    Response(u64),
    Event,
    PermissionError(PermissionError),
}

/// The high-level message, encapsulating the metadata used to route the
/// message (service, object) alongside the content of the actual message.
#[derive(Clone, Debug)]
pub struct BaseMessage {
    pub service: u32,
    pub object: u32,
    pub kind: BaseMessageKind,
    pub content: Vec<u8>,
}

impl PermissionError {
    /// Field-for-field agreement; the `String` payloads compare by their
    /// characters.
    pub open spec fn same_as(self, o: PermissionError) -> bool {
        &&& self.request == o.request
        &&& self.permission@ == o.permission@
        &&& self.message@ == o.message@
    }
}

impl BaseMessageKind {
    /// Same kind and same payload; permission errors compare field by field.
    pub open spec fn same_as(self, o: BaseMessageKind) -> bool {
        match (self, o) {
            (BaseMessageKind::Request(a), BaseMessageKind::Request(b)) => a == b,
            (BaseMessageKind::Response(a), BaseMessageKind::Response(b)) => a == b,
            (BaseMessageKind::Event, BaseMessageKind::Event) => true,
            (BaseMessageKind::PermissionError(a), BaseMessageKind::PermissionError(b)) => a.same_as(
                b,
            ),
            _ => false,
        }
    }
}

impl BaseMessage {
    /// A message with the same routing metadata as `msg` but no content.
    pub fn empty_from(msg: &BaseMessage) -> (r: Self)
        ensures
            r.service == msg.service,
            r.object == msg.object,
            r.kind.same_as(msg.kind),
            r.content@ == Seq::<u8>::empty(),
    {
        BaseMessage {
            service: msg.service,
            object: msg.object,
            kind: msg.kind.clone(),
            content: Vec::new(),
        }
    }

    /// The request id carried by a message of kind `Request`.
    pub fn request(&self) -> (r: u64)
        requires
            self.kind matches BaseMessageKind::Request(_),
        ensures
            self.kind == BaseMessageKind::Request(r),
    {
        match &self.kind {
            BaseMessageKind::Request(value) => *value,
            _ => vstd::pervasive::unreached(),
        }
    }

    /// The request id carried by a message of kind `Response`.
    pub fn response(&self) -> (r: u64)
        requires
            self.kind matches BaseMessageKind::Response(_),
        ensures
            self.kind == BaseMessageKind::Response(r),
    {
        match &self.kind {
            BaseMessageKind::Response(value) => *value,
            _ => vstd::pervasive::unreached(),
        }
    }
}

impl Clone for BaseMessageKind {
    /// A copy of the message kind, equal field for field.
    fn clone(&self) -> (r: Self)
        ensures
            r.same_as(*self),
    {
        match self {
            BaseMessageKind::Request(id) => BaseMessageKind::Request(*id),
            BaseMessageKind::Response(id) => BaseMessageKind::Response(*id),
            BaseMessageKind::Event => BaseMessageKind::Event,
            BaseMessageKind::PermissionError(e) => BaseMessageKind::PermissionError(e.clone()),
        }
    }
}

impl Clone for PermissionError {
    /// A copy of the permission error, equal field for field.
    fn clone(&self) -> (r: Self)
        ensures
            r.same_as(*self),
    {
        PermissionError {
            request: self.request,
            permission: self.permission.clone(),
            message: self.message.clone(),
        }
    }
}

/// Asks the daemon to resolve a service name to a service id, checking that
/// both sides agree on the schema fingerprint.
#[derive(Clone, Debug)]
pub struct GetServiceRequest {
    pub name: String,
    pub fingerprint: String,
}

/// The daemon's answer to a `GetService` request.
#[derive(Clone, Debug)]
pub enum GetServiceResponse {
    /// The service id.
    Success(u32),
    UnknownService,
    FingerprintMismatch,
    MissingPermission,
    InternalError(String),
}

/// Asks the daemon whether a named service exists.
#[derive(Clone, Debug)]
pub struct HasServiceRequest {
    pub name: String,
}

#[derive(Clone, Debug)]
pub struct HasServiceResponse {
    pub success: bool,
}

/// Asks the daemon to drop its side of the object `(service, object)`.
#[derive(Clone, Debug)]
pub struct ReleaseObjectRequest {
    pub service: u32,
    pub object: u32,
}

#[derive(Clone, Debug)]
pub struct ReleaseObjectResponse {
    pub success: bool,
}

/// Asks the daemon to start delivering events of type `event` for the object
/// `(service, object)`.
#[derive(Clone, Debug)]
pub struct EnableEventListenerRequest {
    pub service: u32,
    pub object: u32,
    pub event: u32,
}

#[derive(Clone, Debug)]
pub struct EnableEventListenerResponse {
    pub success: bool,
}

/// Asks the daemon to stop delivering events of type `event` for the object
/// `(service, object)`.
#[derive(Clone, Debug)]
pub struct DisableEventListenerRequest {
    pub service: u32,
    pub object: u32,
    pub event: u32,
}

#[derive(Clone, Debug)]
pub struct DisableEventListenerResponse {
    pub success: bool,
}

/// The requests understood by the core meta-service (service 0, object 0).
#[derive(Clone, Debug)]
pub enum CoreRequest {
    GetService(GetServiceRequest),
    HasService(HasServiceRequest),
    ReleaseObject(ReleaseObjectRequest),
    EnableEvent(EnableEventListenerRequest),
    DisableEvent(DisableEventListenerRequest),
}

/// The responses produced by the core meta-service.
#[derive(Clone, Debug)]
pub enum CoreResponse {
    GetService(GetServiceResponse),
    HasService(HasServiceResponse),
    ReleaseObject(ReleaseObjectResponse),
    EnableEvent(EnableEventListenerResponse),
    DisableEvent(DisableEventListenerResponse),
}

} // verus!
