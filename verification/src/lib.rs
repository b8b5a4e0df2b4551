//! Client-side runtime for a stream-multiplexed RPC protocol: a host process
//! talks to an out-of-process daemon through a framed stream transport.  The
//! library models the transport session (request-id allocation, response
//! routing, event routing, disconnect recovery), the remote-object lifetime
//! tracking, the core meta-service used to resolve named services, the
//! service-acquisition state machine that queues calls until resolution
//! completes, and the per-object event-listener registry.
//!
//! Everything the daemon conversation decides is kept as plain values here;
//! the byte codec, the socket itself and the host's threading primitives live
//! outside the library and drive it through the actions its functions return.

pub mod bridge;
pub mod client_object;
pub mod contacts;
pub mod core_service;
pub mod event_manager;
pub mod messages;
pub mod service_state;
pub mod session;
pub mod settings;
pub mod time_service;
pub mod traits;
