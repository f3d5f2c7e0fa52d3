//! A uniform request/response service abstraction: the transport-facing
//! contract of a remote-procedure-call client.
//!
//! The crate defines two cooperating pieces:
//!
//! - the **capability contract** ([`service::GrpcService`]): the minimal
//!   readiness-probe + dispatch surface every RPC transport must expose, and
//! - the **universal adapter**: a blanket implementation that lets any
//!   component already implementing the more primitive generic service
//!   pattern ([`service::Service`]) satisfy the capability contract with no
//!   hand-written glue, provided its error and response-body types meet a
//!   small set of composability constraints.
//!
//! Everything else — message encoding, connection management, retry policy —
//! is an external collaborator that merely consumes this boundary.

pub mod body;
pub mod error;
pub mod message;
pub mod outcome;
pub mod pending;
pub mod script;
pub mod service;
