//! Supervision and message routing for a proxy that sits between a console and
//! a set of remote runner and client connections.
//!
//! The library holds the logic of the proxy: the lifecycle state machine shared
//! by every supervised component, the restart engine, the recovery decisions
//! taken when an exclusive region is found corrupted, the message envelope and
//! its wire encoding, the handler registry that routes messages, and the
//! decisions of the per-connection protocol. Sockets, threads and clocks are
//! left to the caller.

use vstd::prelude::*;

pub mod channel;
pub mod communicator;
pub mod console;
pub mod error;
pub mod handler_id;
pub mod intercom;
pub mod json;
pub mod lock;
pub mod mcserver_type;
pub mod message;
pub mod restart;
pub mod status;
