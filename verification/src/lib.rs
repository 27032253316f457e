//! The per-peer unicast transport session: the set of links to one peer, the
//! per-priority sequenced conduits, and the shutdown protocol, as a verified
//! sequential state machine. Every operation updates the session's state and
//! hands back the outside work (messages to enqueue, notifications, links to
//! close) as a list of actions for the caller to carry out in order.
//!
//! - `transport`: the session and its operations;
//! - `state`: the mathematical model that the operations are held to;
//! - `lifecycle`: what is proved of that model;
//! - `link`, `conduit`, `seq_num`, `stats`, `protocol`, `config`, `action`,
//!   `error`: the parts a session is made of and the values it speaks in;
//! - `routing`, `balancer`: subscribers per resource, and the choice of one
//!   of them for a publication.

pub mod action;
pub mod balancer;
pub mod conduit;
pub mod config;
pub mod error;
pub mod lifecycle;
pub mod link;
pub mod protocol;
pub mod routing;
pub mod seq_num;
pub mod state;
pub mod stats;
pub mod transport;
