//! A small multi-agent message relay built atop a shared record store with
//! change-feed subscriptions.
//!
//! The verified core is the supervision, readiness and relay protocol: how a
//! tree of components (store connection manager, agent group supervisor,
//! per-agent supervisor, per-agent feed listener) starts in dependency order,
//! gates on a level-triggered readiness signal, relays messages while live,
//! and shuts down in reverse dependency order. Each component's decisions are
//! a verified step function from state and event to next state and action;
//! the asynchronous shell that performs the actions lives outside the
//! verified library.

pub mod agent;
pub mod agents;
pub mod digits;
pub mod listener;
pub mod message;
pub mod queries;
pub mod sdb;
pub mod sdb_server;
pub mod settings;
pub mod store;
pub mod supervisor;
pub mod top;
