//! Core of an actor-style fault-tolerant runtime: groups of identically
//! configured worker elements under a supervisor, with lifecycle handling
//! (start, stop, kill, fault escalation) and message routing between
//! reference handles and the worker bodies.
//!
//! The decision logic — what a group or an element does with each inbound
//! message, how pre-start messages are buffered and replayed, and when the
//! single terminal notice goes up to the parent — is verified here. The
//! cooperative driver loops that poll inboxes, task handles and user futures
//! are asynchronous and live with the embedding runtime; they advance these
//! state machines one event at a time.

pub mod broadcast;
pub mod plumbing;
pub mod child;
pub mod children;
pub mod context;
pub mod message;
