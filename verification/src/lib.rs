//! Coordination core for an interactive-script execution framework.
//!
//! A program thread appends display commands to an append-only log held in a
//! [`console::ConsoleContext`] and occasionally blocks awaiting typed input
//! from a remote console. A [`connector::ConnectorContext`] marshals traffic
//! between one transport session and one console context: it streams the
//! command-log tail and pending input requests outward, and dispatches
//! console-originated requests and responses inward. The [`hub::Hub`] owns
//! every context and a registry of share-names under which a context can be
//! published for another session to attach to.
//!
//! The contracts pin down the tag-based request/response handoff: tags grow
//! monotonically, stale responses are rejected, at most one request is
//! current at a time, and catch-up from any offset returns exactly the
//! commands appended so far. The laws module states these guarantees as
//! proved theorems over the transition functions.

pub mod api;
pub mod console;
pub mod connector;
pub mod hub;
pub mod laws;
