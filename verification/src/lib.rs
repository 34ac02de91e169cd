//! Companion-side coordination logic for a Bluetooth Low-Energy wearable.
//!
//! The crate centres on a message-driven coordinator: a single-threaded state
//! machine that owns the user-facing view state and the connection flag, and
//! that turns each incoming message into a state change plus a list of
//! commands for its collaborators (a scanner, a watch session, a renderer).
//! A host shell performs the commands — resolving addresses against the local
//! adapter, spawning asynchronous connect operations, forwarding work to the
//! watch session — and feeds the outcomes back in as further messages.

pub mod catalog;
pub mod coordinator;
pub mod render;
