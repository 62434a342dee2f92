//! A minimal HTTP forwarding gateway: requests to the chat-completion and
//! text-completion endpoints are bounds-checked, validated, forwarded once to
//! a single upstream inference service, and the upstream reply is relayed.
//!
//! The crate holds the gateway's decisions: routing, the body-size cap, when
//! to forward, and what response every outcome maps to. The surrounding I/O
//! (the HTTP server and client, JSON encoding and decoding) lives outside it
//! and drives the per-request state machine defined here.

pub mod exchange;
pub mod model;
pub mod numfmt;
pub mod routing;
