//! Core of a small chat client for an Ollama-compatible inference server.
//!
//! The library holds the verified logic: the conversation store (an ordered,
//! append-only log of turns plus a live system-context string and a pending
//! input draft), the request builder that derives the exact turn list sent on
//! each request, the JSON envelope used on the wire, and the send controller
//! that applies a transport outcome to the store. Network transport and the
//! user interface live outside the library and hand it plain values.

pub mod model;
pub mod store;
pub mod builder;
pub mod json;
pub mod wire;
pub mod controller;
pub mod view;
pub mod shell;
