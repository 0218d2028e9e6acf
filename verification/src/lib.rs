//! A host-side bridge for federated GraphQL composition and query planning.
//!
//! The composition and planning algorithms themselves live in an embedded,
//! precompiled script module that runs inside an isolated, single-use
//! execution environment.  This crate provides everything around that
//! module: the typed request and error structures, the marshaler that turns
//! requests into data safely injectable into the environment, the decoder
//! that turns the module's delivered payload back into typed results, the
//! one-shot rendezvous through which the result leaves the environment, and
//! the session state machine that drives one call from a fresh environment
//! to an unconditional teardown.

pub mod compose;
pub mod decode;
pub mod marshal;
pub mod plan;
pub mod rendezvous;
pub mod session;
pub mod wire;
