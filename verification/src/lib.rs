//! Typed control layer over an opaque native audio-encoder handle.
//!
//! The native encoder is configured through a single variadic control entry
//! point keyed by integer opcodes, and it reports outcomes as raw integer
//! status codes. This crate gives that weakly-typed interface a typed,
//! verified surface:
//!
//! - [`error`] classifies every native status code into a closed error
//!   taxonomy, totally and deterministically.
//! - [`request`] is the opcode registry: each named control operation is
//!   bound to its native opcode value and to the argument shape the native
//!   entry point expects for it.
//! - [`dispatch`] builds shape-correct control calls and translates the
//!   native layer's answers into typed results.
//! - [`session`] owns the native handle and exposes the typed convenience
//!   operations (create, set/get bitrate) on top of the dispatcher.
//!
//! The native calls themselves (foreign, unsafe, variadic) live outside this
//! crate in an unverified shell; this crate decides what to send and what
//! every possible answer means. A handle is not thread-safe: at most one
//! owner may issue control calls against it at a time, which Rust ownership
//! of [`session::OpusEncoder`] enforces.

pub mod dispatch;
pub mod error;
pub mod request;
pub mod session;
