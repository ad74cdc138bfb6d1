//! Bridges minidump (crash-dump) analysis into a single-threaded,
//! non-blocking caller.
//!
//! Two operations are offered, both taking a dump file path and options:
//! a full stackwalk (reconstructing and symbolicating every thread's call
//! stack) and a raw stream-by-stream dump of the file's contents.  The
//! binary format reader, the stack-walking engine and the symbol fetching
//! are outside services; what this crate owns — and what is verified — is
//! the glue that must not go wrong: option defaulting, symbol-provider
//! selection, the fault-tolerant ordering of the raw dump's sections, the
//! rendering of raw OS text streams, the composition of failure messages,
//! and the exactly-once settlement of each request's pending handle.

pub mod bridge;
pub mod config;
pub mod dump;
pub mod errors;
pub mod providers;
pub mod render;
pub mod stackwalk;
