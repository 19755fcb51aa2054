//! Handle-lifetime layer for a native execution engine.
//!
//! The native library does all compilation and execution; this crate's job
//! is the bookkeeping around the foreign boundary: which wrapper owns which
//! native handle, how ownership of a module moves into an engine, and that
//! every native resource is accounted for exactly once. Handles are carried
//! as plain integers; the unverified shell that talks to the native library
//! converts between those integers and the real foreign pointers.

pub mod execution_engine;
pub mod generic_value;
pub mod module;

pub use execution_engine::Backends;
pub use execution_engine::CreationError;
pub use execution_engine::CreationOutcome;
pub use execution_engine::EngineKind;
pub use execution_engine::ExecutionEngine;
pub use generic_value::GenericValue;
pub use module::Module;
