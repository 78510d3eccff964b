//! Execution core of a WebAssembly host runtime: a store-owned arena for host
//! function state, the capability interface that mediates OS-facing
//! operations, and the entry-point dispatch that drives a module's run.

pub mod function_env;
pub mod runtime;
pub mod store;
pub mod thread_id;
pub mod webassembly;
