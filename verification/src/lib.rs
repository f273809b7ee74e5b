//! The logic behind a C interface to a WebAssembly execution engine.
//!
//! The interface hands its callers opaque handles for executors and instances. This crate
//! holds what decides: which number a new object gets, what a number resolves to, which
//! requests are refused and with which message, and what every entry point answers. The
//! foreign-function layer around it dereferences pointers, calls the engine and delivers
//! the answers.

pub mod capi_executor;
pub mod capi_instance;
pub mod capi_instance_cache;
pub mod decimal;
pub mod entry_laws;
pub mod handle_registry;
pub mod laws;
pub mod pointers;
pub mod reply;
