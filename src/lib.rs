//! A bridge between host (operating-system) strings and the string and bytes
//! representations of an embedded Python runtime.
//!
//! Host strings come in two models: arbitrary byte sequences on POSIX-like
//! systems and 16-bit code-unit sequences on Windows-like systems. This crate
//! states and proves what is handed across the runtime boundary for each model,
//! and models the lifecycle of runtime-allocated native string buffers.
pub mod error;
pub mod handle;
pub mod host;
pub mod runtime;
