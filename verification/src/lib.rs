//! Process-isolated compilation core for the EraVM Vyper compiler.
//!
//! Each compilation unit is compiled inside a dedicated child process,
//! because the code-generation backend may crash or hang on adversarial
//! input. This crate holds the verified heart of that subsystem: the
//! request/response wire contract, the logic that interprets a child
//! process's outcome, the worker-side decision logic, the write-once
//! executable override, and the command-line argument rules.

pub mod arguments;
pub mod process;
pub mod request;
pub mod text;
pub mod wire;
