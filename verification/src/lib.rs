//! Operation dispatch and execution strategy for a pacman-style front-end
//! over native package managers.
//!
//! The crate models commands as plain data (`cmd`), resolves a run mode and
//! per-operation strategy into a concrete execution plan (`exec`),
//! interprets captured subprocess output (`interp`), and lets backend
//! adapters choose command sequences, including a two-step probe/decide
//! protocol (`brew`, `scoop`).

pub mod brew;
pub mod cmd;
pub mod error;
pub mod exec;
pub mod interp;
pub mod scoop;
