//! A toggle engine for a host's automatic-update subsystem.
//!
//! The engine judges whether updates are `Active` or `Suppressed` from
//! independent readings, and plans the ordered, best-effort operations that
//! move a host from one macro-state to the other. It performs no operation
//! itself: it names each one, is told how it went, and states the verdict.
//!
//! - `model`, `config`, `standard`: the vocabulary, the configuration and the
//!   rosters of a stock host.
//! - `probe`: from readings to a macro-state.
//! - `plan`, `engine`: the steps of a disable and of a restore, and the run
//!   that walks through them.
//! - `surface`: the command line or the registry edit behind each operation.
//! - `toggle`: what the shell shows before and after a toggle.
//! - `host`: an in-memory host that carries plans out.
//! - `effects`, `shape`, `laws`: what is proved of toggles on that host.

pub mod config;
pub mod effects;
pub mod engine;
pub mod host;
pub mod laws;
pub mod model;
pub mod plan;
pub mod probe;
pub mod shape;
pub mod standard;
pub mod surface;
pub mod toggle;
