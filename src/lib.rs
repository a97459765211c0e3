//! Safe orchestration of attaching and detaching encrypted block devices.
//!
//! The library validates every identifier that reaches a privileged tool,
//! keeps a small persistent record of which mapping backs which mount point,
//! and drives the two-phase attach and detach protocols as explicit state
//! machines whose side effects are carried out by the caller.

pub mod text;
pub mod error;
pub mod validate;
pub mod mapper;
pub mod store;
pub mod mounts;
pub mod gateway;
pub mod attach;
pub mod detach;
pub mod locale;
