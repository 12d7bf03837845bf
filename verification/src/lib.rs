//! Core of a multi-stream disk recorder daemon: the per-stream supervision
//! state machine, recording-pipeline header construction, and the disk
//! retention ("janitor") planner. All logic here is verified; process
//! spawning, filesystem scanning and deletion are driven by an unverified
//! shell around this library.

pub mod config;
pub mod headers;
pub mod janitor;
pub mod supervisor;
