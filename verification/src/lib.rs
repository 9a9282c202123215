//! Decisions of a trace-pipeline probe: how a command line's settings become a
//! backend to install, which span operations a run performs, and what it prints
//! of each span. Nothing here touches a socket or a terminal; the caller does.

pub mod config;
pub mod text;
pub mod backend;
pub mod spans;
pub mod generator;
pub mod topology;
