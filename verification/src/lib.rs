//! Decision logic of an XMRT mesh node: configuration, node identity keys,
//! the wire messages, task dispatch, health pings and relay reporting.
//! Networking, files, processes and clocks are left to the caller, which
//! performs the actions that these functions decide.

pub mod config;
pub mod identity;
pub mod mesh;
pub mod protocol;
pub mod relay;
pub mod text;
