//! Connectivity core of a small wireless gateway: start-up checks, the
//! connection supervisor, the client sequence and the buffer arena, each with
//! a machine-checked contract.

pub mod client;
pub mod config;
pub mod email;
pub mod init;
pub mod net_buf;
pub mod seed;
pub mod supervisor;
pub mod trusted;
