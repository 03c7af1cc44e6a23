//! A password bridge between a command-line client and a daemon over named
//! pipes (FIFOs). The daemon reads JSON requests, one per line, from a
//! well-known FIFO under `/tmp`; each client creates a dedicated response FIFO
//! under `/tmp`, names it in its request, and reads the daemon's answer there.
//!
//! This crate holds the protocol's decisions with their contracts; the program
//! around it performs the file and pipe operations and the JSON encoding.

pub mod bridge;
pub mod client;
pub mod clock;
pub mod daemon;
pub mod decimal;
pub mod fifo;
pub mod laws;
pub mod path;
pub mod protocol;
pub mod text;

pub use protocol::{Action, Request, Response, REQUEST_FIFO};
