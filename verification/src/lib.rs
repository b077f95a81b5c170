//! A desktop-shell bridge, verified: it classifies the result of probing
//! for a companion command-line tool, manages the start and stop of a
//! single companion-server process, and builds and interprets the JSON-RPC
//! tool calls that are relayed to that server over HTTP.
//!
//! The host application performs the process spawning, signalling and the
//! HTTP transport; every decision and every message is made here, under
//! contract.

mod chars;
pub mod manager;
pub mod json;
pub mod probe;
pub mod relay;
pub mod render;
