//! A verified core for a fleet service manager: an orchestrator that tracks
//! named services on network-attached devices through a Created / Deployed /
//! Running / Stopped lifecycle, a step-by-step remote deployment pipeline
//! driven as a state machine, the decision rules of the remote-session
//! manager, a bounded broadcast channel relaying bus messages to observers,
//! and the text handling around them (remote command lines, unit-file
//! template rendering, message frames and their console rendering).
//!
//! Everything effectful — the shell sessions, file transfers, the HTTP
//! surface, the bus connection and the push sockets — lives outside this
//! crate and talks to it in plain values: the core decides, the boundary
//! performs and reports back.

pub mod api;
pub mod bus;
pub mod deploy;
pub mod device;
pub mod errors;
pub mod parser;
pub mod service;
pub mod text;
