//! Visual target following for a remotely piloted vehicle.
//!
//! The library holds the rules of the system, each with its contract: the
//! handshake of the link sessions, the reassembly of the video stream, the
//! vote over detection passes, the acquisition state machine with its
//! scheduler, and the steering law. It touches no socket, clock or image:
//! callers hand in what they measured and carry out what the library names.

pub mod acquisition;
pub mod command;
pub mod geometry;
pub mod link;
pub mod pilot;
pub mod reassembly;
pub mod scheduler;
pub mod voting;
