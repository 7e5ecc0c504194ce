//! Authoritative simulation core of a two-player networked fighting game:
//! fixed-point particle physics, a bounding-volume collision hierarchy,
//! the peer handshake and per-tick input protocol, the snapshot wire codec,
//! and the server/client tick steps that tie them together.

pub mod animation;
pub mod characters;
pub mod collision;
pub mod fixed;
pub mod geom;
pub mod hazard;
pub mod input;
pub mod globals;
pub mod particle;
pub mod scheduler;
pub mod session;
pub mod transmit;
pub mod vecmath;
