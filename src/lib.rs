//! Client side of a fixed-frame binary protocol spoken over UDP multicast:
//! order submission and cancellation frames, trade and status broadcast
//! decoding, and the decisions of the multicast transport.

pub mod types;
pub mod encoding;
pub mod network;
pub mod params;
