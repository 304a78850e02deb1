//! Streaming session engine for a local companion device.
//!
//! The library reassembles an inbound stream of heterogeneous wire chunks
//! into complete, typed messages, keeps an ordered outbound queue of
//! serialized items, moves decoded audio through a bounded ring buffer to
//! the playback side, and tracks the connection lifecycle as an explicit
//! state machine.  All of it is verified; the hardware, socket and shell
//! wiring around it lives outside the library and only hands plain values
//! in and out.

pub mod accumulator;
pub mod audio;
pub mod connection;
pub mod device;
pub mod images;
pub mod message;
pub mod outbound;
pub mod wire;
