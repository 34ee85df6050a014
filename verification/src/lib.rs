//! Periodic status snapshots fanned out to connected clients.
//!
//! A single publisher computes a status snapshot per cycle, encodes it as a
//! wire message and writes it into a latest-value-only broadcast cell. Every
//! connection holds a cursor into that cell, relays each update it has not
//! seen to its client, and keeps the shared session registry accurate from the
//! moment it registers to the moment it deregisters.

pub mod channel;
pub mod clock;
pub mod gateway;
pub mod publisher;
pub mod registry;
pub mod wire;
