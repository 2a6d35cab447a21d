//! Verified client for a small binary wire protocol that drives a remote
//! pixel-matrix display over a byte-stream connection.
//!
//! The crate is organised around a few pieces:
//! - [`wire`]: the command byte layouts (tag, payload) with an exact
//!   specification of encoding and decoding;
//! - [`transport`]: the capability a client needs from its connection — a
//!   buffered duplex byte stream — together with a verified in-memory
//!   implementation usable as a test double;
//! - [`client`]: the client core: handshake, argument validation, command
//!   framing and writing;
//! - [`geometry`] and [`surface`]: a generic 2-D raster surface on top of the
//!   client, clipping arbitrary geometry to the matrix bounds.
//!
//! Opening a real network connection is left to the embedding program, which
//! supplies the transport.

pub mod client;
pub mod error;
pub mod geometry;
pub mod surface;
pub mod transport;
pub mod wire;
