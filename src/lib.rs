//! Point-to-point file transfer over two interchangeable transports: a
//! byte stream delimited by half-close, and an atomic message transport.
//!
//! The library holds the protocol's decisions as verified state machines; the
//! sockets themselves are driven by the program around it.
pub mod error;
pub mod transport;
pub mod stream;
pub mod file;
pub mod client;
pub mod server;
pub mod file_type;
