//! Parser for Rocket League replay files.
//!
//! A replay is a little-endian binary file split into a header and a body,
//! each framed by a byte count and a CRC-32 checksum. The header carries the
//! replay version and a tree of named properties; the body carries keyframes,
//! tick marks, the raw network stream, and the object/class tables that drive
//! the network decoder. Parsing never panics on malformed input: every
//! primitive read is bounds-checked and failures are reported as error values
//! that carry the byte offset and section where they arose.

pub mod decimal;
pub mod errors;
pub mod text;
pub mod core_parser;
pub mod crc;
pub mod models;
pub mod header;
pub mod parser;
pub mod bits;
pub mod tables;
pub mod network;
