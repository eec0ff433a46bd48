//! Decoding of the packed level data of a classic platform-game cartridge:
//! the two-byte level header and the two-byte-entry object streams.

pub mod error;
pub mod header;
pub mod stream;
pub mod object_data;
pub mod block_data;
pub mod level;
