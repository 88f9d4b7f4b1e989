//! Reassembly of JPEG still images from a proprietary UDP fragment stream.
//!
//! Each datagram carries a 12-byte big-endian header (type code, chunk index,
//! frame id, stream id) followed by raw payload bytes. `codec` turns a raw
//! datagram into a typed fragment; `assembler` tracks the image in progress,
//! locates the JPEG start-of-image marker inside a First fragment, appends
//! Middle and End payloads of the same frame, and signals completion.

pub mod assembler;
pub mod codec;
