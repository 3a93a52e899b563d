//! MPEG-2 transport stream (ISO/IEC 13818-1) packets.
//!
//! - [`packet`]: the field codec, as functions on a buffer of 188 bytes;
//! - [`packet_info`]: the same codec as methods of a value that owns its
//!   buffer;
//! - [`header`]: the decoded header, the model that the contracts speak of;
//! - [`setter`]: calls of setters as values, for theorems about their order;
//! - [`laws`]: what holds of the codec as a whole;
//! - [`bits`]: replacing some bits of a byte and leaving the others.

pub mod bits;
pub mod header;
pub mod laws;
pub mod packet;
pub mod packet_info;
pub mod setter;
