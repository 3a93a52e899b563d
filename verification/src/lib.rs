//! Codec for the header of MPEG-2 transport stream packets.
//!
//! A transport packet is a block of 188 bytes. This crate reads and writes
//! the fields of its header in place: the flags, the PID, the continuity
//! counter, the scrambling control and the adaptation field with its
//! programme clock reference. It keeps no state, allocates nothing and
//! rejects nothing.
//!
//! Every function carries a contract, and all of them are verified.

pub mod mpeg;
