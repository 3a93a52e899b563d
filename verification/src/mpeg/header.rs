//! The header of a transport packet as a record of decoded fields.
//!
//! The record exists only in specifications. It gives every contract one
//! way to say which fields an operation changes and which it leaves alone.

use vstd::prelude::*;
use crate::mpeg::packet::{
    spec_adaptation_field, spec_continuity_counter, spec_has_adaptation_field,
    spec_has_discontinuity, spec_has_payload, spec_has_pcr, spec_has_random_access,
    spec_has_stream_priority, spec_has_transport_error, spec_has_transport_priority,
    spec_has_unit_start, spec_pcr, spec_pcr_ext, spec_pid, spec_scrambling, MAX_PCR_BASE,
    MAX_PCR_EXT, NULL_PACKET_PID, SCRAMBLING_CLEAR, STUFFING_BYTE, SYNC_BYTE,
};

verus! {

/// Every header field of a packet, decoded.
///
/// The adaptation field length, the four adaptation flags and the two clock
/// values are read from their fixed places whether or not the indicators
/// that announce them are set.
pub struct Header {
    /// Byte 0.
    pub sync_byte: u8,
    /// Byte 1, bit `0x80`.
    pub transport_error: bool,
    /// Byte 1, bit `0x40`.
    pub unit_start: bool,
    /// Byte 1, bit `0x20`.
    pub transport_priority: bool,
    /// Low five bits of byte 1, then byte 2.
    pub pid: u16,
    /// Byte 3, bits `0xc0`.
    pub scrambling: u8,
    /// Byte 3, bit `0x20`.
    pub adaptation_field: bool,
    /// Byte 3, bit `0x10`.
    pub payload: bool,
    /// Byte 3, bits `0x0f`.
    pub continuity_counter: u8,
    /// Byte 4.
    pub adaptation_field_length: u8,
    /// Byte 5, bit `0x80`.
    pub discontinuity: bool,
    /// Byte 5, bit `0x40`.
    pub random_access: bool,
    /// Byte 5, bit `0x20`.
    pub stream_priority: bool,
    /// Byte 5, bit `0x10`.
    pub pcr_present: bool,
    /// Bytes 6 to 9, then the top bit of byte 10.
    pub pcr: u64,
    /// The lowest bit of byte 10, then byte 11.
    pub pcr_ext: u16,
}

impl Header {
    /// The header once a fresh adaptation field of the given length has been
    /// laid over it.
    ///
    /// The indicator is set and the length recorded. With a length of one or
    /// more the four adaptation flags are clear. With a length of two or
    /// more the clock values lie in stuffing and read as all ones.
    pub open spec fn with_adaptation_field(self, length: u8) -> Header {
        Header {
            adaptation_field: true,
            adaptation_field_length: length,
            discontinuity: length == 0 && self.discontinuity,
            random_access: length == 0 && self.random_access,
            stream_priority: length == 0 && self.stream_priority,
            pcr_present: length == 0 && self.pcr_present,
            pcr: if length >= 2 {
                MAX_PCR_BASE
            } else {
                self.pcr
            },
            pcr_ext: if length >= 2 {
                MAX_PCR_EXT
            } else {
                self.pcr_ext
            },
            ..self
        }
    }
}

/// The header of the null packet.
///
/// It carries the PID of null packets, a continuity counter of zero and the
/// payload indicator; it is not scrambled and announces no adaptation field.
/// What lies behind the fixed part is stuffing, in which every flag reads as
/// set and every number as all ones.
pub open spec fn null_packet_header() -> Header {
    Header {
        sync_byte: SYNC_BYTE,
        transport_error: false,
        unit_start: false,
        transport_priority: false,
        pid: NULL_PACKET_PID,
        scrambling: SCRAMBLING_CLEAR,
        adaptation_field: false,
        payload: true,
        continuity_counter: 0,
        adaptation_field_length: STUFFING_BYTE,
        discontinuity: true,
        random_access: true,
        stream_priority: true,
        pcr_present: true,
        pcr: MAX_PCR_BASE,
        pcr_ext: MAX_PCR_EXT,
    }
}

/// The fields that the bytes `p` of a packet hold.
pub open spec fn header_of(p: Seq<u8>) -> Header {
    Header {
        sync_byte: p[0],
        transport_error: spec_has_transport_error(p),
        unit_start: spec_has_unit_start(p),
        transport_priority: spec_has_transport_priority(p),
        pid: spec_pid(p),
        scrambling: spec_scrambling(p),
        adaptation_field: spec_has_adaptation_field(p),
        payload: spec_has_payload(p),
        continuity_counter: spec_continuity_counter(p),
        adaptation_field_length: spec_adaptation_field(p),
        discontinuity: spec_has_discontinuity(p),
        random_access: spec_has_random_access(p),
        stream_priority: spec_has_stream_priority(p),
        pcr_present: spec_has_pcr(p),
        pcr: spec_pcr(p),
        pcr_ext: spec_pcr_ext(p),
    }
}

} // verus!
