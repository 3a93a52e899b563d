//! A transport packet as a value with methods.
//!
//! [`PacketInfo`] owns the 188 bytes of one packet and offers the field codec
//! of [`packet`](crate::mpeg::packet) as methods. It adds nothing of its own:
//! the view of a `PacketInfo` is the sequence of its bytes, and every method
//! has the contract of the function it stands for, stated over that view.
//!
//! A setter hands the packet back, so that calls can be chained:
//! `info.set_pid(256).set_unit_start()`. Its contract speaks of the packet
//! as it is handed back; what the caller then does through that reference is
//! what the packet ends up as.

use vstd::prelude::*;
use vstd::array::array_view;
use crate::mpeg::header::{header_of, null_packet_header, Header};
use crate::mpeg::packet;
use crate::mpeg::packet::{
    spec_adaptation_field, spec_clear_discontinuity, spec_continuity_counter,
    spec_has_adaptation_field, spec_has_discontinuity, spec_has_payload, spec_has_pcr,
    spec_has_random_access, spec_has_stream_priority, spec_has_transport_error,
    spec_has_transport_priority, spec_has_unit_start, spec_null_packet, spec_payload, spec_pcr,
    spec_pcr_ext, spec_pid, spec_scrambling, spec_set_adaptation_field,
    spec_set_continuity_counter, spec_set_discontinuity, spec_set_payload, spec_set_pcr,
    spec_set_pcr_ext, spec_set_pid, spec_set_random_access, spec_set_scrambling,
    spec_set_stream_priority, spec_set_transport_error, spec_set_transport_priority,
    spec_set_unit_start, spec_zero_continuity_counter, Packet, HEADER_SIZE, HEADER_SIZE_AF,
    MAX_PCR_BASE, MAX_PCR_EXT, MAX_PID, PACKET_SIZE, PAYLOAD_SIZE, STUFFING_BYTE,
};

verus! {

/// A higher-level representation of a transport stream packet.
///
/// It owns the bytes of one packet. Getters read a field of them; setters
/// write one and return the packet for the next call.
#[derive(Clone, Copy)]
pub struct PacketInfo {
    packet: Packet,
}

impl View for PacketInfo {
    type V = Seq<u8>;

    /// The 188 bytes of the packet.
    closed spec fn view(&self) -> Seq<u8> {
        self.packet@
    }
}

impl PacketInfo {
    /// The view of a packet has 188 bytes.
    pub proof fn lemma_view_len(&self)
        ensures
            self@.len() == PACKET_SIZE,
    {
    }

    /// Get a new null packet.
    pub fn null_packet() -> (info: Self)
        ensures
            info@ == spec_null_packet(),
            header_of(info@) == null_packet_header(),
            forall|i: int|
                0 <= i < PAYLOAD_SIZE ==> #[trigger] spec_payload(info@)[i] == STUFFING_BYTE,
    {
        PacketInfo { packet: packet::null_packet() }
    }

    /// Set the transport error indicator.
    pub fn set_transport_error(&mut self) -> (chain: &mut Self)
        ensures
            chain@ == spec_set_transport_error(old(self)@),
            header_of(chain@) == (Header { transport_error: true, ..header_of(old(self)@) }),
            spec_payload(chain@) == spec_payload(old(self)@),
            *final(self) == *final(chain),
    {
        packet::set_transport_error(&mut self.packet);
        self
    }

    /// Is the transport error indicator set?
    pub fn has_transport_error(&self) -> (set: bool)
        ensures
            set == spec_has_transport_error(self@),
    {
        packet::has_transport_error(&self.packet)
    }

    /// Set the unit start indicator.
    pub fn set_unit_start(&mut self) -> (chain: &mut Self)
        ensures
            chain@ == spec_set_unit_start(old(self)@),
            header_of(chain@) == (Header { unit_start: true, ..header_of(old(self)@) }),
            spec_payload(chain@) == spec_payload(old(self)@),
            *final(self) == *final(chain),
    {
        packet::set_unit_start(&mut self.packet);
        self
    }

    /// Is the unit start indicator set?
    pub fn has_unit_start(&self) -> (set: bool)
        ensures
            set == spec_has_unit_start(self@),
    {
        packet::has_unit_start(&self.packet)
    }

    /// Set the transport priority indicator.
    pub fn set_transport_priority(&mut self) -> (chain: &mut Self)
        ensures
            chain@ == spec_set_transport_priority(old(self)@),
            header_of(chain@) == (Header {
                transport_priority: true,
                ..header_of(old(self)@)
            }),
            spec_payload(chain@) == spec_payload(old(self)@),
            *final(self) == *final(chain),
    {
        packet::set_transport_priority(&mut self.packet);
        self
    }

    /// Is the transport priority indicator set?
    pub fn has_transport_priority(&self) -> (set: bool)
        ensures
            set == spec_has_transport_priority(self@),
    {
        packet::has_transport_priority(&self.packet)
    }

    /// Set the payload present indicator.
    pub fn set_payload(&mut self) -> (chain: &mut Self)
        ensures
            chain@ == spec_set_payload(old(self)@),
            header_of(chain@) == (Header { payload: true, ..header_of(old(self)@) }),
            spec_payload(chain@) == spec_payload(old(self)@),
            *final(self) == *final(chain),
    {
        packet::set_payload(&mut self.packet);
        self
    }

    /// Does the packet have a payload indicator?
    pub fn has_payload(&self) -> (set: bool)
        ensures
            set == spec_has_payload(self@),
    {
        packet::has_payload(&self.packet)
    }

    /// Get the payload as a slice of bytes.
    pub fn payload(&self) -> (bytes: &[u8])
        ensures
            bytes@ == spec_payload(self@),
            bytes@.len() == PAYLOAD_SIZE,
            forall|i: int| 0 <= i < PAYLOAD_SIZE ==> bytes@[i] == self@[HEADER_SIZE + i],
    {
        packet::payload(&self.packet)
    }

    /// Set the PID. Max: 8191 (0x1fff); a larger value is taken modulo 8192.
    pub fn set_pid(&mut self, pid: u16) -> (chain: &mut Self)
        ensures
            chain@ == spec_set_pid(old(self)@, pid),
            header_of(chain@) == (Header { pid: pid % 0x2000, ..header_of(old(self)@) }),
            pid <= MAX_PID ==> spec_pid(chain@) == pid,
            spec_payload(chain@) == spec_payload(old(self)@),
            *final(self) == *final(chain),
    {
        packet::set_pid(&mut self.packet, pid);
        self
    }

    /// Get the value of the PID.
    pub fn pid(&self) -> (pid: u16)
        ensures
            pid == spec_pid(self@),
            pid <= MAX_PID,
    {
        packet::pid(&self.packet)
    }

    /// Set the continuity counter. Max: 15; a larger value is taken modulo
    /// 16.
    pub fn set_continuity_counter(&mut self, cc: u8) -> (chain: &mut Self)
        ensures
            chain@ == spec_set_continuity_counter(old(self)@, cc),
            header_of(chain@) == (Header {
                continuity_counter: cc % 16,
                ..header_of(old(self)@)
            }),
            cc <= 15 ==> spec_continuity_counter(chain@) == cc,
            spec_payload(chain@) == spec_payload(old(self)@),
            *final(self) == *final(chain),
    {
        packet::set_continuity_counter(&mut self.packet, cc);
        self
    }

    /// Reset the continuity counter to zero.
    pub fn zero_continuity_counter(&mut self) -> (chain: &mut Self)
        ensures
            chain@ == spec_zero_continuity_counter(old(self)@),
            chain@ == spec_set_continuity_counter(old(self)@, 0),
            header_of(chain@) == (Header { continuity_counter: 0, ..header_of(old(self)@) }),
            spec_payload(chain@) == spec_payload(old(self)@),
            *final(self) == *final(chain),
    {
        packet::zero_continuity_counter(&mut self.packet);
        self
    }

    /// Get the value of the continuity counter.
    pub fn continuity_counter(&self) -> (cc: u8)
        ensures
            cc == spec_continuity_counter(self@),
            cc <= 15,
    {
        packet::continuity_counter(&self.packet)
    }

    /// Set the adaptation field length (and indicator).
    ///
    /// With a length of one or more the four adaptation flags are cleared,
    /// and with a length of two or more the rest of the packet is filled
    /// with stuffing, to the last byte. Call this before the payload is
    /// written, never after.
    pub fn set_adaptation_field(&mut self, length: u8) -> (chain: &mut Self)
        ensures
            chain@ == spec_set_adaptation_field(old(self)@, length),
            header_of(chain@) == header_of(old(self)@).with_adaptation_field(length),
            length >= 1 ==> chain@[5] == 0,
            length >= 2 ==> forall|i: int|
                HEADER_SIZE_AF <= i < PACKET_SIZE ==> chain@[i] == STUFFING_BYTE,
            *final(self) == *final(chain),
    {
        packet::set_adaptation_field(&mut self.packet, length);
        self
    }

    /// Is the adaptation field indicator set?
    pub fn has_adaptation_field(&self) -> (set: bool)
        ensures
            set == spec_has_adaptation_field(self@),
    {
        packet::has_adaptation_field(&self.packet)
    }

    /// Get the adaptation field length.
    pub fn adaptation_field(&self) -> (length: u8)
        ensures
            length == spec_adaptation_field(self@),
    {
        packet::adaptation_field(&self.packet)
    }

    /// Set the scrambling mode. Max: 3; a larger value is taken modulo 4.
    pub fn set_scrambling(&mut self, scrambling: u8) -> (chain: &mut Self)
        ensures
            chain@ == spec_set_scrambling(old(self)@, scrambling),
            header_of(chain@) == (Header {
                scrambling: scrambling % 4,
                ..header_of(old(self)@)
            }),
            scrambling <= 3 ==> spec_scrambling(chain@) == scrambling,
            spec_payload(chain@) == spec_payload(old(self)@),
            *final(self) == *final(chain),
    {
        packet::set_scrambling(&mut self.packet, scrambling);
        self
    }

    /// Get the scrambling mode.
    pub fn scrambling(&self) -> (scrambling: u8)
        ensures
            scrambling == spec_scrambling(self@),
            scrambling <= 3,
    {
        packet::scrambling(&self.packet)
    }

    /// Set the discontinuity indicator.
    pub fn set_discontinuity(&mut self) -> (chain: &mut Self)
        ensures
            chain@ == spec_set_discontinuity(old(self)@),
            header_of(chain@) == (Header { discontinuity: true, ..header_of(old(self)@) }),
            *final(self) == *final(chain),
    {
        packet::set_discontinuity(&mut self.packet);
        self
    }

    /// Clear the discontinuity indicator.
    pub fn clear_discontinuity(&mut self) -> (chain: &mut Self)
        ensures
            chain@ == spec_clear_discontinuity(old(self)@),
            header_of(chain@) == (Header { discontinuity: false, ..header_of(old(self)@) }),
            *final(self) == *final(chain),
    {
        packet::clear_discontinuity(&mut self.packet);
        self
    }

    /// Is the discontinuity indicator set?
    pub fn has_discontinuity(&self) -> (set: bool)
        ensures
            set == spec_has_discontinuity(self@),
    {
        packet::has_discontinuity(&self.packet)
    }

    /// Set the random access indicator.
    pub fn set_random_access(&mut self) -> (chain: &mut Self)
        ensures
            chain@ == spec_set_random_access(old(self)@),
            header_of(chain@) == (Header { random_access: true, ..header_of(old(self)@) }),
            *final(self) == *final(chain),
    {
        packet::set_random_access(&mut self.packet);
        self
    }

    /// Is the random access indicator set?
    pub fn has_random_access(&self) -> (set: bool)
        ensures
            set == spec_has_random_access(self@),
    {
        packet::has_random_access(&self.packet)
    }

    /// Set the stream priority indicator.
    pub fn set_stream_priority(&mut self) -> (chain: &mut Self)
        ensures
            chain@ == spec_set_stream_priority(old(self)@),
            header_of(chain@) == (Header { stream_priority: true, ..header_of(old(self)@) }),
            *final(self) == *final(chain),
    {
        packet::set_stream_priority(&mut self.packet);
        self
    }

    /// Is the stream priority indicator set?
    pub fn has_stream_priority(&self) -> (set: bool)
        ensures
            set == spec_has_stream_priority(self@),
    {
        packet::has_stream_priority(&self.packet)
    }

    /// Set the programme clock reference.
    ///
    /// `pcr` is the 33-bit base; a larger value is taken modulo 2^33.
    pub fn set_pcr(&mut self, pcr: u64) -> (chain: &mut Self)
        ensures
            chain@ == spec_set_pcr(old(self)@, pcr),
            header_of(chain@) == (Header {
                pcr_present: true,
                pcr: pcr % 0x2_0000_0000,
                ..header_of(old(self)@)
            }),
            pcr <= MAX_PCR_BASE ==> spec_pcr(chain@) == pcr,
            chain@[10] & 0x7e == 0x7e,
            *final(self) == *final(chain),
    {
        packet::set_pcr(&mut self.packet, pcr);
        self
    }

    /// Does the packet have a programme clock reference field?
    /// Only valid if it has an adaptation field.
    pub fn has_pcr(&self) -> (set: bool)
        ensures
            set == spec_has_pcr(self@),
    {
        packet::has_pcr(&self.packet)
    }

    /// Get the programme clock reference.
    pub fn pcr(&self) -> (pcr: u64)
        ensures
            pcr == spec_pcr(self@),
            pcr <= MAX_PCR_BASE,
    {
        packet::pcr(&self.packet)
    }

    /// Set the programme clock reference extension. Max: 511; a larger
    /// value is taken modulo 512.
    pub fn set_pcr_ext(&mut self, ext: u16) -> (chain: &mut Self)
        ensures
            chain@ == spec_set_pcr_ext(old(self)@, ext),
            header_of(chain@) == (Header { pcr_ext: ext % 0x200, ..header_of(old(self)@) }),
            ext <= MAX_PCR_EXT ==> spec_pcr_ext(chain@) == ext,
            chain@[10] & 0x7e == old(self)@[10] & 0x7e,
            *final(self) == *final(chain),
    {
        packet::set_pcr_ext(&mut self.packet, ext);
        self
    }

    /// Get the programme clock reference extension.
    pub fn pcr_ext(&self) -> (ext: u16)
        ensures
            ext == spec_pcr_ext(self@),
            ext <= MAX_PCR_EXT,
    {
        packet::pcr_ext(&self.packet)
    }
}

impl vstd::std_specs::convert::FromSpecImpl<Packet> for PacketInfo {
    open spec fn obeys_from_spec() -> bool {
        true
    }

    closed spec fn from_spec(pkt: Packet) -> PacketInfo {
        PacketInfo { packet: pkt }
    }
}

impl From<Packet> for PacketInfo {
    /// Wrap the bytes of a packet, as they are.
    fn from(pkt: Packet) -> (info: Self)
        ensures
            info@ == pkt@,
    {
        PacketInfo { packet: pkt }
    }
}

impl vstd::std_specs::convert::IntoSpecImpl<Packet> for PacketInfo {
    open spec fn obeys_into_spec() -> bool {
        true
    }

    closed spec fn into_spec(self) -> Packet {
        self.packet
    }
}

impl Into<Packet> for PacketInfo {
    /// Hand out the bytes of the packet, as they are.
    fn into(self) -> (pkt: Packet)
        ensures
            array_view(pkt) == self@,
    {
        self.packet
    }
}

impl Default for PacketInfo {
    /// The null packet.
    fn default() -> (info: Self)
        ensures
            info@ == spec_null_packet(),
            header_of(info@) == null_packet_header(),
    {
        PacketInfo::null_packet()
    }
}

} // verus!
