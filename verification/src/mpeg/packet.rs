//! Field codec for the 188-byte transport packet.
//!
//! Every function reads or writes one header field in place, on a buffer
//! that the caller owns. Nothing is validated: a value that is too wide for
//! its field is cut to the field's width, and a getter returns whatever the
//! bytes at the field's place hold.
//!
//! | Bytes | Bits   | Field                               |
//! |-------|--------|-------------------------------------|
//! | 0     | all    | sync byte, `0x47`                   |
//! | 1     | `0x80` | transport error indicator           |
//! | 1     | `0x40` | payload unit start indicator        |
//! | 1     | `0x20` | transport priority indicator        |
//! | 1, 2  | `0x1f`, all | PID, 13 bits                   |
//! | 3     | `0xc0` | scrambling control                  |
//! | 3     | `0x20` | adaptation field indicator          |
//! | 3     | `0x10` | payload indicator                   |
//! | 3     | `0x0f` | continuity counter                  |
//! | 4     | all    | adaptation field length             |
//! | 5     | `0x80` | discontinuity indicator             |
//! | 5     | `0x40` | random access indicator             |
//! | 5     | `0x20` | stream priority indicator           |
//! | 5     | `0x10` | PCR flag                            |
//! | 6..10 | 33 bits | PCR base, ending in bit `0x80` of byte 10 |
//! | 10    | `0x7e` | reserved, all ones                  |
//! | 10, 11 | `0x01`, all | PCR extension, 9 bits         |
//!
//! For each field there is a specification function on the packet's bytes
//! (`spec_pid`, `spec_set_pid`, ...) and an executable function that meets it.
//! A setter also states its effect on the decoded [`Header`]: the one field
//! it is about takes the new value and every other field keeps its own.

use vstd::prelude::*;
use crate::mpeg::bits::{merge_bits, spec_merge_bits};
use crate::mpeg::header::{header_of, null_packet_header, Header};
use crate::mpeg::laws::{
    lemma_clear_discontinuity_header, lemma_field_bits, lemma_null_packet_header,
    lemma_set_adaptation_field_header, lemma_set_continuity_counter_header,
    lemma_set_discontinuity_header, lemma_set_payload_header, lemma_set_pcr_ext_header,
    lemma_set_pcr_header, lemma_set_pid_header, lemma_set_random_access_header,
    lemma_set_scrambling_header, lemma_set_stream_priority_header,
    lemma_set_transport_error_header, lemma_set_transport_priority_header,
    lemma_set_unit_start_header, lemma_zero_continuity_counter_header,
};

verus! {

/// Size of a transport packet, in bytes.
pub const PACKET_SIZE: usize = 188;

/// Size of the fixed part of the header.
pub const HEADER_SIZE: usize = 4;

/// Size of the header up to and including the adaptation flags.
pub const HEADER_SIZE_AF: usize = 6;

/// Size of the header up to and including the programme clock reference.
pub const HEADER_SIZE_PCR: usize = 12;

/// Number of bytes that follow the fixed part of the header.
pub const PAYLOAD_SIZE: usize = PACKET_SIZE - HEADER_SIZE;

/// Value of the first byte of every transport packet.
pub const SYNC_BYTE: u8 = 0x47;

/// Largest PID: 13 bits.
pub const MAX_PID: u16 = 0x1FFF;

/// PID of null packets.
pub const NULL_PACKET_PID: u16 = MAX_PID;

/// Where the 27 MHz programme clock wraps around: 2^33 * 300.
pub const PCR_MAX: u64 = 2576980377600;

/// Rate of the programme clock, in Hz.
pub const PCR_RATE: usize = 27000000;

/// Largest PCR base: 33 bits.
pub const MAX_PCR_BASE: u64 = 0x1_FFFF_FFFF;

/// Largest PCR extension: 9 bits.
pub const MAX_PCR_EXT: u16 = 0x1FF;

/// Largest size of a section.
pub const SECTION_MAX_SIZE: usize = 0x1000;

/// Scrambling control: not scrambled.
pub const SCRAMBLING_CLEAR: u8 = 0;

/// Scrambling control: scrambled with the even key.
pub const SCRAMBLING_EVEN: u8 = 2;

/// Scrambling control: scrambled with the odd key.
pub const SCRAMBLING_ODD: u8 = 3;

/// Value of the bytes that carry nothing.
pub const STUFFING_BYTE: u8 = 0xff;

/// A transport packet.
pub type Packet = [u8; PACKET_SIZE];

/// The bytes of the null packet: `47 1f ff 10`, then stuffing.
pub open spec fn spec_null_packet() -> Seq<u8> {
    Seq::new(
        PACKET_SIZE as nat,
        |i: int|
            if i == 0 {
                SYNC_BYTE
            } else if i == 1 {
                0x1fu8
            } else if i == 3 {
                0x10u8
            } else {
                STUFFING_BYTE
            },
    )
}

/// Get a new null packet.
///
/// It has the sync byte, the PID of null packets, the payload indicator and
/// a continuity counter of zero. Its transport flags are clear, it is not
/// scrambled and it announces no adaptation field. Every byte behind the
/// fixed header is stuffing, so the discontinuity bit reads as set.
pub fn null_packet() -> (packet: Packet)
    ensures
        packet@ == spec_null_packet(),
        header_of(packet@) == null_packet_header(),
        forall|i: int| 0 <= i < PAYLOAD_SIZE ==> #[trigger] spec_payload(packet@)[i] == STUFFING_BYTE,
{
    let mut packet: Packet = [STUFFING_BYTE; PACKET_SIZE];
    packet[0] = SYNC_BYTE;
    packet[1] = 0x1f;
    packet[3] = 0x10;
    proof {
        lemma_null_packet_header();
    }
    packet
}

/// Whether the transport error indicator is set in `p`.
pub open spec fn spec_has_transport_error(p: Seq<u8>) -> bool {
    p[1] & 0x80 != 0
}

/// `p` with the transport error indicator set.
pub open spec fn spec_set_transport_error(p: Seq<u8>) -> Seq<u8> {
    p.update(1, p[1] | 0x80)
}

/// Set the transport error indicator.
pub fn set_transport_error(packet: &mut Packet)
    ensures
        final(packet)@ == spec_set_transport_error(old(packet)@),
        header_of(final(packet)@) == (Header {
            transport_error: true,
            ..header_of(old(packet)@)
        }),
        spec_payload(final(packet)@) == spec_payload(old(packet)@),
{
    packet[1] |= 0x80;
    proof {
        lemma_set_transport_error_header(old(packet)@);
    }
}

/// Is the transport error indicator set?
pub fn has_transport_error(packet: &Packet) -> (set: bool)
    ensures
        set == spec_has_transport_error(packet@),
{
    packet[1] & 0x80 != 0
}

/// Whether the unit start indicator is set in `p`.
pub open spec fn spec_has_unit_start(p: Seq<u8>) -> bool {
    p[1] & 0x40 != 0
}

/// `p` with the unit start indicator set.
pub open spec fn spec_set_unit_start(p: Seq<u8>) -> Seq<u8> {
    p.update(1, p[1] | 0x40)
}

/// Set the unit start indicator.
pub fn set_unit_start(packet: &mut Packet)
    ensures
        final(packet)@ == spec_set_unit_start(old(packet)@),
        header_of(final(packet)@) == (Header { unit_start: true, ..header_of(old(packet)@) }),
        spec_payload(final(packet)@) == spec_payload(old(packet)@),
{
    packet[1] |= 0x40;
    proof {
        lemma_set_unit_start_header(old(packet)@);
    }
}

/// Is the unit start indicator set?
pub fn has_unit_start(packet: &Packet) -> (set: bool)
    ensures
        set == spec_has_unit_start(packet@),
{
    packet[1] & 0x40 != 0
}

/// Whether the transport priority indicator is set in `p`.
pub open spec fn spec_has_transport_priority(p: Seq<u8>) -> bool {
    p[1] & 0x20 != 0
}

/// `p` with the transport priority indicator set.
pub open spec fn spec_set_transport_priority(p: Seq<u8>) -> Seq<u8> {
    p.update(1, p[1] | 0x20)
}

/// Set the transport priority indicator.
pub fn set_transport_priority(packet: &mut Packet)
    ensures
        final(packet)@ == spec_set_transport_priority(old(packet)@),
        header_of(final(packet)@) == (Header {
            transport_priority: true,
            ..header_of(old(packet)@)
        }),
        spec_payload(final(packet)@) == spec_payload(old(packet)@),
{
    packet[1] |= 0x20;
    proof {
        lemma_set_transport_priority_header(old(packet)@);
    }
}

/// Is the transport priority indicator set?
pub fn has_transport_priority(packet: &Packet) -> (set: bool)
    ensures
        set == spec_has_transport_priority(packet@),
{
    packet[1] & 0x20 != 0
}

/// Whether the payload indicator is set in `p`.
pub open spec fn spec_has_payload(p: Seq<u8>) -> bool {
    p[3] & 0x10 != 0
}

/// `p` with the payload indicator set.
pub open spec fn spec_set_payload(p: Seq<u8>) -> Seq<u8> {
    p.update(3, p[3] | 0x10)
}

/// Set the payload present indicator.
pub fn set_payload(packet: &mut Packet)
    ensures
        final(packet)@ == spec_set_payload(old(packet)@),
        header_of(final(packet)@) == (Header { payload: true, ..header_of(old(packet)@) }),
        spec_payload(final(packet)@) == spec_payload(old(packet)@),
{
    packet[3] |= 0x10;
    proof {
        lemma_set_payload_header(old(packet)@);
    }
}

/// Is the payload present indicator set?
pub fn has_payload(packet: &Packet) -> (set: bool)
    ensures
        set == spec_has_payload(packet@),
{
    packet[3] & 0x10 != 0
}

/// The bytes of `p` behind the fixed part of the header.
pub open spec fn spec_payload(p: Seq<u8>) -> Seq<u8> {
    p.subrange(HEADER_SIZE as int, PACKET_SIZE as int)
}

/// Get the payload as a slice of bytes.
///
/// These are the 184 bytes behind the fixed part of the header, the
/// adaptation field among them where the packet has one.
pub fn payload(packet: &Packet) -> (bytes: &[u8])
    ensures
        bytes@ == spec_payload(packet@),
        bytes@.len() == PAYLOAD_SIZE,
        forall|i: int| 0 <= i < PAYLOAD_SIZE ==> bytes@[i] == packet@[HEADER_SIZE + i],
{
    &packet[HEADER_SIZE..PACKET_SIZE]
}

/// The PID that `p` holds: the number of 13 bits whose high five are the
/// low five of byte 1 and whose low eight are byte 2.
pub open spec fn spec_pid(p: Seq<u8>) -> u16 {
    ((p[1] % 0x20) * 0x100 + p[2]) as u16
}

/// `p` with the low 13 bits of `pid` as its PID.
pub open spec fn spec_set_pid(p: Seq<u8>, pid: u16) -> Seq<u8> {
    p.update(1, spec_merge_bits(p[1], 0x1f, ((pid >> 8) & 0xff) as u8)).update(
        2,
        (pid & 0xff) as u8,
    )
}

/// Set the PID. Max: 8191 (0x1fff); of a larger value the low 13 bits are
/// taken.
pub fn set_pid(packet: &mut Packet, pid: u16)
    ensures
        final(packet)@ == spec_set_pid(old(packet)@, pid),
        header_of(final(packet)@) == (Header { pid: pid % 0x2000, ..header_of(old(packet)@) }),
        pid <= MAX_PID ==> spec_pid(final(packet)@) == pid,
        spec_payload(final(packet)@) == spec_payload(old(packet)@),
{
    packet[1] = merge_bits(packet[1], 0x1f, ((pid >> 8) & 0xff) as u8);
    packet[2] = (pid & 0xff) as u8;
    proof {
        lemma_set_pid_header(old(packet)@, pid);
    }
}

/// Get the value of the PID.
pub fn pid(packet: &Packet) -> (pid: u16)
    ensures
        pid == spec_pid(packet@),
        pid <= MAX_PID,
{
    proof {
        lemma_field_bits(packet@);
    }
    (((packet[1] & 0x1f) as u16) << 8) | (packet[2] as u16)
}

/// The continuity counter that `p` holds: the low four bits of byte 3.
pub open spec fn spec_continuity_counter(p: Seq<u8>) -> u8 {
    p[3] % 0x10
}

/// `p` with the low 4 bits of `cc` as its continuity counter.
pub open spec fn spec_set_continuity_counter(p: Seq<u8>, cc: u8) -> Seq<u8> {
    p.update(3, spec_merge_bits(p[3], 0x0f, cc))
}

/// Set the continuity counter. Max: 15; a larger value is taken modulo 16.
pub fn set_continuity_counter(packet: &mut Packet, cc: u8)
    ensures
        final(packet)@ == spec_set_continuity_counter(old(packet)@, cc),
        header_of(final(packet)@) == (Header {
            continuity_counter: cc % 16,
            ..header_of(old(packet)@)
        }),
        cc <= 15 ==> spec_continuity_counter(final(packet)@) == cc,
        spec_payload(final(packet)@) == spec_payload(old(packet)@),
{
    packet[3] = merge_bits(packet[3], 0x0f, cc);
    proof {
        lemma_set_continuity_counter_header(old(packet)@, cc);
    }
}

/// `p` with a continuity counter of zero.
pub open spec fn spec_zero_continuity_counter(p: Seq<u8>) -> Seq<u8> {
    p.update(3, p[3] & 0xf0)
}

/// Reset the continuity counter to zero.
pub fn zero_continuity_counter(packet: &mut Packet)
    ensures
        final(packet)@ == spec_zero_continuity_counter(old(packet)@),
        final(packet)@ == spec_set_continuity_counter(old(packet)@, 0),
        header_of(final(packet)@) == (Header {
            continuity_counter: 0,
            ..header_of(old(packet)@)
        }),
        spec_payload(final(packet)@) == spec_payload(old(packet)@),
{
    packet[3] = packet[3] & 0xf0;
    proof {
        lemma_zero_continuity_counter_header(old(packet)@);
    }
}

/// Get the value of the continuity counter.
pub fn continuity_counter(packet: &Packet) -> (cc: u8)
    ensures
        cc == spec_continuity_counter(packet@),
        cc <= 15,
{
    proof {
        lemma_field_bits(packet@);
    }
    packet[3] & 0x0f
}

/// Whether the adaptation field indicator is set in `p`.
pub open spec fn spec_has_adaptation_field(p: Seq<u8>) -> bool {
    p[3] & 0x20 != 0
}

/// The adaptation field length that `p` holds.
pub open spec fn spec_adaptation_field(p: Seq<u8>) -> u8 {
    p[4]
}

/// `p` with a fresh adaptation field of the given length.
///
/// The indicator is set and the length written. With a length of one or
/// more the flags byte is zero; with a length of two or more every byte from
/// the sixth to the end of the packet is stuffing.
pub open spec fn spec_set_adaptation_field(p: Seq<u8>, length: u8) -> Seq<u8> {
    Seq::new(
        p.len(),
        |i: int|
            if i == 3 {
                p[3] | 0x20
            } else if i == 4 {
                length
            } else if i == 5 && length >= 1 {
                0x00u8
            } else if i >= HEADER_SIZE_AF && length >= 2 {
                STUFFING_BYTE
            } else {
                p[i]
            },
    )
}

/// Set the adaptation field length (and indicator).
///
/// A new adaptation field starts out empty: with a length of one or more
/// its four flags are cleared, and with a length of two or more the rest of
/// the packet is filled with stuffing, to the last byte and whatever the
/// length. Call this before the payload is written, never after.
pub fn set_adaptation_field(packet: &mut Packet, length: u8)
    ensures
        final(packet)@ == spec_set_adaptation_field(old(packet)@, length),
        header_of(final(packet)@) == header_of(old(packet)@).with_adaptation_field(length),
        length >= 1 ==> final(packet)@[5] == 0,
        length >= 2 ==> forall|i: int|
            HEADER_SIZE_AF <= i < PACKET_SIZE ==> final(packet)@[i] == STUFFING_BYTE,
{
    packet[3] |= 0x20;
    packet[4] = length;
    if length > 0 {
        packet[5] = 0x00;
    }
    if length > 1 {
        for i in HEADER_SIZE_AF..PACKET_SIZE
            invariant
                forall|j: int| 0 <= j < HEADER_SIZE_AF ==> packet@[j] == spec_set_adaptation_field(
                    old(packet)@,
                    length,
                )[j],
                forall|j: int| HEADER_SIZE_AF <= j < i ==> packet@[j] == STUFFING_BYTE,
        {
            packet[i] = STUFFING_BYTE;
        }
    }
    proof {
        lemma_set_adaptation_field_header(old(packet)@, length);
    }
}

/// Is the adaptation field indicator set?
pub fn has_adaptation_field(packet: &Packet) -> (set: bool)
    ensures
        set == spec_has_adaptation_field(packet@),
{
    packet[3] & 0x20 != 0
}

/// Get the adaptation field length.
pub fn adaptation_field(packet: &Packet) -> (length: u8)
    ensures
        length == spec_adaptation_field(packet@),
{
    packet[4]
}

/// The scrambling mode that `p` holds: the high two bits of byte 3.
pub open spec fn spec_scrambling(p: Seq<u8>) -> u8 {
    p[3] / 0x40
}

/// `p` with the low 2 bits of `scrambling` as its scrambling mode.
pub open spec fn spec_set_scrambling(p: Seq<u8>, scrambling: u8) -> Seq<u8> {
    p.update(3, spec_merge_bits(p[3], 0xc0, (scrambling & 0x03) << 6))
}

/// Set the scrambling mode. Max: 3; of a larger value the low 2 bits are
/// taken.
pub fn set_scrambling(packet: &mut Packet, scrambling: u8)
    ensures
        final(packet)@ == spec_set_scrambling(old(packet)@, scrambling),
        header_of(final(packet)@) == (Header {
            scrambling: scrambling % 4,
            ..header_of(old(packet)@)
        }),
        scrambling <= 3 ==> spec_scrambling(final(packet)@) == scrambling,
        spec_payload(final(packet)@) == spec_payload(old(packet)@),
{
    packet[3] = merge_bits(packet[3], 0xc0, (scrambling & 0x03) << 6);
    proof {
        lemma_set_scrambling_header(old(packet)@, scrambling);
    }
}

/// Get the scrambling mode.
pub fn scrambling(packet: &Packet) -> (scrambling: u8)
    ensures
        scrambling == spec_scrambling(packet@),
        scrambling <= 3,
{
    proof {
        lemma_field_bits(packet@);
    }
    (packet[3] & 0xc0) >> 6
}

/// Whether the discontinuity indicator is set in `p`.
pub open spec fn spec_has_discontinuity(p: Seq<u8>) -> bool {
    p[5] & 0x80 != 0
}

/// `p` with the discontinuity indicator set.
pub open spec fn spec_set_discontinuity(p: Seq<u8>) -> Seq<u8> {
    p.update(5, p[5] | 0x80)
}

/// `p` with the discontinuity indicator clear.
pub open spec fn spec_clear_discontinuity(p: Seq<u8>) -> Seq<u8> {
    p.update(5, p[5] & !0x80u8)
}

/// Set the discontinuity indicator.
pub fn set_discontinuity(packet: &mut Packet)
    ensures
        final(packet)@ == spec_set_discontinuity(old(packet)@),
        header_of(final(packet)@) == (Header { discontinuity: true, ..header_of(old(packet)@) }),
{
    packet[5] |= 0x80;
    proof {
        lemma_set_discontinuity_header(old(packet)@);
    }
}

/// Clear the discontinuity indicator.
pub fn clear_discontinuity(packet: &mut Packet)
    ensures
        final(packet)@ == spec_clear_discontinuity(old(packet)@),
        header_of(final(packet)@) == (Header {
            discontinuity: false,
            ..header_of(old(packet)@)
        }),
{
    packet[5] &= !0x80u8;
    proof {
        lemma_clear_discontinuity_header(old(packet)@);
    }
}

/// Is the discontinuity indicator set?
pub fn has_discontinuity(packet: &Packet) -> (set: bool)
    ensures
        set == spec_has_discontinuity(packet@),
{
    packet[5] & 0x80 != 0
}

/// Whether the random access indicator is set in `p`.
pub open spec fn spec_has_random_access(p: Seq<u8>) -> bool {
    p[5] & 0x40 != 0
}

/// `p` with the random access indicator set.
pub open spec fn spec_set_random_access(p: Seq<u8>) -> Seq<u8> {
    p.update(5, p[5] | 0x40)
}

/// Set the random access indicator.
pub fn set_random_access(packet: &mut Packet)
    ensures
        final(packet)@ == spec_set_random_access(old(packet)@),
        header_of(final(packet)@) == (Header { random_access: true, ..header_of(old(packet)@) }),
{
    packet[5] |= 0x40;
    proof {
        lemma_set_random_access_header(old(packet)@);
    }
}

/// Is the random access indicator set?
pub fn has_random_access(packet: &Packet) -> (set: bool)
    ensures
        set == spec_has_random_access(packet@),
{
    packet[5] & 0x40 != 0
}

/// Whether the stream priority indicator is set in `p`.
pub open spec fn spec_has_stream_priority(p: Seq<u8>) -> bool {
    p[5] & 0x20 != 0
}

/// `p` with the stream priority indicator set.
pub open spec fn spec_set_stream_priority(p: Seq<u8>) -> Seq<u8> {
    p.update(5, p[5] | 0x20)
}

/// Set the stream priority indicator.
pub fn set_stream_priority(packet: &mut Packet)
    ensures
        final(packet)@ == spec_set_stream_priority(old(packet)@),
        header_of(final(packet)@) == (Header {
            stream_priority: true,
            ..header_of(old(packet)@)
        }),
{
    packet[5] |= 0x20;
    proof {
        lemma_set_stream_priority_header(old(packet)@);
    }
}

/// Is the stream priority indicator set?
pub fn has_stream_priority(packet: &Packet) -> (set: bool)
    ensures
        set == spec_has_stream_priority(packet@),
{
    packet[5] & 0x20 != 0
}

/// Whether the PCR flag is set in `p`.
pub open spec fn spec_has_pcr(p: Seq<u8>) -> bool {
    p[5] & 0x10 != 0
}

/// The PCR base that `p` holds: the number of 33 bits that bytes 6 to 9
/// and the top bit of byte 10 spell, most significant byte first.
pub open spec fn spec_pcr(p: Seq<u8>) -> u64 {
    (p[6] * 0x200_0000 + p[7] * 0x2_0000 + p[8] * 0x200 + p[9] * 2 + p[10] / 0x80) as u64
}

/// `p` with the PCR flag set and the low 33 bits of `pcr` as its PCR base.
///
/// Bits 32 to 1 fill bytes 6 to 9 and bit 0 is the top bit of byte 10. The
/// six reserved bits behind it are ones. The lowest bit of byte 10 belongs
/// to the PCR extension and stays.
pub open spec fn spec_set_pcr(p: Seq<u8>, pcr: u64) -> Seq<u8> {
    p.update(5, p[5] | 0x10).update(6, ((pcr >> 25) & 0xff) as u8).update(
        7,
        ((pcr >> 17) & 0xff) as u8,
    ).update(8, ((pcr >> 9) & 0xff) as u8).update(9, ((pcr >> 1) & 0xff) as u8).update(
        10,
        spec_merge_bits(p[10], 0xfe, 0x7e | (((pcr & 0x01) as u8) << 7)),
    )
}

/// Set the programme clock reference.
///
/// `pcr` is the 33-bit base; of a larger value the low 33 bits are taken.
pub fn set_pcr(packet: &mut Packet, pcr: u64)
    ensures
        final(packet)@ == spec_set_pcr(old(packet)@, pcr),
        header_of(final(packet)@) == (Header {
            pcr_present: true,
            pcr: pcr % 0x2_0000_0000,
            ..header_of(old(packet)@)
        }),
        pcr <= MAX_PCR_BASE ==> spec_pcr(final(packet)@) == pcr,
        final(packet)@[10] & 0x7e == 0x7e,
{
    packet[5] |= 0x10;
    packet[6] = ((pcr >> 25) & 0xff) as u8;
    packet[7] = ((pcr >> 17) & 0xff) as u8;
    packet[8] = ((pcr >> 9) & 0xff) as u8;
    packet[9] = ((pcr >> 1) & 0xff) as u8;
    packet[10] = merge_bits(packet[10], 0xfe, 0x7e | (((pcr & 0x01) as u8) << 7));
    proof {
        lemma_set_pcr_header(old(packet)@, pcr);
    }
}

/// Does the packet have a programme clock reference field?
/// Only valid if it has an adaptation field.
pub fn has_pcr(packet: &Packet) -> (set: bool)
    ensures
        set == spec_has_pcr(packet@),
{
    packet[5] & 0x10 != 0
}

/// Get the programme clock reference.
pub fn pcr(packet: &Packet) -> (pcr: u64)
    ensures
        pcr == spec_pcr(packet@),
        pcr <= MAX_PCR_BASE,
{
    proof {
        lemma_field_bits(packet@);
    }
    ((packet[6] as u64) << 25) | ((packet[7] as u64) << 17) | ((packet[8] as u64) << 9) | ((
    packet[9] as u64) << 1) | ((packet[10] as u64) >> 7)
}

/// The PCR extension that `p` holds: the number of 9 bits whose highest is
/// the lowest bit of byte 10 and whose low eight are byte 11.
pub open spec fn spec_pcr_ext(p: Seq<u8>) -> u16 {
    ((p[10] % 2) * 0x100 + p[11]) as u16
}

/// `p` with the low 9 bits of `ext` as its PCR extension.
///
/// Bit 8 is the lowest bit of byte 10, whose other bits stay, and bits 7 to
/// 0 fill byte 11.
pub open spec fn spec_set_pcr_ext(p: Seq<u8>, ext: u16) -> Seq<u8> {
    p.update(10, spec_merge_bits(p[10], 0x01, ((ext >> 8) & 0xff) as u8)).update(
        11,
        (ext & 0xff) as u8,
    )
}

/// Set the programme clock reference extension. Max: 511; of a larger value
/// the low 9 bits are taken.
pub fn set_pcr_ext(packet: &mut Packet, ext: u16)
    ensures
        final(packet)@ == spec_set_pcr_ext(old(packet)@, ext),
        header_of(final(packet)@) == (Header {
            pcr_ext: ext % 0x200,
            ..header_of(old(packet)@)
        }),
        ext <= MAX_PCR_EXT ==> spec_pcr_ext(final(packet)@) == ext,
        final(packet)@[10] & 0x7e == old(packet)@[10] & 0x7e,
{
    packet[10] = merge_bits(packet[10], 0x01, ((ext >> 8) & 0xff) as u8);
    packet[11] = (ext & 0xff) as u8;
    proof {
        lemma_set_pcr_ext_header(old(packet)@, ext);
    }
}

/// Get the programme clock reference extension.
pub fn pcr_ext(packet: &Packet) -> (ext: u16)
    ensures
        ext == spec_pcr_ext(packet@),
        ext <= MAX_PCR_EXT,
{
    proof {
        lemma_field_bits(packet@);
    }
    (((packet[10] & 0x01) as u16) << 8) | (packet[11] as u16)
}

} // verus!
