//! What holds of the field codec as a whole.
//!
//! The theorems here are stated over the specification functions of
//! [`packet`](crate::mpeg::packet), which the executable functions meet, so
//! each of them holds of every run of the codec:
//!
//! - a setter changes the field it is about and no other;
//! - a value that fits its field is read back as it was written;
//! - raising a flag twice is raising it once, and of two values written to
//!   one field the second stays;
//! - setters of different fields can be called in either order;
//! - the null packet decodes to the fields it is defined by;
//! - every field of several bits is the number that masking and shifting
//!   its bytes gives.

use vstd::prelude::*;
use crate::mpeg::bits::{lemma_merge_bits_last_wins, spec_merge_bits};
use crate::mpeg::header::{header_of, null_packet_header, Header};
use crate::mpeg::setter::Setter;
use crate::mpeg::packet::{
    spec_adaptation_field, spec_clear_discontinuity, spec_continuity_counter,
    spec_has_adaptation_field, spec_has_discontinuity, spec_has_payload, spec_has_pcr,
    spec_has_random_access, spec_has_stream_priority, spec_has_transport_error,
    spec_has_transport_priority, spec_has_unit_start, spec_null_packet, spec_payload, spec_pcr,
    spec_pcr_ext, spec_pid, spec_scrambling, spec_set_adaptation_field,
    spec_set_continuity_counter, spec_set_discontinuity, spec_set_payload, spec_set_pcr,
    spec_set_pcr_ext, spec_set_pid, spec_set_random_access, spec_set_scrambling,
    spec_set_stream_priority, spec_set_transport_error, spec_set_transport_priority,
    spec_set_unit_start, spec_zero_continuity_counter, HEADER_SIZE_AF, MAX_PCR_BASE, MAX_PCR_EXT,
    MAX_PID, PACKET_SIZE, PAYLOAD_SIZE, STUFFING_BYTE,
};

verus! {

// ---------------------------------------------------------------------------
// Facts about single bytes
// ---------------------------------------------------------------------------
/// Raising one of the four high bits of a byte leaves its other bits, and
/// so does clearing the highest.
proof fn lemma_raise_bit(b: u8)
    by (bit_vector)
    ensures
        (b | 0x80) & 0x80 != 0,
        (b | 0x80) & 0x40 == b & 0x40,
        (b | 0x80) & 0x20 == b & 0x20,
        (b | 0x80) & 0x10 == b & 0x10,
        (b | 0x80) % 0x20 == b % 0x20,
        (b | 0x40) & 0x40 != 0,
        (b | 0x40) & 0x80 == b & 0x80,
        (b | 0x40) & 0x20 == b & 0x20,
        (b | 0x40) & 0x10 == b & 0x10,
        (b | 0x40) % 0x20 == b % 0x20,
        (b | 0x20) & 0x20 != 0,
        (b | 0x20) & 0x80 == b & 0x80,
        (b | 0x20) & 0x40 == b & 0x40,
        (b | 0x20) & 0x10 == b & 0x10,
        (b | 0x20) % 0x20 == b % 0x20,
        (b | 0x20) / 0x40 == b / 0x40,
        (b | 0x20) % 0x10 == b % 0x10,
        (b | 0x10) & 0x10 != 0,
        (b | 0x10) & 0x80 == b & 0x80,
        (b | 0x10) & 0x40 == b & 0x40,
        (b | 0x10) & 0x20 == b & 0x20,
        (b | 0x10) / 0x40 == b / 0x40,
        (b | 0x10) % 0x10 == b % 0x10,
        (b & !0x80u8) & 0x80 == 0,
        (b & !0x80u8) & 0x40 == b & 0x40,
        (b & !0x80u8) & 0x20 == b & 0x20,
        (b & !0x80u8) & 0x10 == b & 0x10,
{
}

/// Raising the bits of a mask, or clearing them, a second time changes
/// nothing, and of a raise and a clear only the second is seen.
proof fn lemma_raise_twice(b: u8, mask: u8)
    by (bit_vector)
    ensures
        (b | mask) | mask == b | mask,
        (b & !mask) & !mask == b & !mask,
        (b | mask) & !mask == b & !mask,
        (b & !mask) | mask == b | mask,
{
}

/// Two of the four high bits of a byte can be raised in either order, and
/// the highest can be cleared before or after another is raised.
proof fn lemma_raises_commute(b: u8)
    by (bit_vector)
    ensures
        (b | 0x80) | 0x40 == (b | 0x40) | 0x80,
        (b | 0x80) | 0x20 == (b | 0x20) | 0x80,
        (b | 0x80) | 0x10 == (b | 0x10) | 0x80,
        (b | 0x40) | 0x20 == (b | 0x20) | 0x40,
        (b | 0x40) | 0x10 == (b | 0x10) | 0x40,
        (b | 0x20) | 0x10 == (b | 0x10) | 0x20,
        (b & !0x80u8) | 0x40 == (b | 0x40) & !0x80u8,
        (b & !0x80u8) | 0x20 == (b | 0x20) & !0x80u8,
        (b & !0x80u8) | 0x10 == (b | 0x10) & !0x80u8,
        (b | 0x20) & 0xf0 == (b & 0xf0) | 0x20,
        (b | 0x10) & 0xf0 == (b & 0xf0) | 0x10,
{
}

/// A field of several bits can be written before or after a bit outside it
/// is raised, and before or after a field that lies beside it is written.
proof fn lemma_merges_commute(b: u8, v: u8, w: u8)
    by (bit_vector)
    ensures
        spec_merge_bits(b | 0x80, 0x1f, v) == spec_merge_bits(b, 0x1f, v) | 0x80,
        spec_merge_bits(b | 0x40, 0x1f, v) == spec_merge_bits(b, 0x1f, v) | 0x40,
        spec_merge_bits(b | 0x20, 0x1f, v) == spec_merge_bits(b, 0x1f, v) | 0x20,
        spec_merge_bits(b | 0x20, 0xc0, v) == spec_merge_bits(b, 0xc0, v) | 0x20,
        spec_merge_bits(b | 0x10, 0xc0, v) == spec_merge_bits(b, 0xc0, v) | 0x10,
        spec_merge_bits(b & 0xf0, 0xc0, v) == spec_merge_bits(b, 0xc0, v) & 0xf0,
        spec_merge_bits(b | 0x20, 0x0f, w) == spec_merge_bits(b, 0x0f, w) | 0x20,
        spec_merge_bits(b | 0x10, 0x0f, w) == spec_merge_bits(b, 0x0f, w) | 0x10,
        spec_merge_bits(spec_merge_bits(b, 0x0f, w), 0xc0, v) == spec_merge_bits(
            spec_merge_bits(b, 0xc0, v),
            0x0f,
            w,
        ),
        spec_merge_bits(spec_merge_bits(b, 0x01, w), 0xfe, v) == spec_merge_bits(
            spec_merge_bits(b, 0xfe, v),
            0x01,
            w,
        ),
{
}

/// Once the PID bits of byte 1 have been replaced, giving `merged`, they
/// and byte 2 hold what was written, modulo 2^13, and the flags of byte 1
/// are as they were.
proof fn lemma_pid_bytes(b: u8, pid: u16, merged: u8)
    by (bit_vector)
    requires
        merged == spec_merge_bits(b, 0x1f, ((pid >> 8) & 0xff) as u8),
    ensures
        pid % 0x2000 == (merged % 0x20) * 0x100 + ((pid & 0xff) as u8),
        merged & 0x80 == b & 0x80,
        merged & 0x40 == b & 0x40,
        merged & 0x20 == b & 0x20,
{
}

/// The counter bits of byte 3 hold what was written, modulo 16, and the
/// other bits of the byte are not touched. Clearing them is writing zero.
proof fn lemma_counter_byte(b: u8, cc: u8)
    by (bit_vector)
    ensures
        spec_merge_bits(b, 0x0f, cc) % 0x10 == cc % 16,
        spec_merge_bits(b, 0x0f, cc) / 0x40 == b / 0x40,
        spec_merge_bits(b, 0x0f, cc) & 0x20 == b & 0x20,
        spec_merge_bits(b, 0x0f, cc) & 0x10 == b & 0x10,
        b & 0xf0 == spec_merge_bits(b, 0x0f, 0),
{
}

/// The scrambling bits of byte 3 hold what was written, modulo 4, and the
/// other bits of the byte are not touched.
proof fn lemma_scrambling_byte(b: u8, s: u8)
    by (bit_vector)
    ensures
        spec_merge_bits(b, 0xc0, (s & 0x03) << 6) / 0x40 == s % 4,
        spec_merge_bits(b, 0xc0, (s & 0x03) << 6) & 0x20 == b & 0x20,
        spec_merge_bits(b, 0xc0, (s & 0x03) << 6) & 0x10 == b & 0x10,
        spec_merge_bits(b, 0xc0, (s & 0x03) << 6) % 0x10 == b % 0x10,
{
}

/// Once the top seven bits of byte 10 have been replaced, giving `merged`,
/// bytes 6 to 10 hold the PCR base that was written, modulo 2^33.
proof fn lemma_pcr_bytes(b: u8, pcr: u64, merged: u8)
    by (bit_vector)
    requires
        merged == spec_merge_bits(b, 0xfe, 0x7e | (((pcr & 0x01) as u8) << 7)),
    ensures
        pcr % 0x2_0000_0000 == (((pcr >> 25) & 0xff) as u8) * 0x200_0000 + (((pcr >> 17)
            & 0xff) as u8) * 0x2_0000 + (((pcr >> 9) & 0xff) as u8) * 0x200 + (((pcr >> 1)
            & 0xff) as u8) * 2 + merged / 0x80,
{
}

/// Once the lowest bit of byte 10 has been replaced, giving `merged`, it
/// and byte 11 hold the PCR extension that was written, modulo 2^9.
proof fn lemma_pcr_ext_bytes(b: u8, ext: u16, merged: u8)
    by (bit_vector)
    requires
        merged == spec_merge_bits(b, 0x01, ((ext >> 8) & 0xff) as u8),
    ensures
        ext % 0x200 == (merged % 2) * 0x100 + ((ext & 0xff) as u8),
{
}

/// Byte 10 is shared: writing its top seven bits leaves the lowest, and
/// writing the lowest leaves the top seven. A value with the reserved
/// pattern in it leaves the reserved bits as ones.
proof fn lemma_clock_byte(b: u8, v: u8)
    by (bit_vector)
    ensures
        spec_merge_bits(b, 0xfe, v) % 2 == b % 2,
        spec_merge_bits(b, 0xfe, 0x7e | v) & 0x7e == 0x7e,
        spec_merge_bits(b, 0x01, v) / 0x80 == b / 0x80,
        spec_merge_bits(b, 0x01, v) & 0x7e == b & 0x7e,
{
}

/// A byte taken modulo a power of two, or divided by one, in bit
/// operations.
proof fn lemma_byte_bits(b: u8)
    by (bit_vector)
    ensures
        b % 0x10 == b & 0x0f,
        b / 0x40 == (b & 0xc0) >> 6,
        (b & 0x80 != 0) == (b >= 0x80),
        (b & 0x40 != 0) == (b / 0x40 % 2 == 1),
        (b & 0x20 != 0) == (b / 0x20 % 2 == 1),
        (b & 0x10 != 0) == (b / 0x10 % 2 == 1),
{
}

/// The numbers that the PID bytes `b1` and `b2` and the clock bytes `b6`
/// to `b11` spell, in bit operations.
proof fn lemma_wide_bits(b1: u8, b2: u8, b6: u8, b7: u8, b8: u8, b9: u8, b10: u8, b11: u8)
    by (bit_vector)
    ensures
        ((((b1 & 0x1f) as u16) << 8) | (b2 as u16)) == (b1 % 0x20) * 0x100 + b2,
        (((b6 as u64) << 25) | ((b7 as u64) << 17) | ((b8 as u64) << 9) | ((b9 as u64) << 1) | ((
        b10 as u64) >> 7)) == b6 * 0x200_0000 + b7 * 0x2_0000 + b8 * 0x200 + b9 * 2 + b10 / 0x80,
        ((((b10 & 0x01) as u16) << 8) | (b11 as u16)) == (b10 % 2) * 0x100 + b11,
{
}

/// What the bytes of a null packet, and a flags byte of zero, decode to.
proof fn lemma_constant_bytes()
    by (bit_vector)
    ensures
        0x1fu8 & 0x80 == 0,
        0x1fu8 & 0x40 == 0,
        0x1fu8 & 0x20 == 0,
        0x10u8 & 0x20 == 0,
        0x10u8 & 0x10 != 0,
        0xffu8 & 0x80 != 0,
        0xffu8 & 0x40 != 0,
        0xffu8 & 0x20 != 0,
        0xffu8 & 0x10 != 0,
        0x00u8 & 0x80 == 0,
        0x00u8 & 0x40 == 0,
        0x00u8 & 0x20 == 0,
        0x00u8 & 0x10 == 0,
{
}

// ---------------------------------------------------------------------------
// A setter changes its own field and no other
// ---------------------------------------------------------------------------
/// Setting the transport error indicator makes it read as set and changes
/// no other field.
pub proof fn lemma_set_transport_error_header(p: Seq<u8>)
    requires
        p.len() == PACKET_SIZE,
    ensures
        header_of(spec_set_transport_error(p)) == (Header { transport_error: true, ..header_of(p) }),
{
    lemma_raise_bit(p[1]);
}

/// Setting the unit start indicator makes it read as set and changes no
/// other field.
pub proof fn lemma_set_unit_start_header(p: Seq<u8>)
    requires
        p.len() == PACKET_SIZE,
    ensures
        header_of(spec_set_unit_start(p)) == (Header { unit_start: true, ..header_of(p) }),
{
    lemma_raise_bit(p[1]);
}

/// Setting the transport priority indicator makes it read as set and
/// changes no other field.
pub proof fn lemma_set_transport_priority_header(p: Seq<u8>)
    requires
        p.len() == PACKET_SIZE,
    ensures
        header_of(spec_set_transport_priority(p)) == (Header {
            transport_priority: true,
            ..header_of(p)
        }),
{
    lemma_raise_bit(p[1]);
}

/// Setting the payload indicator makes it read as set and changes no other
/// field.
pub proof fn lemma_set_payload_header(p: Seq<u8>)
    requires
        p.len() == PACKET_SIZE,
    ensures
        header_of(spec_set_payload(p)) == (Header { payload: true, ..header_of(p) }),
{
    lemma_raise_bit(p[3]);
}

/// Setting the PID makes it read as what was given, modulo 2^13, and
/// changes no other field.
pub proof fn lemma_set_pid_header(p: Seq<u8>, pid: u16)
    requires
        p.len() == PACKET_SIZE,
    ensures
        header_of(spec_set_pid(p, pid)) == (Header { pid: pid % 0x2000, ..header_of(p) }),
{
    lemma_pid_bytes(p[1], pid, spec_merge_bits(p[1], 0x1f, ((pid >> 8) & 0xff) as u8));
}

/// Setting the continuity counter makes it read as what was given, modulo
/// 16, and changes no other field.
pub proof fn lemma_set_continuity_counter_header(p: Seq<u8>, cc: u8)
    requires
        p.len() == PACKET_SIZE,
    ensures
        header_of(spec_set_continuity_counter(p, cc)) == (Header {
            continuity_counter: cc % 16,
            ..header_of(p)
        }),
{
    lemma_counter_byte(p[3], cc);
}

/// Resetting the continuity counter is setting it to zero: it reads as zero
/// and no other field changes.
pub proof fn lemma_zero_continuity_counter_header(p: Seq<u8>)
    requires
        p.len() == PACKET_SIZE,
    ensures
        spec_zero_continuity_counter(p) == spec_set_continuity_counter(p, 0),
        header_of(spec_zero_continuity_counter(p)) == (Header {
            continuity_counter: 0,
            ..header_of(p)
        }),
{
    lemma_counter_byte(p[3], 0);
}

/// Setting the adaptation field sets its indicator and its length. With a
/// length of one or more the four adaptation flags read as clear, and with
/// a length of two or more the packet is stuffing from byte 6 on, where the
/// two clock values then read as all ones. No other field changes.
pub proof fn lemma_set_adaptation_field_header(p: Seq<u8>, length: u8)
    requires
        p.len() == PACKET_SIZE,
    ensures
        header_of(spec_set_adaptation_field(p, length)) == header_of(p).with_adaptation_field(
            length,
        ),
        length >= 1 ==> spec_set_adaptation_field(p, length)[5] == 0,
        length >= 2 ==> forall|i: int|
            HEADER_SIZE_AF <= i < PACKET_SIZE ==> spec_set_adaptation_field(p, length)[i]
                == STUFFING_BYTE,
{
    lemma_raise_bit(p[3]);
    lemma_constant_bytes();
}

/// Setting the scrambling mode makes it read as what was given, modulo 4,
/// and changes no other field.
pub proof fn lemma_set_scrambling_header(p: Seq<u8>, scrambling: u8)
    requires
        p.len() == PACKET_SIZE,
    ensures
        header_of(spec_set_scrambling(p, scrambling)) == (Header {
            scrambling: scrambling % 4,
            ..header_of(p)
        }),
{
    lemma_scrambling_byte(p[3], scrambling);
}

/// Setting the discontinuity indicator makes it read as set and changes no
/// other field.
pub proof fn lemma_set_discontinuity_header(p: Seq<u8>)
    requires
        p.len() == PACKET_SIZE,
    ensures
        header_of(spec_set_discontinuity(p)) == (Header { discontinuity: true, ..header_of(p) }),
{
    lemma_raise_bit(p[5]);
}

/// Clearing the discontinuity indicator makes it read as clear and changes
/// no other field.
pub proof fn lemma_clear_discontinuity_header(p: Seq<u8>)
    requires
        p.len() == PACKET_SIZE,
    ensures
        header_of(spec_clear_discontinuity(p)) == (Header { discontinuity: false, ..header_of(p) }),
{
    lemma_raise_bit(p[5]);
}

/// Setting the random access indicator makes it read as set and changes no
/// other field.
pub proof fn lemma_set_random_access_header(p: Seq<u8>)
    requires
        p.len() == PACKET_SIZE,
    ensures
        header_of(spec_set_random_access(p)) == (Header { random_access: true, ..header_of(p) }),
{
    lemma_raise_bit(p[5]);
}

/// Setting the stream priority indicator makes it read as set and changes
/// no other field.
pub proof fn lemma_set_stream_priority_header(p: Seq<u8>)
    requires
        p.len() == PACKET_SIZE,
    ensures
        header_of(spec_set_stream_priority(p)) == (Header { stream_priority: true, ..header_of(p) }),
{
    lemma_raise_bit(p[5]);
}

/// Setting the PCR sets the PCR flag, makes the PCR read as what was given,
/// modulo 2^33, and changes no other field, the PCR extension included. The
/// reserved bits of byte 10 become ones.
pub proof fn lemma_set_pcr_header(p: Seq<u8>, pcr: u64)
    requires
        p.len() == PACKET_SIZE,
    ensures
        header_of(spec_set_pcr(p, pcr)) == (Header {
            pcr_present: true,
            pcr: pcr % 0x2_0000_0000,
            ..header_of(p)
        }),
        spec_set_pcr(p, pcr)[10] & 0x7e == 0x7e,
{
    lemma_raise_bit(p[5]);
    lemma_pcr_bytes(
        p[10],
        pcr,
        spec_merge_bits(p[10], 0xfe, 0x7e | (((pcr & 0x01) as u8) << 7)),
    );
    lemma_clock_byte(p[10], 0x7e | (((pcr & 0x01) as u8) << 7));
    lemma_clock_byte(p[10], ((pcr & 0x01) as u8) << 7);
}

/// Setting the PCR extension makes it read as what was given, modulo 2^9,
/// and changes no other field, the PCR included. The reserved bits of byte
/// 10 stay as they were.
pub proof fn lemma_set_pcr_ext_header(p: Seq<u8>, ext: u16)
    requires
        p.len() == PACKET_SIZE,
    ensures
        header_of(spec_set_pcr_ext(p, ext)) == (Header { pcr_ext: ext % 0x200, ..header_of(p) }),
        spec_set_pcr_ext(p, ext)[10] & 0x7e == p[10] & 0x7e,
{
    lemma_pcr_ext_bytes(p[10], ext, spec_merge_bits(p[10], 0x01, ((ext >> 8) & 0xff) as u8));
    lemma_clock_byte(p[10], ((ext >> 8) & 0xff) as u8);
}

/// A setter of a field of the fixed header leaves the bytes behind it.
pub proof fn lemma_header_setters_keep_payload(p: Seq<u8>, pid: u16, cc: u8, scrambling: u8)
    requires
        p.len() == PACKET_SIZE,
    ensures
        spec_payload(spec_set_transport_error(p)) == spec_payload(p),
        spec_payload(spec_set_unit_start(p)) == spec_payload(p),
        spec_payload(spec_set_transport_priority(p)) == spec_payload(p),
        spec_payload(spec_set_payload(p)) == spec_payload(p),
        spec_payload(spec_set_pid(p, pid)) == spec_payload(p),
        spec_payload(spec_set_continuity_counter(p, cc)) == spec_payload(p),
        spec_payload(spec_zero_continuity_counter(p)) == spec_payload(p),
        spec_payload(spec_set_scrambling(p, scrambling)) == spec_payload(p),
{
}

// ---------------------------------------------------------------------------
// What is written is read back
// ---------------------------------------------------------------------------
/// A PID of at most 13 bits is read back as it was set.
pub proof fn lemma_pid_round_trip(p: Seq<u8>, pid: u16)
    requires
        p.len() == PACKET_SIZE,
        pid <= MAX_PID,
    ensures
        spec_pid(spec_set_pid(p, pid)) == pid,
{
    lemma_set_pid_header(p, pid);
}

/// A continuity counter of at most 4 bits is read back as it was set.
pub proof fn lemma_continuity_counter_round_trip(p: Seq<u8>, cc: u8)
    requires
        p.len() == PACKET_SIZE,
        cc <= 15,
    ensures
        spec_continuity_counter(spec_set_continuity_counter(p, cc)) == cc,
{
    lemma_set_continuity_counter_header(p, cc);
}

/// A scrambling mode of at most 2 bits is read back as it was set.
pub proof fn lemma_scrambling_round_trip(p: Seq<u8>, scrambling: u8)
    requires
        p.len() == PACKET_SIZE,
        scrambling <= 3,
    ensures
        spec_scrambling(spec_set_scrambling(p, scrambling)) == scrambling,
{
    lemma_set_scrambling_header(p, scrambling);
}

/// An adaptation field length is read back as it was set, and the
/// adaptation field indicator then reads as set.
pub proof fn lemma_adaptation_field_round_trip(p: Seq<u8>, length: u8)
    requires
        p.len() == PACKET_SIZE,
    ensures
        spec_adaptation_field(spec_set_adaptation_field(p, length)) == length,
        spec_has_adaptation_field(spec_set_adaptation_field(p, length)),
{
    lemma_set_adaptation_field_header(p, length);
}

/// A PCR base of at most 33 bits is read back as it was set, and the PCR
/// flag then reads as set.
pub proof fn lemma_pcr_round_trip(p: Seq<u8>, pcr: u64)
    requires
        p.len() == PACKET_SIZE,
        pcr <= MAX_PCR_BASE,
    ensures
        spec_pcr(spec_set_pcr(p, pcr)) == pcr,
        spec_has_pcr(spec_set_pcr(p, pcr)),
{
    lemma_set_pcr_header(p, pcr);
}

/// A PCR extension of at most 9 bits is read back as it was set.
pub proof fn lemma_pcr_ext_round_trip(p: Seq<u8>, ext: u16)
    requires
        p.len() == PACKET_SIZE,
        ext <= MAX_PCR_EXT,
    ensures
        spec_pcr_ext(spec_set_pcr_ext(p, ext)) == ext,
{
    lemma_set_pcr_ext_header(p, ext);
}

/// A flag reads as set once it has been set, and the discontinuity
/// indicator reads as clear once it has been cleared.
pub proof fn lemma_flags_round_trip(p: Seq<u8>)
    requires
        p.len() == PACKET_SIZE,
    ensures
        spec_has_transport_error(spec_set_transport_error(p)),
        spec_has_unit_start(spec_set_unit_start(p)),
        spec_has_transport_priority(spec_set_transport_priority(p)),
        spec_has_payload(spec_set_payload(p)),
        spec_has_discontinuity(spec_set_discontinuity(p)),
        !spec_has_discontinuity(spec_clear_discontinuity(p)),
        spec_has_random_access(spec_set_random_access(p)),
        spec_has_stream_priority(spec_set_stream_priority(p)),
{
    lemma_raise_bit(p[1]);
    lemma_raise_bit(p[3]);
    lemma_raise_bit(p[5]);
}

// ---------------------------------------------------------------------------
// Writing twice
// ---------------------------------------------------------------------------
/// Calling a flag setter twice in a row gives the packet that calling it
/// once gives. The same holds of clearing the discontinuity indicator and
/// of setting the adaptation field twice to one length.
pub proof fn lemma_flag_setters_idempotent(p: Seq<u8>, length: u8)
    requires
        p.len() == PACKET_SIZE,
    ensures
        spec_set_transport_error(spec_set_transport_error(p)) == spec_set_transport_error(p),
        spec_set_unit_start(spec_set_unit_start(p)) == spec_set_unit_start(p),
        spec_set_transport_priority(spec_set_transport_priority(p))
            == spec_set_transport_priority(p),
        spec_set_payload(spec_set_payload(p)) == spec_set_payload(p),
        spec_set_discontinuity(spec_set_discontinuity(p)) == spec_set_discontinuity(p),
        spec_clear_discontinuity(spec_clear_discontinuity(p)) == spec_clear_discontinuity(p),
        spec_set_random_access(spec_set_random_access(p)) == spec_set_random_access(p),
        spec_set_stream_priority(spec_set_stream_priority(p)) == spec_set_stream_priority(p),
        spec_set_adaptation_field(spec_set_adaptation_field(p, length), length)
            == spec_set_adaptation_field(p, length),
{
    lemma_raise_twice(p[1], 0x80);
    lemma_raise_twice(p[1], 0x40);
    lemma_raise_twice(p[1], 0x20);
    lemma_raise_twice(p[3], 0x10);
    lemma_raise_twice(p[3], 0x20);
    lemma_raise_twice(p[5], 0x80);
    lemma_raise_twice(p[5], 0x40);
    lemma_raise_twice(p[5], 0x20);
}

// ---------------------------------------------------------------------------
// Order of calls
// ---------------------------------------------------------------------------
/// Of two calls of setters that are about the same field the second stays:
/// the packet is the one that the second call alone gives. Of two calls of
/// `set_adaptation_field` this holds where the second resets what the first
/// has reset.
pub proof fn lemma_later_setter_replaces(p: Seq<u8>, a: Setter, b: Setter)
    requires
        p.len() == PACKET_SIZE,
        b.replaces(a),
    ensures
        b.apply(a.apply(p)) == b.apply(p),
{
    match (a, b) {
        (Setter::Pid(first), Setter::Pid(second)) => {
            lemma_merge_bits_last_wins(
                p[1],
                0x1f,
                ((first >> 8) & 0xff) as u8,
                ((second >> 8) & 0xff) as u8,
            );
        },
        (Setter::ContinuityCounter(first), Setter::ContinuityCounter(second)) => {
            lemma_merge_bits_last_wins(p[3], 0x0f, first, second);
        },
        (Setter::ContinuityCounter(first), Setter::ZeroContinuityCounter) => {
            lemma_merge_bits_last_wins(p[3], 0x0f, first, 0);
            lemma_counter_byte(p[3], 0);
            lemma_counter_byte(spec_merge_bits(p[3], 0x0f, first), 0);
        },
        (Setter::ZeroContinuityCounter, Setter::ContinuityCounter(second)) => {
            lemma_merge_bits_last_wins(p[3], 0x0f, 0, second);
            lemma_counter_byte(p[3], 0);
        },
        (Setter::Scrambling(first), Setter::Scrambling(second)) => {
            lemma_merge_bits_last_wins(p[3], 0xc0, (first & 0x03) << 6, (second & 0x03) << 6);
        },
        (Setter::Pcr(first), Setter::Pcr(second)) => {
            lemma_raise_twice(p[5], 0x10);
            lemma_merge_bits_last_wins(
                p[10],
                0xfe,
                0x7e | (((first & 0x01) as u8) << 7),
                0x7e | (((second & 0x01) as u8) << 7),
            );
        },
        (Setter::PcrExt(first), Setter::PcrExt(second)) => {
            lemma_merge_bits_last_wins(
                p[10],
                0x01,
                ((first >> 8) & 0xff) as u8,
                ((second >> 8) & 0xff) as u8,
            );
        },
        (Setter::ZeroContinuityCounter, Setter::ZeroContinuityCounter) => {
            lemma_counter_byte(p[3], 0);
            lemma_counter_byte(p[3] & 0xf0, 0);
            lemma_merge_bits_last_wins(p[3], 0x0f, 0, 0);
        },
        _ => {
            lemma_raise_twice(p[1], 0x80);
            lemma_raise_twice(p[1], 0x40);
            lemma_raise_twice(p[1], 0x20);
            lemma_raise_twice(p[3], 0x10);
            lemma_raise_twice(p[3], 0x20);
            lemma_raise_twice(p[5], 0x80);
            lemma_raise_twice(p[5], 0x40);
            lemma_raise_twice(p[5], 0x20);
        },
    }
}

/// Two calls of setters that are about different fields give the same
/// packet in either order, unless one of them is a call of
/// `set_adaptation_field` that overwrites what the other writes.
pub proof fn lemma_independent_setters_commute(p: Seq<u8>, a: Setter, b: Setter)
    requires
        p.len() == PACKET_SIZE,
        a.independent(b),
    ensures
        b.apply(a.apply(p)) == a.apply(b.apply(p)),
{
    match a {
        Setter::TransportError | Setter::UnitStart | Setter::TransportPriority | Setter::Pid(_) => {
            lemma_byte_1_commutes(p, a, b);
        },
        Setter::Payload | Setter::ContinuityCounter(_) | Setter::ZeroContinuityCounter
        | Setter::Scrambling(_) | Setter::AdaptationField(_) => {
            lemma_byte_3_commutes(p, a, b);
        },
        Setter::Discontinuity | Setter::ClearDiscontinuity | Setter::RandomAccess
        | Setter::StreamPriority | Setter::Pcr(_) | Setter::PcrExt(_) => {
            lemma_clock_bytes_commute(p, a, b);
        },
    }
}

/// The case of [`lemma_independent_setters_commute`] in which the first call
/// writes to byte 1.
proof fn lemma_byte_1_commutes(p: Seq<u8>, a: Setter, b: Setter)
    requires
        p.len() == PACKET_SIZE,
        a.independent(b),
        a is TransportError || a is UnitStart || a is TransportPriority || a is Pid,
    ensures
        b.apply(a.apply(p)) == a.apply(b.apply(p)),
{
    let pid = match (a, b) {
        (Setter::Pid(pid), _) => pid,
        (_, Setter::Pid(pid)) => pid,
        _ => 0,
    };
    lemma_raises_commute(p[1]);
    lemma_merges_commute(p[1], ((pid >> 8) & 0xff) as u8, 0);
}

/// The case of [`lemma_independent_setters_commute`] in which the first call
/// writes to byte 3.
proof fn lemma_byte_3_commutes(p: Seq<u8>, a: Setter, b: Setter)
    requires
        p.len() == PACKET_SIZE,
        a.independent(b),
        a is Payload || a is ContinuityCounter || a is ZeroContinuityCounter || a is Scrambling
            || a is AdaptationField,
    ensures
        b.apply(a.apply(p)) == a.apply(b.apply(p)),
{
    let scrambling = match (a, b) {
        (Setter::Scrambling(scrambling), _) => scrambling,
        (_, Setter::Scrambling(scrambling)) => scrambling,
        _ => 0,
    };
    let cc = match (a, b) {
        (Setter::ContinuityCounter(cc), _) => cc,
        (_, Setter::ContinuityCounter(cc)) => cc,
        _ => 0,
    };
    lemma_raises_commute(p[3]);
    lemma_merges_commute(p[3], (scrambling & 0x03) << 6, cc);
}

/// The case of [`lemma_independent_setters_commute`] in which the first call
/// writes to byte 5 or to the clock bytes behind it.
proof fn lemma_clock_bytes_commute(p: Seq<u8>, a: Setter, b: Setter)
    requires
        p.len() == PACKET_SIZE,
        a.independent(b),
        a is Discontinuity || a is ClearDiscontinuity || a is RandomAccess || a is StreamPriority
            || a is Pcr || a is PcrExt,
    ensures
        b.apply(a.apply(p)) == a.apply(b.apply(p)),
{
    let pcr = match (a, b) {
        (Setter::Pcr(pcr), _) => pcr,
        (_, Setter::Pcr(pcr)) => pcr,
        _ => 0,
    };
    let ext = match (a, b) {
        (Setter::PcrExt(ext), _) => ext,
        (_, Setter::PcrExt(ext)) => ext,
        _ => 0,
    };
    lemma_raises_commute(p[5]);
    lemma_merges_commute(
        p[10],
        0x7e | (((pcr & 0x01) as u8) << 7),
        ((ext >> 8) & 0xff) as u8,
    );
}

// ---------------------------------------------------------------------------
// The null packet
// ---------------------------------------------------------------------------
/// The null packet has the sync byte, the PID of null packets, a continuity
/// counter of zero and the payload indicator. Its transport flags are clear,
/// it is not scrambled and it has no adaptation field. Every byte behind the
/// fixed header is stuffing, so that the discontinuity bit reads as set.
pub proof fn lemma_null_packet_header()
    ensures
        spec_null_packet().len() == PACKET_SIZE,
        header_of(spec_null_packet()) == null_packet_header(),
        spec_payload(spec_null_packet()).len() == PAYLOAD_SIZE,
        forall|i: int|
            0 <= i < PAYLOAD_SIZE ==> #[trigger] spec_payload(spec_null_packet())[i]
                == STUFFING_BYTE,
{
    lemma_constant_bytes();
}

// ---------------------------------------------------------------------------
// Numbers and bits
// ---------------------------------------------------------------------------
/// No decoded field is wider than its place in the packet.
pub proof fn lemma_field_ranges(p: Seq<u8>)
    requires
        p.len() == PACKET_SIZE,
    ensures
        spec_pid(p) <= MAX_PID,
        spec_continuity_counter(p) <= 15,
        spec_scrambling(p) <= 3,
        spec_pcr(p) <= MAX_PCR_BASE,
        spec_pcr_ext(p) <= MAX_PCR_EXT,
{
}

/// Every field of several bits is the number that masking and shifting its
/// bytes gives, and every flag is one binary digit of its byte.
pub proof fn lemma_field_bits(p: Seq<u8>)
    requires
        p.len() == PACKET_SIZE,
    ensures
        spec_pid(p) == (((p[1] & 0x1f) as u16) << 8) | (p[2] as u16),
        spec_continuity_counter(p) == p[3] & 0x0f,
        spec_scrambling(p) == (p[3] & 0xc0) >> 6,
        spec_pcr(p) == ((p[6] as u64) << 25) | ((p[7] as u64) << 17) | ((p[8] as u64) << 9) | ((
        p[9] as u64) << 1) | ((p[10] as u64) >> 7),
        spec_pcr_ext(p) == (((p[10] & 0x01) as u16) << 8) | (p[11] as u16),
        spec_has_transport_error(p) == (p[1] >= 0x80),
        spec_has_unit_start(p) == (p[1] / 0x40 % 2 == 1),
        spec_has_transport_priority(p) == (p[1] / 0x20 % 2 == 1),
        spec_has_adaptation_field(p) == (p[3] / 0x20 % 2 == 1),
        spec_has_payload(p) == (p[3] / 0x10 % 2 == 1),
        spec_has_discontinuity(p) == (p[5] >= 0x80),
        spec_has_random_access(p) == (p[5] / 0x40 % 2 == 1),
        spec_has_stream_priority(p) == (p[5] / 0x20 % 2 == 1),
        spec_has_pcr(p) == (p[5] / 0x10 % 2 == 1),
        spec_pid(p) <= MAX_PID,
        spec_continuity_counter(p) <= 15,
        spec_scrambling(p) <= 3,
        spec_pcr(p) <= MAX_PCR_BASE,
        spec_pcr_ext(p) <= MAX_PCR_EXT,
{
    lemma_byte_bits(p[1]);
    lemma_byte_bits(p[3]);
    lemma_byte_bits(p[5]);
    lemma_wide_bits(p[1], p[2], p[6], p[7], p[8], p[9], p[10], p[11]);
}

} // verus!
