//! The setters of the codec as values.
//!
//! A [`Setter`] stands for one call of a setter, with its argument. It exists
//! only in specifications, where it lets one theorem speak of every setter,
//! or of every pair of them.

use vstd::prelude::*;
use crate::mpeg::packet::{
    spec_clear_discontinuity, spec_set_adaptation_field, spec_set_continuity_counter,
    spec_set_discontinuity, spec_set_payload, spec_set_pcr, spec_set_pcr_ext, spec_set_pid,
    spec_set_random_access, spec_set_scrambling, spec_set_stream_priority,
    spec_set_transport_error, spec_set_transport_priority, spec_set_unit_start,
    spec_zero_continuity_counter,
};

verus! {

/// A field that a setter writes.
pub enum Field {
    TransportError,
    UnitStart,
    TransportPriority,
    Pid,
    Scrambling,
    AdaptationField,
    Payload,
    ContinuityCounter,
    Discontinuity,
    RandomAccess,
    StreamPriority,
    Pcr,
    PcrExt,
}

/// One call of a setter, with its argument.
pub enum Setter {
    TransportError,
    UnitStart,
    TransportPriority,
    Payload,
    Pid(u16),
    ContinuityCounter(u8),
    ZeroContinuityCounter,
    AdaptationField(u8),
    Scrambling(u8),
    Discontinuity,
    ClearDiscontinuity,
    RandomAccess,
    StreamPriority,
    Pcr(u64),
    PcrExt(u16),
}

impl Setter {
    /// The bytes of the packet `p` after the call.
    pub open spec fn apply(self, p: Seq<u8>) -> Seq<u8> {
        match self {
            Setter::TransportError => spec_set_transport_error(p),
            Setter::UnitStart => spec_set_unit_start(p),
            Setter::TransportPriority => spec_set_transport_priority(p),
            Setter::Payload => spec_set_payload(p),
            Setter::Pid(pid) => spec_set_pid(p, pid),
            Setter::ContinuityCounter(cc) => spec_set_continuity_counter(p, cc),
            Setter::ZeroContinuityCounter => spec_zero_continuity_counter(p),
            Setter::AdaptationField(length) => spec_set_adaptation_field(p, length),
            Setter::Scrambling(scrambling) => spec_set_scrambling(p, scrambling),
            Setter::Discontinuity => spec_set_discontinuity(p),
            Setter::ClearDiscontinuity => spec_clear_discontinuity(p),
            Setter::RandomAccess => spec_set_random_access(p),
            Setter::StreamPriority => spec_set_stream_priority(p),
            Setter::Pcr(pcr) => spec_set_pcr(p, pcr),
            Setter::PcrExt(ext) => spec_set_pcr_ext(p, ext),
        }
    }

    /// The field that the call is about.
    pub open spec fn field(self) -> Field {
        match self {
            Setter::TransportError => Field::TransportError,
            Setter::UnitStart => Field::UnitStart,
            Setter::TransportPriority => Field::TransportPriority,
            Setter::Payload => Field::Payload,
            Setter::Pid(_) => Field::Pid,
            Setter::ContinuityCounter(_) => Field::ContinuityCounter,
            Setter::ZeroContinuityCounter => Field::ContinuityCounter,
            Setter::AdaptationField(_) => Field::AdaptationField,
            Setter::Scrambling(_) => Field::Scrambling,
            Setter::Discontinuity => Field::Discontinuity,
            Setter::ClearDiscontinuity => Field::Discontinuity,
            Setter::RandomAccess => Field::RandomAccess,
            Setter::StreamPriority => Field::StreamPriority,
            Setter::Pcr(_) => Field::Pcr,
            Setter::PcrExt(_) => Field::PcrExt,
        }
    }

    /// Whether the call lays a fresh adaptation field over what `other`
    /// writes: its flags byte from a length of one, its clock bytes from a
    /// length of two.
    pub open spec fn overwrites(self, other: Setter) -> bool {
        match self {
            Setter::AdaptationField(length) => match other.field() {
                Field::Discontinuity | Field::RandomAccess | Field::StreamPriority
                | Field::Pcr => length >= 1,
                Field::PcrExt => length >= 2,
                _ => false,
            },
            _ => false,
        }
    }

    /// Whether the call, made after `earlier`, leaves nothing of it: the two
    /// are about the same field, and a later adaptation field resets
    /// whatever an earlier one has reset.
    pub open spec fn replaces(self, earlier: Setter) -> bool {
        &&& self.field() == earlier.field()
        &&& match (self, earlier) {
            (Setter::AdaptationField(later), Setter::AdaptationField(before)) => before <= later
                || later >= 2,
            _ => true,
        }
    }

    /// Whether the two calls are about different fields and neither
    /// overwrites the other.
    pub open spec fn independent(self, other: Setter) -> bool {
        &&& self.field() != other.field()
        &&& !self.overwrites(other)
        &&& !other.overwrites(self)
    }
}

} // verus!
