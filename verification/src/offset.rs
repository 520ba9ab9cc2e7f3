//! Zone capabilities and their offset representations.

use crate::synth::{Arbitrary, SynthError};
use crate::unstructured::{advance, le_u32_at, lemma_le_u32_at_bounds, Unstructured};
use vstd::prelude::*;

verus! {

/// A zone capability: a type-level parameter that fixes which offset
/// representation belongs to the zone. The capability itself carries no
/// operations; what a composite synthesizer needs is a bound on the
/// associated offset type, not on the zone type.
pub trait TimeZone {
    /// The zone's offset representation.
    type Offset;
}

/// The largest magnitude a fixed offset's seconds may take: one second short
/// of a full day on either side of the reference time standard.
pub const MAX_OFFSET_SECS: i32 = 86399;

/// The width of the valid fixed-offset domain: all seconds from
/// `-MAX_OFFSET_SECS` through `MAX_OFFSET_SECS`.
pub const OFFSET_SPAN: u32 = 172799;

/// A fixed offset from the reference time standard, in seconds, always
/// strictly within one day of it. Its synthesizer folds every raw second
/// count into that domain, so fixed-offset synthesis never fails.
#[derive(Clone, Copy, Debug, PartialEq, Eq, Structural)]
pub struct FixedOffset {
    /// Seconds to add to the reference time to reach local time.
    pub local_minus_utc: i32,
}

impl FixedOffset {
    /// A fixed offset is well formed when it stays strictly within one day
    /// of the reference time standard.
    pub open spec fn wf(self) -> bool {
        -(MAX_OFFSET_SECS as int) <= self.local_minus_utc <= MAX_OFFSET_SECS as int
    }
}

impl TimeZone for FixedOffset {
    type Offset = FixedOffset;
}

impl Arbitrary for FixedOffset {
    /// Fixed-offset synthesis reads one little-endian 32-bit value and folds
    /// it into the valid domain, centred on zero. Folding is total: every
    /// raw value yields an offset.
    open spec fn synth(s: Seq<u8>, pos: int) -> (Result<FixedOffset, SynthError>, int) {
        let raw = le_u32_at(s, pos);
        (
            Ok(
                FixedOffset {
                    local_minus_utc: (raw % (OFFSET_SPAN as int) - MAX_OFFSET_SECS as int) as i32,
                },
            ),
            advance(s, pos, 4),
        )
    }

    proof fn synth_pos_bounds(s: Seq<u8>, pos: int) {
    }

    fn arbitrary(u: &mut Unstructured) -> (r: Result<FixedOffset, SynthError>) {
        let raw = u.read_u32_le();
        let folded = raw % OFFSET_SPAN;
        Ok(FixedOffset { local_minus_utc: folded as i32 - MAX_OFFSET_SECS })
    }
}

/// Fixed-offset synthesis establishes the offset's invariant: every offset
/// it produces is well formed.
pub proof fn lemma_fixed_synth_wf(s: Seq<u8>, pos: int)
    ensures
        FixedOffset::synth(s, pos).0 matches Ok(v) ==> v.wf(),
{
    lemma_le_u32_at_bounds(s, pos);
}

/// A zone capability whose offset synthesizer validates instead of folding:
/// a raw second count outside the valid domain is rejected, which makes this
/// zone's synthesis the fallible one of the library.
#[derive(Clone, Copy, Debug, PartialEq, Eq, Structural)]
pub struct StrictOffset {
    /// Seconds to add to the reference time to reach local time.
    pub local_minus_utc: i32,
}

impl StrictOffset {
    /// A strict offset is well formed when it is a valid eastward offset of
    /// less than one day.
    pub open spec fn wf(self) -> bool {
        0 <= self.local_minus_utc <= MAX_OFFSET_SECS as int
    }
}

impl TimeZone for StrictOffset {
    type Offset = StrictOffset;
}

impl Arbitrary for StrictOffset {
    /// Strict-offset synthesis reads one little-endian 32-bit value and
    /// accepts it only when it already lies in the valid domain; any larger
    /// second count is outside the domain and the attempt fails.
    open spec fn synth(s: Seq<u8>, pos: int) -> (Result<StrictOffset, SynthError>, int) {
        let raw = le_u32_at(s, pos);
        if raw <= MAX_OFFSET_SECS as int {
            (Ok(StrictOffset { local_minus_utc: raw as i32 }), advance(s, pos, 4))
        } else {
            (Err(SynthError::SynthesisFailed), advance(s, pos, 4))
        }
    }

    proof fn synth_pos_bounds(s: Seq<u8>, pos: int) {
    }

    fn arbitrary(u: &mut Unstructured) -> (r: Result<StrictOffset, SynthError>) {
        let raw = u.read_u32_le();
        if raw <= MAX_OFFSET_SECS as u32 {
            Ok(StrictOffset { local_minus_utc: raw as i32 })
        } else {
            Err(SynthError::SynthesisFailed)
        }
    }
}

/// Strict-offset synthesis establishes the offset's invariant: it succeeds
/// exactly when the decoded second count lies in the valid domain, and then
/// the offset is that count.
pub proof fn lemma_strict_synth_wf(s: Seq<u8>, pos: int)
    ensures
        StrictOffset::synth(s, pos).0 matches Ok(v) ==> v.wf(),
        (StrictOffset::synth(s, pos).0 is Ok) == (le_u32_at(s, pos) <= MAX_OFFSET_SECS as int),
{
    lemma_le_u32_at_bounds(s, pos);
}

} // verus!
