//! The civil (zone-less) date-and-time value and its synthesizer.

use crate::synth::{Arbitrary, SynthError};
use crate::unstructured::{advance, le_u32_at, lemma_le_u32_at_bounds, Unstructured};
use vstd::prelude::*;

verus! {

/// Seconds in a civil day.
pub const SECS_PER_DAY: u32 = 86400;

/// The largest day number a 32-bit second count can reach.
pub const MAX_DAY: u32 = 49710;

/// A civil date-and-time value, carrying no zone information: a day number
/// paired with a second within that day.
#[derive(Clone, Copy, Debug, PartialEq, Eq, Structural)]
pub struct NaiveDateTime {
    /// Days since the epoch of the civil calendar.
    pub days: u32,
    /// Seconds since the start of that day.
    pub secs: u32,
}

impl NaiveDateTime {
    /// A civil value is well formed when its second lies within one day and
    /// its day number is one a 32-bit second count can reach.
    pub open spec fn wf(self) -> bool {
        self.days <= MAX_DAY && self.secs < SECS_PER_DAY
    }
}

impl Arbitrary for NaiveDateTime {
    /// Civil synthesis reads one little-endian 32-bit second count and splits
    /// it into a day number and a second of that day. Every count is in
    /// domain, so civil synthesis never fails.
    open spec fn synth(s: Seq<u8>, pos: int) -> (Result<NaiveDateTime, SynthError>, int) {
        let raw = le_u32_at(s, pos);
        (
            Ok(
                NaiveDateTime {
                    days: (raw / (SECS_PER_DAY as int)) as u32,
                    secs: (raw % (SECS_PER_DAY as int)) as u32,
                },
            ),
            advance(s, pos, 4),
        )
    }

    proof fn synth_pos_bounds(s: Seq<u8>, pos: int) {
    }

    fn arbitrary(u: &mut Unstructured) -> (r: Result<NaiveDateTime, SynthError>) {
        let raw = u.read_u32_le();
        Ok(NaiveDateTime { days: raw / SECS_PER_DAY, secs: raw % SECS_PER_DAY })
    }
}

/// Civil synthesis establishes the civil value's invariant: every value it
/// produces is well formed.
pub proof fn lemma_civil_synth_wf(s: Seq<u8>, pos: int)
    ensures
        NaiveDateTime::synth(s, pos).0 matches Ok(v) ==> v.wf(),
{
    lemma_le_u32_at_bounds(s, pos);
}

} // verus!
