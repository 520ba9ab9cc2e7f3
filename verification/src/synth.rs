//! The synthesis capability: values that can be drawn deterministically from
//! a byte cursor.

use crate::unstructured::Unstructured;
use vstd::prelude::*;

verus! {

/// The one failure a synthesizer can report: a decoded field fell outside
/// the valid domain of its target type. Failures are surfaced verbatim to
/// the caller; no synthesizer retries or substitutes a default.
#[derive(Clone, Copy, Debug, PartialEq, Eq, Structural)]
pub enum SynthError {
    SynthesisFailed,
}

/// A value that can be synthesized deterministically from a byte cursor.
///
/// `synth` is the mathematical meaning of synthesis: a pure function from
/// the cursor's data and read position to the outcome and the position after
/// the attempt. `arbitrary` is bound to it exactly, so two runs over cursors
/// holding equal bytes at equal positions return equal results — synthesis
/// depends on nothing but the bytes.
pub trait Arbitrary: Sized {
    /// What synthesis yields from data `s` at read position `pos`: the
    /// outcome, and the read position after the attempt.
    spec fn synth(s: Seq<u8>, pos: int) -> (Result<Self, SynthError>, int);

    /// Synthesis only consumes bytes: the position after an attempt never
    /// retreats and never passes the end of the data.
    proof fn synth_pos_bounds(s: Seq<u8>, pos: int)
        requires
            0 <= pos <= s.len(),
        ensures
            pos <= Self::synth(s, pos).1 <= s.len(),
    ;

    /// Draw one value from the cursor, advancing it by however many bytes
    /// the attempt consumes. The outcome and the new position are exactly
    /// what `synth` states for the cursor's starting state.
    fn arbitrary(u: &mut Unstructured) -> (r: Result<Self, SynthError>)
        requires
            old(u).wf(),
        ensures
            final(u).wf(),
            final(u).bytes() == old(u).bytes(),
            final(u).pos() == Self::synth(old(u).bytes(), old(u).pos()).1,
            r == Self::synth(old(u).bytes(), old(u).pos()).0,
    ;
}

} // verus!
