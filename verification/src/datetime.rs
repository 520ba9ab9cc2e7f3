//! The composite timestamp and its synthesizer: one civil value paired with
//! one zone-specific offset, both drawn in a fixed order from one shared
//! cursor.

use crate::naive::{NaiveDateTime, SECS_PER_DAY};
use crate::offset::{FixedOffset, TimeZone};
use crate::synth::{Arbitrary, SynthError};
use crate::unstructured::{
    le_u32_at, lemma_le_u32_at_bounds, lemma_le_u32_at_injective, Unstructured,
};
use vstd::prelude::*;

verus! {

/// A timestamp for zone capability `Tz`: a civil value, taken as the instant
/// in the reference time standard, paired with the zone's offset from that
/// standard. Two timestamps compare equal when they name the same instant,
/// that is, when their civil values are equal.
pub struct DateTime<Tz: TimeZone> {
    /// The civil value, as the instant in the reference time standard.
    pub datetime: NaiveDateTime,
    /// The zone's offset from the reference time standard.
    pub offset: Tz::Offset,
}

impl<Tz: TimeZone> DateTime<Tz> {
    /// Pair one civil value, read as the instant in the reference time
    /// standard, with one offset. The pairing itself cannot fail: validity
    /// of the parts is the business of whoever produced them.
    pub fn from_utc(datetime: NaiveDateTime, offset: Tz::Offset) -> (r: DateTime<Tz>)
        ensures
            r.datetime == datetime,
            r.offset == offset,
    {
        DateTime { datetime, offset }
    }

    /// The civil value, as the instant in the reference time standard.
    pub fn naive_utc(&self) -> (r: NaiveDateTime)
        ensures
            r == self.datetime,
    {
        self.datetime
    }

    /// The zone's offset from the reference time standard.
    pub fn offset(&self) -> (r: &Tz::Offset)
        ensures
            *r == self.offset,
    {
        &self.offset
    }
}

impl<Tz: TimeZone> PartialEq for DateTime<Tz> {
    fn eq(&self, other: &Self) -> (r: bool) {
        self.datetime == other.datetime
    }
}

impl<Tz: TimeZone> vstd::std_specs::cmp::PartialEqSpecImpl for DateTime<Tz> {
    open spec fn obeys_eq_spec() -> bool {
        true
    }

    open spec fn eq_spec(&self, other: &Self) -> bool {
        self.datetime == other.datetime
    }
}

impl<Tz: TimeZone> Arbitrary for DateTime<Tz> where Tz::Offset: Arbitrary {
    /// Composite synthesis is the sequential composition of the two
    /// sub-generators against one cursor: the civil value is drawn first,
    /// the offset second, from the bytes the civil draw left over. A failure
    /// of either sub-generator is the failure of the whole, surfaced
    /// verbatim, and no composite value is formed from a partial draw.
    open spec fn synth(s: Seq<u8>, pos: int) -> (Result<DateTime<Tz>, SynthError>, int) {
        let civil = NaiveDateTime::synth(s, pos);
        match civil.0 {
            Ok(datetime) => {
                let off = <Tz::Offset as Arbitrary>::synth(s, civil.1);
                match off.0 {
                    Ok(offset) => (Ok(DateTime { datetime, offset }), off.1),
                    Err(e) => (Err(e), off.1),
                }
            },
            Err(e) => (Err(e), civil.1),
        }
    }

    proof fn synth_pos_bounds(s: Seq<u8>, pos: int) {
        NaiveDateTime::synth_pos_bounds(s, pos);
        <Tz::Offset as Arbitrary>::synth_pos_bounds(s, NaiveDateTime::synth(s, pos).1);
    }

    fn arbitrary(u: &mut Unstructured) -> (r: Result<DateTime<Tz>, SynthError>) {
        let datetime = match NaiveDateTime::arbitrary(u) {
            Ok(d) => d,
            Err(e) => {
                return Err(e);
            },
        };
        let offset = match <Tz::Offset as Arbitrary>::arbitrary(u) {
            Ok(o) => o,
            Err(e) => {
                return Err(e);
            },
        };
        Ok(DateTime::from_utc(datetime, offset))
    }
}

/// Determinism: composite synthesis is a pure function of the cursor's data
/// and read position. Two runs over cursors holding equal bytes at equal
/// positions yield equal outcomes and equal final positions, for every zone
/// capability with a synthesizable offset.
pub proof fn lemma_determinism<Tz: TimeZone>(s1: Seq<u8>, pos1: int, s2: Seq<u8>, pos2: int) where
    Tz::Offset: Arbitrary,

    requires
        s1 == s2,
        pos1 == pos2,
    ensures
        DateTime::<Tz>::synth(s1, pos1) == DateTime::<Tz>::synth(s2, pos2),
{
}

/// Sensitivity: two data buffers that differ anywhere in their first four
/// bytes — the bytes the civil draw consumes — synthesize distinct composite
/// timestamps whenever both syntheses succeed, for every zone capability
/// with a synthesizable offset.
pub proof fn lemma_sensitivity<Tz: TimeZone>(s1: Seq<u8>, s2: Seq<u8>) where Tz::Offset: Arbitrary
    requires
        s1.len() >= 4,
        s2.len() >= 4,
        s1.subrange(0, 4) != s2.subrange(0, 4),
        DateTime::<Tz>::synth(s1, 0).0 is Ok,
        DateTime::<Tz>::synth(s2, 0).0 is Ok,
    ensures
        DateTime::<Tz>::synth(s1, 0).0 != DateTime::<Tz>::synth(s2, 0).0,
{
    let raw1 = le_u32_at(s1, 0);
    let raw2 = le_u32_at(s2, 0);
    assert(raw1 != raw2) by {
        if raw1 == raw2 {
            lemma_le_u32_at_injective(s1, 0, s2, 0);
            assert(s1.subrange(0, 4) =~= s2.subrange(0, 4));
        }
    };
    let civil1 = NaiveDateTime::synth(s1, 0).0->Ok_0;
    let civil2 = NaiveDateTime::synth(s2, 0).0->Ok_0;
    assert(civil1 != civil2) by {
        lemma_le_u32_at_bounds(s1, 0);
        lemma_le_u32_at_bounds(s2, 0);
        if civil1 == civil2 {
            vstd::arithmetic::div_mod::lemma_fundamental_div_mod(raw1, SECS_PER_DAY as int);
            vstd::arithmetic::div_mod::lemma_fundamental_div_mod(raw2, SECS_PER_DAY as int);
        }
    };
}

/// Every composite the synthesizer produces carries a well-formed civil
/// value, for every zone capability with a synthesizable offset.
pub proof fn lemma_composite_civil_wf<Tz: TimeZone>(s: Seq<u8>, pos: int) where
    Tz::Offset: Arbitrary,

    ensures
        DateTime::<Tz>::synth(s, pos).0 matches Ok(v) ==> v.datetime.wf(),
{
    crate::naive::lemma_civil_synth_wf(s, pos);
}

/// Totality for the folding fixed-offset zone: synthesis succeeds from any
/// data at any read position — an empty or very short buffer yields the
/// degraded zero-filled reads rather than a failure.
pub proof fn lemma_totality(s: Seq<u8>, pos: int)
    ensures
        DateTime::<FixedOffset>::synth(s, pos).0 is Ok,
{
}

} // verus!
