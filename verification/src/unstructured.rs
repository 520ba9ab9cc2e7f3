//! An exhaustible cursor over a borrowed byte buffer.

use vstd::prelude::*;

verus! {

/// The byte a cursor yields at position `i` of data `s`: the stored byte
/// while `i` is in range, and the degraded value zero once the data is
/// exhausted, so that reads are total over buffers of every length.
pub open spec fn byte_at(s: Seq<u8>, i: int) -> u8 {
    if 0 <= i < s.len() {
        s[i]
    } else {
        0
    }
}

/// Where the read position stands after a read of `n` bytes from position
/// `pos`: it moves forward by `n` but never past the end of the data.
pub open spec fn advance(s: Seq<u8>, pos: int, n: int) -> int {
    if pos + n <= s.len() {
        pos + n
    } else {
        s.len() as int
    }
}

/// The little-endian 32-bit value read from data `s` at position `pos`,
/// zero-filled where the data runs out.
pub open spec fn le_u32_at(s: Seq<u8>, pos: int) -> int {
    byte_at(s, pos) as int + 0x100 * byte_at(s, pos + 1) as int + 0x1_0000 * byte_at(
        s,
        pos + 2,
    ) as int + 0x100_0000 * byte_at(s, pos + 3) as int
}

/// A little-endian 32-bit read always lies within 32 bits.
pub proof fn lemma_le_u32_at_bounds(s: Seq<u8>, pos: int)
    ensures
        0 <= le_u32_at(s, pos) < 0x1_0000_0000,
{
}

/// Little-endian decoding is injective over its four-byte window: two
/// windows that decode to the same value hold the same bytes.
pub proof fn lemma_le_u32_at_injective(s1: Seq<u8>, p1: int, s2: Seq<u8>, p2: int)
    requires
        le_u32_at(s1, p1) == le_u32_at(s2, p2),
    ensures
        byte_at(s1, p1) == byte_at(s2, p2),
        byte_at(s1, p1 + 1) == byte_at(s2, p2 + 1),
        byte_at(s1, p1 + 2) == byte_at(s2, p2 + 2),
        byte_at(s1, p1 + 3) == byte_at(s2, p2 + 3),
{
}

/// A cursor over a borrowed byte buffer, read front to back. Reads past the
/// end of the buffer yield zero instead of failing, so every read is total;
/// the position saturates at the buffer's length.
pub struct Unstructured<'a> {
    data: &'a [u8],
    pos: usize,
}

impl<'a> Unstructured<'a> {
    /// The bytes the cursor was built over.
    pub closed spec fn bytes(self) -> Seq<u8> {
        self.data@
    }

    /// The current read position.
    pub closed spec fn pos(self) -> int {
        self.pos as int
    }

    /// The read position never stands past the end of the data.
    pub open spec fn wf(self) -> bool {
        0 <= self.pos() <= self.bytes().len()
    }

    /// A fresh cursor over `data`, positioned at its first byte.
    pub fn new(data: &'a [u8]) -> (u: Unstructured<'a>)
        ensures
            u.wf(),
            u.bytes() == data@,
            u.pos() == 0,
    {
        Unstructured { data, pos: 0 }
    }

    /// Read one byte and advance; once the data is exhausted the read yields
    /// the degraded value zero and the position stays put.
    pub fn read_u8(&mut self) -> (r: u8)
        requires
            old(self).wf(),
        ensures
            final(self).wf(),
            final(self).bytes() == old(self).bytes(),
            final(self).pos() == advance(old(self).bytes(), old(self).pos(), 1),
            r == byte_at(old(self).bytes(), old(self).pos()),
    {
        if self.pos < self.data.len() {
            let b = self.data[self.pos];
            self.pos = self.pos + 1;
            b
        } else {
            0
        }
    }

    /// Read four bytes as a little-endian 32-bit value, zero-filled past the
    /// end of the data.
    pub fn read_u32_le(&mut self) -> (r: u32)
        requires
            old(self).wf(),
        ensures
            final(self).wf(),
            final(self).bytes() == old(self).bytes(),
            final(self).pos() == advance(old(self).bytes(), old(self).pos(), 4),
            r as int == le_u32_at(old(self).bytes(), old(self).pos()),
    {
        let b0 = self.read_u8();
        let b1 = self.read_u8();
        let b2 = self.read_u8();
        let b3 = self.read_u8();
        b0 as u32 + 0x100 * b1 as u32 + 0x1_0000 * b2 as u32 + 0x100_0000 * b3 as u32
    }
}

} // verus!
