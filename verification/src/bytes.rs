//! Primitive record reader and writer.
//!
//! The HII formats are byte-packed with little-endian multi-byte integers.
//! [`Reader`] is a checked cursor over an immutable byte slice; every read
//! fails with [`Error::TruncatedBuffer`] rather than pass the end of the
//! data. [`Writer`] is its mirror and appends fields to a growing buffer.
//!
//! The little-endian layout itself is pinned by the `*_le_bytes` spec
//! functions; a read of a multi-byte field promises that the consumed bytes
//! are exactly the layout of the returned value, which is what the
//! re-encoding proofs of the package codecs build on.

use vstd::prelude::*;

use crate::error::Error;

verus! {

/// The two little-endian bytes of a 16-bit value.
pub open spec fn u16_le_bytes(v: u16) -> Seq<u8> {
    seq![(v & 0xFF) as u8, ((v >> 8) & 0xFF) as u8]
}

/// The four little-endian bytes of a 32-bit value.
pub open spec fn u32_le_bytes(v: u32) -> Seq<u8> {
    seq![
        (v & 0xFF) as u8,
        ((v >> 8) & 0xFF) as u8,
        ((v >> 16) & 0xFF) as u8,
        ((v >> 24) & 0xFF) as u8,
    ]
}

/// The eight little-endian bytes of a 64-bit value.
pub open spec fn u64_le_bytes(v: u64) -> Seq<u8> {
    seq![
        (v & 0xFF) as u8,
        ((v >> 8) & 0xFF) as u8,
        ((v >> 16) & 0xFF) as u8,
        ((v >> 24) & 0xFF) as u8,
        ((v >> 32) & 0xFF) as u8,
        ((v >> 40) & 0xFF) as u8,
        ((v >> 48) & 0xFF) as u8,
        ((v >> 56) & 0xFF) as u8,
    ]
}

/// The 16-bit value of the two little-endian bytes at `p`.
pub open spec fn u16_at(s: Seq<u8>, p: int) -> u16 {
    (s[p] as int + 256 * (s[p + 1] as int)) as u16
}

/// The 32-bit value of the four little-endian bytes at `p`.
pub open spec fn u32_at(s: Seq<u8>, p: int) -> u32 {
    (s[p] as int + 256 * (s[p + 1] as int) + 0x1_0000 * (s[p + 2] as int) + 0x100_0000 * (s[p
        + 3] as int)) as u32
}

/// The 64-bit value of the eight little-endian bytes at `p`.
pub open spec fn u64_at(s: Seq<u8>, p: int) -> u64 {
    (s[p] as int + 256 * (s[p + 1] as int) + 0x1_0000 * (s[p + 2] as int) + 0x100_0000 * (s[p
        + 3] as int) + 0x1_0000_0000 * (s[p + 4] as int) + 0x100_0000_0000 * (s[p + 5] as int)
        + 0x1_0000_0000_0000 * (s[p + 6] as int) + 0x100_0000_0000_0000 * (s[p + 7] as int)) as u64
}

/// Combining two bytes little-endian and taking them apart is the identity.
pub proof fn lemma_u16_le_pack(b0: u8, b1: u8)
    ensures
        u16_le_bytes((b0 as u16) | ((b1 as u16) << 8)) =~= seq![b0, b1],
        (b0 as u16) | ((b1 as u16) << 8) == (b0 as u16) + 256 * (b1 as u16),
{
    assert(((b0 as u16) | ((b1 as u16) << 8)) == (b0 as u16) + 256 * (b1 as u16)) by (bit_vector);
    assert((((b0 as u16) | ((b1 as u16) << 8)) & 0xFF) as u8 == b0 && ((((b0 as u16) | ((
    b1 as u16) << 8)) >> 8) & 0xFF) as u8 == b1) by (bit_vector);
}

/// Combining four bytes little-endian and taking them apart is the identity.
pub proof fn lemma_u32_le_pack(b0: u8, b1: u8, b2: u8, b3: u8)
    ensures
        u32_le_bytes(
            (b0 as u32) | ((b1 as u32) << 8) | ((b2 as u32) << 16) | ((b3 as u32) << 24),
        ) =~= seq![b0, b1, b2, b3],
        (b0 as u32) | ((b1 as u32) << 8) | ((b2 as u32) << 16) | ((b3 as u32) << 24) == (
        b0 as u32) + 256 * (b1 as u32) + 0x1_0000 * (b2 as u32) + 0x100_0000 * (b3 as u32),
{
    assert(((b0 as u32) | ((b1 as u32) << 8) | ((b2 as u32) << 16) | ((b3 as u32) << 24)) == (
    b0 as u32) + 256 * (b1 as u32) + 0x1_0000 * (b2 as u32) + 0x100_0000 * (b3 as u32))
        by (bit_vector);
    assert((((b0 as u32) | ((b1 as u32) << 8) | ((b2 as u32) << 16) | ((b3 as u32) << 24)) & 0xFF) as u8 == b0 && ((((b0 as u32) | ((b1 as u32) << 8) | ((b2 as u32) << 16) | ((b3 as u32) << 24)) >> 8) & 0xFF) as u8 == b1
        && ((((b0 as u32) | ((b1 as u32) << 8) | ((b2 as u32) << 16) | ((b3 as u32) << 24)) >> 16) & 0xFF) as u8 == b2
        && ((((b0 as u32) | ((b1 as u32) << 8) | ((b2 as u32) << 16) | ((b3 as u32) << 24)) >> 24) & 0xFF) as u8 == b3) by (bit_vector);
}

/// Combining eight bytes little-endian and taking them apart is the identity.
pub proof fn lemma_u64_le_pack(b0: u8, b1: u8, b2: u8, b3: u8, b4: u8, b5: u8, b6: u8, b7: u8)
    ensures
        u64_le_bytes(
            (b0 as u64) | ((b1 as u64) << 8) | ((b2 as u64) << 16) | ((b3 as u64) << 24) | ((
            b4 as u64) << 32) | ((b5 as u64) << 40) | ((b6 as u64) << 48) | ((b7 as u64) << 56),
        ) =~= seq![b0, b1, b2, b3, b4, b5, b6, b7],
        (b0 as u64) | ((b1 as u64) << 8) | ((b2 as u64) << 16) | ((b3 as u64) << 24) | ((
        b4 as u64) << 32) | ((b5 as u64) << 40) | ((b6 as u64) << 48) | ((b7 as u64) << 56) == (
        b0 as u64) + 256 * (b1 as u64) + 0x1_0000 * (b2 as u64) + 0x100_0000 * (b3 as u64)
            + 0x1_0000_0000 * (b4 as u64) + 0x100_0000_0000 * (b5 as u64) + 0x1_0000_0000_0000 * (
        b6 as u64) + 0x100_0000_0000_0000 * (b7 as u64),
{
    assert(((b0 as u64) | ((b1 as u64) << 8) | ((b2 as u64) << 16) | ((b3 as u64) << 24) | ((
    b4 as u64) << 32) | ((b5 as u64) << 40) | ((b6 as u64) << 48) | ((b7 as u64) << 56)) == (
    b0 as u64) + 256 * (b1 as u64) + 0x1_0000 * (b2 as u64) + 0x100_0000 * (b3 as u64)
        + 0x1_0000_0000 * (b4 as u64) + 0x100_0000_0000 * (b5 as u64) + 0x1_0000_0000_0000 * (
    b6 as u64) + 0x100_0000_0000_0000 * (b7 as u64)) by (bit_vector);
    assert((((b0 as u64) | ((b1 as u64) << 8) | ((b2 as u64) << 16) | ((b3 as u64) << 24) | ((b4 as u64) << 32) | ((b5 as u64) << 40) | ((b6 as u64) << 48) | ((b7 as u64) << 56)) & 0xFF) as u8 == b0 && ((((b0 as u64) | ((b1 as u64) << 8) | ((b2 as u64) << 16) | ((b3 as u64) << 24) | ((b4 as u64) << 32) | ((b5 as u64) << 40) | ((b6 as u64) << 48) | ((b7 as u64) << 56)) >> 8) & 0xFF) as u8 == b1
        && ((((b0 as u64) | ((b1 as u64) << 8) | ((b2 as u64) << 16) | ((b3 as u64) << 24) | ((b4 as u64) << 32) | ((b5 as u64) << 40) | ((b6 as u64) << 48) | ((b7 as u64) << 56)) >> 16) & 0xFF) as u8 == b2
        && ((((b0 as u64) | ((b1 as u64) << 8) | ((b2 as u64) << 16) | ((b3 as u64) << 24) | ((b4 as u64) << 32) | ((b5 as u64) << 40) | ((b6 as u64) << 48) | ((b7 as u64) << 56)) >> 24) & 0xFF) as u8 == b3
        && ((((b0 as u64) | ((b1 as u64) << 8) | ((b2 as u64) << 16) | ((b3 as u64) << 24) | ((b4 as u64) << 32) | ((b5 as u64) << 40) | ((b6 as u64) << 48) | ((b7 as u64) << 56)) >> 32) & 0xFF) as u8 == b4
        && ((((b0 as u64) | ((b1 as u64) << 8) | ((b2 as u64) << 16) | ((b3 as u64) << 24) | ((b4 as u64) << 32) | ((b5 as u64) << 40) | ((b6 as u64) << 48) | ((b7 as u64) << 56)) >> 40) & 0xFF) as u8 == b5
        && ((((b0 as u64) | ((b1 as u64) << 8) | ((b2 as u64) << 16) | ((b3 as u64) << 24) | ((b4 as u64) << 32) | ((b5 as u64) << 40) | ((b6 as u64) << 48) | ((b7 as u64) << 56)) >> 48) & 0xFF) as u8 == b6
        && ((((b0 as u64) | ((b1 as u64) << 8) | ((b2 as u64) << 16) | ((b3 as u64) << 24) | ((b4 as u64) << 32) | ((b5 as u64) << 40) | ((b6 as u64) << 48) | ((b7 as u64) << 56)) >> 56) & 0xFF) as u8 == b7) by (bit_vector);
}

/// The wire bytes of a run of 16-bit values.
pub open spec fn u16s_bytes(s: Seq<u16>) -> Seq<u8>
    decreases s.len(),
{
    if s.len() == 0 {
        Seq::empty()
    } else {
        u16_le_bytes(s[0]) + u16s_bytes(s.drop_first())
    }
}

/// Appending one value appends its bytes.
pub proof fn lemma_u16s_bytes_snoc(s: Seq<u16>)
    requires
        s.len() > 0,
    ensures
        u16s_bytes(s) == u16s_bytes(s.drop_last()) + u16_le_bytes(s.last()),
    decreases s.len(),
{
    if s.len() == 1 {
        assert(s.drop_last() =~= Seq::<u16>::empty());
        assert(s.drop_first() =~= Seq::<u16>::empty());
        assert(u16s_bytes(s) =~= u16s_bytes(s.drop_last()) + u16_le_bytes(s.last()));
    } else {
        lemma_u16s_bytes_snoc(s.drop_first());
        assert(s.drop_first().drop_last() =~= s.drop_last().drop_first());
        assert(s.drop_last()[0] == s[0]);
        assert(u16s_bytes(s) =~= u16s_bytes(s.drop_last()) + u16_le_bytes(s.last()));
    }
}

/// Checked cursor over an immutable byte slice.
pub struct Reader<'a> {
    pub data: &'a [u8],
    pub pos: usize,
}

impl<'a> Reader<'a> {
    /// The bytes the cursor walks over.
    pub open spec fn bytes(&self) -> Seq<u8> {
        self.data@
    }

    /// The current position.
    pub open spec fn at(&self) -> int {
        self.pos as int
    }

    /// The position never passes the end of the data.
    pub open spec fn wf(&self) -> bool {
        self.pos <= self.data@.len()
    }

    /// How many bytes are left to read.
    pub open spec fn left(&self) -> int {
        self.bytes().len() - self.at()
    }

    pub fn new(data: &'a [u8]) -> (r: Reader<'a>)
        ensures
            r.bytes() == data@,
            r.at() == 0,
            r.wf(),
    {
        Reader { data, pos: 0 }
    }

    /// How many bytes are left to read.
    pub fn remaining(&self) -> (r: usize)
        requires
            self.wf(),
        ensures
            r == self.left(),
    {
        self.data.len() - self.pos
    }

    /// Reads one byte.
    pub fn read_u8(&mut self) -> (r: Result<u8, Error>)
        requires
            old(self).wf(),
        ensures
            final(self).wf(),
            final(self).bytes() == old(self).bytes(),
            r is Ok <==> old(self).left() >= 1,
            r is Ok ==> final(self).at() == old(self).at() + 1 && r->Ok_0 == old(self).bytes()[old(
                self,
            ).at()],
            r is Err ==> *final(self) == *old(self) && r->Err_0 == Error::TruncatedBuffer,
    {
        if self.pos < self.data.len() {
            let b = self.data[self.pos];
            self.pos = self.pos + 1;
            Ok(b)
        } else {
            Err(Error::TruncatedBuffer)
        }
    }

    /// Reads one byte without advancing.
    pub fn peek_u8(&self) -> (r: Result<u8, Error>)
        requires
            self.wf(),
        ensures
            r is Ok <==> self.left() >= 1,
            r is Ok ==> r->Ok_0 == self.bytes()[self.at()],
            r is Err ==> r->Err_0 == Error::TruncatedBuffer,
    {
        if self.pos < self.data.len() {
            Ok(self.data[self.pos])
        } else {
            Err(Error::TruncatedBuffer)
        }
    }

    /// Reads a 16-bit little-endian field.
    pub fn read_u16(&mut self) -> (r: Result<u16, Error>)
        requires
            old(self).wf(),
        ensures
            final(self).wf(),
            final(self).bytes() == old(self).bytes(),
            r is Ok <==> old(self).left() >= 2,
            r is Ok ==> final(self).at() == old(self).at() + 2 && u16_le_bytes(r->Ok_0) == old(
                self,
            ).bytes().subrange(old(self).at(), old(self).at() + 2) && r->Ok_0 == u16_at(
                old(self).bytes(),
                old(self).at(),
            ),
            r is Err ==> *final(self) == *old(self) && r->Err_0 == Error::TruncatedBuffer,
    {
        if self.data.len() - self.pos >= 2 {
            let b0 = self.data[self.pos];
            let b1 = self.data[self.pos + 1];
            self.pos = self.pos + 2;
            let v = (b0 as u16) | ((b1 as u16) << 8);
            proof {
                lemma_u16_le_pack(b0, b1);
                assert(u16_le_bytes(v) =~= old(self).bytes().subrange(
                    old(self).at(),
                    old(self).at() + 2,
                ));
            }
            Ok(v)
        } else {
            Err(Error::TruncatedBuffer)
        }
    }

    /// Reads a 32-bit little-endian field.
    pub fn read_u32(&mut self) -> (r: Result<u32, Error>)
        requires
            old(self).wf(),
        ensures
            final(self).wf(),
            final(self).bytes() == old(self).bytes(),
            r is Ok <==> old(self).left() >= 4,
            r is Ok ==> final(self).at() == old(self).at() + 4 && u32_le_bytes(r->Ok_0) == old(
                self,
            ).bytes().subrange(old(self).at(), old(self).at() + 4) && r->Ok_0 == u32_at(
                old(self).bytes(),
                old(self).at(),
            ),
            r is Err ==> *final(self) == *old(self) && r->Err_0 == Error::TruncatedBuffer,
    {
        if self.data.len() - self.pos >= 4 {
            let b0 = self.data[self.pos];
            let b1 = self.data[self.pos + 1];
            let b2 = self.data[self.pos + 2];
            let b3 = self.data[self.pos + 3];
            self.pos = self.pos + 4;
            let v = (b0 as u32) | ((b1 as u32) << 8) | ((b2 as u32) << 16) | ((b3 as u32) << 24);
            proof {
                lemma_u32_le_pack(b0, b1, b2, b3);
                assert(u32_le_bytes(v) =~= old(self).bytes().subrange(
                    old(self).at(),
                    old(self).at() + 4,
                ));
            }
            Ok(v)
        } else {
            Err(Error::TruncatedBuffer)
        }
    }

    /// Reads a 64-bit little-endian field.
    pub fn read_u64(&mut self) -> (r: Result<u64, Error>)
        requires
            old(self).wf(),
        ensures
            final(self).wf(),
            final(self).bytes() == old(self).bytes(),
            r is Ok <==> old(self).left() >= 8,
            r is Ok ==> final(self).at() == old(self).at() + 8 && u64_le_bytes(r->Ok_0) == old(
                self,
            ).bytes().subrange(old(self).at(), old(self).at() + 8) && r->Ok_0 == u64_at(
                old(self).bytes(),
                old(self).at(),
            ),
            r is Err ==> *final(self) == *old(self) && r->Err_0 == Error::TruncatedBuffer,
    {
        if self.data.len() - self.pos >= 8 {
            let b0 = self.data[self.pos];
            let b1 = self.data[self.pos + 1];
            let b2 = self.data[self.pos + 2];
            let b3 = self.data[self.pos + 3];
            let b4 = self.data[self.pos + 4];
            let b5 = self.data[self.pos + 5];
            let b6 = self.data[self.pos + 6];
            let b7 = self.data[self.pos + 7];
            self.pos = self.pos + 8;
            let v = (b0 as u64) | ((b1 as u64) << 8) | ((b2 as u64) << 16) | ((b3 as u64) << 24)
                | ((b4 as u64) << 32) | ((b5 as u64) << 40) | ((b6 as u64) << 48) | ((b7 as u64)
                << 56);
            proof {
                lemma_u64_le_pack(b0, b1, b2, b3, b4, b5, b6, b7);
                assert(u64_le_bytes(v) =~= old(self).bytes().subrange(
                    old(self).at(),
                    old(self).at() + 8,
                ));
            }
            Ok(v)
        } else {
            Err(Error::TruncatedBuffer)
        }
    }

    /// Reads `n` raw bytes.
    pub fn read_bytes(&mut self, n: usize) -> (r: Result<Vec<u8>, Error>)
        requires
            old(self).wf(),
        ensures
            final(self).wf(),
            final(self).bytes() == old(self).bytes(),
            r is Ok <==> old(self).left() >= n,
            r is Ok ==> final(self).at() == old(self).at() + n && r->Ok_0@ == old(
                self,
            ).bytes().subrange(old(self).at(), old(self).at() + n),
            r is Err ==> *final(self) == *old(self) && r->Err_0 == Error::TruncatedBuffer,
    {
        if self.data.len() - self.pos >= n {
            let end = self.pos + n;
            let mut v: Vec<u8> = Vec::new();
            let mut i: usize = 0;
            while i < n
                invariant
                    i <= n,
                    end == self.pos + n,
                    self.pos + n <= self.data@.len(),
                    v@ == self.data@.subrange(self.pos as int, self.pos + i),
                decreases n - i,
            {
                v.push(self.data[self.pos + i]);
                i = i + 1;
                proof {
                    assert(v@ =~= self.data@.subrange(self.pos as int, self.pos + i));
                }
            }
            self.pos = self.pos + n;
            Ok(v)
        } else {
            Err(Error::TruncatedBuffer)
        }
    }
}

/// Appends fields at the current end of a growing byte buffer; the mirror
/// of [`Reader`], used by the encoders.
pub struct Writer {
    pub out: Vec<u8>,
}

impl Writer {
    /// The bytes written so far.
    pub open spec fn bytes(&self) -> Seq<u8> {
        self.out@
    }

    pub fn new() -> (r: Writer)
        ensures
            r.bytes() == Seq::<u8>::empty(),
    {
        Writer { out: Vec::new() }
    }

    /// The number of bytes written so far.
    pub fn len(&self) -> (r: usize)
        ensures
            r == self.bytes().len(),
    {
        self.out.len()
    }

    /// Hands the finished buffer out.
    pub fn into_vec(self) -> (r: Vec<u8>)
        ensures
            r@ == self.bytes(),
    {
        self.out
    }

    pub fn write_u8(&mut self, b: u8)
        ensures
            final(self).bytes() == old(self).bytes() + seq![b],
    {
        self.out.push(b);
        proof {
            assert(self.bytes() =~= old(self).bytes() + seq![b]);
        }
    }

    pub fn write_u16(&mut self, v: u16)
        ensures
            final(self).bytes() == old(self).bytes() + u16_le_bytes(v),
    {
        self.out.push((v & 0xFF) as u8);
        self.out.push(((v >> 8) & 0xFF) as u8);
        proof {
            assert(self.bytes() =~= old(self).bytes() + u16_le_bytes(v));
        }
    }

    pub fn write_u32(&mut self, v: u32)
        ensures
            final(self).bytes() == old(self).bytes() + u32_le_bytes(v),
    {
        self.out.push((v & 0xFF) as u8);
        self.out.push(((v >> 8) & 0xFF) as u8);
        self.out.push(((v >> 16) & 0xFF) as u8);
        self.out.push(((v >> 24) & 0xFF) as u8);
        proof {
            assert(self.bytes() =~= old(self).bytes() + u32_le_bytes(v));
        }
    }

    pub fn write_u64(&mut self, v: u64)
        ensures
            final(self).bytes() == old(self).bytes() + u64_le_bytes(v),
    {
        self.out.push((v & 0xFF) as u8);
        self.out.push(((v >> 8) & 0xFF) as u8);
        self.out.push(((v >> 16) & 0xFF) as u8);
        self.out.push(((v >> 24) & 0xFF) as u8);
        self.out.push(((v >> 32) & 0xFF) as u8);
        self.out.push(((v >> 40) & 0xFF) as u8);
        self.out.push(((v >> 48) & 0xFF) as u8);
        self.out.push(((v >> 56) & 0xFF) as u8);
        proof {
            assert(self.bytes() =~= old(self).bytes() + u64_le_bytes(v));
        }
    }

    /// Appends a run of raw bytes.
    pub fn write_bytes(&mut self, v: &[u8])
        ensures
            final(self).bytes() == old(self).bytes() + v@,
    {
        let mut i: usize = 0;
        while i < v.len()
            invariant
                i <= v@.len(),
                self.bytes() == old(self).bytes() + v@.subrange(0, i as int),
            decreases v@.len() - i,
        {
            self.out.push(v[i]);
            i = i + 1;
            proof {
                assert(self.bytes() =~= old(self).bytes() + v@.subrange(0, i as int));
            }
        }
        proof {
            assert(v@.subrange(0, v@.len() as int) =~= v@);
        }
    }
}

} // verus!
