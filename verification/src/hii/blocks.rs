//! The shared block-stream scheme.
//!
//! String, image, animation and glyph packages all carry a sequence of
//! blocks: one type byte, then a payload whose size follows from the
//! type. The block types `0x00` (`END`), `0x20` (`DUPLICATE`), `0x21`
//! (`SKIP2`), `0x22` (`SKIP1`) and `0x30..0x32` (`EXT1/EXT2/EXT4`) mean
//! the same thing in every family; only the literal blocks differ. Every
//! stream must end in an explicit `END` block, `SKIP` advances the
//! implicit id counter without emitting an element, and `DUPLICATE`
//! aliases the next id to an element decoded earlier.
//!
//! This module holds what the four decoders share: the decoded block
//! record, the terminator scans used by string payloads, and the id
//! assignment that [`crate::hii::string`] and [`crate::hii::image`]
//! build on.

use vstd::prelude::*;

use crate::bytes::u16_at;
use crate::bytes::u32_at;
use crate::error::Error;

verus! {

/// The block type bytes every family shares.
pub const BLOCK_END: u8 = 0x00;

pub const BLOCK_DUPLICATE: u8 = 0x20;

pub const BLOCK_SKIP2: u8 = 0x21;

pub const BLOCK_SKIP1: u8 = 0x22;

pub const BLOCK_EXT1: u8 = 0x30;

pub const BLOCK_EXT2: u8 = 0x31;

pub const BLOCK_EXT4: u8 = 0x32;

/// One decoded block: its type byte and its payload exactly as on the
/// wire, so a stream re-encodes to the bytes it was decoded from.
#[derive(Clone, Debug, PartialEq, Eq)]
pub struct HiiBlock {
    pub kind: u8,
    pub payload: Vec<u8>,
}

/// A block as plain values.
pub open spec fn block_view(b: HiiBlock) -> (u8, Seq<u8>) {
    (b.kind, b.payload@)
}

/// A block run as plain values.
pub open spec fn blocks_view(v: Seq<HiiBlock>) -> Seq<(u8, Seq<u8>)> {
    v.map(|i: int, b: HiiBlock| block_view(b))
}

/// The wire bytes of a block run.
pub open spec fn blocks_bytes(v: Seq<(u8, Seq<u8>)>) -> Seq<u8>
    decreases v.len(),
{
    if v.len() == 0 {
        Seq::empty()
    } else {
        seq![v[0].0] + v[0].1 + blocks_bytes(v.drop_first())
    }
}

/// Appending one block to a run appends its bytes.
pub proof fn lemma_blocks_bytes_snoc(v: Seq<(u8, Seq<u8>)>)
    requires
        v.len() > 0,
    ensures
        blocks_bytes(v) == blocks_bytes(v.drop_last()) + (seq![v.last().0] + v.last().1),
    decreases v.len(),
{
    if v.len() == 1 {
        assert(v.drop_last() =~= Seq::<(u8, Seq<u8>)>::empty());
        assert(v.drop_first() =~= Seq::<(u8, Seq<u8>)>::empty());
        assert(blocks_bytes(Seq::<(u8, Seq<u8>)>::empty()) == Seq::<u8>::empty());
        assert(blocks_bytes(v) =~= blocks_bytes(v.drop_last()) + (seq![v.last().0] + v.last().1));
    } else {
        lemma_blocks_bytes_snoc(v.drop_first());
        assert(v.drop_first().drop_last() =~= v.drop_last().drop_first());
        assert(v.drop_last()[0] == v[0]);
        assert(blocks_bytes(v) =~= blocks_bytes(v.drop_last()) + (seq![v.last().0] + v.last().1));
    }
}

/// How many bytes a run of null-terminated 8-bit text occupies, the
/// terminator included; `None` when no terminator is there.
pub open spec fn spec_scan_nul8(s: Seq<u8>) -> Option<int>
    decreases s.len(),
{
    if s.len() == 0 {
        None
    } else if s[0] == 0 {
        Some(1)
    } else {
        match spec_scan_nul8(s.drop_first()) {
            Some(k) => Some(k + 1),
            None => None,
        }
    }
}

/// The converse: a first zero at `i` makes the scan find `i + 1`.
pub proof fn lemma_scan_nul8_at(s: Seq<u8>, i: int)
    requires
        0 <= i < s.len(),
        s[i] == 0,
        forall|j: int| 0 <= j < i ==> s[j] != 0,
    ensures
        spec_scan_nul8(s) == Some(i + 1),
    decreases i,
{
    if i == 0 {
    } else {
        let t = s.drop_first();
        assert forall|j: int| 0 <= j < i - 1 implies t[j] != 0 by {
            assert(t[j] == s[j + 1]);
        }
        lemma_scan_nul8_at(t, i - 1);
    }
}

/// A scan with no zero anywhere finds nothing.
pub proof fn lemma_scan_nul8_none(s: Seq<u8>)
    requires
        forall|j: int| 0 <= j < s.len() ==> s[j] != 0,
    ensures
        spec_scan_nul8(s) == None::<int>,
    decreases s.len(),
{
    if s.len() > 0 {
        let t = s.drop_first();
        assert forall|j: int| 0 <= j < t.len() implies t[j] != 0 by {
            assert(t[j] == s[j + 1]);
        }
        lemma_scan_nul8_none(t);
    }
}

/// How many bytes a run of null-terminated 16-bit text occupies, the
/// two-byte terminator included; `None` when no terminator is there.
pub open spec fn spec_scan_nul16(s: Seq<u8>) -> Option<int>
    decreases s.len(),
{
    if s.len() < 2 {
        None
    } else if u16_at(s, 0) == 0 {
        Some(2)
    } else {
        match spec_scan_nul16(s.skip(2)) {
            Some(k) => Some(k + 2),
            None => None,
        }
    }
}

/// The converse for 16-bit text: a first zero unit at byte offset `i`
/// makes the scan find `i + 2`.
pub proof fn lemma_scan_nul16_at(s: Seq<u8>, i: int)
    requires
        0 <= i,
        i % 2 == 0,
        i + 2 <= s.len(),
        u16_at(s, i) == 0,
        forall|j: int| 0 <= j < i && j % 2 == 0 ==> u16_at(s, j) != 0,
    ensures
        spec_scan_nul16(s) == Some(i + 2),
    decreases i,
{
    if i == 0 {
    } else {
        assert(u16_at(s, 0) != 0);
        let t = s.skip(2);
        assert(u16_at(t, i - 2) == u16_at(s, i));
        assert forall|j: int| 0 <= j < i - 2 && j % 2 == 0 implies u16_at(t, j) != 0 by {
            assert(u16_at(t, j) == u16_at(s, j + 2));
        }
        lemma_scan_nul16_at(t, i - 2);
    }
}

/// A 16-bit scan with no zero unit finds nothing.
pub proof fn lemma_scan_nul16_none(s: Seq<u8>)
    requires
        forall|j: int| 0 <= j && j + 2 <= s.len() && j % 2 == 0 ==> u16_at(s, j) != 0,
    ensures
        spec_scan_nul16(s) == None::<int>,
    decreases s.len(),
{
    if s.len() >= 2 {
        assert(u16_at(s, 0) != 0);
        let t = s.skip(2);
        assert forall|j: int| 0 <= j && j + 2 <= t.len() && j % 2 == 0 implies u16_at(t, j)
            != 0 by {
            assert(u16_at(t, j) == u16_at(s, j + 2));
        }
        lemma_scan_nul16_none(t);
    }
}

/// Finds how many bytes a null-terminated 8-bit string occupies from
/// `pos`, terminator included.
pub fn scan_nul8(data: &[u8], pos: usize) -> (r: Option<usize>)
    requires
        pos <= data@.len(),
    ensures
        r is Some <==> spec_scan_nul8(data@.skip(pos as int)) is Some,
        r is Some ==> Some(r->0 as int) == spec_scan_nul8(data@.skip(pos as int)) && pos + r->0
            <= data@.len(),
{
    let ghost s = data@.skip(pos as int);
    let mut i: usize = pos;
    while i < data.len()
        invariant
            pos <= i <= data@.len(),
            s == data@.skip(pos as int),
            forall|j: int| 0 <= j < i - pos ==> s[j] != 0,
        decreases data@.len() - i,
    {
        if data[i] == 0 {
            proof {
                lemma_scan_nul8_at(s, i - pos);
            }
            return Some(i + 1 - pos);
        }
        i = i + 1;
        proof {
            assert(s[i - pos - 1] == data@[i - 1]);
        }
    }
    proof {
        lemma_scan_nul8_none(s);
    }
    None
}

/// Finds how many bytes a null-terminated 16-bit string occupies from
/// `pos`, terminator included.
pub fn scan_nul16(data: &[u8], pos: usize) -> (r: Option<usize>)
    requires
        pos <= data@.len(),
    ensures
        r is Some <==> spec_scan_nul16(data@.skip(pos as int)) is Some,
        r is Some ==> Some(r->0 as int) == spec_scan_nul16(data@.skip(pos as int)) && pos + r->0
            <= data@.len(),
{
    let ghost s = data@.skip(pos as int);
    let mut i: usize = pos;
    while data.len() - i >= 2
        invariant
            pos <= i <= data@.len(),
            (i - pos) % 2 == 0,
            s == data@.skip(pos as int),
            forall|j: int| 0 <= j < i - pos && j % 2 == 0 ==> u16_at(s, j) != 0,
        decreases data@.len() - i,
    {
        let lo = data[i];
        let hi = data[i + 1];
        if lo == 0 && hi == 0 {
            proof {
                assert(u16_at(s, i - pos) == 0) by {
                    assert(s[i - pos] == data@[i as int] && s[i - pos + 1] == data@[i + 1]);
                };
                lemma_scan_nul16_at(s, i - pos);
            }
            return Some(i + 2 - pos);
        }
        i = i + 2;
        proof {
            assert(s[i - pos - 2] == data@[i - 2] && s[i - pos - 1] == data@[i - 1]);
            assert(u16_at(s, i - pos - 2) != 0);
        }
    }
    proof {
        assert forall|j: int| 0 <= j && j + 2 <= s.len() && j % 2 == 0 implies u16_at(s, j)
            != 0 by {
            assert(j < i - pos || j + 2 > s.len());
        }
        lemma_scan_nul16_none(s);
    }
    None
}

/// Reads a 16-bit little-endian field out of a slice.
pub fn get_u16(data: &[u8], pos: usize) -> (r: u16)
    requires
        pos + 2 <= data@.len(),
    ensures
        r == u16_at(data@, pos as int),
{
    (data[pos] as u16) + 256 * (data[pos + 1] as u16)
}

/// Reads a 32-bit little-endian field out of a slice.
pub fn get_u32(data: &[u8], pos: usize) -> (r: u32)
    requires
        pos + 4 <= data@.len(),
    ensures
        r == u32_at(data@, pos as int),
{
    (data[pos] as u32) + 256 * (data[pos + 1] as u32) + 0x1_0000 * (data[pos + 2] as u32)
        + 0x100_0000 * (data[pos + 3] as u32)
}

/// Encodes a block run back to bytes: each block's type byte, then its
/// payload, exactly [`blocks_bytes`] of the run.
pub fn encode_blocks(blocks: &Vec<HiiBlock>) -> (r: Vec<u8>)
    ensures
        r@ == blocks_bytes(blocks_view(blocks@)),
{
    let mut w = crate::bytes::Writer::new();
    let mut i: usize = 0;
    while i < blocks.len()
        invariant
            i <= blocks@.len(),
            w.bytes() == blocks_bytes(blocks_view(blocks@.subrange(0, i as int))),
        decreases blocks@.len() - i,
    {
        w.write_u8(blocks[i].kind);
        w.write_bytes(blocks[i].payload.as_slice());
        i = i + 1;
        proof {
            lemma_blocks_bytes_snoc(blocks_view(blocks@.subrange(0, i as int)));
            assert(blocks_view(blocks@.subrange(0, i - 1)) =~= blocks_view(
                blocks@.subrange(0, i as int),
            ).drop_last());
            assert(w.bytes() =~= blocks_bytes(blocks_view(blocks@.subrange(0, i as int))));
        }
    }
    proof {
        assert(blocks@.subrange(0, blocks@.len() as int) =~= blocks@);
    }
    w.into_vec()
}

} // verus!
