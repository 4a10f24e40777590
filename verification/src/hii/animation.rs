//! Animations package: AIBT block streams.
//!
//! An animation block names a default image and a cell geometry, then
//! carries a counted run of animation cells; the clear variants add a
//! background colour, and each shape exists in a one-shot and a looping
//! form. The cell count stands in the block, so the decoder reads it
//! first and takes exactly that many cells, never inferring the count
//! from the remaining data. The shared `SKIP`/`DUPLICATE`/`EXT` scheme
//! of [`crate::hii::blocks`] applies.

use vstd::prelude::*;

use crate::bytes::u16_at;
use crate::bytes::u32_at;
use crate::error::Error;
use crate::hii::blocks::blocks_bytes;
use crate::hii::blocks::blocks_view;
use crate::bytes::u16_le_bytes;
use crate::bytes::Reader;
use crate::bytes::Writer;
use crate::hii::blocks::get_u16;
use crate::hii::blocks::get_u32;
use crate::hii::blocks::HiiBlock;
use crate::hii::image::RgbPixel;
use crate::hii::PackageHeader;

verus! {

/// `EFI_HII_ANIMATION_PACKAGE_HDR`
#[derive(Clone, Copy, Debug, PartialEq, Eq, Structural)]
pub struct AnimationPackageHeader {
    pub Header: PackageHeader,
    pub AnimationInfoOffset: u32,
}

/// Animation block type byte.
#[derive(Clone, Copy, Debug, PartialEq, Eq, Structural)]
pub struct AnimationBlockType(pub u8);

impl AnimationBlockType {
    pub const END: u8 = 0x00;
    pub const OVERLAY_IMAGES: u8 = 0x10;
    pub const CLEAR_IMAGES: u8 = 0x11;
    pub const RESTORE_SCRN: u8 = 0x12;
    pub const OVERLAY_IMAGES_LOOP: u8 = 0x18;
    pub const CLEAR_IMAGES_LOOP: u8 = 0x19;
    pub const RESTORE_SCRN_LOOP: u8 = 0x1A;
    pub const DUPLICATE: u8 = 0x20;
    pub const SKIP2: u8 = 0x21;
    pub const SKIP1: u8 = 0x22;
    pub const EXT1: u8 = 0x30;
    pub const EXT2: u8 = 0x31;
    pub const EXT4: u8 = 0x32;
}

/// `EFI_HII_ANIMATION_BLOCK`
#[derive(Clone, Copy, Debug, PartialEq, Eq, Structural)]
pub struct AnimationBlock {
    pub BlockType: AnimationBlockType,
}

/// `EFI_HII_AIBT_EXT1_BLOCK`
#[derive(Clone, Copy, Debug, PartialEq, Eq, Structural)]
pub struct AibtExt1 {
    pub BlockType2: AnimationBlockType,
    pub Length: u8,
}

/// `EFI_HII_AIBT_EXT2_BLOCK`
#[derive(Clone, Copy, Debug, PartialEq, Eq, Structural)]
pub struct AibtExt2 {
    pub BlockType2: AnimationBlockType,
    pub Length: u16,
}

/// `EFI_HII_AIBT_EXT4_BLOCK`
#[derive(Clone, Copy, Debug, PartialEq, Eq, Structural)]
pub struct AibtExt4 {
    pub BlockType2: AnimationBlockType,
    pub Length: u32,
}

/// `EFI_HII_ANIMATION_CELL`
#[derive(Clone, Copy, Debug, PartialEq, Eq, Structural)]
pub struct AnimationCell {
    pub OffsetX: u16,
    pub OffsetY: u16,
    pub ImageId: u16,
    pub Delay: u16,
}

/// `EFI_HII_AIBT_OVERLAY_IMAGES_BLOCK`
#[derive(Clone, Debug, PartialEq, Eq)]
pub struct AibtOverlayImages {
    pub DftImageId: u16,
    pub Width: u16,
    pub Height: u16,
    pub CellCount: u16,
    pub AnimationCell: Vec<AnimationCell>,
}

/// `EFI_HII_AIBT_CLEAR_IMAGES_BLOCK`
#[derive(Clone, Debug, PartialEq, Eq)]
pub struct AibtClearImages {
    pub DftImageId: u16,
    pub Width: u16,
    pub Height: u16,
    pub CellCount: u16,
    pub BackgndColor: RgbPixel,
    pub AnimationCell: Vec<AnimationCell>,
}

/// `EFI_HII_AIBT_RESTORE_SCRN_BLOCK`
#[derive(Clone, Debug, PartialEq, Eq)]
pub struct AibtRestoreScreen {
    pub DftImageId: u16,
    pub Width: u16,
    pub Height: u16,
    pub CellCount: u16,
    pub AnimationCell: Vec<AnimationCell>,
}

/// `EFI_HII_AIBT_DUPLICATE_BLOCK`
#[derive(Clone, Copy, Debug, PartialEq, Eq, Structural)]
pub struct AibtDuplicate {
    pub AnimationId: u16,
}

/// `EFI_HII_AIBT_SKIP1_BLOCK`
#[derive(Clone, Copy, Debug, PartialEq, Eq, Structural)]
pub struct AibtSkip1 {
    pub SkipCount: u8,
}

/// `EFI_HII_AIBT_SKIP2_BLOCK`
#[derive(Clone, Copy, Debug, PartialEq, Eq, Structural)]
pub struct AibtSkip2 {
    pub SkipCount: u16,
}

/// The payload size table of the animation family: given a block type
/// and the bytes after the type byte, how many of them the block's
/// payload takes, or the exact error. The cell count at offset 6 sizes
/// the cell run; clear blocks carry a 3-byte background colour first.
pub open spec fn aibt_size(t: u8, s: Seq<u8>) -> Result<int, Error> {
    if t == 0x20 || t == 0x21 {
        if s.len() >= 2 {
            Ok(2)
        } else {
            Err(Error::TruncatedBuffer)
        }
    } else if t == 0x22 {
        if s.len() >= 1 {
            Ok(1)
        } else {
            Err(Error::TruncatedBuffer)
        }
    } else if t == 0x30 {
        if s.len() < 2 {
            Err(Error::TruncatedBuffer)
        } else if s[1] < 3 {
            Err(Error::InvalidLength)
        } else {
            Ok(s[1] - 1)
        }
    } else if t == 0x31 {
        if s.len() < 3 {
            Err(Error::TruncatedBuffer)
        } else if u16_at(s, 1) < 4 {
            Err(Error::InvalidLength)
        } else {
            Ok(u16_at(s, 1) - 1)
        }
    } else if t == 0x32 {
        if s.len() < 5 {
            Err(Error::TruncatedBuffer)
        } else if u32_at(s, 1) < 6 {
            Err(Error::InvalidLength)
        } else {
            Ok(u32_at(s, 1) - 1)
        }
    } else if t == 0x10 || t == 0x12 || t == 0x18 || t == 0x1A {
        if s.len() < 8 {
            Err(Error::TruncatedBuffer)
        } else {
            Ok(8 + 8 * (u16_at(s, 6) as int))
        }
    } else if t == 0x11 || t == 0x19 {
        if s.len() < 11 {
            Err(Error::TruncatedBuffer)
        } else {
            Ok(11 + 8 * (u16_at(s, 6) as int))
        }
    } else {
        Err(Error::UnknownBlockType)
    }
}

/// The reference splitter of an animation block stream: blocks front to
/// back, the stream closed by exactly one `END` block as its last block.
pub open spec fn spec_split_aibt(s: Seq<u8>) -> Result<Seq<(u8, Seq<u8>)>, Error>
    decreases s.len(),
{
    if s.len() == 0 {
        Err(Error::TruncatedBuffer)
    } else if s[0] == 0 {
        if s.len() == 1 {
            Ok(seq![(0u8, Seq::<u8>::empty())])
        } else {
            Err(Error::LengthMismatch)
        }
    } else {
        match aibt_size(s[0], s.skip(1)) {
            Ok(k) => if k < 0 || 1 + k > s.len() {
                Err(Error::TruncatedBuffer)
            } else {
                match spec_split_aibt(s.skip(1 + k)) {
                    Ok(rest) => Ok(seq![(s[0], s.subrange(1, 1 + k))] + rest),
                    Err(e) => Err(e),
                }
            },
            Err(e) => Err(e),
        }
    }
}

/// Byte conservation for animation streams: whatever the splitter
/// accepts re-encodes to exactly the input, and the `END` block stands
/// last and only last.
pub proof fn lemma_aibt_round_trip(s: Seq<u8>)
    requires
        spec_split_aibt(s) is Ok,
    ensures
        blocks_bytes(spec_split_aibt(s)->Ok_0) == s,
        spec_split_aibt(s)->Ok_0.len() > 0,
        spec_split_aibt(s)->Ok_0.last().0 == 0,
        forall|i: int|
            0 <= i < spec_split_aibt(s)->Ok_0.len() - 1 ==> (#[trigger] spec_split_aibt(
                s,
            )->Ok_0[i]).0 != 0,
    decreases s.len(),
{
    let v = spec_split_aibt(s)->Ok_0;
    if s[0] == 0 {
        assert(blocks_bytes(v.drop_first()) == Seq::<u8>::empty());
        assert(blocks_bytes(v) =~= s);
    } else {
        let k = aibt_size(s[0], s.skip(1))->Ok_0;
        lemma_aibt_round_trip(s.skip(1 + k));
        let rest = spec_split_aibt(s.skip(1 + k))->Ok_0;
        assert(v.drop_first() =~= rest);
        assert(v[0] == (s[0], s.subrange(1, 1 + k)));
        assert(seq![v[0].0] + v[0].1 =~= s.subrange(0, 1 + k));
        assert(blocks_bytes(v) =~= s.subrange(0, 1 + k) + s.skip(1 + k));
        assert(s.subrange(0, 1 + k) + s.skip(1 + k) =~= s);
    }
}

/// The executable size table; agrees with [`aibt_size`], except that it
/// also reports a size that passes the end of the data as a truncation.
fn aibt_size_at(data: &[u8], t: u8, pos: usize) -> (r: Result<usize, Error>)
    requires
        pos <= data@.len(),
    ensures
        r is Ok ==> aibt_size(t, data@.skip(pos as int)) == Ok::<int, Error>(r->Ok_0 as int) && pos
            + r->Ok_0 <= data@.len(),
        r is Err ==> (match aibt_size(t, data@.skip(pos as int)) {
            Ok(k) => r->Err_0 == Error::TruncatedBuffer && pos + k > data@.len(),
            Err(e) => r->Err_0 == e,
        }),
{
    let ghost s = data@.skip(pos as int);
    let left = data.len() - pos;
    if t == 0x20 || t == 0x21 {
        if left >= 2 {
            Ok(2)
        } else {
            Err(Error::TruncatedBuffer)
        }
    } else if t == 0x22 {
        if left >= 1 {
            Ok(1)
        } else {
            Err(Error::TruncatedBuffer)
        }
    } else if t == 0x30 {
        if left < 2 {
            Err(Error::TruncatedBuffer)
        } else {
            let l = data[pos + 1];
            proof {
                assert(s[1] == data@[pos + 1]);
            }
            if l < 3 {
                Err(Error::InvalidLength)
            } else if (l as usize) - 1 > left {
                Err(Error::TruncatedBuffer)
            } else {
                Ok((l as usize) - 1)
            }
        }
    } else if t == 0x31 {
        if left < 3 {
            Err(Error::TruncatedBuffer)
        } else {
            let l = get_u16(data, pos + 1);
            proof {
                assert(s[1] == data@[pos + 1] && s[2] == data@[pos + 2]);
                assert(u16_at(s, 1) == l);
            }
            if l < 4 {
                Err(Error::InvalidLength)
            } else if (l as usize) - 1 > left {
                Err(Error::TruncatedBuffer)
            } else {
                Ok((l as usize) - 1)
            }
        }
    } else if t == 0x32 {
        if left < 5 {
            Err(Error::TruncatedBuffer)
        } else {
            let l = get_u32(data, pos + 1);
            proof {
                assert(s[1] == data@[pos + 1] && s[2] == data@[pos + 2] && s[3] == data@[pos + 3]
                    && s[4] == data@[pos + 4]);
                assert(u32_at(s, 1) == l);
            }
            if l < 6 {
                Err(Error::InvalidLength)
            } else if l as u64 - 1 > left as u64 {
                Err(Error::TruncatedBuffer)
            } else {
                Ok((l - 1) as usize)
            }
        }
    } else if t == 0x10 || t == 0x12 || t == 0x18 || t == 0x1A {
        if left < 8 {
            Err(Error::TruncatedBuffer)
        } else {
            let n = get_u16(data, pos + 6);
            proof {
                assert(s[6] == data@[pos + 6] && s[7] == data@[pos + 7]);
                assert(u16_at(s, 6) == n);
            }
            let body = 8 + 8 * (n as u64);
            if body > left as u64 {
                Err(Error::TruncatedBuffer)
            } else {
                Ok(body as usize)
            }
        }
    } else if t == 0x11 || t == 0x19 {
        if left < 11 {
            Err(Error::TruncatedBuffer)
        } else {
            let n = get_u16(data, pos + 6);
            proof {
                assert(s[6] == data@[pos + 6] && s[7] == data@[pos + 7]);
                assert(u16_at(s, 6) == n);
            }
            let body = 11 + 8 * (n as u64);
            if body > left as u64 {
                Err(Error::TruncatedBuffer)
            } else {
                Ok(body as usize)
            }
        }
    } else {
        Err(Error::UnknownBlockType)
    }
}

/// Decodes an animation block stream into its blocks; accepts exactly
/// the streams [`spec_split_aibt`] accepts and returns exactly its
/// blocks, which re-encode to the input bytes
/// ([`lemma_aibt_round_trip`]).
#[verifier::rlimit(100)]
pub fn decode_animation_blocks(data: &[u8]) -> (r: Result<Vec<HiiBlock>, Error>)
    ensures
        r is Ok <==> spec_split_aibt(data@) is Ok,
        r is Ok ==> blocks_view(r->Ok_0@) == spec_split_aibt(data@)->Ok_0,
        r is Err ==> spec_split_aibt(data@) == Err::<Seq<(u8, Seq<u8>)>, Error>(r->Err_0),
{
    let dlen = data.len();
    let mut blocks: Vec<HiiBlock> = Vec::new();
    let mut pos: usize = 0;
    proof {
        assert(data@.skip(0) =~= data@);
        if spec_split_aibt(data@) is Ok {
            assert(blocks_view(blocks@) + spec_split_aibt(data@)->Ok_0 =~= spec_split_aibt(
                data@,
            )->Ok_0);
        }
    }
    while pos < data.len()
        invariant
            dlen == data@.len(),
            pos <= data@.len(),
            spec_split_aibt(data@) == (match spec_split_aibt(data@.skip(pos as int)) {
                Ok(rest) => Ok::<_, Error>(blocks_view(blocks@) + rest),
                Err(e) => Err::<Seq<(u8, Seq<u8>)>, _>(e),
            }),
        decreases data@.len() - pos,
    {
        let ghost s = data@.skip(pos as int);
        let t = data[pos];
        proof {
            assert(s[0] == t);
        }
        if t == 0 {
            if pos + 1 != data.len() {
                return Err(Error::LengthMismatch);
            }
            let ghost view_old = blocks_view(blocks@);
            blocks.push(HiiBlock { kind: 0, payload: Vec::new() });
            proof {
                assert(spec_split_aibt(s) == Ok::<_, Error>(seq![(0u8, Seq::<u8>::empty())]));
                assert(blocks_view(blocks@) =~= view_old + seq![(0u8, Seq::<u8>::empty())]);
            }
            return Ok(blocks);
        }
        let k = match aibt_size_at(data, t, pos + 1) {
            Ok(k) => k,
            Err(e) => {
                proof {
                    assert(data@.skip(pos + 1) =~= s.skip(1));
                    if aibt_size(t, s.skip(1)) is Ok {
                        let k = aibt_size(t, s.skip(1))->Ok_0;
                        assert(pos + 1 + k > data@.len());
                        assert(spec_split_aibt(s) == Err::<Seq<(u8, Seq<u8>)>, Error>(e));
                    } else {
                        assert(spec_split_aibt(s) == Err::<Seq<(u8, Seq<u8>)>, Error>(e));
                    }
                }
                return Err(e);
            },
        };
        proof {
            assert(data@.skip(pos + 1) =~= s.skip(1));
            assert(aibt_size(t, s.skip(1)) == Ok::<int, Error>(k as int));
        }
        let mut payload: Vec<u8> = Vec::new();
        let mut j: usize = 0;
        while j < k
            invariant
                dlen == data@.len(),
                pos + 1 + k <= dlen,
                j <= k,
                payload@ == data@.subrange(pos + 1, pos + 1 + j),
            decreases k - j,
        {
            payload.push(data[pos + 1 + j]);
            j = j + 1;
            proof {
                assert(payload@ =~= data@.subrange(pos as int + 1, pos + 1 + j));
            }
        }
        let ghost view_old = blocks_view(blocks@);
        let ghost payload_v = payload@;
        blocks.push(HiiBlock { kind: t, payload });
        proof {
            assert(payload_v =~= s.subrange(1, 1 + k));
            assert(s.skip(1 + k) =~= data@.skip(pos + 1 + k));
            assert(blocks_view(blocks@) =~= view_old + seq![(t, payload_v)]);
            assert(spec_split_aibt(s) == (match spec_split_aibt(s.skip(1 + k)) {
                Ok(rest) => Ok::<_, Error>(seq![(t, payload_v)] + rest),
                Err(e) => Err::<Seq<(u8, Seq<u8>)>, _>(e),
            }));
            if spec_split_aibt(data@.skip(pos + 1 + k)) is Ok {
                let rest = spec_split_aibt(data@.skip(pos + 1 + k))->Ok_0;
                assert(view_old + (seq![(t, payload_v)] + rest) =~= blocks_view(blocks@) + rest);
            }
        }
        pos = pos + 1 + k;
    }
    proof {
        assert(data@.skip(pos as int) =~= Seq::<u8>::empty());
    }
    Err(Error::TruncatedBuffer)
}

/// The wire payload of a `DUPLICATE` block.
pub open spec fn aibt_duplicate_bytes(v: AibtDuplicate) -> Seq<u8> {
    crate::bytes::u16_le_bytes(v.AnimationId)
}

impl AibtDuplicate {
    /// Reads a `DUPLICATE` payload: exactly its 2 fixed bytes; the
    /// record re-encodes to the payload.
    pub fn parse(payload: &[u8]) -> (r: Result<AibtDuplicate, Error>)
        ensures
            r is Ok <==> payload@.len() == 2,
            r is Ok ==> aibt_duplicate_bytes(r->Ok_0) == payload@,
            r is Err ==> (payload@.len() < 2 && r->Err_0 == Error::TruncatedBuffer) || (
            payload@.len() > 2 && r->Err_0 == Error::LengthMismatch),
    {
        if payload.len() < 2 {
            return Err(Error::TruncatedBuffer);
        }
        if payload.len() > 2 {
            return Err(Error::LengthMismatch);
        }
        let x_AnimationId = crate::hii::blocks::get_u16(payload, 0);
        proof {
            assert(crate::bytes::u16_le_bytes(x_AnimationId) =~= payload@.subrange(0, 2)) by {
                crate::bytes::lemma_u16_le_pack(payload@[0], payload@[1]);
                assert(x_AnimationId == (payload@[0] as u16) + 256 * (payload@[1] as u16));
            };
        }
        let v = AibtDuplicate { AnimationId: x_AnimationId };
        proof {
            assert(aibt_duplicate_bytes(v) =~= payload@);
        }
        Ok(v)
    }

    /// Writes the payload back.
    pub fn encode(&self) -> (r: Vec<u8>)
        ensures
            r@ == aibt_duplicate_bytes(*self),
    {
        let mut w = crate::bytes::Writer::new();
        w.write_u16(self.AnimationId);
        proof {
            assert(w.bytes() =~= aibt_duplicate_bytes(*self));
        }
        w.into_vec()
    }
}

/// The wire payload of a `SKIP1` block.
pub open spec fn aibt_skip1_bytes(v: AibtSkip1) -> Seq<u8> {
    seq![v.SkipCount]
}

impl AibtSkip1 {
    /// Reads a `SKIP1` payload: exactly its 1 fixed bytes; the
    /// record re-encodes to the payload.
    pub fn parse(payload: &[u8]) -> (r: Result<AibtSkip1, Error>)
        ensures
            r is Ok <==> payload@.len() == 1,
            r is Ok ==> aibt_skip1_bytes(r->Ok_0) == payload@,
            r is Err ==> (payload@.len() < 1 && r->Err_0 == Error::TruncatedBuffer) || (
            payload@.len() > 1 && r->Err_0 == Error::LengthMismatch),
    {
        if payload.len() < 1 {
            return Err(Error::TruncatedBuffer);
        }
        if payload.len() > 1 {
            return Err(Error::LengthMismatch);
        }
        let x_SkipCount = payload[0];
        let v = AibtSkip1 { SkipCount: x_SkipCount };
        proof {
            assert(aibt_skip1_bytes(v) =~= payload@);
        }
        Ok(v)
    }

    /// Writes the payload back.
    pub fn encode(&self) -> (r: Vec<u8>)
        ensures
            r@ == aibt_skip1_bytes(*self),
    {
        let mut w = crate::bytes::Writer::new();
        w.write_u8(self.SkipCount);
        proof {
            assert(w.bytes() =~= aibt_skip1_bytes(*self));
        }
        w.into_vec()
    }
}

/// The wire payload of a `SKIP2` block.
pub open spec fn aibt_skip2_bytes(v: AibtSkip2) -> Seq<u8> {
    crate::bytes::u16_le_bytes(v.SkipCount)
}

impl AibtSkip2 {
    /// Reads a `SKIP2` payload: exactly its 2 fixed bytes; the
    /// record re-encodes to the payload.
    pub fn parse(payload: &[u8]) -> (r: Result<AibtSkip2, Error>)
        ensures
            r is Ok <==> payload@.len() == 2,
            r is Ok ==> aibt_skip2_bytes(r->Ok_0) == payload@,
            r is Err ==> (payload@.len() < 2 && r->Err_0 == Error::TruncatedBuffer) || (
            payload@.len() > 2 && r->Err_0 == Error::LengthMismatch),
    {
        if payload.len() < 2 {
            return Err(Error::TruncatedBuffer);
        }
        if payload.len() > 2 {
            return Err(Error::LengthMismatch);
        }
        let x_SkipCount = crate::hii::blocks::get_u16(payload, 0);
        proof {
            assert(crate::bytes::u16_le_bytes(x_SkipCount) =~= payload@.subrange(0, 2)) by {
                crate::bytes::lemma_u16_le_pack(payload@[0], payload@[1]);
                assert(x_SkipCount == (payload@[0] as u16) + 256 * (payload@[1] as u16));
            };
        }
        let v = AibtSkip2 { SkipCount: x_SkipCount };
        proof {
            assert(aibt_skip2_bytes(v) =~= payload@);
        }
        Ok(v)
    }

    /// Writes the payload back.
    pub fn encode(&self) -> (r: Vec<u8>)
        ensures
            r@ == aibt_skip2_bytes(*self),
    {
        let mut w = crate::bytes::Writer::new();
        w.write_u16(self.SkipCount);
        proof {
            assert(w.bytes() =~= aibt_skip2_bytes(*self));
        }
        w.into_vec()
    }
}


/// The wire bytes of one animation cell.
pub open spec fn animation_cell_bytes(c: AnimationCell) -> Seq<u8> {
    u16_le_bytes(c.OffsetX) + u16_le_bytes(c.OffsetY) + u16_le_bytes(c.ImageId) + u16_le_bytes(
        c.Delay,
    )
}

/// The wire bytes of a run of animation cells.
pub open spec fn cells_bytes(s: Seq<AnimationCell>) -> Seq<u8>
    decreases s.len(),
{
    if s.len() == 0 {
        Seq::empty()
    } else {
        animation_cell_bytes(s[0]) + cells_bytes(s.drop_first())
    }
}

/// Appending one cell appends its bytes.
proof fn lemma_cells_bytes_snoc(s: Seq<AnimationCell>)
    requires
        s.len() > 0,
    ensures
        cells_bytes(s) == cells_bytes(s.drop_last()) + animation_cell_bytes(s.last()),
    decreases s.len(),
{
    if s.len() == 1 {
        assert(s.drop_last() =~= Seq::<AnimationCell>::empty());
        assert(s.drop_first() =~= Seq::<AnimationCell>::empty());
        assert(cells_bytes(s) =~= cells_bytes(s.drop_last()) + animation_cell_bytes(s.last()));
    } else {
        lemma_cells_bytes_snoc(s.drop_first());
        assert(s.drop_first().drop_last() =~= s.drop_last().drop_first());
        assert(s.drop_last()[0] == s[0]);
        assert(cells_bytes(s) =~= cells_bytes(s.drop_last()) + animation_cell_bytes(s.last()));
    }
}

/// Reads one animation cell.
fn read_cell(rd: &mut Reader) -> (r: Result<AnimationCell, Error>)
    requires
        old(rd).wf(),
    ensures
        final(rd).wf(),
        final(rd).bytes() == old(rd).bytes(),
        r is Ok <==> old(rd).left() >= 8,
        r is Ok ==> final(rd).at() == old(rd).at() + 8 && animation_cell_bytes(r->Ok_0) == old(
            rd,
        ).bytes().subrange(old(rd).at(), old(rd).at() + 8),
        r is Err ==> r->Err_0 == Error::TruncatedBuffer,
{
    if rd.remaining() < 8 {
        return Err(Error::TruncatedBuffer);
    }
    let ox = match rd.read_u16() {
        Ok(v) => v,
        Err(e) => {
            return Err(e);
        },
    };
    let oy = match rd.read_u16() {
        Ok(v) => v,
        Err(e) => {
            return Err(e);
        },
    };
    let id = match rd.read_u16() {
        Ok(v) => v,
        Err(e) => {
            return Err(e);
        },
    };
    let delay = match rd.read_u16() {
        Ok(v) => v,
        Err(e) => {
            return Err(e);
        },
    };
    let c = AnimationCell { OffsetX: ox, OffsetY: oy, ImageId: id, Delay: delay };
    proof {
        assert(animation_cell_bytes(c) =~= old(rd).bytes().subrange(
            old(rd).at(),
            old(rd).at() + 8,
        ));
    }
    Ok(c)
}

/// Writes one animation cell.
fn write_cell(w: &mut Writer, c: &AnimationCell)
    ensures
        final(w).bytes() == old(w).bytes() + animation_cell_bytes(*c),
{
    w.write_u16(c.OffsetX);
    w.write_u16(c.OffsetY);
    w.write_u16(c.ImageId);
    w.write_u16(c.Delay);
    proof {
        assert(w.bytes() =~= old(w).bytes() + animation_cell_bytes(*c));
    }
}

/// The wire payload of an `OVERLAY_IMAGES` or `RESTORE_SCRN` block, in
/// the one-shot or looping form.
pub open spec fn aibt_overlay_images_bytes(v: AibtOverlayImages) -> Seq<u8> {
    u16_le_bytes(v.DftImageId) + u16_le_bytes(v.Width) + u16_le_bytes(v.Height) + u16_le_bytes(
        v.CellCount,
    ) + cells_bytes(v.AnimationCell@)
}

impl AibtOverlayImages {
    /// Reads an overlay or restore animation payload: the default image,
    /// the geometry, the cell count, then exactly that many cells; the
    /// count is read first and trusted, never inferred from the
    /// remaining data. The record re-encodes to the payload and its
    /// count matches its cells.
    pub fn parse(payload: &[u8]) -> (r: Result<AibtOverlayImages, Error>)
        ensures
            r is Ok <==> payload@.len() >= 8 && payload@.len() == 8 + 8 * (crate::bytes::u16_at(
                payload@,
                6,
            ) as int),
            r is Ok ==> aibt_overlay_images_bytes(r->Ok_0) == payload@
                && r->Ok_0.CellCount as int == r->Ok_0.AnimationCell@.len(),
    {
        if payload.len() < 8 {
            return Err(Error::TruncatedBuffer);
        }
        let mut rd = Reader::new(payload);
        let dft = match rd.read_u16() {
            Ok(v) => v,
            Err(e) => {
                return Err(e);
            },
        };
        let width = match rd.read_u16() {
            Ok(v) => v,
            Err(e) => {
                return Err(e);
            },
        };
        let height = match rd.read_u16() {
            Ok(v) => v,
            Err(e) => {
                return Err(e);
            },
        };
        let n = match rd.read_u16() {
            Ok(v) => v,
            Err(e) => {
                return Err(e);
            },
        };
        if payload.len() < 8 + 8 * (n as usize) {
            return Err(Error::TruncatedBuffer);
        }
        if payload.len() > 8 + 8 * (n as usize) {
            return Err(Error::LengthMismatch);
        }
        let mut cells: Vec<AnimationCell> = Vec::new();
        let mut i: u16 = 0;
        proof {
            assert(cells_bytes(cells@) =~= payload@.subrange(8, rd.at()));
        }
        while i < n
            invariant
                rd.wf(),
                rd.bytes() == payload@,
                i <= n,
                payload@.len() == 8 + 8 * (n as int),
                rd.at() == 8 + 8 * (i as int),
                cells@.len() == i,
                cells_bytes(cells@) == payload@.subrange(8, rd.at()),
            decreases n - i,
        {
            let ghost at0 = rd.at();
            let ghost prev = cells@;
            let c = match read_cell(&mut rd) {
                Ok(v) => v,
                Err(e) => {
                    return Err(e);
                },
            };
            cells.push(c);
            i = i + 1;
            proof {
                lemma_cells_bytes_snoc(cells@);
                assert(cells@.drop_last() =~= prev);
                assert(cells_bytes(cells@) == cells_bytes(prev) + animation_cell_bytes(c));
                assert(payload@.subrange(8, at0) + payload@.subrange(at0, rd.at())
                    =~= payload@.subrange(8, rd.at()));
            }
        }
        let v = AibtOverlayImages {
            DftImageId: dft,
            Width: width,
            Height: height,
            CellCount: n,
            AnimationCell: cells,
        };
        proof {
            assert(aibt_overlay_images_bytes(v) =~= payload@);
        }
        Ok(v)
    }

    /// Writes the payload back; asks that the count matches the cells.
    pub fn encode(&self) -> (r: Vec<u8>)
        requires
            self.CellCount as int == self.AnimationCell@.len(),
        ensures
            r@ == aibt_overlay_images_bytes(*self),
    {
        let mut w = Writer::new();
        w.write_u16(self.DftImageId);
        w.write_u16(self.Width);
        w.write_u16(self.Height);
        w.write_u16(self.CellCount);
        let ghost fixed = w.bytes();
        let mut i: usize = 0;
        proof {
            assert(self.AnimationCell@.subrange(0, 0) =~= Seq::<AnimationCell>::empty());
        }
        while i < self.AnimationCell.len()
            invariant
                i <= self.AnimationCell@.len(),
                w.bytes() == fixed + cells_bytes(self.AnimationCell@.subrange(0, i as int)),
            decreases self.AnimationCell@.len() - i,
        {
            write_cell(&mut w, &self.AnimationCell[i]);
            i = i + 1;
            proof {
                lemma_cells_bytes_snoc(self.AnimationCell@.subrange(0, i as int));
                assert(self.AnimationCell@.subrange(0, i as int).drop_last()
                    =~= self.AnimationCell@.subrange(0, i - 1));
                assert(w.bytes() =~= fixed + cells_bytes(
                    self.AnimationCell@.subrange(0, i as int),
                ));
            }
        }
        proof {
            assert(self.AnimationCell@.subrange(0, self.AnimationCell@.len() as int)
                =~= self.AnimationCell@);
            assert(w.bytes() =~= aibt_overlay_images_bytes(*self));
        }
        w.into_vec()
    }
}

} // verus!
