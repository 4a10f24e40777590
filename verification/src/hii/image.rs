//! Image package: IIBT block streams.
//!
//! An image package carries bitmap blocks: palette-indexed bitmaps at 1,
//! 4 or 8 bits per pixel, direct 24-bit bitmaps, each with and without a
//! transparent variant, and JPEG or PNG blobs with an explicit size. Row
//! data of the palette bitmaps is byte-padded per row; the payload sizes
//! follow from the width and height fields. The shared
//! `SKIP`/`DUPLICATE`/`EXT` scheme of [`crate::hii::blocks`] applies and
//! every literal or `DUPLICATE` block takes the next image id.

use vstd::prelude::*;

use crate::bytes::u16_at;
use crate::bytes::u32_at;
use crate::error::Error;
use crate::hii::blocks::blocks_bytes;
use crate::hii::blocks::blocks_view;
use crate::hii::blocks::get_u16;
use crate::hii::blocks::get_u32;
use crate::hii::blocks::HiiBlock;
use crate::hii::PackageHeader;

verus! {

/// `EFI_HII_IMAGE_PACKAGE_HDR`
#[derive(Clone, Copy, Debug, PartialEq, Eq, Structural)]
pub struct ImagePackageHeader {
    pub Header: PackageHeader,
    pub ImageInfoOffset: u32,
    pub PaletteInfoOffset: u32,
}

/// Image block type byte.
#[derive(Clone, Copy, Debug, PartialEq, Eq, Structural)]
pub struct ImageBlockType(pub u8);

impl ImageBlockType {
    pub const END: u8 = 0x00;
    pub const IMAGE_1BIT: u8 = 0x10;
    pub const IMAGE_1BIT_TRANS: u8 = 0x11;
    pub const IMAGE_4BIT: u8 = 0x12;
    pub const IMAGE_4BIT_TRANS: u8 = 0x13;
    pub const IMAGE_8BIT: u8 = 0x14;
    pub const IMAGE_8BIT_TRANS: u8 = 0x15;
    pub const IMAGE_24BIT: u8 = 0x16;
    pub const IMAGE_24BIT_TRANS: u8 = 0x17;
    pub const IMAGE_JPEG: u8 = 0x18;
    pub const IMAGE_PNG: u8 = 0x19;
    pub const DUPLICATE: u8 = 0x20;
    pub const SKIP2: u8 = 0x21;
    pub const SKIP1: u8 = 0x22;
    pub const EXT1: u8 = 0x30;
    pub const EXT2: u8 = 0x31;
    pub const EXT4: u8 = 0x32;
}

/// `EFI_HII_IMAGE_BLOCK`
#[derive(Clone, Copy, Debug, PartialEq, Eq, Structural)]
pub struct ImageBlock {
    pub BlockType: ImageBlockType,
}

/// `EFI_HII_IIBT_END_BLOCK`
#[derive(Clone, Copy, Debug, PartialEq, Eq, Structural)]
pub struct IibtEnd {}

/// `EFI_HII_IIBT_EXT1_BLOCK`
#[derive(Clone, Copy, Debug, PartialEq, Eq, Structural)]
pub struct IibtExt1 {
    pub BlockType2: ImageBlockType,
    pub Length: u8,
}

/// `EFI_HII_IIBT_EXT2_BLOCK`
#[derive(Clone, Copy, Debug, PartialEq, Eq, Structural)]
pub struct IibtExt2 {
    pub BlockType2: ImageBlockType,
    pub Length: u16,
}

/// `EFI_HII_IIBT_EXT4_BLOCK`
#[derive(Clone, Copy, Debug, PartialEq, Eq, Structural)]
pub struct IibtExt4 {
    pub BlockType2: ImageBlockType,
    pub Length: u32,
}

/// `EFI_HII_RGB_PIXEL`
#[derive(Clone, Copy, Debug, PartialEq, Eq, Structural)]
pub struct RgbPixel {
    pub b: u8,
    pub g: u8,
    pub r: u8,
}

/// `EFI_HII_IIBT_IMAGE_1BIT_BASE`
#[derive(Clone, Debug, PartialEq, Eq)]
pub struct IibtImage1BitBase {
    pub Width: u16,
    pub Height: u16,
    pub Data: Vec<u8>,
}

/// `EFI_HII_IIBT_IMAGE_1BIT_BLOCK`
#[derive(Clone, Debug, PartialEq, Eq)]
pub struct IibtImage1Bit {
    pub PaletteIndex: u8,
    pub Bitmap: IibtImage1BitBase,
}

/// `EFI_HII_IIBT_IMAGE_1BIT_TRANS_BLOCK`
#[derive(Clone, Debug, PartialEq, Eq)]
pub struct IibtImage1BitTrans {
    pub PaletteIndex: u8,
    pub Bitmap: IibtImage1BitBase,
}

/// `EFI_HII_IIBT_IMAGE_4BIT_BASE`
#[derive(Clone, Debug, PartialEq, Eq)]
pub struct IibtImage4BitBase {
    pub Width: u16,
    pub Height: u16,
    pub Data: Vec<u8>,
}

/// `EFI_HII_IIBT_IMAGE_4BIT_BLOCK`
#[derive(Clone, Debug, PartialEq, Eq)]
pub struct IibtImage4Bit {
    pub PaletteIndex: u8,
    pub Bitmap: IibtImage4BitBase,
}

/// `EFI_HII_IIBT_IMAGE_4BIT_TRANS_BLOCK`
#[derive(Clone, Debug, PartialEq, Eq)]
pub struct IibtImage4BitTrans {
    pub PaletteIndex: u8,
    pub Bitmap: IibtImage4BitBase,
}

/// `EFI_HII_IIBT_IMAGE_8BIT_BASE`
#[derive(Clone, Debug, PartialEq, Eq)]
pub struct IibtImage8BitBase {
    pub Width: u16,
    pub Height: u16,
    pub Data: Vec<u8>,
}

/// `EFI_HII_IIBT_IMAGE_8BIT_BLOCK`
#[derive(Clone, Debug, PartialEq, Eq)]
pub struct IibtImage8Bit {
    pub PaletteIndex: u8,
    pub Bitmap: IibtImage8BitBase,
}

/// `EFI_HII_IIBT_IMAGE_8BIT_TRANS_BLOCK`
#[derive(Clone, Debug, PartialEq, Eq)]
pub struct IibtImage8BitTrans {
    pub PaletteIndex: u8,
    pub Bitmap: IibtImage8BitBase,
}

/// `EFI_HII_IIBT_IMAGE_24BIT_BASE`
#[derive(Clone, Debug, PartialEq, Eq)]
pub struct IibtImage24BitBase {
    pub Width: u16,
    pub Height: u16,
    pub Bitmap: Vec<RgbPixel>,
}

/// `EFI_HII_IIBT_IMAGE_24BIT_BLOCK`
#[derive(Clone, Debug, PartialEq, Eq)]
pub struct IibtImage24Bit {
    pub Bitmap: IibtImage24BitBase,
}

/// `EFI_HII_IIBT_IMAGE_24BIT_TRANS_BLOCK`
#[derive(Clone, Debug, PartialEq, Eq)]
pub struct IibtImage24BitTrans {
    pub Bitmap: IibtImage24BitBase,
}

/// `EFI_HII_IIBT_DUPLICATE_BLOCK`
#[derive(Clone, Copy, Debug, PartialEq, Eq, Structural)]
pub struct IibtDuplicate {
    pub ImageId: u16,
}

/// `EFI_HII_IIBT_JPEG_BLOCK`
#[derive(Clone, Debug, PartialEq, Eq)]
pub struct IibtJpeg {
    pub Size: u32,
    pub Data: Vec<u8>,
}

/// `EFI_HII_IIBT_PNG_BLOCK`
#[derive(Clone, Debug, PartialEq, Eq)]
pub struct IibtPng {
    pub Size: u32,
    pub Data: Vec<u8>,
}

/// `EFI_HII_IIBT_SKIP1_BLOCK`
#[derive(Clone, Copy, Debug, PartialEq, Eq, Structural)]
pub struct IibtSkip1 {
    pub SkipCount: u8,
}

/// `EFI_HII_IIBT_SKIP2_BLOCK`
#[derive(Clone, Copy, Debug, PartialEq, Eq, Structural)]
pub struct IibtSkip2 {
    pub SkipCount: u16,
}

/// `EFI_HII_IMAGE_PALETTE_INFO_HEADER`
#[derive(Clone, Copy, Debug, PartialEq, Eq, Structural)]
pub struct PaletteInfoHeader {
    pub PaletteCount: u16,
}

/// `EFI_HII_IMAGE_PALETTE_INFO`
#[derive(Clone, Debug, PartialEq, Eq)]
pub struct PaletteInfo {
    pub PaletteSize: u16,
    pub PaletteValue: Vec<RgbPixel>,
}

/// Bytes of one padded bitmap row run: `bpp` bits per pixel packed, each
/// row padded to a whole byte.
pub open spec fn row_bytes_1bit(w: int) -> int {
    (w + 7) / 8
}

/// Multiplies two small geometry values without overflow.
fn mul_dim(a: u64, b: u64) -> (r: u64)
    requires
        a <= 0x1_0000,
        b <= 0x1_0000,
    ensures
        r == a * b,
        r <= 0x1_0000_0000,
{
    proof {
        assert(a * b <= 0x1_0000_0000) by (nonlinear_arith)
            requires
                a <= 0x1_0000,
                b <= 0x1_0000,
        ;
    }
    a * b
}

/// The payload size table of the image family: given a block type and
/// the bytes after the type byte, how many of them the block's payload
/// takes, or the exact error. Sizes from width and height, blob sizes
/// and the `EXT` escapes may pass the end of the data; the splitter
/// checks that.
pub open spec fn iibt_size(t: u8, s: Seq<u8>) -> Result<int, Error> {
    if t == 0x20 || t == 0x21 {
        if s.len() >= 2 {
            Ok(2)
        } else {
            Err(Error::TruncatedBuffer)
        }
    } else if t == 0x22 {
        if s.len() >= 1 {
            Ok(1)
        } else {
            Err(Error::TruncatedBuffer)
        }
    } else if t == 0x30 {
        if s.len() < 2 {
            Err(Error::TruncatedBuffer)
        } else if s[1] < 3 {
            Err(Error::InvalidLength)
        } else {
            Ok(s[1] - 1)
        }
    } else if t == 0x31 {
        if s.len() < 3 {
            Err(Error::TruncatedBuffer)
        } else if u16_at(s, 1) < 4 {
            Err(Error::InvalidLength)
        } else {
            Ok(u16_at(s, 1) - 1)
        }
    } else if t == 0x32 {
        if s.len() < 5 {
            Err(Error::TruncatedBuffer)
        } else if u32_at(s, 1) < 6 {
            Err(Error::InvalidLength)
        } else {
            Ok(u32_at(s, 1) - 1)
        }
    } else if 0x10 <= t && t <= 0x15 {
        if s.len() < 5 {
            Err(Error::TruncatedBuffer)
        } else {
            let w = u16_at(s, 1) as int;
            let h = u16_at(s, 3) as int;
            if t <= 0x11 {
                Ok(5 + row_bytes_1bit(w) * h)
            } else if t <= 0x13 {
                Ok(5 + ((w + 1) / 2) * h)
            } else {
                Ok(5 + w * h)
            }
        }
    } else if t == 0x16 || t == 0x17 {
        if s.len() < 4 {
            Err(Error::TruncatedBuffer)
        } else {
            Ok(4 + 3 * (u16_at(s, 0) as int) * (u16_at(s, 2) as int))
        }
    } else if t == 0x18 || t == 0x19 {
        if s.len() < 4 {
            Err(Error::TruncatedBuffer)
        } else {
            Ok(4 + u32_at(s, 0))
        }
    } else {
        Err(Error::UnknownBlockType)
    }
}

/// The reference splitter of an image block stream: blocks front to
/// back, the stream closed by exactly one `END` block as its last block.
pub open spec fn spec_split_iibt(s: Seq<u8>) -> Result<Seq<(u8, Seq<u8>)>, Error>
    decreases s.len(),
{
    if s.len() == 0 {
        Err(Error::TruncatedBuffer)
    } else if s[0] == 0 {
        if s.len() == 1 {
            Ok(seq![(0u8, Seq::<u8>::empty())])
        } else {
            Err(Error::LengthMismatch)
        }
    } else {
        match iibt_size(s[0], s.skip(1)) {
            Ok(k) => if k < 0 || 1 + k > s.len() {
                Err(Error::TruncatedBuffer)
            } else {
                match spec_split_iibt(s.skip(1 + k)) {
                    Ok(rest) => Ok(seq![(s[0], s.subrange(1, 1 + k))] + rest),
                    Err(e) => Err(e),
                }
            },
            Err(e) => Err(e),
        }
    }
}

/// Byte conservation for image streams: whatever the splitter accepts
/// re-encodes to exactly the input, and the `END` block stands last and
/// only last.
pub proof fn lemma_iibt_round_trip(s: Seq<u8>)
    requires
        spec_split_iibt(s) is Ok,
    ensures
        blocks_bytes(spec_split_iibt(s)->Ok_0) == s,
        spec_split_iibt(s)->Ok_0.len() > 0,
        spec_split_iibt(s)->Ok_0.last().0 == 0,
        forall|i: int|
            0 <= i < spec_split_iibt(s)->Ok_0.len() - 1 ==> (#[trigger] spec_split_iibt(
                s,
            )->Ok_0[i]).0 != 0,
    decreases s.len(),
{
    let v = spec_split_iibt(s)->Ok_0;
    if s[0] == 0 {
        assert(blocks_bytes(v.drop_first()) == Seq::<u8>::empty());
        assert(blocks_bytes(v) =~= s);
    } else {
        let k = iibt_size(s[0], s.skip(1))->Ok_0;
        lemma_iibt_round_trip(s.skip(1 + k));
        let rest = spec_split_iibt(s.skip(1 + k))->Ok_0;
        assert(v.drop_first() =~= rest);
        assert(v[0] == (s[0], s.subrange(1, 1 + k)));
        assert(seq![v[0].0] + v[0].1 =~= s.subrange(0, 1 + k));
        assert(blocks_bytes(v) =~= s.subrange(0, 1 + k) + s.skip(1 + k));
        assert(s.subrange(0, 1 + k) + s.skip(1 + k) =~= s);
    }
}

/// The executable size table; agrees with [`iibt_size`], except that it
/// also reports a size that passes the end of the data as a truncation.
fn iibt_size_at(data: &[u8], t: u8, pos: usize) -> (r: Result<usize, Error>)
    requires
        pos <= data@.len(),
    ensures
        r is Ok ==> iibt_size(t, data@.skip(pos as int)) == Ok::<int, Error>(r->Ok_0 as int) && pos
            + r->Ok_0 <= data@.len(),
        r is Err ==> (match iibt_size(t, data@.skip(pos as int)) {
            Ok(k) => r->Err_0 == Error::TruncatedBuffer && pos + k > data@.len(),
            Err(e) => r->Err_0 == e,
        }),
{
    let ghost s = data@.skip(pos as int);
    let left = data.len() - pos;
    if t == 0x20 || t == 0x21 {
        if left >= 2 {
            Ok(2)
        } else {
            Err(Error::TruncatedBuffer)
        }
    } else if t == 0x22 {
        if left >= 1 {
            Ok(1)
        } else {
            Err(Error::TruncatedBuffer)
        }
    } else if t == 0x30 {
        if left < 2 {
            Err(Error::TruncatedBuffer)
        } else {
            let l = data[pos + 1];
            proof {
                assert(s[1] == data@[pos + 1]);
            }
            if l < 3 {
                Err(Error::InvalidLength)
            } else if (l as usize) - 1 > left {
                Err(Error::TruncatedBuffer)
            } else {
                Ok((l as usize) - 1)
            }
        }
    } else if t == 0x31 {
        if left < 3 {
            Err(Error::TruncatedBuffer)
        } else {
            let l = get_u16(data, pos + 1);
            proof {
                assert(s[1] == data@[pos + 1] && s[2] == data@[pos + 2]);
                assert(u16_at(s, 1) == l);
            }
            if l < 4 {
                Err(Error::InvalidLength)
            } else if (l as usize) - 1 > left {
                Err(Error::TruncatedBuffer)
            } else {
                Ok((l as usize) - 1)
            }
        }
    } else if t == 0x32 {
        if left < 5 {
            Err(Error::TruncatedBuffer)
        } else {
            let l = get_u32(data, pos + 1);
            proof {
                assert(s[1] == data@[pos + 1] && s[2] == data@[pos + 2] && s[3] == data@[pos + 3]
                    && s[4] == data@[pos + 4]);
                assert(u32_at(s, 1) == l);
            }
            if l < 6 {
                Err(Error::InvalidLength)
            } else if l as u64 - 1 > left as u64 {
                Err(Error::TruncatedBuffer)
            } else {
                Ok((l - 1) as usize)
            }
        }
    } else if 0x10 <= t && t <= 0x15 {
        if left < 5 {
            Err(Error::TruncatedBuffer)
        } else {
            let w16 = get_u16(data, pos + 1);
            let h16 = get_u16(data, pos + 3);
            let w = w16 as u64;
            let h = h16 as u64;
            proof {
                assert(s[1] == data@[pos + 1] && s[2] == data@[pos + 2]);
                assert(s[3] == data@[pos + 3] && s[4] == data@[pos + 4]);
                assert(u16_at(s, 1) == w16);
                assert(u16_at(s, 3) == h16);
            }
            let body: u64 = if t <= 0x11 {
                mul_dim((w + 7) / 8, h)
            } else if t <= 0x13 {
                mul_dim((w + 1) / 2, h)
            } else {
                mul_dim(w, h)
            };
            if 5 + body > left as u64 {
                Err(Error::TruncatedBuffer)
            } else {
                Ok((5 + body) as usize)
            }
        }
    } else if t == 0x16 || t == 0x17 {
        if left < 4 {
            Err(Error::TruncatedBuffer)
        } else {
            let w16 = get_u16(data, pos);
            let h16 = get_u16(data, pos + 2);
            let w = w16 as u64;
            let h = h16 as u64;
            proof {
                assert(s[0] == data@[pos as int] && s[1] == data@[pos + 1]);
                assert(s[2] == data@[pos + 2] && s[3] == data@[pos + 3]);
                assert(u16_at(s, 0) == w16);
                assert(u16_at(s, 2) == h16);
            }
            let body: u64 = 3 * mul_dim(w, h);
            proof {
                assert(3 * ((w as int) * (h as int)) == 3 * (w as int) * (h as int))
                    by (nonlinear_arith);
            }
            if 4 + body > left as u64 {
                Err(Error::TruncatedBuffer)
            } else {
                Ok((4 + body) as usize)
            }
        }
    } else if t == 0x18 || t == 0x19 {
        if left < 4 {
            Err(Error::TruncatedBuffer)
        } else {
            let l32 = get_u32(data, pos);
            let l = l32 as u64;
            proof {
                assert(s[0] == data@[pos as int] && s[1] == data@[pos + 1]);
                assert(s[2] == data@[pos + 2] && s[3] == data@[pos + 3]);
                assert(u32_at(s, 0) == l32);
            }
            if 4 + l > left as u64 {
                Err(Error::TruncatedBuffer)
            } else {
                Ok((4 + l) as usize)
            }
        }
    } else {
        Err(Error::UnknownBlockType)
    }
}

/// Decodes an image block stream into its blocks; accepts exactly the
/// streams [`spec_split_iibt`] accepts and returns exactly its blocks,
/// which re-encode to the input bytes ([`lemma_iibt_round_trip`]).
#[verifier::rlimit(100)]
pub fn decode_image_blocks(data: &[u8]) -> (r: Result<Vec<HiiBlock>, Error>)
    ensures
        r is Ok <==> spec_split_iibt(data@) is Ok,
        r is Ok ==> blocks_view(r->Ok_0@) == spec_split_iibt(data@)->Ok_0,
        r is Err ==> spec_split_iibt(data@) == Err::<Seq<(u8, Seq<u8>)>, Error>(r->Err_0),
{
    let dlen = data.len();
    let mut blocks: Vec<HiiBlock> = Vec::new();
    let mut pos: usize = 0;
    proof {
        assert(data@.skip(0) =~= data@);
        if spec_split_iibt(data@) is Ok {
            assert(blocks_view(blocks@) + spec_split_iibt(data@)->Ok_0 =~= spec_split_iibt(
                data@,
            )->Ok_0);
        }
    }
    while pos < data.len()
        invariant
            dlen == data@.len(),
            pos <= data@.len(),
            spec_split_iibt(data@) == (match spec_split_iibt(data@.skip(pos as int)) {
                Ok(rest) => Ok::<_, Error>(blocks_view(blocks@) + rest),
                Err(e) => Err::<Seq<(u8, Seq<u8>)>, _>(e),
            }),
        decreases data@.len() - pos,
    {
        let ghost s = data@.skip(pos as int);
        let t = data[pos];
        proof {
            assert(s[0] == t);
        }
        if t == 0 {
            if pos + 1 != data.len() {
                return Err(Error::LengthMismatch);
            }
            let ghost view_old = blocks_view(blocks@);
            blocks.push(HiiBlock { kind: 0, payload: Vec::new() });
            proof {
                assert(spec_split_iibt(s) == Ok::<_, Error>(seq![(0u8, Seq::<u8>::empty())]));
                assert(blocks_view(blocks@) =~= view_old + seq![(0u8, Seq::<u8>::empty())]);
            }
            return Ok(blocks);
        }
        let k = match iibt_size_at(data, t, pos + 1) {
            Ok(k) => k,
            Err(e) => {
                proof {
                    assert(data@.skip(pos + 1) =~= s.skip(1));
                    if iibt_size(t, s.skip(1)) is Ok {
                        let k = iibt_size(t, s.skip(1))->Ok_0;
                        assert(pos + 1 + k > data@.len());
                        assert(spec_split_iibt(s) == Err::<Seq<(u8, Seq<u8>)>, Error>(e));
                    } else {
                        assert(spec_split_iibt(s) == Err::<Seq<(u8, Seq<u8>)>, Error>(e));
                    }
                }
                return Err(e);
            },
        };
        proof {
            assert(data@.skip(pos + 1) =~= s.skip(1));
            assert(iibt_size(t, s.skip(1)) == Ok::<int, Error>(k as int));
        }
        let mut payload: Vec<u8> = Vec::new();
        let mut j: usize = 0;
        while j < k
            invariant
                dlen == data@.len(),
                pos + 1 + k <= dlen,
                j <= k,
                payload@ == data@.subrange(pos + 1, pos + 1 + j),
            decreases k - j,
        {
            payload.push(data[pos + 1 + j]);
            j = j + 1;
            proof {
                assert(payload@ =~= data@.subrange(pos as int + 1, pos + 1 + j));
            }
        }
        let ghost view_old = blocks_view(blocks@);
        let ghost payload_v = payload@;
        blocks.push(HiiBlock { kind: t, payload });
        proof {
            assert(payload_v =~= s.subrange(1, 1 + k));
            assert(s.skip(1 + k) =~= data@.skip(pos + 1 + k));
            assert(blocks_view(blocks@) =~= view_old + seq![(t, payload_v)]);
            assert(spec_split_iibt(s) == (match spec_split_iibt(s.skip(1 + k)) {
                Ok(rest) => Ok::<_, Error>(seq![(t, payload_v)] + rest),
                Err(e) => Err::<Seq<(u8, Seq<u8>)>, _>(e),
            }));
            if spec_split_iibt(data@.skip(pos + 1 + k)) is Ok {
                let rest = spec_split_iibt(data@.skip(pos + 1 + k))->Ok_0;
                assert(view_old + (seq![(t, payload_v)] + rest) =~= blocks_view(blocks@) + rest);
            }
        }
        pos = pos + 1 + k;
    }
    proof {
        assert(data@.skip(pos as int) =~= Seq::<u8>::empty());
    }
    Err(Error::TruncatedBuffer)
}

/// How far an image block advances the id counter: every literal bitmap
/// or `DUPLICATE` takes one id, a `SKIP` advances by its count.
pub open spec fn iibt_advance(t: u8, payload: Seq<u8>) -> int {
    if t == 0x22 && payload.len() >= 1 {
        payload[0] as int
    } else if t == 0x21 && payload.len() >= 2 {
        u16_at(payload, 0) as int
    } else if (0x10 <= t && t <= 0x19) || t == 0x20 {
        1
    } else {
        0
    }
}

/// The id each element of an image block run receives.
pub open spec fn iibt_ids(v: Seq<(u8, Seq<u8>)>, next: int) -> Seq<int>
    decreases v.len(),
{
    if v.len() == 0 {
        Seq::empty()
    } else {
        let t = v[0].0;
        let produced: Seq<int> = if (0x10 <= t && t <= 0x19) || t == 0x20 {
            seq![next]
        } else {
            Seq::empty()
        };
        produced + iibt_ids(v.drop_first(), next + iibt_advance(v[0].0, v[0].1))
    }
}

/// The counter value after an image block run.
pub open spec fn iibt_counter_end(v: Seq<(u8, Seq<u8>)>, next: int) -> int
    decreases v.len(),
{
    if v.len() == 0 {
        next
    } else {
        iibt_counter_end(v.drop_first(), next + iibt_advance(v[0].0, v[0].1))
    }
}

/// The counter never moves backwards.
pub proof fn lemma_iibt_counter_monotone(v: Seq<(u8, Seq<u8>)>, next: int)
    ensures
        iibt_counter_end(v, next) >= next,
    decreases v.len(),
{
    if v.len() > 0 {
        lemma_iibt_counter_monotone(v.drop_first(), next + iibt_advance(v[0].0, v[0].1));
    }
}

/// Every id a run assigns is at least the starting counter.
proof fn lemma_iibt_ids_lower_bound(v: Seq<(u8, Seq<u8>)>, next: int)
    ensures
        forall|i: int| 0 <= i < iibt_ids(v, next).len() ==> #[trigger] iibt_ids(v, next)[i] >= next,
    decreases v.len(),
{
    if v.len() > 0 {
        let t = v[0].0;
        let e: int = if (0x10 <= t && t <= 0x19) || t == 0x20 {
            1
        } else {
            0
        };
        let adv = iibt_advance(v[0].0, v[0].1);
        lemma_iibt_ids_lower_bound(v.drop_first(), next + adv);
        assert(adv >= 0 && adv >= e);
        assert forall|i: int| 0 <= i < iibt_ids(v, next).len() implies #[trigger] iibt_ids(v, next)[i]
            >= next by {
            if i >= e {
                assert(iibt_ids(v, next)[i] == iibt_ids(v.drop_first(), next + adv)[i - e]);
            }
        }
    }
}

/// Block id assignment is strictly increasing: elements later in the
/// stream always receive larger ids, whether the counter moved by
/// assignment or by a `SKIP`.
pub proof fn lemma_iibt_ids_increasing(v: Seq<(u8, Seq<u8>)>, next: int)
    ensures
        forall|i: int, j: int|
            0 <= i < j < iibt_ids(v, next).len() ==> #[trigger] iibt_ids(v, next)[i]
                < #[trigger] iibt_ids(v, next)[j],
    decreases v.len(),
{
    if v.len() > 0 {
        let t = v[0].0;
        let e: int = if (0x10 <= t && t <= 0x19) || t == 0x20 {
            1
        } else {
            0
        };
        let adv = iibt_advance(v[0].0, v[0].1);
        lemma_iibt_ids_increasing(v.drop_first(), next + adv);
        lemma_iibt_ids_lower_bound(v.drop_first(), next + adv);
        assert(adv >= 0 && adv >= e);
        assert forall|i: int, j: int|
            0 <= i < j < iibt_ids(v, next).len() implies #[trigger] iibt_ids(v, next)[i]
            < #[trigger] iibt_ids(v, next)[j] by {
            let rest = iibt_ids(v.drop_first(), next + adv);
            if j >= e {
                assert(iibt_ids(v, next)[j] == rest[j - e]);
                assert(rest[j - e] >= next + adv);
                if i >= e {
                    assert(iibt_ids(v, next)[i] == rest[i - e]);
                } else {
                    assert(iibt_ids(v, next)[i] == next + i < next + e);
                }
            }
        }
    }
}

/// Assigns image ids to the elements of a block run, counting up from
/// `first`: block id assignment, with `SKIP` blocks advancing the
/// counter without assigning. Fails only when the counter would pass the
/// range of its 64-bit carrier, which is exactly when the run's final
/// counter does.
pub fn image_block_ids(blocks: &Vec<HiiBlock>, first: u64) -> (r: Result<Vec<u64>, Error>)
    ensures
        r is Ok <==> iibt_counter_end(blocks_view(blocks@), first as int) <= u64::MAX,
        r is Ok ==> r->Ok_0@.map(|i: int, x: u64| x as int) == iibt_ids(
            blocks_view(blocks@),
            first as int,
        ),
        r is Err ==> r->Err_0 == Error::ResourceLimitExceeded,
{
    let mut ids: Vec<u64> = Vec::new();
    let mut next: u64 = first;
    let mut i: usize = 0;
    proof {
        assert(blocks_view(blocks@).skip(0) =~= blocks_view(blocks@));
        assert(ids@.map(|i: int, x: u64| x as int) =~= Seq::<int>::empty());
    }
    while i < blocks.len()
        invariant
            i <= blocks@.len(),
            next >= first,
            iibt_counter_end(blocks_view(blocks@), first as int) == iibt_counter_end(
                blocks_view(blocks@).skip(i as int),
                next as int,
            ),
            iibt_ids(blocks_view(blocks@), first as int) == ids@.map(|i: int, x: u64| x as int)
                + iibt_ids(blocks_view(blocks@).skip(i as int), next as int),
        decreases blocks@.len() - i,
    {
        let ghost v = blocks_view(blocks@).skip(i as int);
        proof {
            assert(v[0] == crate::hii::blocks::block_view(blocks@[i as int]));
            assert(v.drop_first() =~= blocks_view(blocks@).skip(i + 1));
            lemma_iibt_counter_monotone(v.drop_first(), next as int + iibt_advance(v[0].0, v[0].1));
        }
        let b = &blocks[i];
        let t = b.kind;
        let advance: u64 = if t == 0x22 && b.payload.len() >= 1 {
            b.payload[0] as u64
        } else if t == 0x21 && b.payload.len() >= 2 {
            get_u16(b.payload.as_slice(), 0) as u64
        } else if (0x10 <= t && t <= 0x19) || t == 0x20 {
            1
        } else {
            0
        };
        proof {
            assert(advance as int == iibt_advance(v[0].0, v[0].1));
        }
        if advance > u64::MAX - next {
            return Err(Error::ResourceLimitExceeded);
        }
        let ghost ids_old = ids@.map(|i: int, x: u64| x as int);
        if (0x10 <= t && t <= 0x19) || t == 0x20 {
            ids.push(next);
            proof {
                assert(ids@.map(|i: int, x: u64| x as int) =~= ids_old + seq![next as int]);
            }
        }
        next = next + advance;
        i = i + 1;
        proof {
            if (0x10 <= t && t <= 0x19) || t == 0x20 {
                assert(ids@.map(|i: int, x: u64| x as int) + iibt_ids(
                    blocks_view(blocks@).skip(i as int),
                    next as int,
                ) =~= ids_old + (seq![(next - advance) as int] + iibt_ids(
                    blocks_view(blocks@).skip(i as int),
                    next as int,
                )));
            } else {
                assert(ids@.map(|i: int, x: u64| x as int) + iibt_ids(
                    blocks_view(blocks@).skip(i as int),
                    next as int,
                ) =~= ids_old + (Seq::<int>::empty() + iibt_ids(
                    blocks_view(blocks@).skip(i as int),
                    next as int,
                )));
            }
        }
    }
    proof {
        assert(blocks_view(blocks@).skip(i as int) =~= Seq::<(u8, Seq<u8>)>::empty());
        assert(ids@.map(|i: int, x: u64| x as int) + Seq::<int>::empty() =~= ids@.map(
            |i: int, x: u64| x as int,
        ));
    }
    Ok(ids)
}

/// The wire payload of a `DUPLICATE` block.
pub open spec fn iibt_duplicate_bytes(v: IibtDuplicate) -> Seq<u8> {
    crate::bytes::u16_le_bytes(v.ImageId)
}

impl IibtDuplicate {
    /// Reads a `DUPLICATE` payload: exactly its 2 fixed bytes; the
    /// record re-encodes to the payload.
    pub fn parse(payload: &[u8]) -> (r: Result<IibtDuplicate, Error>)
        ensures
            r is Ok <==> payload@.len() == 2,
            r is Ok ==> iibt_duplicate_bytes(r->Ok_0) == payload@,
            r is Err ==> (payload@.len() < 2 && r->Err_0 == Error::TruncatedBuffer) || (
            payload@.len() > 2 && r->Err_0 == Error::LengthMismatch),
    {
        if payload.len() < 2 {
            return Err(Error::TruncatedBuffer);
        }
        if payload.len() > 2 {
            return Err(Error::LengthMismatch);
        }
        let x_ImageId = crate::hii::blocks::get_u16(payload, 0);
        proof {
            assert(crate::bytes::u16_le_bytes(x_ImageId) =~= payload@.subrange(0, 2)) by {
                crate::bytes::lemma_u16_le_pack(payload@[0], payload@[1]);
                assert(x_ImageId == (payload@[0] as u16) + 256 * (payload@[1] as u16));
            };
        }
        let v = IibtDuplicate { ImageId: x_ImageId };
        proof {
            assert(iibt_duplicate_bytes(v) =~= payload@);
        }
        Ok(v)
    }

    /// Writes the payload back.
    pub fn encode(&self) -> (r: Vec<u8>)
        ensures
            r@ == iibt_duplicate_bytes(*self),
    {
        let mut w = crate::bytes::Writer::new();
        w.write_u16(self.ImageId);
        proof {
            assert(w.bytes() =~= iibt_duplicate_bytes(*self));
        }
        w.into_vec()
    }
}

/// The wire payload of a `SKIP1` block.
pub open spec fn iibt_skip1_bytes(v: IibtSkip1) -> Seq<u8> {
    seq![v.SkipCount]
}

impl IibtSkip1 {
    /// Reads a `SKIP1` payload: exactly its 1 fixed bytes; the
    /// record re-encodes to the payload.
    pub fn parse(payload: &[u8]) -> (r: Result<IibtSkip1, Error>)
        ensures
            r is Ok <==> payload@.len() == 1,
            r is Ok ==> iibt_skip1_bytes(r->Ok_0) == payload@,
            r is Err ==> (payload@.len() < 1 && r->Err_0 == Error::TruncatedBuffer) || (
            payload@.len() > 1 && r->Err_0 == Error::LengthMismatch),
    {
        if payload.len() < 1 {
            return Err(Error::TruncatedBuffer);
        }
        if payload.len() > 1 {
            return Err(Error::LengthMismatch);
        }
        let x_SkipCount = payload[0];
        let v = IibtSkip1 { SkipCount: x_SkipCount };
        proof {
            assert(iibt_skip1_bytes(v) =~= payload@);
        }
        Ok(v)
    }

    /// Writes the payload back.
    pub fn encode(&self) -> (r: Vec<u8>)
        ensures
            r@ == iibt_skip1_bytes(*self),
    {
        let mut w = crate::bytes::Writer::new();
        w.write_u8(self.SkipCount);
        proof {
            assert(w.bytes() =~= iibt_skip1_bytes(*self));
        }
        w.into_vec()
    }
}

/// The wire payload of a `SKIP2` block.
pub open spec fn iibt_skip2_bytes(v: IibtSkip2) -> Seq<u8> {
    crate::bytes::u16_le_bytes(v.SkipCount)
}

impl IibtSkip2 {
    /// Reads a `SKIP2` payload: exactly its 2 fixed bytes; the
    /// record re-encodes to the payload.
    pub fn parse(payload: &[u8]) -> (r: Result<IibtSkip2, Error>)
        ensures
            r is Ok <==> payload@.len() == 2,
            r is Ok ==> iibt_skip2_bytes(r->Ok_0) == payload@,
            r is Err ==> (payload@.len() < 2 && r->Err_0 == Error::TruncatedBuffer) || (
            payload@.len() > 2 && r->Err_0 == Error::LengthMismatch),
    {
        if payload.len() < 2 {
            return Err(Error::TruncatedBuffer);
        }
        if payload.len() > 2 {
            return Err(Error::LengthMismatch);
        }
        let x_SkipCount = crate::hii::blocks::get_u16(payload, 0);
        proof {
            assert(crate::bytes::u16_le_bytes(x_SkipCount) =~= payload@.subrange(0, 2)) by {
                crate::bytes::lemma_u16_le_pack(payload@[0], payload@[1]);
                assert(x_SkipCount == (payload@[0] as u16) + 256 * (payload@[1] as u16));
            };
        }
        let v = IibtSkip2 { SkipCount: x_SkipCount };
        proof {
            assert(iibt_skip2_bytes(v) =~= payload@);
        }
        Ok(v)
    }

    /// Writes the payload back.
    pub fn encode(&self) -> (r: Vec<u8>)
        ensures
            r@ == iibt_skip2_bytes(*self),
    {
        let mut w = crate::bytes::Writer::new();
        w.write_u16(self.SkipCount);
        proof {
            assert(w.bytes() =~= iibt_skip2_bytes(*self));
        }
        w.into_vec()
    }
}

} // verus!
