//! Font package: GIBT glyph block streams.
//!
//! A glyph block stream assigns bitmaps to consecutive character values.
//! A glyph's bitmap is sized by its cell: one bit per pixel, each row
//! padded to a whole byte. `GLYPH` and `GLYPHS` carry their own cell;
//! `GLYPH_DEFAULT` and `GLYPHS_DEFAULT` use the default cell, which
//! starts as the package header's cell and is replaced by each
//! `DEFAULTS` block, so the decoder threads it through the stream. The
//! shared `SKIP`/`DUPLICATE`/`EXT` scheme of [`crate::hii::blocks`]
//! applies, with the counter running over character values.

use vstd::prelude::*;

use crate::bytes::u16_at;
use crate::bytes::u32_at;
use crate::error::Error;
use crate::hii::blocks::blocks_bytes;
use crate::hii::blocks::blocks_view;
use crate::hii::blocks::get_u16;
use crate::hii::blocks::get_u32;
use crate::hii::blocks::HiiBlock;
use crate::hii::PackageHeader;

verus! {

/// `EFI_HII_FONT_STYLE` bits.
#[derive(Clone, Copy, Debug, PartialEq, Eq, Structural)]
pub struct FontStyle(pub u32);

impl FontStyle {
    pub const NORMAL: u32 = 0;
    pub const BOLD: u32 = 1;
    pub const ITALIC: u32 = 2;
    pub const EMBOSS: u32 = 0x1_0000;
    pub const OUTLINE: u32 = 0x2_0000;
    pub const SHADOW: u32 = 0x4_0000;
    pub const UNDERLINE: u32 = 0x8_0000;
    pub const DBL_UNDER: u32 = 0x10_0000;
}

/// `EFI_HII_GLYPH_INFO`: the cell geometry of a glyph.
#[derive(Clone, Copy, Debug, PartialEq, Eq, Structural)]
pub struct GlyphInfo {
    pub Width: u16,
    pub Height: u16,
    pub OffsetX: i16,
    pub OffsetY: i16,
    pub AdvanceX: i16,
}

/// `EFI_HII_FONT_PACKAGE_HDR`: the fixed fields; the font family name
/// follows as null-terminated 16-bit text.
#[derive(Clone, Debug, PartialEq, Eq)]
pub struct FontPackageHeader {
    pub Header: PackageHeader,
    pub HdrSize: u32,
    pub GlyphBlockOffset: u32,
    pub Cell: GlyphInfo,
    pub FontStyle: FontStyle,
    pub FontFamily: Vec<u16>,
}

/// Glyph block type byte.
#[derive(Clone, Copy, Debug, PartialEq, Eq, Structural)]
pub struct GlyphBlockType(pub u8);

impl GlyphBlockType {
    pub const END: u8 = 0x00;
    pub const GLYPH: u8 = 0x10;
    pub const GLYPHS: u8 = 0x11;
    pub const GLYPH_DEFAULT: u8 = 0x12;
    pub const GLYPHS_DEFAULT: u8 = 0x13;
    pub const GLYPH_VARIABILITY: u8 = 0x14;
    pub const DUPLICATE: u8 = 0x20;
    pub const SKIP2: u8 = 0x21;
    pub const SKIP1: u8 = 0x22;
    pub const DEFAULTS: u8 = 0x23;
    pub const EXT1: u8 = 0x30;
    pub const EXT2: u8 = 0x31;
    pub const EXT4: u8 = 0x32;
}

/// `EFI_HII_GLYPH_BLOCK`
#[derive(Clone, Copy, Debug, PartialEq, Eq, Structural)]
pub struct GlyphBlock {
    pub BlockType: GlyphBlockType,
}

/// `EFI_HII_GIBT_DEFAULTS_BLOCK`
#[derive(Clone, Copy, Debug, PartialEq, Eq, Structural)]
pub struct GibtDefaults {
    pub Cell: GlyphInfo,
}

/// `EFI_HII_GIBT_DUPLICATE_BLOCK`
#[derive(Clone, Copy, Debug, PartialEq, Eq, Structural)]
pub struct GibtDuplicate {
    pub CharValue: u16,
}

/// `EFI_HII_GIBT_END_BLOCK`
#[derive(Clone, Copy, Debug, PartialEq, Eq, Structural)]
pub struct GibtEnd {}

/// `EFI_HII_GIBT_EXT1_BLOCK`
#[derive(Clone, Copy, Debug, PartialEq, Eq, Structural)]
pub struct GibtExt1 {
    pub BlockType2: GlyphBlockType,
    pub Length: u8,
}

/// `EFI_HII_GIBT_EXT2_BLOCK`
#[derive(Clone, Copy, Debug, PartialEq, Eq, Structural)]
pub struct GibtExt2 {
    pub BlockType2: GlyphBlockType,
    pub Length: u16,
}

/// `EFI_HII_GIBT_EXT4_BLOCK`
#[derive(Clone, Copy, Debug, PartialEq, Eq, Structural)]
pub struct GibtExt4 {
    pub BlockType2: GlyphBlockType,
    pub Length: u32,
}

/// `EFI_HII_GIBT_GLYPH_BLOCK`
#[derive(Clone, Debug, PartialEq, Eq)]
pub struct GibtGlyph {
    pub Cell: GlyphInfo,
    pub BitmapData: Vec<u8>,
}

/// `EFI_HII_GIBT_GLYPHS_BLOCK`
#[derive(Clone, Debug, PartialEq, Eq)]
pub struct GibtGlyphs {
    pub Cell: GlyphInfo,
    pub Count: u16,
    pub BitmapData: Vec<u8>,
}

/// `EFI_HII_GIBT_GLYPH_DEFAULT_BLOCK`
#[derive(Clone, Debug, PartialEq, Eq)]
pub struct GibtGlyphDefault {
    pub BitmapData: Vec<u8>,
}

/// `EFI_HII_GIBT_GLYPHS_DEFAULT_BLOCK`
#[derive(Clone, Debug, PartialEq, Eq)]
pub struct GibtGlyphsDefault {
    pub Count: u16,
    pub BitmapData: Vec<u8>,
}

/// `EFI_HII_GIBT_SKIP2_BLOCK`
#[derive(Clone, Copy, Debug, PartialEq, Eq, Structural)]
pub struct GibtSkip2 {
    pub SkipCount: u16,
}

/// `EFI_HII_GIBT_SKIP1_BLOCK`
#[derive(Clone, Copy, Debug, PartialEq, Eq, Structural)]
pub struct GibtSkip1 {
    pub SkipCount: u8,
}

/// `EFI_HII_GIBT_VARIABILITY_BLOCK`
#[derive(Clone, Debug, PartialEq, Eq)]
pub struct GibtVariability {
    pub Cell: GlyphInfo,
    pub GlyphPackInBits: u8,
    pub BitmapData: Vec<u8>,
}

/// The bitmap bytes of one glyph cell: one bit per pixel, rows padded to
/// whole bytes.
pub open spec fn cell_bytes(w: int, h: int) -> int {
    ((w + 7) / 8) * h
}

/// The payload size table of the glyph family, against the current
/// default cell: given a block type and the bytes after the type byte,
/// how many of them the block's payload takes, or the exact error.
pub open spec fn gibt_size(t: u8, s: Seq<u8>, dw: int, dh: int) -> Result<int, Error> {
    if t == 0x20 || t == 0x21 {
        if s.len() >= 2 {
            Ok(2)
        } else {
            Err(Error::TruncatedBuffer)
        }
    } else if t == 0x22 {
        if s.len() >= 1 {
            Ok(1)
        } else {
            Err(Error::TruncatedBuffer)
        }
    } else if t == 0x23 {
        if s.len() >= 10 {
            Ok(10)
        } else {
            Err(Error::TruncatedBuffer)
        }
    } else if t == 0x30 {
        if s.len() < 2 {
            Err(Error::TruncatedBuffer)
        } else if s[1] < 3 {
            Err(Error::InvalidLength)
        } else {
            Ok(s[1] - 1)
        }
    } else if t == 0x31 {
        if s.len() < 3 {
            Err(Error::TruncatedBuffer)
        } else if u16_at(s, 1) < 4 {
            Err(Error::InvalidLength)
        } else {
            Ok(u16_at(s, 1) - 1)
        }
    } else if t == 0x32 {
        if s.len() < 5 {
            Err(Error::TruncatedBuffer)
        } else if u32_at(s, 1) < 6 {
            Err(Error::InvalidLength)
        } else {
            Ok(u32_at(s, 1) - 1)
        }
    } else if t == 0x10 {
        if s.len() < 10 {
            Err(Error::TruncatedBuffer)
        } else {
            Ok(10 + cell_bytes(u16_at(s, 0) as int, u16_at(s, 2) as int))
        }
    } else if t == 0x11 {
        if s.len() < 12 {
            Err(Error::TruncatedBuffer)
        } else {
            Ok(12 + (u16_at(s, 10) as int) * cell_bytes(u16_at(s, 0) as int, u16_at(s, 2) as int))
        }
    } else if t == 0x12 {
        Ok(cell_bytes(dw, dh))
    } else if t == 0x13 {
        if s.len() < 2 {
            Err(Error::TruncatedBuffer)
        } else {
            Ok(2 + (u16_at(s, 0) as int) * cell_bytes(dw, dh))
        }
    } else if t == 0x14 {
        if s.len() < 11 {
            Err(Error::TruncatedBuffer)
        } else {
            Ok(11 + cell_bytes(u16_at(s, 0) as int, u16_at(s, 2) as int))
        }
    } else {
        Err(Error::UnknownBlockType)
    }
}

/// The default cell after a block: a `DEFAULTS` block replaces it, every
/// other block keeps it.
pub open spec fn gibt_next_cell(t: u8, payload: Seq<u8>, dw: int, dh: int) -> (int, int) {
    if t == 0x23 && payload.len() >= 4 {
        (u16_at(payload, 0) as int, u16_at(payload, 2) as int)
    } else {
        (dw, dh)
    }
}

/// The reference splitter of a glyph block stream, threading the default
/// cell: blocks front to back, the stream closed by exactly one `END`
/// block as its last block.
pub open spec fn spec_split_gibt(s: Seq<u8>, dw: int, dh: int) -> Result<Seq<(u8, Seq<u8>)>, Error>
    decreases s.len(),
{
    if s.len() == 0 {
        Err(Error::TruncatedBuffer)
    } else if s[0] == 0 {
        if s.len() == 1 {
            Ok(seq![(0u8, Seq::<u8>::empty())])
        } else {
            Err(Error::LengthMismatch)
        }
    } else {
        match gibt_size(s[0], s.skip(1), dw, dh) {
            Ok(k) => if k < 0 || 1 + k > s.len() {
                Err(Error::TruncatedBuffer)
            } else {
                let payload = s.subrange(1, 1 + k);
                let next = gibt_next_cell(s[0], payload, dw, dh);
                match spec_split_gibt(s.skip(1 + k), next.0, next.1) {
                    Ok(rest) => Ok(seq![(s[0], payload)] + rest),
                    Err(e) => Err(e),
                }
            },
            Err(e) => Err(e),
        }
    }
}

/// Byte conservation for glyph streams: whatever the splitter accepts
/// re-encodes to exactly the input, and the `END` block stands last and
/// only last.
pub proof fn lemma_gibt_round_trip(s: Seq<u8>, dw: int, dh: int)
    requires
        spec_split_gibt(s, dw, dh) is Ok,
    ensures
        blocks_bytes(spec_split_gibt(s, dw, dh)->Ok_0) == s,
        spec_split_gibt(s, dw, dh)->Ok_0.len() > 0,
        spec_split_gibt(s, dw, dh)->Ok_0.last().0 == 0,
        forall|i: int|
            0 <= i < spec_split_gibt(s, dw, dh)->Ok_0.len() - 1 ==> (#[trigger] spec_split_gibt(
                s,
                dw,
                dh,
            )->Ok_0[i]).0 != 0,
    decreases s.len(),
{
    let v = spec_split_gibt(s, dw, dh)->Ok_0;
    if s[0] == 0 {
        assert(blocks_bytes(v.drop_first()) == Seq::<u8>::empty());
        assert(blocks_bytes(v) =~= s);
    } else {
        let k = gibt_size(s[0], s.skip(1), dw, dh)->Ok_0;
        let payload = s.subrange(1, 1 + k);
        let next = gibt_next_cell(s[0], payload, dw, dh);
        lemma_gibt_round_trip(s.skip(1 + k), next.0, next.1);
        let rest = spec_split_gibt(s.skip(1 + k), next.0, next.1)->Ok_0;
        assert(v.drop_first() =~= rest);
        assert(v[0] == (s[0], payload));
        assert(seq![v[0].0] + v[0].1 =~= s.subrange(0, 1 + k));
        assert(blocks_bytes(v) =~= s.subrange(0, 1 + k) + s.skip(1 + k));
        assert(s.subrange(0, 1 + k) + s.skip(1 + k) =~= s);
    }
}

/// Multiplies a count by a cell size without overflow.
fn mul_cell(a: u64, b: u64) -> (r: u64)
    requires
        a <= 0x1_0000,
        b <= 0x1_0000_0000,
    ensures
        r == a * b,
        r <= 0x1_0000_0000_0000,
{
    proof {
        assert(a * b <= 0x1_0000_0000_0000) by (nonlinear_arith)
            requires
                a <= 0x1_0000,
                b <= 0x1_0000_0000,
        ;
    }
    a * b
}

/// The bitmap bytes of one glyph cell, as executable code.
fn cell_bytes_at(w: u16, h: u16) -> (r: u64)
    ensures
        r == cell_bytes(w as int, h as int),
        r <= 0x1_0000_0000,
{
    proof {
        assert(((w as u64 + 7) / 8) * (h as u64) <= 0x1_0000_0000) by (nonlinear_arith)
            requires
                w <= 0xFFFF && h <= 0xFFFF,
        ;
    }
    ((w as u64 + 7) / 8) * (h as u64)
}

/// The executable size table; agrees with [`gibt_size`], except that it
/// also reports a size that passes the end of the data as a truncation.
fn gibt_size_at(data: &[u8], t: u8, pos: usize, dw: u16, dh: u16) -> (r: Result<usize, Error>)
    requires
        pos <= data@.len(),
    ensures
        r is Ok ==> gibt_size(t, data@.skip(pos as int), dw as int, dh as int) == Ok::<int, Error>(
            r->Ok_0 as int,
        ) && pos + r->Ok_0 <= data@.len(),
        r is Err ==> (match gibt_size(t, data@.skip(pos as int), dw as int, dh as int) {
            Ok(k) => r->Err_0 == Error::TruncatedBuffer && pos + k > data@.len(),
            Err(e) => r->Err_0 == e,
        }),
{
    let ghost s = data@.skip(pos as int);
    let left = data.len() - pos;
    if t == 0x20 || t == 0x21 {
        if left >= 2 {
            Ok(2)
        } else {
            Err(Error::TruncatedBuffer)
        }
    } else if t == 0x22 {
        if left >= 1 {
            Ok(1)
        } else {
            Err(Error::TruncatedBuffer)
        }
    } else if t == 0x23 {
        if left >= 10 {
            Ok(10)
        } else {
            Err(Error::TruncatedBuffer)
        }
    } else if t == 0x30 {
        if left < 2 {
            Err(Error::TruncatedBuffer)
        } else {
            let l = data[pos + 1];
            proof {
                assert(s[1] == data@[pos + 1]);
            }
            if l < 3 {
                Err(Error::InvalidLength)
            } else if (l as usize) - 1 > left {
                Err(Error::TruncatedBuffer)
            } else {
                Ok((l as usize) - 1)
            }
        }
    } else if t == 0x31 {
        if left < 3 {
            Err(Error::TruncatedBuffer)
        } else {
            let l = get_u16(data, pos + 1);
            proof {
                assert(s[1] == data@[pos + 1] && s[2] == data@[pos + 2]);
                assert(u16_at(s, 1) == l);
            }
            if l < 4 {
                Err(Error::InvalidLength)
            } else if (l as usize) - 1 > left {
                Err(Error::TruncatedBuffer)
            } else {
                Ok((l as usize) - 1)
            }
        }
    } else if t == 0x32 {
        if left < 5 {
            Err(Error::TruncatedBuffer)
        } else {
            let l = get_u32(data, pos + 1);
            proof {
                assert(s[1] == data@[pos + 1] && s[2] == data@[pos + 2] && s[3] == data@[pos + 3]
                    && s[4] == data@[pos + 4]);
                assert(u32_at(s, 1) == l);
            }
            if l < 6 {
                Err(Error::InvalidLength)
            } else if l as u64 - 1 > left as u64 {
                Err(Error::TruncatedBuffer)
            } else {
                Ok((l - 1) as usize)
            }
        }
    } else if t == 0x10 {
        if left < 10 {
            Err(Error::TruncatedBuffer)
        } else {
            let w = get_u16(data, pos);
            let h = get_u16(data, pos + 2);
            proof {
                assert(s[0] == data@[pos as int] && s[1] == data@[pos + 1]);
                assert(s[2] == data@[pos + 2] && s[3] == data@[pos + 3]);
                assert(u16_at(s, 0) == w && u16_at(s, 2) == h);
            }
            let body = 10 + cell_bytes_at(w, h);
            if body > left as u64 {
                Err(Error::TruncatedBuffer)
            } else {
                Ok(body as usize)
            }
        }
    } else if t == 0x11 {
        if left < 12 {
            Err(Error::TruncatedBuffer)
        } else {
            let w = get_u16(data, pos);
            let h = get_u16(data, pos + 2);
            let n = get_u16(data, pos + 10);
            proof {
                assert(s[0] == data@[pos as int] && s[1] == data@[pos + 1]);
                assert(s[2] == data@[pos + 2] && s[3] == data@[pos + 3]);
                assert(s[10] == data@[pos + 10] && s[11] == data@[pos + 11]);
                assert(u16_at(s, 0) == w && u16_at(s, 2) == h && u16_at(s, 10) == n);
            }
            let body = 12 + mul_cell(n as u64, cell_bytes_at(w, h));
            if body > left as u64 {
                Err(Error::TruncatedBuffer)
            } else {
                Ok(body as usize)
            }
        }
    } else if t == 0x12 {
        let body = cell_bytes_at(dw, dh);
        if body > left as u64 {
            Err(Error::TruncatedBuffer)
        } else {
            Ok(body as usize)
        }
    } else if t == 0x13 {
        if left < 2 {
            Err(Error::TruncatedBuffer)
        } else {
            let n = get_u16(data, pos);
            proof {
                assert(s[0] == data@[pos as int] && s[1] == data@[pos + 1]);
                assert(u16_at(s, 0) == n);
            }
            let body = 2 + mul_cell(n as u64, cell_bytes_at(dw, dh));
            if body > left as u64 {
                Err(Error::TruncatedBuffer)
            } else {
                Ok(body as usize)
            }
        }
    } else if t == 0x14 {
        if left < 11 {
            Err(Error::TruncatedBuffer)
        } else {
            let w = get_u16(data, pos);
            let h = get_u16(data, pos + 2);
            proof {
                assert(s[0] == data@[pos as int] && s[1] == data@[pos + 1]);
                assert(s[2] == data@[pos + 2] && s[3] == data@[pos + 3]);
                assert(u16_at(s, 0) == w && u16_at(s, 2) == h);
            }
            let body = 11 + cell_bytes_at(w, h);
            if body > left as u64 {
                Err(Error::TruncatedBuffer)
            } else {
                Ok(body as usize)
            }
        }
    } else {
        Err(Error::UnknownBlockType)
    }
}

/// Decodes a glyph block stream into its blocks, starting from the
/// package header's default cell; accepts exactly the streams
/// [`spec_split_gibt`] accepts and returns exactly its blocks, which
/// re-encode to the input bytes ([`lemma_gibt_round_trip`]).
#[verifier::rlimit(100)]
pub fn decode_glyph_blocks(data: &[u8], def_w: u16, def_h: u16) -> (r: Result<Vec<HiiBlock>, Error>)
    ensures
        r is Ok <==> spec_split_gibt(data@, def_w as int, def_h as int) is Ok,
        r is Ok ==> blocks_view(r->Ok_0@) == spec_split_gibt(
            data@,
            def_w as int,
            def_h as int,
        )->Ok_0,
        r is Err ==> spec_split_gibt(data@, def_w as int, def_h as int) == Err::<
            Seq<(u8, Seq<u8>)>,
            Error,
        >(r->Err_0),
{
    let dlen = data.len();
    let mut blocks: Vec<HiiBlock> = Vec::new();
    let mut pos: usize = 0;
    let mut dw = def_w;
    let mut dh = def_h;
    proof {
        assert(data@.skip(0) =~= data@);
        if spec_split_gibt(data@, def_w as int, def_h as int) is Ok {
            assert(blocks_view(blocks@) + spec_split_gibt(data@, def_w as int, def_h as int)->Ok_0
                =~= spec_split_gibt(data@, def_w as int, def_h as int)->Ok_0);
        }
    }
    while pos < data.len()
        invariant
            dlen == data@.len(),
            pos <= data@.len(),
            spec_split_gibt(data@, def_w as int, def_h as int) == (match spec_split_gibt(
                data@.skip(pos as int),
                dw as int,
                dh as int,
            ) {
                Ok(rest) => Ok::<_, Error>(blocks_view(blocks@) + rest),
                Err(e) => Err::<Seq<(u8, Seq<u8>)>, _>(e),
            }),
        decreases data@.len() - pos,
    {
        let ghost s = data@.skip(pos as int);
        let t = data[pos];
        proof {
            assert(s[0] == t);
        }
        if t == 0 {
            if pos + 1 != data.len() {
                return Err(Error::LengthMismatch);
            }
            let ghost view_old = blocks_view(blocks@);
            blocks.push(HiiBlock { kind: 0, payload: Vec::new() });
            proof {
                assert(spec_split_gibt(s, dw as int, dh as int) == Ok::<_, Error>(seq![
                    (0u8, Seq::<u8>::empty()),
                ]));
                assert(blocks_view(blocks@) =~= view_old + seq![(0u8, Seq::<u8>::empty())]);
            }
            return Ok(blocks);
        }
        let k = match gibt_size_at(data, t, pos + 1, dw, dh) {
            Ok(k) => k,
            Err(e) => {
                proof {
                    assert(data@.skip(pos + 1) =~= s.skip(1));
                    if gibt_size(t, s.skip(1), dw as int, dh as int) is Ok {
                        let k = gibt_size(t, s.skip(1), dw as int, dh as int)->Ok_0;
                        assert(pos + 1 + k > data@.len());
                        assert(spec_split_gibt(s, dw as int, dh as int) == Err::<
                            Seq<(u8, Seq<u8>)>,
                            Error,
                        >(e));
                    } else {
                        assert(spec_split_gibt(s, dw as int, dh as int) == Err::<
                            Seq<(u8, Seq<u8>)>,
                            Error,
                        >(e));
                    }
                }
                return Err(e);
            },
        };
        proof {
            assert(data@.skip(pos + 1) =~= s.skip(1));
            assert(gibt_size(t, s.skip(1), dw as int, dh as int) == Ok::<int, Error>(k as int));
        }
        let mut payload: Vec<u8> = Vec::new();
        let mut j: usize = 0;
        while j < k
            invariant
                dlen == data@.len(),
                pos + 1 + k <= dlen,
                j <= k,
                payload@ == data@.subrange(pos + 1, pos + 1 + j),
            decreases k - j,
        {
            payload.push(data[pos + 1 + j]);
            j = j + 1;
            proof {
                assert(payload@ =~= data@.subrange(pos as int + 1, pos + 1 + j));
            }
        }
        if t == 0x23 && payload.len() >= 4 {
            let nw = get_u16(payload.as_slice(), 0);
            let nh = get_u16(payload.as_slice(), 2);
            proof {
                assert((nw as int, nh as int) == gibt_next_cell(t, payload@, dw as int, dh as int));
            }
            dw = nw;
            dh = nh;
        } else {
            proof {
                assert((dw as int, dh as int) == gibt_next_cell(t, payload@, dw as int, dh as int));
            }
        }
        let ghost view_old = blocks_view(blocks@);
        let ghost payload_v = payload@;
        blocks.push(HiiBlock { kind: t, payload });
        proof {
            assert(payload_v =~= s.subrange(1, 1 + k));
            assert(s.skip(1 + k) =~= data@.skip(pos + 1 + k));
            assert(blocks_view(blocks@) =~= view_old + seq![(t, payload_v)]);
            if spec_split_gibt(data@.skip(pos + 1 + k), dw as int, dh as int) is Ok {
                let rest = spec_split_gibt(data@.skip(pos + 1 + k), dw as int, dh as int)->Ok_0;
                assert(view_old + (seq![(t, payload_v)] + rest) =~= blocks_view(blocks@) + rest);
            }
        }
        pos = pos + 1 + k;
    }
    proof {
        assert(data@.skip(pos as int) =~= Seq::<u8>::empty());
    }
    Err(Error::TruncatedBuffer)
}

/// The wire payload of a `DUPLICATE` block.
pub open spec fn gibt_duplicate_bytes(v: GibtDuplicate) -> Seq<u8> {
    crate::bytes::u16_le_bytes(v.CharValue)
}

impl GibtDuplicate {
    /// Reads a `DUPLICATE` payload: exactly its 2 fixed bytes; the
    /// record re-encodes to the payload.
    pub fn parse(payload: &[u8]) -> (r: Result<GibtDuplicate, Error>)
        ensures
            r is Ok <==> payload@.len() == 2,
            r is Ok ==> gibt_duplicate_bytes(r->Ok_0) == payload@,
            r is Err ==> (payload@.len() < 2 && r->Err_0 == Error::TruncatedBuffer) || (
            payload@.len() > 2 && r->Err_0 == Error::LengthMismatch),
    {
        if payload.len() < 2 {
            return Err(Error::TruncatedBuffer);
        }
        if payload.len() > 2 {
            return Err(Error::LengthMismatch);
        }
        let x_CharValue = crate::hii::blocks::get_u16(payload, 0);
        proof {
            assert(crate::bytes::u16_le_bytes(x_CharValue) =~= payload@.subrange(0, 2)) by {
                crate::bytes::lemma_u16_le_pack(payload@[0], payload@[1]);
                assert(x_CharValue == (payload@[0] as u16) + 256 * (payload@[1] as u16));
            };
        }
        let v = GibtDuplicate { CharValue: x_CharValue };
        proof {
            assert(gibt_duplicate_bytes(v) =~= payload@);
        }
        Ok(v)
    }

    /// Writes the payload back.
    pub fn encode(&self) -> (r: Vec<u8>)
        ensures
            r@ == gibt_duplicate_bytes(*self),
    {
        let mut w = crate::bytes::Writer::new();
        w.write_u16(self.CharValue);
        proof {
            assert(w.bytes() =~= gibt_duplicate_bytes(*self));
        }
        w.into_vec()
    }
}

/// The wire payload of a `SKIP1` block.
pub open spec fn gibt_skip1_bytes(v: GibtSkip1) -> Seq<u8> {
    seq![v.SkipCount]
}

impl GibtSkip1 {
    /// Reads a `SKIP1` payload: exactly its 1 fixed bytes; the
    /// record re-encodes to the payload.
    pub fn parse(payload: &[u8]) -> (r: Result<GibtSkip1, Error>)
        ensures
            r is Ok <==> payload@.len() == 1,
            r is Ok ==> gibt_skip1_bytes(r->Ok_0) == payload@,
            r is Err ==> (payload@.len() < 1 && r->Err_0 == Error::TruncatedBuffer) || (
            payload@.len() > 1 && r->Err_0 == Error::LengthMismatch),
    {
        if payload.len() < 1 {
            return Err(Error::TruncatedBuffer);
        }
        if payload.len() > 1 {
            return Err(Error::LengthMismatch);
        }
        let x_SkipCount = payload[0];
        let v = GibtSkip1 { SkipCount: x_SkipCount };
        proof {
            assert(gibt_skip1_bytes(v) =~= payload@);
        }
        Ok(v)
    }

    /// Writes the payload back.
    pub fn encode(&self) -> (r: Vec<u8>)
        ensures
            r@ == gibt_skip1_bytes(*self),
    {
        let mut w = crate::bytes::Writer::new();
        w.write_u8(self.SkipCount);
        proof {
            assert(w.bytes() =~= gibt_skip1_bytes(*self));
        }
        w.into_vec()
    }
}

/// The wire payload of a `SKIP2` block.
pub open spec fn gibt_skip2_bytes(v: GibtSkip2) -> Seq<u8> {
    crate::bytes::u16_le_bytes(v.SkipCount)
}

impl GibtSkip2 {
    /// Reads a `SKIP2` payload: exactly its 2 fixed bytes; the
    /// record re-encodes to the payload.
    pub fn parse(payload: &[u8]) -> (r: Result<GibtSkip2, Error>)
        ensures
            r is Ok <==> payload@.len() == 2,
            r is Ok ==> gibt_skip2_bytes(r->Ok_0) == payload@,
            r is Err ==> (payload@.len() < 2 && r->Err_0 == Error::TruncatedBuffer) || (
            payload@.len() > 2 && r->Err_0 == Error::LengthMismatch),
    {
        if payload.len() < 2 {
            return Err(Error::TruncatedBuffer);
        }
        if payload.len() > 2 {
            return Err(Error::LengthMismatch);
        }
        let x_SkipCount = crate::hii::blocks::get_u16(payload, 0);
        proof {
            assert(crate::bytes::u16_le_bytes(x_SkipCount) =~= payload@.subrange(0, 2)) by {
                crate::bytes::lemma_u16_le_pack(payload@[0], payload@[1]);
                assert(x_SkipCount == (payload@[0] as u16) + 256 * (payload@[1] as u16));
            };
        }
        let v = GibtSkip2 { SkipCount: x_SkipCount };
        proof {
            assert(gibt_skip2_bytes(v) =~= payload@);
        }
        Ok(v)
    }

    /// Writes the payload back.
    pub fn encode(&self) -> (r: Vec<u8>)
        ensures
            r@ == gibt_skip2_bytes(*self),
    {
        let mut w = crate::bytes::Writer::new();
        w.write_u16(self.SkipCount);
        proof {
            assert(w.bytes() =~= gibt_skip2_bytes(*self));
        }
        w.into_vec()
    }
}

} // verus!
