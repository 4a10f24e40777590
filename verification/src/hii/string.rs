//! String package: SIBT block streams.
//!
//! A string package carries blocks of localized text. The narrow (SCSU)
//! text blocks hold null-terminated byte strings, the wide (UCS-2) ones
//! null-terminated sequences of 16-bit units; both exist with and without
//! a font identifier, and in single- and counted multi-string forms. The
//! shared `SKIP`/`DUPLICATE`/`EXT` scheme of [`crate::hii::blocks`]
//! applies, and every decoded string takes the next value of the implicit
//! string id counter.

use vstd::prelude::*;

use crate::bytes::u16_at;
use crate::bytes::u32_at;
use crate::error::Error;
use crate::hii::blocks::blocks_view;
use crate::hii::blocks::get_u16;
use crate::hii::blocks::get_u32;
use crate::hii::blocks::blocks_bytes;
use crate::hii::blocks::scan_nul8;
use crate::hii::blocks::scan_nul16;
use crate::hii::blocks::spec_scan_nul8;
use crate::hii::blocks::spec_scan_nul16;
use crate::hii::blocks::HiiBlock;
use crate::hii::PackageHeader;

verus! {

/// `EFI_HII_STRING_PACKAGE_HDR`: the fixed fields; the language name
/// text follows as null-terminated ASCII.
#[derive(Clone, Debug, PartialEq, Eq)]
pub struct StringPackageHeader {
    pub Header: PackageHeader,
    pub HdrSize: u32,
    pub StringInfoOffset: u32,
    pub LanguageWindow: Vec<u16>,
    pub LanguageName: u16,
    pub Language: Vec<u8>,
}

/// String block type byte.
#[derive(Clone, Copy, Debug, PartialEq, Eq, Structural)]
pub struct StringBlockType(pub u8);

impl StringBlockType {
    pub const END: u8 = 0x00;
    pub const STRING_SCSU: u8 = 0x10;
    pub const STRING_SCSU_FONT: u8 = 0x11;
    pub const STRINGS_SCSU: u8 = 0x12;
    pub const STRINGS_SCSU_FONT: u8 = 0x13;
    pub const STRING_UCS2: u8 = 0x14;
    pub const STRING_UCS2_FONT: u8 = 0x15;
    pub const STRINGS_UCS2: u8 = 0x16;
    pub const STRINGS_UCS2_FONT: u8 = 0x17;
    pub const DUPLICATE: u8 = 0x20;
    pub const SKIP2: u8 = 0x21;
    pub const SKIP1: u8 = 0x22;
    pub const EXT1: u8 = 0x30;
    pub const EXT2: u8 = 0x31;
    pub const EXT4: u8 = 0x32;
    pub const FONT: u8 = 0x40;
}

/// `EFI_HII_STRING_BLOCK`
#[derive(Clone, Copy, Debug, PartialEq, Eq, Structural)]
pub struct StringBlock {
    pub BlockType: StringBlockType,
}

/// `EFI_HII_SIBT_DUPLICATE_BLOCK`
#[derive(Clone, Copy, Debug, PartialEq, Eq, Structural)]
pub struct SibtDuplicate {
    pub StringId: u16,
}

/// `EFI_HII_SIBT_END_BLOCK`
#[derive(Clone, Copy, Debug, PartialEq, Eq, Structural)]
pub struct SibtEnd {}

/// `EFI_HII_SIBT_EXT1_BLOCK`
#[derive(Clone, Copy, Debug, PartialEq, Eq, Structural)]
pub struct SibtExt1 {
    pub BlockType2: StringBlockType,
    pub Length: u8,
}

/// `EFI_HII_SIBT_EXT2_BLOCK`
#[derive(Clone, Copy, Debug, PartialEq, Eq, Structural)]
pub struct SibtExt2 {
    pub BlockType2: StringBlockType,
    pub Length: u16,
}

/// `EFI_HII_SIBT_EXT4_BLOCK`
#[derive(Clone, Copy, Debug, PartialEq, Eq, Structural)]
pub struct SibtExt4 {
    pub BlockType2: StringBlockType,
    pub Length: u32,
}

/// `EFI_HII_SIBT_FONT_BLOCK`: carried inside an `EXT2` escape.
#[derive(Clone, Debug, PartialEq, Eq)]
pub struct SibtFont {
    pub FontId: u8,
    pub FontSize: u16,
    pub FontStyle: u32,
    pub FontName: Vec<u16>,
}

/// `EFI_HII_SIBT_SKIP1_BLOCK`
#[derive(Clone, Copy, Debug, PartialEq, Eq, Structural)]
pub struct SibtSkip1 {
    pub SkipCount: u8,
}

/// `EFI_HII_SIBT_SKIP2_BLOCK`
#[derive(Clone, Copy, Debug, PartialEq, Eq, Structural)]
pub struct SibtSkip2 {
    pub SkipCount: u16,
}

/// `EFI_HII_SIBT_STRING_SCSU_BLOCK`
#[derive(Clone, Debug, PartialEq, Eq)]
pub struct SibtStringScsu {
    pub StringText: Vec<u8>,
}

/// `EFI_HII_SIBT_STRING_SCSU_FONT_BLOCK`
#[derive(Clone, Debug, PartialEq, Eq)]
pub struct SibtStringScsuFont {
    pub FontIdentifier: u8,
    pub StringText: Vec<u8>,
}

/// `EFI_HII_SIBT_STRINGS_SCSU_BLOCK`
#[derive(Clone, Debug, PartialEq, Eq)]
pub struct SibtStringsScsu {
    pub StringCount: u16,
    pub StringText: Vec<u8>,
}

/// `EFI_HII_SIBT_STRINGS_SCSU_FONT_BLOCK`
#[derive(Clone, Debug, PartialEq, Eq)]
pub struct SibtStringsScsuFont {
    pub FontIdentifier: u8,
    pub StringCount: u16,
    pub StringText: Vec<u8>,
}

/// `EFI_HII_SIBT_STRING_UCS2_BLOCK`
#[derive(Clone, Debug, PartialEq, Eq)]
pub struct SibtStringUcs2 {
    pub StringText: Vec<u16>,
}

/// `EFI_HII_SIBT_STRING_UCS2_FONT_BLOCK`
#[derive(Clone, Debug, PartialEq, Eq)]
pub struct SibtStringUcs2Font {
    pub FontIdentifier: u8,
    pub StringText: Vec<u16>,
}

/// `EFI_HII_SIBT_STRINGS_UCS2_BLOCK`
#[derive(Clone, Debug, PartialEq, Eq)]
pub struct SibtStringsUcs2 {
    pub StringCount: u16,
    pub StringText: Vec<u16>,
}

/// `EFI_HII_SIBT_STRINGS_UCS2_FONT_BLOCK`
#[derive(Clone, Debug, PartialEq, Eq)]
pub struct SibtStringsUcs2Font {
    pub FontIdentifier: u8,
    pub StringCount: u16,
    pub StringText: Vec<u16>,
}

/// How many bytes `n` null-terminated byte strings occupy at the start
/// of `s`, terminators included.
pub open spec fn spec_scan_strs8(s: Seq<u8>, n: int) -> Option<int>
    decreases n,
{
    if n <= 0 {
        Some(0)
    } else {
        match spec_scan_nul8(s) {
            Some(k) => match spec_scan_strs8(s.skip(k), n - 1) {
                Some(m) => Some(k + m),
                None => None,
            },
            None => None,
        }
    }
}

/// How many bytes `n` null-terminated 16-bit strings occupy at the start
/// of `s`, terminators included.
pub open spec fn spec_scan_strs16(s: Seq<u8>, n: int) -> Option<int>
    decreases n,
{
    if n <= 0 {
        Some(0)
    } else {
        match spec_scan_nul16(s) {
            Some(k) => match spec_scan_strs16(s.skip(k), n - 1) {
                Some(m) => Some(k + m),
                None => None,
            },
            None => None,
        }
    }
}

/// Finds how many bytes `n` null-terminated byte strings occupy from
/// `pos`.
fn scan_strs8(data: &[u8], pos: usize, n: u16) -> (r: Option<usize>)
    requires
        pos <= data@.len(),
    ensures
        r is Some <==> spec_scan_strs8(data@.skip(pos as int), n as int) is Some,
        r is Some ==> Some(r->0 as int) == spec_scan_strs8(data@.skip(pos as int), n as int) && pos
            + r->0 <= data@.len(),
{
    let total = data.len();
    let mut cur: usize = pos;
    let mut j: u16 = 0;
    while j < n
        invariant
            total == data@.len(),
            pos <= cur <= data@.len(),
            j <= n,
            spec_scan_strs8(data@.skip(pos as int), n as int) == (match spec_scan_strs8(
                data@.skip(cur as int),
                n - j,
            ) {
                Some(m) => Some((cur - pos) + m),
                None => None::<int>,
            }),
        decreases n - j,
    {
        let k = match scan_nul8(data, cur) {
            Some(k) => k,
            None => {
                return None;
            },
        };
        proof {
            assert(data@.skip(cur as int).skip(k as int) =~= data@.skip(cur + k));
        }
        cur = cur + k;
        j = j + 1;
    }
    Some(cur - pos)
}

/// Finds how many bytes `n` null-terminated 16-bit strings occupy from
/// `pos`.
fn scan_strs16(data: &[u8], pos: usize, n: u16) -> (r: Option<usize>)
    requires
        pos <= data@.len(),
    ensures
        r is Some <==> spec_scan_strs16(data@.skip(pos as int), n as int) is Some,
        r is Some ==> Some(r->0 as int) == spec_scan_strs16(data@.skip(pos as int), n as int)
            && pos + r->0 <= data@.len(),
{
    let total = data.len();
    let mut cur: usize = pos;
    let mut j: u16 = 0;
    while j < n
        invariant
            total == data@.len(),
            pos <= cur <= data@.len(),
            j <= n,
            spec_scan_strs16(data@.skip(pos as int), n as int) == (match spec_scan_strs16(
                data@.skip(cur as int),
                n - j,
            ) {
                Some(m) => Some((cur - pos) + m),
                None => None::<int>,
            }),
        decreases n - j,
    {
        let k = match scan_nul16(data, cur) {
            Some(k) => k,
            None => {
                return None;
            },
        };
        proof {
            assert(data@.skip(cur as int).skip(k as int) =~= data@.skip(cur + k));
        }
        cur = cur + k;
        j = j + 1;
    }
    Some(cur - pos)
}

/// The payload size table of the string family: given a block type and
/// the bytes after the type byte, how many of them the block's payload
/// takes, or the exact error. Sizes from the `EXT` escapes may still
/// pass the end of the data; the splitter checks that.
pub open spec fn sibt_size(t: u8, s: Seq<u8>) -> Result<int, Error> {
    if t == 0x20 || t == 0x21 {
        if s.len() >= 2 {
            Ok(2)
        } else {
            Err(Error::TruncatedBuffer)
        }
    } else if t == 0x22 {
        if s.len() >= 1 {
            Ok(1)
        } else {
            Err(Error::TruncatedBuffer)
        }
    } else if t == 0x30 {
        if s.len() < 2 {
            Err(Error::TruncatedBuffer)
        } else if s[1] < 3 {
            Err(Error::InvalidLength)
        } else {
            Ok(s[1] - 1)
        }
    } else if t == 0x31 {
        if s.len() < 3 {
            Err(Error::TruncatedBuffer)
        } else if u16_at(s, 1) < 4 {
            Err(Error::InvalidLength)
        } else {
            Ok(u16_at(s, 1) - 1)
        }
    } else if t == 0x32 {
        if s.len() < 5 {
            Err(Error::TruncatedBuffer)
        } else if u32_at(s, 1) < 6 {
            Err(Error::InvalidLength)
        } else {
            Ok(u32_at(s, 1) - 1)
        }
    } else if t == 0x10 {
        match spec_scan_nul8(s) {
            Some(k) => Ok(k),
            None => Err(Error::TruncatedBuffer),
        }
    } else if t == 0x11 {
        if s.len() < 1 {
            Err(Error::TruncatedBuffer)
        } else {
            match spec_scan_nul8(s.skip(1)) {
                Some(k) => Ok(k + 1),
                None => Err(Error::TruncatedBuffer),
            }
        }
    } else if t == 0x12 {
        if s.len() < 2 {
            Err(Error::TruncatedBuffer)
        } else {
            match spec_scan_strs8(s.skip(2), u16_at(s, 0) as int) {
                Some(k) => Ok(k + 2),
                None => Err(Error::TruncatedBuffer),
            }
        }
    } else if t == 0x13 {
        if s.len() < 3 {
            Err(Error::TruncatedBuffer)
        } else {
            match spec_scan_strs8(s.skip(3), u16_at(s, 1) as int) {
                Some(k) => Ok(k + 3),
                None => Err(Error::TruncatedBuffer),
            }
        }
    } else if t == 0x14 {
        match spec_scan_nul16(s) {
            Some(k) => Ok(k),
            None => Err(Error::TruncatedBuffer),
        }
    } else if t == 0x15 {
        if s.len() < 1 {
            Err(Error::TruncatedBuffer)
        } else {
            match spec_scan_nul16(s.skip(1)) {
                Some(k) => Ok(k + 1),
                None => Err(Error::TruncatedBuffer),
            }
        }
    } else if t == 0x16 {
        if s.len() < 2 {
            Err(Error::TruncatedBuffer)
        } else {
            match spec_scan_strs16(s.skip(2), u16_at(s, 0) as int) {
                Some(k) => Ok(k + 2),
                None => Err(Error::TruncatedBuffer),
            }
        }
    } else if t == 0x17 {
        if s.len() < 3 {
            Err(Error::TruncatedBuffer)
        } else {
            match spec_scan_strs16(s.skip(3), u16_at(s, 1) as int) {
                Some(k) => Ok(k + 3),
                None => Err(Error::TruncatedBuffer),
            }
        }
    } else {
        Err(Error::UnknownBlockType)
    }
}

/// The reference splitter of a string block stream: blocks front to
/// back, the stream closed by exactly one `END` block as its last block.
pub open spec fn spec_split_sibt(s: Seq<u8>) -> Result<Seq<(u8, Seq<u8>)>, Error>
    decreases s.len(),
{
    if s.len() == 0 {
        Err(Error::TruncatedBuffer)
    } else if s[0] == 0 {
        if s.len() == 1 {
            Ok(seq![(0u8, Seq::<u8>::empty())])
        } else {
            Err(Error::LengthMismatch)
        }
    } else {
        match sibt_size(s[0], s.skip(1)) {
            Ok(k) => if k < 0 || 1 + k > s.len() {
                Err(Error::TruncatedBuffer)
            } else {
                match spec_split_sibt(s.skip(1 + k)) {
                    Ok(rest) => Ok(seq![(s[0], s.subrange(1, 1 + k))] + rest),
                    Err(e) => Err(e),
                }
            },
            Err(e) => Err(e),
        }
    }
}

/// Byte conservation for string streams: whatever the splitter accepts
/// re-encodes to exactly the input, and the `END` block stands last and
/// only last.
pub proof fn lemma_sibt_round_trip(s: Seq<u8>)
    requires
        spec_split_sibt(s) is Ok,
    ensures
        blocks_bytes(spec_split_sibt(s)->Ok_0) == s,
        spec_split_sibt(s)->Ok_0.len() > 0,
        spec_split_sibt(s)->Ok_0.last().0 == 0,
        forall|i: int|
            0 <= i < spec_split_sibt(s)->Ok_0.len() - 1 ==> (#[trigger] spec_split_sibt(
                s,
            )->Ok_0[i]).0 != 0,
    decreases s.len(),
{
    let v = spec_split_sibt(s)->Ok_0;
    if s[0] == 0 {
        assert(blocks_bytes(v.drop_first()) == Seq::<u8>::empty());
        assert(blocks_bytes(v) =~= s);
    } else {
        let k = sibt_size(s[0], s.skip(1))->Ok_0;
        lemma_sibt_round_trip(s.skip(1 + k));
        let rest = spec_split_sibt(s.skip(1 + k))->Ok_0;
        assert(v.drop_first() =~= rest);
        assert(v[0] == (s[0], s.subrange(1, 1 + k)));
        assert(seq![v[0].0] + v[0].1 =~= s.subrange(0, 1 + k));
        assert(blocks_bytes(v) =~= s.subrange(0, 1 + k) + s.skip(1 + k));
        assert(s.subrange(0, 1 + k) + s.skip(1 + k) =~= s);
    }
}

/// The executable size table; agrees with [`sibt_size`], except that it
/// also reports a size that passes the end of the data as a truncation.
fn sibt_size_at(data: &[u8], t: u8, pos: usize) -> (r: Result<usize, Error>)
    requires
        pos <= data@.len(),
    ensures
        r is Ok ==> sibt_size(t, data@.skip(pos as int)) == Ok::<int, Error>(r->Ok_0 as int) && pos
            + r->Ok_0 <= data@.len(),
        r is Err ==> (match sibt_size(t, data@.skip(pos as int)) {
            Ok(k) => r->Err_0 == Error::TruncatedBuffer && pos + k > data@.len(),
            Err(e) => r->Err_0 == e,
        }),
{
    let ghost s = data@.skip(pos as int);
    let left = data.len() - pos;
    if t == 0x20 || t == 0x21 {
        if left >= 2 {
            Ok(2)
        } else {
            Err(Error::TruncatedBuffer)
        }
    } else if t == 0x22 {
        if left >= 1 {
            Ok(1)
        } else {
            Err(Error::TruncatedBuffer)
        }
    } else if t == 0x30 {
        if left < 2 {
            Err(Error::TruncatedBuffer)
        } else {
            let l = data[pos + 1];
            proof {
                assert(s[1] == data@[pos + 1]);
            }
            if l < 3 {
                Err(Error::InvalidLength)
            } else if (l as usize) - 1 > left {
                Err(Error::TruncatedBuffer)
            } else {
                Ok((l as usize) - 1)
            }
        }
    } else if t == 0x31 {
        if left < 3 {
            Err(Error::TruncatedBuffer)
        } else {
            let l = get_u16(data, pos + 1);
            proof {
                assert(s[1] == data@[pos + 1] && s[2] == data@[pos + 2]);
                assert(u16_at(s, 1) == l);
            }
            if l < 4 {
                Err(Error::InvalidLength)
            } else if (l as usize) - 1 > left {
                Err(Error::TruncatedBuffer)
            } else {
                Ok((l as usize) - 1)
            }
        }
    } else if t == 0x32 {
        if left < 5 {
            Err(Error::TruncatedBuffer)
        } else {
            let l = get_u32(data, pos + 1);
            proof {
                assert(s[1] == data@[pos + 1] && s[2] == data@[pos + 2] && s[3] == data@[pos + 3]
                    && s[4] == data@[pos + 4]);
                assert(u32_at(s, 1) == l);
            }
            if l < 6 {
                Err(Error::InvalidLength)
            } else if l as u64 - 1 > left as u64 {
                Err(Error::TruncatedBuffer)
            } else {
                Ok((l - 1) as usize)
            }
        }
    } else if t == 0x10 {
        match scan_nul8(data, pos) {
            Some(k) => Ok(k),
            None => Err(Error::TruncatedBuffer),
        }
    } else if t == 0x11 {
        if left < 1 {
            Err(Error::TruncatedBuffer)
        } else {
            proof {
                assert(data@.skip(pos + 1) =~= s.skip(1));
            }
            match scan_nul8(data, pos + 1) {
                Some(k) => Ok(k + 1),
                None => Err(Error::TruncatedBuffer),
            }
        }
    } else if t == 0x12 {
        if left < 2 {
            Err(Error::TruncatedBuffer)
        } else {
            let n = get_u16(data, pos);
            proof {
                assert(s[0] == data@[pos as int] && s[1] == data@[pos + 1]);
                assert(u16_at(s, 0) == n);
                assert(data@.skip(pos + 2) =~= s.skip(2));
            }
            match scan_strs8(data, pos + 2, n) {
                Some(k) => Ok(k + 2),
                None => Err(Error::TruncatedBuffer),
            }
        }
    } else if t == 0x13 {
        if left < 3 {
            Err(Error::TruncatedBuffer)
        } else {
            let n = get_u16(data, pos + 1);
            proof {
                assert(s[1] == data@[pos + 1] && s[2] == data@[pos + 2]);
                assert(u16_at(s, 1) == n);
                assert(data@.skip(pos + 3) =~= s.skip(3));
            }
            match scan_strs8(data, pos + 3, n) {
                Some(k) => Ok(k + 3),
                None => Err(Error::TruncatedBuffer),
            }
        }
    } else if t == 0x14 {
        match scan_nul16(data, pos) {
            Some(k) => Ok(k),
            None => Err(Error::TruncatedBuffer),
        }
    } else if t == 0x15 {
        if left < 1 {
            Err(Error::TruncatedBuffer)
        } else {
            proof {
                assert(data@.skip(pos + 1) =~= s.skip(1));
            }
            match scan_nul16(data, pos + 1) {
                Some(k) => Ok(k + 1),
                None => Err(Error::TruncatedBuffer),
            }
        }
    } else if t == 0x16 {
        if left < 2 {
            Err(Error::TruncatedBuffer)
        } else {
            let n = get_u16(data, pos);
            proof {
                assert(s[0] == data@[pos as int] && s[1] == data@[pos + 1]);
                assert(u16_at(s, 0) == n);
                assert(data@.skip(pos + 2) =~= s.skip(2));
            }
            match scan_strs16(data, pos + 2, n) {
                Some(k) => Ok(k + 2),
                None => Err(Error::TruncatedBuffer),
            }
        }
    } else if t == 0x17 {
        if left < 3 {
            Err(Error::TruncatedBuffer)
        } else {
            let n = get_u16(data, pos + 1);
            proof {
                assert(s[1] == data@[pos + 1] && s[2] == data@[pos + 2]);
                assert(u16_at(s, 1) == n);
                assert(data@.skip(pos + 3) =~= s.skip(3));
            }
            match scan_strs16(data, pos + 3, n) {
                Some(k) => Ok(k + 3),
                None => Err(Error::TruncatedBuffer),
            }
        }
    } else {
        Err(Error::UnknownBlockType)
    }
}

/// Decodes a string block stream into its blocks; accepts exactly the
/// streams [`spec_split_sibt`] accepts and returns exactly its blocks,
/// which re-encode to the input bytes ([`lemma_sibt_round_trip`]).
#[verifier::rlimit(100)]
pub fn decode_string_blocks(data: &[u8]) -> (r: Result<Vec<HiiBlock>, Error>)
    ensures
        r is Ok <==> spec_split_sibt(data@) is Ok,
        r is Ok ==> blocks_view(r->Ok_0@) == spec_split_sibt(data@)->Ok_0,
        r is Err ==> spec_split_sibt(data@) == Err::<Seq<(u8, Seq<u8>)>, Error>(r->Err_0),
{
    let dlen = data.len();
    let mut blocks: Vec<HiiBlock> = Vec::new();
    let mut pos: usize = 0;
    proof {
        assert(data@.skip(0) =~= data@);
        if spec_split_sibt(data@) is Ok {
            assert(blocks_view(blocks@) + spec_split_sibt(data@)->Ok_0 =~= spec_split_sibt(
                data@,
            )->Ok_0);
        }
    }
    while pos < data.len()
        invariant
            dlen == data@.len(),
            pos <= data@.len(),
            spec_split_sibt(data@) == (match spec_split_sibt(data@.skip(pos as int)) {
                Ok(rest) => Ok::<_, Error>(blocks_view(blocks@) + rest),
                Err(e) => Err::<Seq<(u8, Seq<u8>)>, _>(e),
            }),
        decreases data@.len() - pos,
    {
        let ghost s = data@.skip(pos as int);
        let t = data[pos];
        proof {
            assert(s[0] == t);
        }
        if t == 0 {
            if pos + 1 != data.len() {
                return Err(Error::LengthMismatch);
            }
            let ghost view_old = blocks_view(blocks@);
            blocks.push(HiiBlock { kind: 0, payload: Vec::new() });
            proof {
                assert(spec_split_sibt(s) == Ok::<_, Error>(seq![(0u8, Seq::<u8>::empty())]));
                assert(blocks_view(blocks@) =~= view_old + seq![(0u8, Seq::<u8>::empty())]);
                assert(view_old + seq![(0u8, Seq::<u8>::empty())] =~= blocks_view(blocks@));
            }
            return Ok(blocks);
        }
        let k = match sibt_size_at(data, t, pos + 1) {
            Ok(k) => k,
            Err(e) => {
                proof {
                    assert(data@.skip(pos + 1) =~= s.skip(1));
                    if sibt_size(t, s.skip(1)) is Ok {
                        let k = sibt_size(t, s.skip(1))->Ok_0;
                        assert(pos + 1 + k > data@.len());
                        assert(e == Error::TruncatedBuffer);
                        assert(spec_split_sibt(s) == Err::<Seq<(u8, Seq<u8>)>, Error>(e));
                    } else {
                        assert(spec_split_sibt(s) == Err::<Seq<(u8, Seq<u8>)>, Error>(e));
                    }
                }
                return Err(e);
            },
        };
        proof {
            assert(data@.skip(pos + 1) =~= s.skip(1));
            assert(sibt_size(t, s.skip(1)) == Ok::<int, Error>(k as int));
        }
        let mut payload: Vec<u8> = Vec::new();
        let mut j: usize = 0;
        while j < k
            invariant
                dlen == data@.len(),
                pos + 1 + k <= dlen,
                j <= k,
                payload@ == data@.subrange(pos + 1, pos + 1 + j),
            decreases k - j,
        {
            payload.push(data[pos + 1 + j]);
            j = j + 1;
            proof {
                assert(payload@ =~= data@.subrange(pos as int + 1, pos + 1 + j));
            }
        }
        let ghost view_old = blocks_view(blocks@);
        let ghost payload_v = payload@;
        blocks.push(HiiBlock { kind: t, payload });
        proof {
            assert(data@.skip(pos + 1) =~= s.skip(1));
            assert(payload_v =~= s.subrange(1, 1 + k));
            assert(s.skip(1 + k) =~= data@.skip(pos + 1 + k));
            assert(blocks_view(blocks@) =~= view_old + seq![(t, payload_v)]);
            assert(spec_split_sibt(s) == (match spec_split_sibt(s.skip(1 + k)) {
                Ok(rest) => Ok::<_, Error>(seq![(t, payload_v)] + rest),
                Err(e) => Err::<Seq<(u8, Seq<u8>)>, _>(e),
            }));
            if spec_split_sibt(data@.skip(pos + 1 + k)) is Ok {
                let rest = spec_split_sibt(data@.skip(pos + 1 + k))->Ok_0;
                assert(view_old + (seq![(t, payload_v)] + rest) =~= blocks_view(blocks@) + rest);
            }
        }
        pos = pos + 1 + k;
    }
    proof {
        assert(data@.skip(pos as int) =~= Seq::<u8>::empty());
    }
    Err(Error::TruncatedBuffer)
}

/// How many string ids one string block takes: multi-string blocks take
/// one per string they carry, single strings and `DUPLICATE` take one,
/// everything else none. `SKIP` blocks advance the counter separately.
pub open spec fn sibt_elements(t: u8, payload: Seq<u8>) -> int {
    if t == 0x10 || t == 0x11 || t == 0x14 || t == 0x15 || t == 0x20 {
        1
    } else if (t == 0x12 || t == 0x16) && payload.len() >= 2 {
        u16_at(payload, 0) as int
    } else if (t == 0x13 || t == 0x17) && payload.len() >= 3 {
        u16_at(payload, 1) as int
    } else {
        0
    }
}

/// How far a block advances the id counter.
pub open spec fn sibt_advance(t: u8, payload: Seq<u8>) -> int {
    if t == 0x22 && payload.len() >= 1 {
        payload[0] as int
    } else if t == 0x21 && payload.len() >= 2 {
        u16_at(payload, 0) as int
    } else {
        sibt_elements(t, payload)
    }
}

/// The id each element of a block run receives: ids count up from
/// `next`, one per element, and a `SKIP` moves the counter by its count
/// without assigning any.
pub open spec fn sibt_ids(v: Seq<(u8, Seq<u8>)>, next: int) -> Seq<int>
    decreases v.len(),
{
    if v.len() == 0 {
        Seq::empty()
    } else {
        let e = sibt_elements(v[0].0, v[0].1);
        Seq::new(e as nat, |i: int| next + i) + sibt_ids(
            v.drop_first(),
            next + sibt_advance(v[0].0, v[0].1),
        )
    }
}

/// The counter value after a block run.
pub open spec fn sibt_counter_end(v: Seq<(u8, Seq<u8>)>, next: int) -> int
    decreases v.len(),
{
    if v.len() == 0 {
        next
    } else {
        sibt_counter_end(v.drop_first(), next + sibt_advance(v[0].0, v[0].1))
    }
}

/// The counter never moves backwards.
pub proof fn lemma_sibt_counter_monotone(v: Seq<(u8, Seq<u8>)>, next: int)
    ensures
        sibt_counter_end(v, next) >= next,
    decreases v.len(),
{
    if v.len() > 0 {
        lemma_sibt_counter_monotone(v.drop_first(), next + sibt_advance(v[0].0, v[0].1));
    }
}

/// Every id a run assigns is at least the starting counter.
proof fn lemma_sibt_ids_lower_bound(v: Seq<(u8, Seq<u8>)>, next: int)
    ensures
        forall|i: int| 0 <= i < sibt_ids(v, next).len() ==> #[trigger] sibt_ids(v, next)[i] >= next,
    decreases v.len(),
{
    if v.len() > 0 {
        let e = sibt_elements(v[0].0, v[0].1);
        let adv = sibt_advance(v[0].0, v[0].1);
        lemma_sibt_ids_lower_bound(v.drop_first(), next + adv);
        assert(adv >= 0 && adv >= e);
        assert forall|i: int| 0 <= i < sibt_ids(v, next).len() implies #[trigger] sibt_ids(v, next)[i]
            >= next by {
            if i >= e {
                assert(sibt_ids(v, next)[i] == sibt_ids(v.drop_first(), next + adv)[i - e]);
            }
        }
    }
}

/// Block id assignment is strictly increasing: elements later in the
/// stream always receive larger ids, whether the counter moved by
/// assignment or by a `SKIP`.
pub proof fn lemma_sibt_ids_increasing(v: Seq<(u8, Seq<u8>)>, next: int)
    ensures
        forall|i: int, j: int|
            0 <= i < j < sibt_ids(v, next).len() ==> #[trigger] sibt_ids(v, next)[i]
                < #[trigger] sibt_ids(v, next)[j],
    decreases v.len(),
{
    if v.len() > 0 {
        let e = sibt_elements(v[0].0, v[0].1);
        let adv = sibt_advance(v[0].0, v[0].1);
        lemma_sibt_ids_increasing(v.drop_first(), next + adv);
        lemma_sibt_ids_lower_bound(v.drop_first(), next + adv);
        assert(adv >= 0 && adv >= e);
        assert forall|i: int, j: int|
            0 <= i < j < sibt_ids(v, next).len() implies #[trigger] sibt_ids(v, next)[i]
            < #[trigger] sibt_ids(v, next)[j] by {
            let rest = sibt_ids(v.drop_first(), next + adv);
            if j >= e {
                assert(sibt_ids(v, next)[j] == rest[j - e]);
                assert(rest[j - e] >= next + adv);
                if i >= e {
                    assert(sibt_ids(v, next)[i] == rest[i - e]);
                } else {
                    assert(sibt_ids(v, next)[i] == next + i < next + e);
                }
            }
        }
    }
}

/// Assigns string ids to the elements of a block run, counting up from
/// `first`: block id assignment, with `SKIP` blocks advancing the
/// counter without assigning. Fails only when the counter would pass the
/// range of its 64-bit carrier, which is exactly when the run's final
/// counter does.
pub fn string_block_ids(blocks: &Vec<HiiBlock>, first: u64) -> (r: Result<Vec<u64>, Error>)
    ensures
        r is Ok <==> sibt_counter_end(blocks_view(blocks@), first as int) <= u64::MAX,
        r is Ok ==> r->Ok_0@.map(|i: int, x: u64| x as int) == sibt_ids(
            blocks_view(blocks@),
            first as int,
        ),
        r is Err ==> r->Err_0 == Error::ResourceLimitExceeded,
{
    let mut ids: Vec<u64> = Vec::new();
    let mut next: u64 = first;
    let mut i: usize = 0;
    proof {
        assert(blocks_view(blocks@).skip(0) =~= blocks_view(blocks@));
        assert(ids@.map(|i: int, x: u64| x as int) =~= Seq::<int>::empty());
    }
    while i < blocks.len()
        invariant
            i <= blocks@.len(),
            next >= first,
            sibt_counter_end(blocks_view(blocks@), first as int) == sibt_counter_end(
                blocks_view(blocks@).skip(i as int),
                next as int,
            ),
            sibt_ids(blocks_view(blocks@), first as int) == ids@.map(|i: int, x: u64| x as int)
                + sibt_ids(blocks_view(blocks@).skip(i as int), next as int),
        decreases blocks@.len() - i,
    {
        let ghost v = blocks_view(blocks@).skip(i as int);
        proof {
            assert(v[0] == crate::hii::blocks::block_view(blocks@[i as int]));
            assert(v.drop_first() =~= blocks_view(blocks@).skip(i + 1));
            lemma_sibt_counter_monotone(v.drop_first(), next as int + sibt_advance(v[0].0, v[0].1));
        }
        let b = &blocks[i];
        let t = b.kind;
        let elems: u64 = if t == 0x10 || t == 0x11 || t == 0x14 || t == 0x15 || t == 0x20 {
            1
        } else if (t == 0x12 || t == 0x16) && b.payload.len() >= 2 {
            get_u16(b.payload.as_slice(), 0) as u64
        } else if (t == 0x13 || t == 0x17) && b.payload.len() >= 3 {
            get_u16(b.payload.as_slice(), 1) as u64
        } else {
            0
        };
        let advance: u64 = if t == 0x22 && b.payload.len() >= 1 {
            b.payload[0] as u64
        } else if t == 0x21 && b.payload.len() >= 2 {
            get_u16(b.payload.as_slice(), 0) as u64
        } else {
            elems
        };
        proof {
            assert(elems as int == sibt_elements(v[0].0, v[0].1));
            assert(advance as int == sibt_advance(v[0].0, v[0].1));
        }
        if advance > u64::MAX - next {
            return Err(Error::ResourceLimitExceeded);
        }
        let ghost ids_old = ids@.map(|i: int, x: u64| x as int);
        let mut e: u64 = 0;
        while e < elems
            invariant
                e <= elems,
                elems <= advance,
                next + advance <= u64::MAX,
                elems as int == sibt_elements(v[0].0, v[0].1),
                advance as int == sibt_advance(v[0].0, v[0].1),
                ids@.map(|i: int, x: u64| x as int) == ids_old + Seq::new(
                    e as nat,
                    |j: int| next + j,
                ),
            decreases elems - e,
        {
            let ghost prev = ids@.map(|i: int, x: u64| x as int);
            ids.push(next + e);
            e = e + 1;
            proof {
                assert(ids@.map(|i: int, x: u64| x as int) =~= prev + seq![
                    (next + (e - 1)) as int,
                ]);
                assert(prev + seq![(next + (e - 1)) as int] =~= ids_old + Seq::new(
                    e as nat,
                    |j: int| next as int + j,
                ));
            }
        }
        next = next + advance;
        i = i + 1;
        proof {
            assert(ids@.map(|i: int, x: u64| x as int) + sibt_ids(
                blocks_view(blocks@).skip(i as int),
                next as int,
            ) =~= ids_old + (Seq::new(elems as nat, |j: int| (next - advance) + j) + sibt_ids(
                blocks_view(blocks@).skip(i as int),
                next as int,
            )));
        }
    }
    proof {
        assert(blocks_view(blocks@).skip(i as int) =~= Seq::<(u8, Seq<u8>)>::empty());
        assert(ids@.map(|i: int, x: u64| x as int) + Seq::<int>::empty() =~= ids@.map(
            |i: int, x: u64| x as int,
        ));
    }
    Ok(ids)
}

/// The wire payload of a `DUPLICATE` block.
pub open spec fn sibt_duplicate_bytes(v: SibtDuplicate) -> Seq<u8> {
    crate::bytes::u16_le_bytes(v.StringId)
}

impl SibtDuplicate {
    /// Reads a `DUPLICATE` payload: exactly its 2 fixed bytes; the
    /// record re-encodes to the payload.
    pub fn parse(payload: &[u8]) -> (r: Result<SibtDuplicate, Error>)
        ensures
            r is Ok <==> payload@.len() == 2,
            r is Ok ==> sibt_duplicate_bytes(r->Ok_0) == payload@,
            r is Err ==> (payload@.len() < 2 && r->Err_0 == Error::TruncatedBuffer) || (
            payload@.len() > 2 && r->Err_0 == Error::LengthMismatch),
    {
        if payload.len() < 2 {
            return Err(Error::TruncatedBuffer);
        }
        if payload.len() > 2 {
            return Err(Error::LengthMismatch);
        }
        let x_StringId = crate::hii::blocks::get_u16(payload, 0);
        proof {
            assert(crate::bytes::u16_le_bytes(x_StringId) =~= payload@.subrange(0, 2)) by {
                crate::bytes::lemma_u16_le_pack(payload@[0], payload@[1]);
                assert(x_StringId == (payload@[0] as u16) + 256 * (payload@[1] as u16));
            };
        }
        let v = SibtDuplicate { StringId: x_StringId };
        proof {
            assert(sibt_duplicate_bytes(v) =~= payload@);
        }
        Ok(v)
    }

    /// Writes the payload back.
    pub fn encode(&self) -> (r: Vec<u8>)
        ensures
            r@ == sibt_duplicate_bytes(*self),
    {
        let mut w = crate::bytes::Writer::new();
        w.write_u16(self.StringId);
        proof {
            assert(w.bytes() =~= sibt_duplicate_bytes(*self));
        }
        w.into_vec()
    }
}

/// The wire payload of a `SKIP1` block.
pub open spec fn sibt_skip1_bytes(v: SibtSkip1) -> Seq<u8> {
    seq![v.SkipCount]
}

impl SibtSkip1 {
    /// Reads a `SKIP1` payload: exactly its 1 fixed bytes; the
    /// record re-encodes to the payload.
    pub fn parse(payload: &[u8]) -> (r: Result<SibtSkip1, Error>)
        ensures
            r is Ok <==> payload@.len() == 1,
            r is Ok ==> sibt_skip1_bytes(r->Ok_0) == payload@,
            r is Err ==> (payload@.len() < 1 && r->Err_0 == Error::TruncatedBuffer) || (
            payload@.len() > 1 && r->Err_0 == Error::LengthMismatch),
    {
        if payload.len() < 1 {
            return Err(Error::TruncatedBuffer);
        }
        if payload.len() > 1 {
            return Err(Error::LengthMismatch);
        }
        let x_SkipCount = payload[0];
        let v = SibtSkip1 { SkipCount: x_SkipCount };
        proof {
            assert(sibt_skip1_bytes(v) =~= payload@);
        }
        Ok(v)
    }

    /// Writes the payload back.
    pub fn encode(&self) -> (r: Vec<u8>)
        ensures
            r@ == sibt_skip1_bytes(*self),
    {
        let mut w = crate::bytes::Writer::new();
        w.write_u8(self.SkipCount);
        proof {
            assert(w.bytes() =~= sibt_skip1_bytes(*self));
        }
        w.into_vec()
    }
}

/// The wire payload of a `SKIP2` block.
pub open spec fn sibt_skip2_bytes(v: SibtSkip2) -> Seq<u8> {
    crate::bytes::u16_le_bytes(v.SkipCount)
}

impl SibtSkip2 {
    /// Reads a `SKIP2` payload: exactly its 2 fixed bytes; the
    /// record re-encodes to the payload.
    pub fn parse(payload: &[u8]) -> (r: Result<SibtSkip2, Error>)
        ensures
            r is Ok <==> payload@.len() == 2,
            r is Ok ==> sibt_skip2_bytes(r->Ok_0) == payload@,
            r is Err ==> (payload@.len() < 2 && r->Err_0 == Error::TruncatedBuffer) || (
            payload@.len() > 2 && r->Err_0 == Error::LengthMismatch),
    {
        if payload.len() < 2 {
            return Err(Error::TruncatedBuffer);
        }
        if payload.len() > 2 {
            return Err(Error::LengthMismatch);
        }
        let x_SkipCount = crate::hii::blocks::get_u16(payload, 0);
        proof {
            assert(crate::bytes::u16_le_bytes(x_SkipCount) =~= payload@.subrange(0, 2)) by {
                crate::bytes::lemma_u16_le_pack(payload@[0], payload@[1]);
                assert(x_SkipCount == (payload@[0] as u16) + 256 * (payload@[1] as u16));
            };
        }
        let v = SibtSkip2 { SkipCount: x_SkipCount };
        proof {
            assert(sibt_skip2_bytes(v) =~= payload@);
        }
        Ok(v)
    }

    /// Writes the payload back.
    pub fn encode(&self) -> (r: Vec<u8>)
        ensures
            r@ == sibt_skip2_bytes(*self),
    {
        let mut w = crate::bytes::Writer::new();
        w.write_u16(self.SkipCount);
        proof {
            assert(w.bytes() =~= sibt_skip2_bytes(*self));
        }
        w.into_vec()
    }
}


/// Text with no terminator inside it.
pub open spec fn text8_wf(s: Seq<u8>) -> bool {
    forall|j: int| 0 <= j < s.len() ==> s[j] != 0
}

/// 16-bit text with no terminator inside it.
pub open spec fn text16_wf(s: Seq<u16>) -> bool {
    forall|j: int| 0 <= j < s.len() ==> s[j] != 0
}

/// The wire payload of a `STRING_SCSU` block: the text bytes and their
/// terminator.
pub open spec fn sibt_string_scsu_bytes(v: SibtStringScsu) -> Seq<u8> {
    v.StringText@ + seq![0u8]
}

impl SibtStringScsu {
    /// Reads a `STRING_SCSU` payload: the text up to the terminator,
    /// which must close the payload exactly. The record re-encodes to
    /// the payload and its text holds no terminator.
    pub fn parse(payload: &[u8]) -> (r: Result<SibtStringScsu, Error>)
        ensures
            r is Ok <==> payload@.len() >= 1 && payload@[payload@.len() - 1] == 0 && text8_wf(
                payload@.take(payload@.len() - 1),
            ),
            r is Ok ==> sibt_string_scsu_bytes(r->Ok_0) == payload@ && text8_wf(
                r->Ok_0.StringText@,
            ),
    {
        let n = payload.len();
        if n == 0 {
            return Err(Error::TruncatedBuffer);
        }
        let mut text: Vec<u8> = Vec::new();
        let mut i: usize = 0;
        while i < n - 1
            invariant
                n == payload@.len(),
                n >= 1,
                i <= n - 1,
                text@ == payload@.subrange(0, i as int),
                forall|j: int| 0 <= j < i ==> payload@[j] != 0,
            decreases n - i,
        {
            let b = payload[i];
            if b == 0 {
                proof {
                    assert(payload@.take(n - 1)[i as int] == 0);
                }
                return Err(Error::LengthMismatch);
            }
            text.push(b);
            i = i + 1;
            proof {
                assert(text@ =~= payload@.subrange(0, i as int));
            }
        }
        if payload[n - 1] != 0 {
            return Err(Error::TruncatedBuffer);
        }
        let v = SibtStringScsu { StringText: text };
        proof {
            assert(payload@.take(n - 1) =~= payload@.subrange(0, n - 1));
            assert(sibt_string_scsu_bytes(v) =~= payload@);
        }
        Ok(v)
    }

    /// Writes the payload back: the text, then the terminator.
    pub fn encode(&self) -> (r: Vec<u8>)
        ensures
            r@ == sibt_string_scsu_bytes(*self),
    {
        let mut w = crate::bytes::Writer::new();
        w.write_bytes(self.StringText.as_slice());
        w.write_u8(0);
        proof {
            assert(w.bytes() =~= sibt_string_scsu_bytes(*self));
        }
        w.into_vec()
    }
}

/// The wire payload of a `STRING_UCS2` block: the 16-bit units and their
/// two-byte terminator.
pub open spec fn sibt_string_ucs2_bytes(v: SibtStringUcs2) -> Seq<u8> {
    crate::bytes::u16s_bytes(v.StringText@) + seq![0u8, 0u8]
}

impl SibtStringUcs2 {
    /// Reads a `STRING_UCS2` payload: whole 16-bit units up to the zero
    /// unit, which must close the payload exactly. The record re-encodes
    /// to the payload and its text holds no terminator.
    pub fn parse(payload: &[u8]) -> (r: Result<SibtStringUcs2, Error>)
        ensures
            r is Ok <==> payload@.len() >= 2 && payload@.len() % 2 == 0 && u16_at(
                payload@,
                payload@.len() - 2,
            ) == 0 && (forall|j: int|
                0 <= j < payload@.len() - 2 && j % 2 == 0 ==> u16_at(payload@, j) != 0),
            r is Ok ==> sibt_string_ucs2_bytes(r->Ok_0) == payload@ && text16_wf(
                r->Ok_0.StringText@,
            ),
    {
        let n = payload.len();
        if n < 2 || n % 2 != 0 {
            return Err(Error::TruncatedBuffer);
        }
        let mut text: Vec<u16> = Vec::new();
        let mut i: usize = 0;
        proof {
            assert(crate::bytes::u16s_bytes(text@) =~= payload@.subrange(0, 0));
        }
        while i < n - 2
            invariant
                n == payload@.len(),
                n >= 2,
                n % 2 == 0,
                i % 2 == 0,
                i <= n - 2,
                crate::bytes::u16s_bytes(text@) == payload@.subrange(0, i as int),
                text@.len() == i / 2,
                forall|j: int| 0 <= j < i && j % 2 == 0 ==> u16_at(payload@, j) != 0,
                forall|j: int| 0 <= j < text@.len() ==> #[trigger] text@[j] != 0,
            decreases n - i,
        {
            let unit = crate::hii::blocks::get_u16(payload, i);
            if unit == 0 {
                return Err(Error::LengthMismatch);
            }
            let ghost prev = text@;
            text.push(unit);
            proof {
                crate::bytes::lemma_u16s_bytes_snoc(text@);
                assert(text@.drop_last() =~= prev);
                crate::bytes::lemma_u16_le_pack(payload@[i as int], payload@[i + 1]);
                assert(unit == (payload@[i as int] as u16) + 256 * (payload@[i + 1] as u16));
                assert(crate::bytes::u16_le_bytes(unit) =~= payload@.subrange(
                    i as int,
                    i + 2,
                ));
                assert(payload@.subrange(0, i as int) + payload@.subrange(i as int, i + 2)
                    =~= payload@.subrange(0, i + 2));
            }
            i = i + 2;
        }
        let last = crate::hii::blocks::get_u16(payload, n - 2);
        if last != 0 {
            return Err(Error::TruncatedBuffer);
        }
        let v = SibtStringUcs2 { StringText: text };
        proof {
            assert(sibt_string_ucs2_bytes(v) =~= payload@);
        }
        Ok(v)
    }

    /// Writes the payload back: the units, then the zero unit.
    pub fn encode(&self) -> (r: Vec<u8>)
        ensures
            r@ == sibt_string_ucs2_bytes(*self),
    {
        let mut w = crate::bytes::Writer::new();
        let mut i: usize = 0;
        proof {
            assert(self.StringText@.subrange(0, 0) =~= Seq::<u16>::empty());
        }
        while i < self.StringText.len()
            invariant
                i <= self.StringText@.len(),
                w.bytes() == crate::bytes::u16s_bytes(self.StringText@.subrange(0, i as int)),
            decreases self.StringText@.len() - i,
        {
            w.write_u16(self.StringText[i]);
            i = i + 1;
            proof {
                crate::bytes::lemma_u16s_bytes_snoc(self.StringText@.subrange(0, i as int));
                assert(self.StringText@.subrange(0, i as int).drop_last() =~= self.StringText@
                    .subrange(0, i - 1));
                assert(w.bytes() =~= crate::bytes::u16s_bytes(
                    self.StringText@.subrange(0, i as int),
                ));
            }
        }
        w.write_u16(0);
        proof {
            crate::bytes::lemma_u16_le_pack(0, 0);
            assert(crate::bytes::u16_le_bytes(0u16) =~= seq![0u8, 0u8]);
            assert(self.StringText@.subrange(0, self.StringText@.len() as int)
                =~= self.StringText@);
            assert(w.bytes() =~= sibt_string_ucs2_bytes(*self));
        }
        w.into_vec()
    }
}

} // verus!
