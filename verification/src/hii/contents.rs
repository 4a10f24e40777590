//! Per-kind package decoding.
//!
//! The framing layer hands each package's payload untouched to the
//! decoder its kind selects: a forms payload is an opcode stream from
//! its first byte; string, image, animation and font payloads start
//! with a package header whose offset field says where the block stream
//! begins. A malformed package is fatal to that package alone: the list
//! decoder reports a per-index failure beside the packages that
//! decoded.

use vstd::prelude::*;

use crate::bytes::u16_at;
use crate::bytes::u32_at;
use crate::error::Error;
use crate::hii::animation::spec_split_aibt;
use crate::hii::blocks::HiiBlock;
use crate::hii::font::spec_split_gibt;
use crate::hii::ifr::spec_check_ops;
use crate::hii::ifr::spec_split_ops;
use crate::hii::ifr::IfrOp;
use crate::hii::image::spec_split_iibt;
use crate::hii::string::spec_split_sibt;
use crate::hii::PackageList;

verus! {

/// A package's decoded contents, by kind. Kinds whose payload this
/// layer does not interpret are kept opaquely.
#[derive(Debug, PartialEq, Eq)]
pub enum PackageContent {
    /// A forms package: its opcode records, scope and arity checked.
    Forms(Vec<IfrOp>),
    /// A string package: its block stream.
    Strings(Vec<HiiBlock>),
    /// An image package: its block stream.
    Images(Vec<HiiBlock>),
    /// An animation package: its block stream.
    Animations(Vec<HiiBlock>),
    /// A font package: its glyph block stream.
    Fonts(Vec<HiiBlock>),
    /// A kind this layer keeps opaque: its kind byte and raw payload.
    Opaque(u8, Vec<u8>),
}

/// Where a block-stream package's blocks begin, in payload coordinates:
/// the offset field counts from the package header, whose four bytes the
/// payload does not carry.
pub open spec fn block_offset(payload: Seq<u8>, field_at: int) -> int {
    u32_at(payload, field_at) - 4
}

/// Whether the contents answer to the package's kind and payload.
pub open spec fn content_matches(kind: u8, payload: Seq<u8>, c: PackageContent) -> bool {
    match c {
        PackageContent::Forms(ops) => kind == 0x02 && spec_split_ops(payload) == Ok::<
            _,
            Error,
        >(crate::hii::ifr::ops_view(ops@)) && spec_check_ops(
            crate::hii::ifr::ops_view(ops@),
            Seq::<(bool, int)>::empty(),
        ) is Ok,
        PackageContent::Strings(blocks) => kind == 0x04 && payload.len() >= 8 && {
            let off = block_offset(payload, 4);
            8 <= off <= payload.len() && spec_split_sibt(payload.skip(off)) == Ok::<_, Error>(
                crate::hii::blocks::blocks_view(blocks@),
            )
        },
        PackageContent::Images(blocks) => kind == 0x06 && payload.len() >= 8 && {
            let off = block_offset(payload, 0);
            8 <= off <= payload.len() && spec_split_iibt(payload.skip(off)) == Ok::<_, Error>(
                crate::hii::blocks::blocks_view(blocks@),
            )
        },
        PackageContent::Animations(blocks) => kind == 0x0A && payload.len() >= 4 && {
            let off = block_offset(payload, 0);
            4 <= off <= payload.len() && spec_split_aibt(payload.skip(off)) == Ok::<_, Error>(
                crate::hii::blocks::blocks_view(blocks@),
            )
        },
        PackageContent::Fonts(blocks) => kind == 0x05 && payload.len() >= 22 && {
            let off = block_offset(payload, 4);
            22 <= off <= payload.len() && spec_split_gibt(
                payload.skip(off),
                u16_at(payload, 8) as int,
                u16_at(payload, 10) as int,
            ) == Ok::<_, Error>(crate::hii::blocks::blocks_view(blocks@))
        },
        PackageContent::Opaque(k, raw) => k == kind && raw@ == payload && !(kind == 0x02 || kind
            == 0x04 || kind == 0x05 || kind == 0x06 || kind == 0x0A),
    }
}

/// Whether the decoder of `kind` accepts `payload`: a forms payload must
/// split and check as an opcode stream; a block-stream payload must hold
/// its package header, an offset field inside the payload, and a block
/// stream that splits from there; every other kind is kept opaquely and
/// always accepted.
pub open spec fn package_accepted(kind: u8, payload: Seq<u8>) -> bool {
    if kind == 0x02 {
        spec_split_ops(payload) is Ok && spec_check_ops(
            spec_split_ops(payload)->Ok_0,
            Seq::<(bool, int)>::empty(),
        ) is Ok
    } else if kind == 0x04 {
        payload.len() >= 8 && u32_at(payload, 4) >= 12 && u32_at(payload, 4) - 4 <= payload.len()
            && spec_split_sibt(payload.skip(u32_at(payload, 4) - 4)) is Ok
    } else if kind == 0x06 {
        payload.len() >= 8 && u32_at(payload, 0) >= 12 && u32_at(payload, 0) - 4 <= payload.len()
            && spec_split_iibt(payload.skip(u32_at(payload, 0) - 4)) is Ok
    } else if kind == 0x0A {
        payload.len() >= 4 && u32_at(payload, 0) >= 8 && u32_at(payload, 0) - 4 <= payload.len()
            && spec_split_aibt(payload.skip(u32_at(payload, 0) - 4)) is Ok
    } else if kind == 0x05 {
        payload.len() >= 22 && u32_at(payload, 4) >= 26 && u32_at(payload, 4) - 4 <= payload.len()
            && spec_split_gibt(
            payload.skip(u32_at(payload, 4) - 4),
            u16_at(payload, 8) as int,
            u16_at(payload, 10) as int,
        ) is Ok
    } else {
        true
    }
}

/// The error the decoder of `kind` reports for `payload`; meaningful
/// where the package is not accepted. A payload too short for its
/// package header is a truncation; an offset field below its header or
/// past the payload is an impossible size; everything else is the block
/// or opcode splitter's own error.
pub open spec fn package_decode_error(kind: u8, payload: Seq<u8>) -> Error {
    if kind == 0x02 {
        if spec_split_ops(payload) is Err {
            spec_split_ops(payload)->Err_0
        } else if spec_check_ops(spec_split_ops(payload)->Ok_0, Seq::<(bool, int)>::empty())
            is Err {
            spec_check_ops(spec_split_ops(payload)->Ok_0, Seq::<(bool, int)>::empty())->Err_0
        } else {
            Error::TruncatedBuffer
        }
    } else if kind == 0x04 {
        if payload.len() < 8 {
            Error::TruncatedBuffer
        } else if u32_at(payload, 4) < 12 || u32_at(payload, 4) - 4 > payload.len() {
            Error::InvalidLength
        } else if spec_split_sibt(payload.skip(u32_at(payload, 4) - 4)) is Err {
            spec_split_sibt(payload.skip(u32_at(payload, 4) - 4))->Err_0
        } else {
            Error::TruncatedBuffer
        }
    } else if kind == 0x06 {
        if payload.len() < 8 {
            Error::TruncatedBuffer
        } else if u32_at(payload, 0) < 12 || u32_at(payload, 0) - 4 > payload.len() {
            Error::InvalidLength
        } else if spec_split_iibt(payload.skip(u32_at(payload, 0) - 4)) is Err {
            spec_split_iibt(payload.skip(u32_at(payload, 0) - 4))->Err_0
        } else {
            Error::TruncatedBuffer
        }
    } else if kind == 0x0A {
        if payload.len() < 4 {
            Error::TruncatedBuffer
        } else if u32_at(payload, 0) < 8 || u32_at(payload, 0) - 4 > payload.len() {
            Error::InvalidLength
        } else if spec_split_aibt(payload.skip(u32_at(payload, 0) - 4)) is Err {
            spec_split_aibt(payload.skip(u32_at(payload, 0) - 4))->Err_0
        } else {
            Error::TruncatedBuffer
        }
    } else if kind == 0x05 {
        if payload.len() < 22 {
            Error::TruncatedBuffer
        } else if u32_at(payload, 4) < 26 || u32_at(payload, 4) - 4 > payload.len() {
            Error::InvalidLength
        } else if spec_split_gibt(
            payload.skip(u32_at(payload, 4) - 4),
            u16_at(payload, 8) as int,
            u16_at(payload, 10) as int,
        ) is Err {
            spec_split_gibt(
                payload.skip(u32_at(payload, 4) - 4),
                u16_at(payload, 8) as int,
                u16_at(payload, 10) as int,
            )->Err_0
        } else {
            Error::TruncatedBuffer
        }
    } else {
        Error::TruncatedBuffer
    }
}

/// Copies a payload tail starting at `off`.
fn payload_tail(payload: &[u8], off: usize) -> (r: Vec<u8>)
    requires
        off <= payload@.len(),
    ensures
        r@ == payload@.skip(off as int),
{
    let mut out: Vec<u8> = Vec::new();
    let mut i: usize = off;
    proof {
        assert(out@ =~= payload@.subrange(off as int, off as int));
    }
    while i < payload.len()
        invariant
            off <= i <= payload@.len(),
            out@ == payload@.subrange(off as int, i as int),
        decreases payload@.len() - i,
    {
        out.push(payload[i]);
        i = i + 1;
        proof {
            assert(out@ =~= payload@.subrange(off as int, i as int));
        }
    }
    proof {
        assert(payload@.subrange(off as int, payload@.len() as int) =~= payload@.skip(off as int));
    }
    out
}

/// Decodes one package's payload with the decoder its kind selects; a
/// kind this layer keeps opaque is handed back raw. Accepts exactly what
/// [`package_accepted`] says of the kind and payload; on success the
/// contents answer to them as [`content_matches`] says, and on failure
/// the error is exactly [`package_decode_error`].
pub fn decode_package(kind: u8, payload: &[u8]) -> (r: Result<PackageContent, Error>)
    ensures
        r is Ok <==> package_accepted(kind, payload@),
        r is Ok ==> content_matches(kind, payload@, r->Ok_0),
        r is Err ==> r->Err_0 == package_decode_error(kind, payload@),
{
    if kind == 0x02 {
        match crate::hii::ifr::decode_ops(payload) {
            Ok(ops) => Ok(PackageContent::Forms(ops)),
            Err(e) => Err(e),
        }
    } else if kind == 0x04 {
        if payload.len() < 8 {
            return Err(Error::TruncatedBuffer);
        }
        let field = crate::hii::blocks::get_u32(payload, 4);
        if field < 12 || (field as u64) - 4 > payload.len() as u64 {
            return Err(Error::InvalidLength);
        }
        let off = (field - 4) as usize;
        let tail = payload_tail(payload, off);
        match crate::hii::string::decode_string_blocks(tail.as_slice()) {
            Ok(blocks) => Ok(PackageContent::Strings(blocks)),
            Err(e) => Err(e),
        }
    } else if kind == 0x06 {
        if payload.len() < 8 {
            return Err(Error::TruncatedBuffer);
        }
        let field = crate::hii::blocks::get_u32(payload, 0);
        if field < 12 || (field as u64) - 4 > payload.len() as u64 {
            return Err(Error::InvalidLength);
        }
        let off = (field - 4) as usize;
        let tail = payload_tail(payload, off);
        match crate::hii::image::decode_image_blocks(tail.as_slice()) {
            Ok(blocks) => Ok(PackageContent::Images(blocks)),
            Err(e) => Err(e),
        }
    } else if kind == 0x0A {
        if payload.len() < 4 {
            return Err(Error::TruncatedBuffer);
        }
        let field = crate::hii::blocks::get_u32(payload, 0);
        if field < 8 || (field as u64) - 4 > payload.len() as u64 {
            return Err(Error::InvalidLength);
        }
        let off = (field - 4) as usize;
        let tail = payload_tail(payload, off);
        match crate::hii::animation::decode_animation_blocks(tail.as_slice()) {
            Ok(blocks) => Ok(PackageContent::Animations(blocks)),
            Err(e) => Err(e),
        }
    } else if kind == 0x05 {
        if payload.len() < 22 {
            return Err(Error::TruncatedBuffer);
        }
        let field = crate::hii::blocks::get_u32(payload, 4);
        if field < 26 || (field as u64) - 4 > payload.len() as u64 {
            return Err(Error::InvalidLength);
        }
        let off = (field - 4) as usize;
        let def_w = crate::hii::blocks::get_u16(payload, 8);
        let def_h = crate::hii::blocks::get_u16(payload, 10);
        let tail = payload_tail(payload, off);
        match crate::hii::font::decode_glyph_blocks(tail.as_slice(), def_w, def_h) {
            Ok(blocks) => Ok(PackageContent::Fonts(blocks)),
            Err(e) => Err(e),
        }
    } else {
        let raw = payload_tail(payload, 0);
        proof {
            assert(raw@ =~= payload@);
        }
        Ok(PackageContent::Opaque(kind, raw))
    }
}

/// Decodes every package of a list, one result per package in order: a
/// malformed package is fatal to that package alone and does not keep
/// its siblings from decoding. Each entry succeeds exactly when
/// [`package_accepted`] holds of its package, matches it on success, and
/// carries exactly [`package_decode_error`] on failure.
pub fn decode_packages(list: &PackageList) -> (r: Vec<Result<PackageContent, Error>>)
    ensures
        r@.len() == list.packages@.len(),
        forall|i: int|
            0 <= i < r@.len() ==> ((#[trigger] r@[i]) is Ok <==> package_accepted(
                list.packages@[i].kind.0,
                list.packages@[i].payload@,
            )),
        forall|i: int|
            0 <= i < r@.len() ==> ((#[trigger] r@[i]) is Ok ==> content_matches(
                list.packages@[i].kind.0,
                list.packages@[i].payload@,
                r@[i]->Ok_0,
            )),
        forall|i: int|
            0 <= i < r@.len() ==> ((#[trigger] r@[i]) is Err ==> r@[i]->Err_0
                == package_decode_error(list.packages@[i].kind.0, list.packages@[i].payload@)),
{
    let mut out: Vec<Result<PackageContent, Error>> = Vec::new();
    let mut i: usize = 0;
    while i < list.packages.len()
        invariant
            i <= list.packages@.len(),
            out@.len() == i,
            forall|k: int|
                0 <= k < i ==> ((#[trigger] out@[k]) is Ok <==> package_accepted(
                    list.packages@[k].kind.0,
                    list.packages@[k].payload@,
                )),
            forall|k: int|
                0 <= k < i ==> ((#[trigger] out@[k]) is Ok ==> content_matches(
                    list.packages@[k].kind.0,
                    list.packages@[k].payload@,
                    out@[k]->Ok_0,
                )),
            forall|k: int|
                0 <= k < i ==> ((#[trigger] out@[k]) is Err ==> out@[k]->Err_0
                    == package_decode_error(
                    list.packages@[k].kind.0,
                    list.packages@[k].payload@,
                )),
        decreases list.packages@.len() - i,
    {
        let p = &list.packages[i];
        out.push(decode_package(p.kind.0, p.payload.as_slice()));
        i = i + 1;
    }
    out
}

} // verus!
