//! Human Interface Infrastructure: package list framing.
//!
//! A package list is a GUID-tagged container: a 16-byte GUID, a 32-bit
//! total length covering the whole list, and then packages back to back.
//! Each package starts with one 32-bit word that packs its kind into bits
//! 24..32 and its length, including the 4-byte header, into bits 0..24;
//! the payload follows and is handed untouched to the per-kind decoders.
//!
//! [`lemma_packages_round_trip`] states the conservation law: any byte
//! stream the package decoder accepts re-encodes to exactly those bytes.

use vstd::prelude::*;

use crate::bytes::u16_le_bytes;
use crate::bytes::u32_at;
use crate::bytes::u32_le_bytes;
use crate::bytes::Reader;
use crate::bytes::Writer;
use crate::error::Error;
use crate::guid::Guid;

pub mod animation;
pub mod blocks;
pub mod contents;
pub mod device_path;
pub mod font;
pub mod forms;
pub mod guid;
pub mod ifr;
pub mod image;
pub mod keyboard;
pub mod simple_font;
pub mod string;

verus! {

pub type QuestionId = u16;

pub type ImageId = u16;

pub type StringId = u16;

pub type FormId = u16;

pub type VarStoreId = u16;

pub type AnimationId = u16;

pub type DefaultId = u16;

/// Package type byte.
#[derive(Clone, Copy, Debug, Default, PartialEq, Eq, Structural)]
pub struct PackageKind(pub u8);

impl PackageKind {
    pub const ALL: u8 = 0x00;
    pub const GUID: u8 = 0x01;
    pub const FORMS: u8 = 0x02;
    pub const STRINGS: u8 = 0x04;
    pub const FONTS: u8 = 0x05;
    pub const IMAGES: u8 = 0x06;
    pub const SIMPLE_FONTS: u8 = 0x07;
    pub const DEVICE_PATH: u8 = 0x08;
    pub const KEYBOARD_LAYOUT: u8 = 0x09;
    pub const ANIMATIONS: u8 = 0x0A;
    pub const END: u8 = 0xDF;
    pub const SYSTEM_BEGIN: u8 = 0xE0;
    pub const SYSTEM_END: u8 = 0xFF;
}

/// Whether a kind byte is in the named set.
pub open spec fn named_kind(k: u8) -> bool {
    k <= 0x0A || k == 0xDF
}

/// Whether a kind byte is in the reserved system range, which is kept
/// opaquely rather than rejected.
pub open spec fn reserved_kind(k: u8) -> bool {
    0xE0 <= k
}

/// A kind byte that the framing layer accepts.
pub open spec fn accepted_kind(k: u8) -> bool {
    named_kind(k) || reserved_kind(k)
}

/// `EFI_HII_PACKAGE_HEADER`: kind in bits 24..32, length in bits 0..24.
#[derive(Clone, Copy, Debug, PartialEq, Eq, Structural)]
pub struct PackageHeader {
    pub kind_and_length: u32,
}

impl PackageHeader {
    /// The package type, bits 24..32 of the header word.
    pub fn kind(&self) -> (r: PackageKind)
        ensures
            r.0 == ((self.kind_and_length >> 24) & 0xFF) as u8,
    {
        PackageKind(((self.kind_and_length >> 24) & 0xFF) as u8)
    }

    /// The size of the package in bytes, bits 0..24 of the header word.
    pub fn length(&self) -> (r: usize)
        ensures
            r == (self.kind_and_length & 0xFF_FFFF) as usize,
    {
        (self.kind_and_length & 0xFF_FFFF) as usize
    }
}

/// `EFI_HII_PACKAGE_LIST_HEADER`
#[derive(Clone, Copy, Debug, PartialEq, Eq)]
pub struct PackageListHeader {
    /// The GUID applied to the list of packages which follows.
    pub guid: Guid,
    /// The size of the package list in bytes, including the header.
    pub length: u32,
}

/// One package: its kind byte and its payload, the bytes after the 4-byte
/// header word.
#[derive(Debug, PartialEq, Eq)]
pub struct Package {
    pub kind: PackageKind,
    pub payload: Vec<u8>,
}

/// A decoded package list: the list GUID and the packages in order.
#[derive(Debug, PartialEq, Eq)]
pub struct PackageList {
    pub guid: Guid,
    pub packages: Vec<Package>,
}

/// The sixteen wire bytes of a GUID: the three groups little-endian, the
/// tail in file order.
pub open spec fn guid_le_bytes(g: Guid) -> Seq<u8> {
    u32_le_bytes(g.0) + u16_le_bytes(g.1) + u16_le_bytes(g.2) + g.3@
}

/// A package's kind and payload as plain values.
pub open spec fn package_view(p: Package) -> (u8, Seq<u8>) {
    (p.kind.0, p.payload@)
}

/// The wire bytes of one package: the packed header word, then the payload.
pub open spec fn package_frame_bytes(kind: u8, payload: Seq<u8>) -> Seq<u8> {
    u32_le_bytes(((kind as u32) << 24) | ((payload.len() + 4) as u32)) + payload
}

/// The wire bytes of a run of packages.
pub open spec fn packages_frames_bytes(v: Seq<(u8, Seq<u8>)>) -> Seq<u8>
    decreases v.len(),
{
    if v.len() == 0 {
        Seq::empty()
    } else {
        package_frame_bytes(v[0].0, v[0].1) + packages_frames_bytes(v.drop_first())
    }
}

/// Whether a package fits its 24-bit length field.
pub open spec fn package_wf(kind: u8, payload: Seq<u8>) -> bool {
    payload.len() + 4 <= 0xFF_FFFF && accepted_kind(kind)
}

/// The views of a run of packages.
pub open spec fn packages_view(ps: Seq<Package>) -> Seq<(u8, Seq<u8>)> {
    ps.map(|i: int, p: Package| package_view(p))
}

/// The wire bytes of a run of packages, as held in memory.
pub open spec fn packages_bytes(ps: Seq<Package>) -> Seq<u8> {
    packages_frames_bytes(packages_view(ps))
}

/// The wire bytes of a whole package list.
pub open spec fn package_list_bytes(l: PackageList) -> Seq<u8> {
    guid_le_bytes(l.guid) + u32_le_bytes((20 + packages_bytes(l.packages@).len()) as u32)
        + packages_bytes(l.packages@)
}

/// The reference decoder for a run of packages: splits `s` into frames,
/// front to back, and says exactly which error a malformed run gives.
pub open spec fn spec_decode_packages(s: Seq<u8>) -> Result<Seq<(u8, Seq<u8>)>, Error>
    decreases s.len(),
{
    if s.len() == 0 {
        Ok(Seq::empty())
    } else if s.len() < 4 {
        Err(Error::TruncatedBuffer)
    } else {
        let w = u32_at(s, 0);
        let kind = ((w >> 24) & 0xFF) as u8;
        let plen = (w & 0xFF_FFFF) as int;
        if plen < 4 {
            Err(Error::InvalidLength)
        } else if plen > s.len() {
            Err(Error::TruncatedBuffer)
        } else if !accepted_kind(kind) {
            Err(Error::UnknownPackageKind)
        } else {
            match spec_decode_packages(s.skip(plen)) {
                Ok(rest) => Ok(seq![(kind, s.subrange(4, plen))] + rest),
                Err(e) => Err(e),
            }
        }
    }
}

/// Splitting a header word and packing the pieces back is the identity.
proof fn lemma_package_word(w: u32)
    ensures
        ((((w >> 24) & 0xFF) as u8 as u32) << 24) | (w & 0xFF_FFFF) == w,
        (w & 0xFF_FFFF) <= 0xFF_FFFF,
{
    assert(((((w >> 24) & 0xFF) as u8 as u32) << 24) | (w & 0xFF_FFFF) == w && (w & 0xFF_FFFF)
        <= 0xFF_FFFF) by (bit_vector);
}

/// Package length conservation: re-encoding whatever the package decoder
/// accepts reproduces the input bytes exactly.
pub proof fn lemma_packages_round_trip(s: Seq<u8>)
    requires
        spec_decode_packages(s) is Ok,
    ensures
        packages_frames_bytes(spec_decode_packages(s)->Ok_0) == s,
        forall|i: int|
            0 <= i < spec_decode_packages(s)->Ok_0.len() ==> package_wf(
                #[trigger] spec_decode_packages(s)->Ok_0[i].0,
                spec_decode_packages(s)->Ok_0[i].1,
            ),
    decreases s.len(),
{
    let v = spec_decode_packages(s)->Ok_0;
    if s.len() == 0 {
        assert(packages_frames_bytes(v) =~= s);
    } else {
        let w = u32_at(s, 0);
        let kind = ((w >> 24) & 0xFF) as u8;
        let plen = (w & 0xFF_FFFF) as int;
        let payload = s.subrange(4, plen);
        lemma_package_word(w);
        crate::bytes::lemma_u32_le_pack(s[0], s[1], s[2], s[3]);
        assert(u32_le_bytes(w) =~= s.subrange(0, 4));
        assert(((kind as u32) << 24) | ((payload.len() + 4) as u32) == w);
        assert(package_frame_bytes(kind, payload) =~= s.subrange(0, plen));
        lemma_packages_round_trip(s.skip(plen));
        let rest = spec_decode_packages(s.skip(plen))->Ok_0;
        assert(v.drop_first() =~= rest);
        assert(v[0] == (kind, payload));
        assert(packages_frames_bytes(v) =~= s.subrange(0, plen) + s.skip(plen));
        assert(s.subrange(0, plen) + s.skip(plen) =~= s);
    }
}

/// Package length conservation at the list level: a buffer the list
/// decoder accepts re-encodes byte-identically from what it decoded to.
/// The premises are exactly what [`decode_package_list`] ensures of its
/// result.
pub proof fn lemma_package_list_round_trip(s: Seq<u8>, l: PackageList)
    requires
        list_decodes(s),
        guid_le_bytes(l.guid) == s.subrange(0, 16),
        packages_view(l.packages@) == spec_decode_packages(s.skip(20))->Ok_0,
    ensures
        package_list_bytes(l) == s,
{
    lemma_packages_round_trip(s.skip(20));
    assert(packages_bytes(l.packages@) == s.skip(20));
    assert(s.skip(20).len() == s.len() - 20);
    crate::bytes::lemma_u32_le_pack(s[16], s[17], s[18], s[19]);
    assert(u32_le_bytes(u32_at(s, 16)) =~= s.subrange(16, 20));
    assert((20 + packages_bytes(l.packages@).len()) as u32 == u32_at(s, 16));
    assert(package_list_bytes(l) =~= s.subrange(0, 16) + s.subrange(16, 20) + s.skip(20));
    assert(s.subrange(0, 16) + s.subrange(16, 20) + s.skip(20) =~= s);
}

/// The error the list decoder reports for `s`; meaningful where the
/// decode is not accepted. Reads past the end of the data — a total
/// larger than the buffer, or an overrunning frame — are truncations; a
/// total smaller than the data is the length mismatch.
pub open spec fn list_decode_error(s: Seq<u8>) -> Error {
    if s.len() < 20 {
        Error::TruncatedBuffer
    } else if u32_at(s, 16) > s.len() {
        Error::TruncatedBuffer
    } else if u32_at(s, 16) < s.len() {
        Error::LengthMismatch
    } else if spec_decode_packages(s.skip(20)) is Err {
        spec_decode_packages(s.skip(20))->Err_0
    } else {
        Error::TruncatedBuffer
    }
}

/// Whether the list decoder accepts `s`.
pub open spec fn list_decodes(s: Seq<u8>) -> bool {
    &&& s.len() >= 20
    &&& u32_at(s, 16) == s.len()
    &&& spec_decode_packages(s.skip(20)) is Ok
}

/// Reads the sixteen wire bytes of a GUID.
pub fn read_wire_guid(r: &mut Reader) -> (g: Result<Guid, Error>)
    requires
        old(r).wf(),
    ensures
        final(r).wf(),
        final(r).bytes() == old(r).bytes(),
        g is Ok <==> old(r).left() >= 16,
        g is Ok ==> final(r).at() == old(r).at() + 16 && guid_le_bytes(g->Ok_0) == old(
            r,
        ).bytes().subrange(old(r).at(), old(r).at() + 16),
        g is Err ==> *final(r) == *old(r) && g->Err_0 == Error::TruncatedBuffer,
{
    if r.remaining() < 16 {
        return Err(Error::TruncatedBuffer);
    }
    let d1 = match r.read_u32() {
        Ok(v) => v,
        Err(e) => {
            return Err(e);
        },
    };
    let d2 = match r.read_u16() {
        Ok(v) => v,
        Err(e) => {
            return Err(e);
        },
    };
    let d3 = match r.read_u16() {
        Ok(v) => v,
        Err(e) => {
            return Err(e);
        },
    };
    let tail = match r.read_bytes(8) {
        Ok(v) => v,
        Err(e) => {
            return Err(e);
        },
    };
    let g = Guid(d1, d2, d3, [tail[0], tail[1], tail[2], tail[3], tail[4], tail[5], tail[6], tail[7]]);
    proof {
        assert(g.3@ =~= old(r).bytes().subrange(old(r).at() + 8, old(r).at() + 16));
        assert(guid_le_bytes(g) =~= old(r).bytes().subrange(old(r).at(), old(r).at() + 16));
    }
    Ok(g)
}

/// Writes the sixteen wire bytes of a GUID.
pub fn write_wire_guid(w: &mut Writer, g: &Guid)
    ensures
        final(w).bytes() == old(w).bytes() + guid_le_bytes(*g),
{
    w.write_u32(g.0);
    w.write_u16(g.1);
    w.write_u16(g.2);
    let tail = g.3;
    let mut i: usize = 0;
    while i < 8
        invariant
            tail@ == g.3@,
            i <= 8,
            w.bytes() == old(w).bytes() + u32_le_bytes(g.0) + u16_le_bytes(g.1) + u16_le_bytes(
                g.2,
            ) + tail@.subrange(0, i as int),
        decreases 8 - i,
    {
        w.write_u8(tail[i]);
        i = i + 1;
        proof {
            assert(w.bytes() =~= old(w).bytes() + u32_le_bytes(g.0) + u16_le_bytes(g.1)
                + u16_le_bytes(g.2) + tail@.subrange(0, i as int));
        }
    }
    proof {
        assert(tail@.subrange(0, 8) =~= g.3@);
        assert(old(w).bytes() + u32_le_bytes(g.0) + u16_le_bytes(g.1) + u16_le_bytes(g.2) + g.3@
            =~= old(w).bytes() + guid_le_bytes(*g));
    }
}

/// Decodes a package list: the GUID, the total length, then packages until
/// the declared total is consumed exactly.
///
/// Accepts `data` if and only if it is at least the 20-byte header, the
/// declared total equals the buffer's length, and every package frame fits
/// and carries an accepted kind; together with
/// [`encode_package_list`] this says decode-then-encode is the identity on
/// the byte stream.
pub fn decode_package_list(data: &[u8]) -> (r: Result<PackageList, Error>)
    ensures
        r is Ok <==> list_decodes(data@),
        r is Ok ==> packages_view(r->Ok_0.packages@) == spec_decode_packages(data@.skip(20))->Ok_0
            && guid_le_bytes(r->Ok_0.guid) == data@.subrange(0, 16),
        r is Err ==> r->Err_0 == list_decode_error(data@),
{
    let mut rd = Reader::new(data);
    let guid = match read_wire_guid(&mut rd) {
        Ok(g) => g,
        Err(e) => {
            return Err(e);
        },
    };
    let total = match rd.read_u32() {
        Ok(v) => v,
        Err(_) => {
            return Err(Error::TruncatedBuffer);
        },
    };
    if (total as usize) > data.len() {
        return Err(Error::TruncatedBuffer);
    }
    if (total as usize) < data.len() {
        return Err(Error::LengthMismatch);
    }
    let mut packages: Vec<Package> = Vec::new();
    while rd.remaining() > 0
        invariant
            rd.wf(),
            rd.bytes() == data@,
            rd.at() >= 20,
            data@.len() >= 20,
            u32_at(data@, 16) == data@.len(),
            spec_decode_packages(data@.skip(20)) == (match spec_decode_packages(
                data@.skip(rd.at()),
            ) {
                Ok(rest) => Ok::<_, Error>(packages_view(packages@) + rest),
                Err(e) => Err::<Seq<(u8, Seq<u8>)>, _>(e),
            }),
        decreases rd.left(),
    {
        let ghost pos = rd.at();
        let ghost s = data@.skip(pos);
        let w = match rd.read_u32() {
            Ok(v) => v,
            Err(e) => {
                proof {
                    assert(0 < s.len() < 4);
                    assert(spec_decode_packages(s) == Err::<Seq<(u8, Seq<u8>)>, Error>(
                        Error::TruncatedBuffer,
                    ));
                }
                return Err(Error::TruncatedBuffer);
            },
        };
        proof {
            assert(u32_at(s, 0) == w);
        }
        let kind = ((w >> 24) & 0xFF) as u8;
        let plen = (w & 0xFF_FFFF) as usize;
        if plen < 4 {
            proof {
                assert(spec_decode_packages(s) == Err::<Seq<(u8, Seq<u8>)>, Error>(
                    Error::InvalidLength,
                ));
            }
            return Err(Error::InvalidLength);
        }
        if plen - 4 > rd.remaining() {
            proof {
                assert(plen > s.len());
                assert(spec_decode_packages(s) == Err::<Seq<(u8, Seq<u8>)>, Error>(
                    Error::TruncatedBuffer,
                ));
            }
            return Err(Error::TruncatedBuffer);
        }
        if !(kind <= 0x0A || kind == 0xDF || kind >= 0xE0) {
            proof {
                assert(spec_decode_packages(s) == Err::<Seq<(u8, Seq<u8>)>, Error>(
                    Error::UnknownPackageKind,
                ));
            }
            return Err(Error::UnknownPackageKind);
        }
        let payload = match rd.read_bytes(plen - 4) {
            Ok(v) => v,
            Err(e) => {
                return Err(Error::TruncatedBuffer);
            },
        };
        let ghost view_old = packages_view(packages@);
        let ghost payload_v = payload@;
        packages.push(Package { kind: PackageKind(kind), payload });
        proof {
            assert(data@.skip(pos).subrange(4, plen as int) =~= data@.subrange(
                pos + 4,
                pos + plen,
            ));
            assert(data@.skip(pos).skip(plen as int) =~= data@.skip(pos + plen));
            assert(packages_view(packages@) =~= view_old + seq![(kind, payload_v)]);
            assert(s.len() >= 4 && u32_at(s, 0) == w);
            assert(spec_decode_packages(s) == (match spec_decode_packages(s.skip(plen as int)) {
                Ok(rest) => Ok::<_, Error>(seq![(kind, s.subrange(4, plen as int))] + rest),
                Err(e) => Err::<Seq<(u8, Seq<u8>)>, _>(e),
            }));
            let new_s = data@.skip(pos + plen);
            assert(s.skip(plen as int) == new_s);
            if spec_decode_packages(new_s) is Ok {
                let rest = spec_decode_packages(new_s)->Ok_0;
                assert(seq![(kind, s.subrange(4, plen as int))] =~= seq![(kind, payload_v)]);
                assert(view_old + (seq![(kind, payload_v)] + rest) =~= packages_view(packages@)
                    + rest);
                assert(spec_decode_packages(s) == Ok::<_, Error>(seq![(kind, payload_v)] + rest));
                assert(spec_decode_packages(data@.skip(20)) == Ok::<_, Error>(
                    packages_view(packages@) + rest,
                ));
            } else {
                assert(spec_decode_packages(s) == spec_decode_packages(new_s));
            }
        }
    }
    proof {
        assert(data@.skip(rd.at()) =~= Seq::<u8>::empty());
        assert(packages_view(packages@) + Seq::<(u8, Seq<u8>)>::empty() =~= packages_view(
            packages@,
        ));
    }
    Ok(PackageList { guid, packages })
}

/// Whether every package of a list fits its length field; what
/// [`encode_package_list`] asks.
pub open spec fn package_list_wf(l: PackageList) -> bool {
    &&& forall|i: int|
        0 <= i < l.packages@.len() ==> package_wf(
            (#[trigger] l.packages@[i]).kind.0,
            l.packages@[i].payload@,
        )
    &&& 20 + packages_bytes(l.packages@).len() <= 0xFFFF_FFFF
}

/// Encodes one package frame onto `w`.
fn encode_package(w: &mut Writer, p: &Package) -> (r: Result<(), Error>)
    ensures
        r is Ok <==> p.payload@.len() + 4 <= 0xFF_FFFF,
        r is Ok ==> final(w).bytes() == old(w).bytes() + package_frame_bytes(p.kind.0, p.payload@),
        r is Err ==> *final(w) == *old(w) && r->Err_0 == Error::PayloadTooLarge,
{
    if p.payload.len() > 0xFF_FFFF - 4 {
        return Err(Error::PayloadTooLarge);
    }
    let word = ((p.kind.0 as u32) << 24) | ((p.payload.len() + 4) as u32);
    w.write_u32(word);
    w.write_bytes(p.payload.as_slice());
    proof {
        assert(w.bytes() =~= old(w).bytes() + package_frame_bytes(p.kind.0, p.payload@));
    }
    Ok(())
}

/// Encodes a run of packages back to back.
fn encode_packages(w: &mut Writer, ps: &Vec<Package>) -> (r: Result<(), Error>)
    ensures
        r is Ok <==> forall|i: int|
            0 <= i < ps@.len() ==> (#[trigger] ps@[i]).payload@.len() + 4 <= 0xFF_FFFF,
        r is Ok ==> final(w).bytes() == old(w).bytes() + packages_frames_bytes(packages_view(ps@)),
        r is Err ==> r->Err_0 == Error::PayloadTooLarge,
{
    let mut i: usize = 0;
    while i < ps.len()
        invariant
            i <= ps@.len(),
            forall|k: int| 0 <= k < i ==> (#[trigger] ps@[k]).payload@.len() + 4 <= 0xFF_FFFF,
            w.bytes() == old(w).bytes() + packages_frames_bytes(
                packages_view(ps@.subrange(0, i as int)),
            ),
        decreases ps@.len() - i,
    {
        match encode_package(w, &ps[i]) {
            Ok(()) => {},
            Err(e) => {
                return Err(e);
            },
        }
        i = i + 1;
        proof {
            lemma_packages_frames_snoc(packages_view(ps@.subrange(0, i as int)));
            assert(packages_view(ps@.subrange(0, i - 1)) =~= packages_view(
                ps@.subrange(0, i as int),
            ).drop_last());
            assert(w.bytes() =~= old(w).bytes() + packages_frames_bytes(
                packages_view(ps@.subrange(0, i as int)),
            ));
        }
    }
    proof {
        assert(ps@.subrange(0, ps@.len() as int) =~= ps@);
    }
    Ok(())
}

/// Appending one frame to a run appends its bytes.
proof fn lemma_packages_frames_snoc(v: Seq<(u8, Seq<u8>)>)
    requires
        v.len() > 0,
    ensures
        packages_frames_bytes(v) == packages_frames_bytes(v.drop_last()) + package_frame_bytes(
            v.last().0,
            v.last().1,
        ),
    decreases v.len(),
{
    if v.len() == 1 {
        assert(v.drop_last() =~= Seq::<(u8, Seq<u8>)>::empty());
        assert(v.drop_first() =~= Seq::<(u8, Seq<u8>)>::empty());
        assert(packages_frames_bytes(Seq::<(u8, Seq<u8>)>::empty()) == Seq::<u8>::empty());
        assert(packages_frames_bytes(v) =~= packages_frames_bytes(v.drop_last())
            + package_frame_bytes(v.last().0, v.last().1));
    } else {
        lemma_packages_frames_snoc(v.drop_first());
        assert(v.drop_first().drop_last() =~= v.drop_last().drop_first());
        assert(v.drop_last()[0] == v[0]);
        assert(packages_frames_bytes(v) =~= packages_frames_bytes(v.drop_last())
            + package_frame_bytes(v.last().0, v.last().1));
    }
}

/// Encodes a package list: the GUID, the recomputed total, then every
/// package frame. Succeeds if and only if every payload fits the 24-bit
/// length field and the total fits 32 bits; the output is exactly
/// [`package_list_bytes`] of the list.
pub fn encode_package_list(l: &PackageList) -> (r: Result<Vec<u8>, Error>)
    ensures
        r is Ok <==> (forall|i: int|
            0 <= i < l.packages@.len() ==> (#[trigger] l.packages@[i]).payload@.len() + 4
                <= 0xFF_FFFF) && 20 + packages_bytes(l.packages@).len() <= 0xFFFF_FFFF,
        r is Ok ==> r->Ok_0@ == package_list_bytes(*l),
        r is Err ==> r->Err_0 == Error::PayloadTooLarge,
{
    let mut body = Writer::new();
    match encode_packages(&mut body, &l.packages) {
        Ok(()) => {},
        Err(e) => {
            return Err(e);
        },
    }
    if body.len() > 0xFFFF_FFFF - 20 {
        return Err(Error::PayloadTooLarge);
    }
    let total = (20 + body.len()) as u32;
    let mut w = Writer::new();
    write_wire_guid(&mut w, &l.guid);
    w.write_u32(total);
    let bv = body.into_vec();
    w.write_bytes(bv.as_slice());
    proof {
        assert(w.bytes() =~= package_list_bytes(*l));
    }
    Ok(w.into_vec())
}

} // verus!
