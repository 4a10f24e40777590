//! Globally Unique Identifier codec.
//!
//! GUIDs are Microsoft-style UUIDs: the first three groups are stored in
//! the platform's native order, the last eight bytes in file order. The
//! canonical text form is `xxxxxxxx-xxxx-xxxx-xxxx-xxxxxxxxxxxx`, hex with
//! hyphens at byte offsets 8, 13, 18 and 23; parsing accepts either case,
//! formatting emits lower case with an explicit upper-case variant.
//!
//! [`lemma_guid_round_trip`] states the round-trip law: formatting any
//! value and parsing the text gives the value back.

use vstd::prelude::*;
use vstd::string::StringSliceAdditionalSpecFns;

use crate::error::Error;

verus! {

/// A 128-bit globally unique identifier.
#[derive(Clone, Copy, Debug, PartialEq, Eq)]
pub struct Guid(pub u32, pub u16, pub u16, pub [u8; 8]);

/// ASCII hyphen.
pub const DASH: u8 = 45;

/// Whether `c` is an ASCII hex digit, either case.
pub open spec fn is_hex_digit(c: u8) -> bool {
    (48 <= c <= 57) || (65 <= c <= 70) || (97 <= c <= 102)
}

/// The value of an ASCII hex digit.
pub open spec fn hex_val(c: u8) -> u8 {
    if 48 <= c <= 57 {
        (c - 48) as u8
    } else if 65 <= c <= 70 {
        (c - 55) as u8
    } else if 97 <= c <= 102 {
        (c - 87) as u8
    } else {
        0
    }
}

/// The lower-case ASCII digit of a value below 16.
pub open spec fn hex_lower(n: u8) -> u8 {
    if n < 10 {
        (n + 48) as u8
    } else {
        (n + 87) as u8
    }
}

/// The upper-case ASCII digit of a value below 16.
pub open spec fn hex_upper(n: u8) -> u8 {
    if n < 10 {
        (n + 48) as u8
    } else {
        (n + 55) as u8
    }
}

/// The sixteen raw bytes of a GUID in text order: the first three groups
/// big-endian, the tail as stored.
pub open spec fn guid_raw(g: Guid) -> Seq<u8> {
    seq![
        ((g.0 >> 24) & 0xFF) as u8,
        ((g.0 >> 16) & 0xFF) as u8,
        ((g.0 >> 8) & 0xFF) as u8,
        (g.0 & 0xFF) as u8,
        ((g.1 >> 8) & 0xFF) as u8,
        (g.1 & 0xFF) as u8,
        ((g.2 >> 8) & 0xFF) as u8,
        (g.2 & 0xFF) as u8,
        g.3@[0],
        g.3@[1],
        g.3@[2],
        g.3@[3],
        g.3@[4],
        g.3@[5],
        g.3@[6],
        g.3@[7],
    ]
}

/// Text offset of the high digit of raw byte `j`: two digits per byte,
/// shifted right past each hyphen.
pub open spec fn hexpos(j: int) -> int {
    if j < 4 {
        2 * j
    } else if j < 6 {
        2 * j + 1
    } else if j < 8 {
        2 * j + 2
    } else if j < 10 {
        2 * j + 3
    } else {
        2 * j + 4
    }
}

/// For a text offset, how many hyphens stand before it.
pub open spec fn adj(i: int) -> int {
    if i < 8 {
        i
    } else if i < 13 {
        i - 1
    } else if i < 18 {
        i - 2
    } else if i < 23 {
        i - 3
    } else {
        i - 4
    }
}

/// The canonical 36-byte text of a GUID, lower or upper case.
pub open spec fn guid_text_with(g: Guid, upper: bool) -> Seq<u8> {
    Seq::new(
        36,
        |i: int|
            if i == 8 || i == 13 || i == 18 || i == 23 {
                DASH
            } else {
                let b = guid_raw(g)[adj(i) / 2];
                let n = if adj(i) % 2 == 0 {
                    (b >> 4) as u8
                } else {
                    (b & 0xF) as u8
                };
                if upper {
                    hex_upper(n)
                } else {
                    hex_lower(n)
                }
            },
    )
}

/// The canonical lower-case text of a GUID.
pub open spec fn guid_text(g: Guid) -> Seq<u8> {
    guid_text_with(g, false)
}

/// Whether `t` is a well-formed hyphenated GUID text.
pub open spec fn valid_guid_text(t: Seq<u8>) -> bool {
    &&& t.len() == 36
    &&& t[8] == DASH
    &&& t[13] == DASH
    &&& t[18] == DASH
    &&& t[23] == DASH
    &&& forall|j: int|
        0 <= j < 16 ==> #[trigger] is_hex_digit(t[hexpos(j)]) && is_hex_digit(t[hexpos(j) + 1])
}

/// Raw byte `j` read back from a GUID text.
pub open spec fn text_raw(t: Seq<u8>, j: int) -> u8 {
    (hex_val(t[hexpos(j)]) << 4) | hex_val(t[hexpos(j) + 1])
}

/// The first group read back from a GUID text.
pub open spec fn text_d1(t: Seq<u8>) -> u32 {
    ((text_raw(t, 0) as u32) << 24) | ((text_raw(t, 1) as u32) << 16) | ((text_raw(t, 2) as u32)
        << 8) | (text_raw(t, 3) as u32)
}

/// The second group read back from a GUID text.
pub open spec fn text_d2(t: Seq<u8>) -> u16 {
    ((text_raw(t, 4) as u16) << 8) | (text_raw(t, 5) as u16)
}

/// The third group read back from a GUID text.
pub open spec fn text_d3(t: Seq<u8>) -> u16 {
    ((text_raw(t, 6) as u16) << 8) | (text_raw(t, 7) as u16)
}

/// The eight tail bytes read back from a GUID text.
pub open spec fn text_tail(t: Seq<u8>) -> Seq<u8> {
    Seq::new(8, |k: int| text_raw(t, 8 + k))
}

/// Whether `g` is the value a GUID text denotes.
pub open spec fn parses_to(t: Seq<u8>, g: Guid) -> bool {
    &&& g.0 == text_d1(t)
    &&& g.1 == text_d2(t)
    &&& g.2 == text_d3(t)
    &&& g.3@ == text_tail(t)
}

/// The two nibbles of a byte put it back together.
proof fn lemma_nibbles(b: u8)
    ensures
        (b >> 4) < 16,
        (b & 0xF) < 16,
        (((b >> 4) as u8) << 4) | ((b & 0xF) as u8) == b,
{
    assert((b >> 4) < 16 && (b & 0xF) < 16 && ((((b >> 4) as u8) << 4) | ((b & 0xF) as u8)) == b)
        by (bit_vector);
}

/// Big-endian packing of four bytes inverts taking a `u32` apart.
proof fn lemma_be32(v: u32)
    ensures
        ((((v >> 24) & 0xFF) as u8 as u32) << 24) | ((((v >> 16) & 0xFF) as u8 as u32) << 16) | ((((
        v >> 8) & 0xFF) as u8 as u32) << 8) | ((v & 0xFF) as u8 as u32) == v,
{
    assert(((((v >> 24) & 0xFF) as u8 as u32) << 24) | ((((v >> 16) & 0xFF) as u8 as u32) << 16)
        | ((((v >> 8) & 0xFF) as u8 as u32) << 8) | ((v & 0xFF) as u8 as u32) == v)
        by (bit_vector);
}

/// Big-endian packing of two bytes inverts taking a `u16` apart.
proof fn lemma_be16(v: u16)
    ensures
        ((((v >> 8) & 0xFF) as u8 as u16) << 8) | ((v & 0xFF) as u8 as u16) == v,
{
    assert(((((v >> 8) & 0xFF) as u8 as u16) << 8) | ((v & 0xFF) as u8 as u16) == v)
        by (bit_vector);
}

/// Reading a hex digit back gives the nibble that produced it.
proof fn lemma_hex_digit_id(n: u8)
    requires
        n < 16,
    ensures
        is_hex_digit(hex_lower(n)),
        is_hex_digit(hex_upper(n)),
        hex_val(hex_lower(n)) == n,
        hex_val(hex_upper(n)) == n,
{
}

/// The round-trip law: the canonical text of any GUID is well formed and
/// parses back to the same value, and it is exactly 36 bytes long with
/// hyphens at offsets 8, 13, 18 and 23. Both cases of the text parse back.
pub proof fn lemma_guid_round_trip(g: Guid)
    ensures
        valid_guid_text(guid_text_with(g, false)),
        valid_guid_text(guid_text_with(g, true)),
        parses_to(guid_text_with(g, false), g),
        parses_to(guid_text_with(g, true), g),
        guid_text(g).len() == 36,
        guid_text(g)[8] == DASH && guid_text(g)[13] == DASH && guid_text(g)[18] == DASH
            && guid_text(g)[23] == DASH,
{
    lemma_guid_round_trip_case(g, false);
    lemma_guid_round_trip_case(g, true);
}

proof fn lemma_guid_round_trip_case(g: Guid, upper: bool)
    ensures
        valid_guid_text(guid_text_with(g, upper)),
        parses_to(guid_text_with(g, upper), g),
{
    let t = guid_text_with(g, upper);
    assert forall|j: int| 0 <= j < 16 implies #[trigger] is_hex_digit(t[hexpos(j)])
        && is_hex_digit(t[hexpos(j) + 1]) by {
        let b = guid_raw(g)[j];
        lemma_nibbles(b);
        assert(adj(hexpos(j)) == 2 * j && adj(hexpos(j) + 1) == 2 * j + 1);
        lemma_hex_digit_id((b >> 4) as u8);
        lemma_hex_digit_id((b & 0xF) as u8);
    }
    assert forall|j: int| 0 <= j < 16 implies #[trigger] text_raw(t, j) == guid_raw(g)[j] by {
        let b = guid_raw(g)[j];
        lemma_nibbles(b);
        assert(adj(hexpos(j)) == 2 * j && adj(hexpos(j) + 1) == 2 * j + 1);
        lemma_hex_digit_id((b >> 4) as u8);
        lemma_hex_digit_id((b & 0xF) as u8);
    }
    lemma_be32(g.0);
    lemma_be16(g.1);
    lemma_be16(g.2);
    assert(text_tail(t) =~= g.3@);
}

/// Reads a hex digit; `None` exactly on non-digits.
fn hex_digit_val(c: u8) -> (r: Option<u8>)
    ensures
        r is Some <==> is_hex_digit(c),
        r is Some ==> r->0 == hex_val(c) && r->0 < 16,
{
    if 48 <= c && c <= 57 {
        Some(c - 48)
    } else if 65 <= c && c <= 70 {
        Some(c - 55)
    } else if 97 <= c && c <= 102 {
        Some(c - 87)
    } else {
        None
    }
}

/// Reads the two hex digits at `p` as one raw byte; `None` exactly when one
/// of them is not a digit.
fn raw_pair(t: &[u8], p: usize) -> (r: Option<u8>)
    requires
        p + 1 < t@.len(),
    ensures
        r is Some <==> is_hex_digit(t@[p as int]) && is_hex_digit(t@[p + 1]),
        r is Some ==> r->0 == ((hex_val(t@[p as int]) << 4) | hex_val(t@[p + 1])),
{
    let hi = match hex_digit_val(t[p]) {
        Some(v) => v,
        None => {
            return None;
        },
    };
    let lo = match hex_digit_val(t[p + 1]) {
        Some(v) => v,
        None => {
            return None;
        },
    };
    Some((hi << 4) | lo)
}

/// Writes the two digits of one raw byte.
fn push_hex_pair(out: &mut Vec<u8>, b: u8, upper: bool)
    ensures
        final(out)@ == old(out)@ + seq![
            if upper {
                hex_upper((b >> 4) as u8)
            } else {
                hex_lower((b >> 4) as u8)
            },
            if upper {
                hex_upper((b & 0xF) as u8)
            } else {
                hex_lower((b & 0xF) as u8)
            },
        ],
{
    proof {
        lemma_nibbles(b);
    }
    let hi = b >> 4;
    let lo = b & 0xF;
    let c0 = if hi < 10 {
        48 + hi
    } else if upper {
        55 + hi
    } else {
        87 + hi
    };
    let c1 = if lo < 10 {
        48 + lo
    } else if upper {
        55 + lo
    } else {
        87 + lo
    };
    out.push(c0);
    out.push(c1);
    proof {
        assert(out@ =~= old(out)@ + seq![
            if upper {
                hex_upper((b >> 4) as u8)
            } else {
                hex_lower((b >> 4) as u8)
            },
            if upper {
                hex_upper((b & 0xF) as u8)
            } else {
                hex_lower((b & 0xF) as u8)
            },
        ]);
    }
}

/// The text offset of raw byte `j`, as executable code.
fn hexpos_at(j: usize) -> (r: usize)
    requires
        j < 16,
    ensures
        r == hexpos(j as int),
        r + 1 < 36,
{
    if j < 4 {
        2 * j
    } else if j < 6 {
        2 * j + 1
    } else if j < 8 {
        2 * j + 2
    } else if j < 10 {
        2 * j + 3
    } else {
        2 * j + 4
    }
}

/// Reads the sixteen raw bytes out of a GUID text; `None` exactly when a
/// digit position does not hold a hex digit.
fn parse_raw(t: &[u8]) -> (r: Option<Vec<u8>>)
    requires
        t@.len() == 36,
    ensures
        r is Some <==> forall|j: int|
            0 <= j < 16 ==> #[trigger] is_hex_digit(t@[hexpos(j)]) && is_hex_digit(
                t@[hexpos(j) + 1],
            ),
        r is Some ==> r->0@.len() == 16 && forall|j: int|
            0 <= j < 16 ==> #[trigger] r->0@[j] == text_raw(t@, j),
{
    let mut raw: Vec<u8> = Vec::new();
    let mut j: usize = 0;
    while j < 16
        invariant
            t@.len() == 36,
            j <= 16,
            raw@.len() == j,
            forall|k: int|
                0 <= k < j ==> #[trigger] is_hex_digit(t@[hexpos(k)]) && is_hex_digit(
                    t@[hexpos(k) + 1],
                ),
            forall|k: int| 0 <= k < j ==> #[trigger] raw@[k] == text_raw(t@, k),
        decreases 16 - j,
    {
        let p = hexpos_at(j);
        let ghost jj = j as int;
        match raw_pair(t, p) {
            Some(b) => {
                raw.push(b);
            },
            None => {
                proof {
                    assert(!(is_hex_digit(t@[hexpos(jj)]) && is_hex_digit(t@[hexpos(jj) + 1])));
                }
                return None;
            },
        }
        j = j + 1;
        proof {
            assert(is_hex_digit(t@[hexpos(jj)]) && is_hex_digit(t@[hexpos(jj) + 1]));
            assert(raw@[jj] == text_raw(t@, jj));
            assert forall|k: int|
                0 <= k < j implies #[trigger] is_hex_digit(t@[hexpos(k)]) && is_hex_digit(
                    t@[hexpos(k) + 1],
                ) by {
                if k < jj {
                    assert(is_hex_digit(t@[hexpos(k)]) && is_hex_digit(t@[hexpos(k) + 1]));
                } else {
                    assert(k == jj);
                }
            }
            assert forall|k: int| 0 <= k < j implies #[trigger] raw@[k] == text_raw(t@, k) by {
                if k < jj {
                    assert(raw@[k] == text_raw(t@, k));
                } else {
                    assert(k == jj);
                }
            }
        }
    }
    Some(raw)
}

impl Guid {
    /// The GUID with all bits clear.
    pub fn nil() -> (r: Guid)
        ensures
            r.0 == 0 && r.1 == 0 && r.2 == 0 && r.3@ =~= Seq::<u8>::new(8, |i: int| 0u8),
    {
        let r = Guid(0, 0, 0, [0, 0, 0, 0, 0, 0, 0, 0]);
        proof {
            assert(r.3@ =~= Seq::<u8>::new(8, |i: int| 0u8));
        }
        r
    }

    /// The GUID with all bits set.
    pub fn max_value() -> (r: Guid)
        ensures
            r.0 == 0xFFFF_FFFF && r.1 == 0xFFFF && r.2 == 0xFFFF && r.3@ =~= Seq::<u8>::new(
                8,
                |i: int| 0xFFu8,
            ),
    {
        let r = Guid(0xFFFF_FFFF, 0xFFFF, 0xFFFF, [0xFF, 0xFF, 0xFF, 0xFF, 0xFF, 0xFF, 0xFF, 0xFF]);
        proof {
            assert(r.3@ =~= Seq::<u8>::new(8, |i: int| 0xFFu8));
        }
        r
    }

    /// Parses the canonical hyphenated form, either case of hex digits.
    /// Fails with `FormatError` exactly when the text is not 36 bytes with
    /// hyphens at offsets 8, 13, 18 and 23 and hex digits elsewhere.
    pub fn parse_str(s: &str) -> (r: Result<Guid, Error>)
        ensures
            r is Ok <==> valid_guid_text(s.spec_bytes()),
            r is Ok ==> parses_to(s.spec_bytes(), r->Ok_0),
            r is Err ==> r->Err_0 == Error::FormatError,
    {
        let t = s.as_bytes();
        Self::parse_bytes(t)
    }

    /// Parses the canonical hyphenated form from raw bytes; see
    /// [`Guid::parse_str`].
    pub fn parse_bytes(t: &[u8]) -> (r: Result<Guid, Error>)
        ensures
            r is Ok <==> valid_guid_text(t@),
            r is Ok ==> parses_to(t@, r->Ok_0),
            r is Err ==> r->Err_0 == Error::FormatError,
    {
        if t.len() != 36 {
            return Err(Error::FormatError);
        }
        if t[8] != DASH || t[13] != DASH || t[18] != DASH || t[23] != DASH {
            return Err(Error::FormatError);
        }
        let raw = match parse_raw(t) {
            Some(v) => v,
            None => {
                return Err(Error::FormatError);
            },
        };
        let d1 = ((raw[0] as u32) << 24) | ((raw[1] as u32) << 16) | ((raw[2] as u32) << 8) | (
        raw[3] as u32);
        let d2 = ((raw[4] as u16) << 8) | (raw[5] as u16);
        let d3 = ((raw[6] as u16) << 8) | (raw[7] as u16);
        let g = Guid(
            d1,
            d2,
            d3,
            [raw[8], raw[9], raw[10], raw[11], raw[12], raw[13], raw[14], raw[15]],
        );
        proof {
            assert(valid_guid_text(t@));
            assert(d1 == text_d1(t@));
            assert(d2 == text_d2(t@));
            assert(d3 == text_d3(t@));
            assert forall|k: int| 0 <= k < 8 implies g.3@[k] == text_tail(t@)[k] by {
                assert(raw@[8 + k] == text_raw(t@, 8 + k));
            }
            assert(g.3@ =~= text_tail(t@));
        }
        Ok(g)
    }

    /// The canonical text as raw ASCII bytes, lower or upper case: exactly
    /// 36 bytes, hyphens at offsets 8, 13, 18 and 23.
    pub fn to_text_bytes(&self, upper: bool) -> (r: Vec<u8>)
        ensures
            r@ == guid_text_with(*self, upper),
    {
        let g = *self;
        let raw: [u8; 16] = [
            ((g.0 >> 24) & 0xFF) as u8,
            ((g.0 >> 16) & 0xFF) as u8,
            ((g.0 >> 8) & 0xFF) as u8,
            (g.0 & 0xFF) as u8,
            ((g.1 >> 8) & 0xFF) as u8,
            (g.1 & 0xFF) as u8,
            ((g.2 >> 8) & 0xFF) as u8,
            (g.2 & 0xFF) as u8,
            g.3[0],
            g.3[1],
            g.3[2],
            g.3[3],
            g.3[4],
            g.3[5],
            g.3[6],
            g.3[7],
        ];
        proof {
            assert(raw@ =~= guid_raw(g));
        }
        let ghost text = guid_text_with(g, upper);
        let mut out: Vec<u8> = Vec::new();
        let mut j: usize = 0;
        proof {
            assert(out@ =~= text.take(hexpos(0)));
        }
        while j < 16
            invariant
                raw@ == guid_raw(g),
                text == guid_text_with(g, upper),
                j <= 16,
                out@ == text.take(hexpos(j as int)),
            decreases 16 - j,
        {
            proof {
                assert(adj(hexpos(j as int)) == 2 * (j as int));
                assert(adj(hexpos(j as int) + 1) == 2 * (j as int) + 1);
            }
            push_hex_pair(&mut out, raw[j], upper);
            proof {
                assert(out@ =~= text.take(hexpos(j as int) + 2));
            }
            if j == 3 || j == 5 || j == 7 || j == 9 {
                out.push(DASH);
                proof {
                    assert(out@ =~= text.take(hexpos(j as int) + 3));
                }
            }
            j = j + 1;
            proof {
                assert(out@ =~= text.take(hexpos(j as int)));
            }
        }
        proof {
            assert(out@ =~= text);
        }
        out
    }

    /// The canonical lower-case text.
    pub fn to_string_lower(&self) -> (r: String)
        ensures
            r@.len() == 36,
            forall|i: int|
                0 <= i < 36 ==> r@[i] == (guid_text_with(*self, false)[i] as char),
            forall|i: int|
                0 <= i < 36 ==> (#[trigger] r@[i]) as u8 == guid_text_with(*self, false)[i],
            vstd::utf8::is_ascii_chars(r@),
    {
        let bytes = self.to_text_bytes(false);
        proof {
            lemma_guid_round_trip(*self);
            assert forall|i: int| 0 <= i < bytes@.len() implies bytes@[i] < 128 by {
                if !(i == 8 || i == 13 || i == 18 || i == 23) {
                    lemma_nibbles(guid_raw(*self)[adj(i) / 2]);
                }
            }
        }
        string_from_ascii(bytes)
    }

    /// The canonical upper-case text.
    pub fn to_string_upper(&self) -> (r: String)
        ensures
            r@.len() == 36,
            forall|i: int|
                0 <= i < 36 ==> r@[i] == (guid_text_with(*self, true)[i] as char),
            forall|i: int|
                0 <= i < 36 ==> (#[trigger] r@[i]) as u8 == guid_text_with(*self, true)[i],
            vstd::utf8::is_ascii_chars(r@),
    {
        let bytes = self.to_text_bytes(true);
        proof {
            lemma_guid_round_trip(*self);
            assert forall|i: int| 0 <= i < bytes@.len() implies bytes@[i] < 128 by {
                if !(i == 8 || i == 13 || i == 18 || i == 23) {
                    lemma_nibbles(guid_raw(*self)[adj(i) / 2]);
                }
            }
        }
        string_from_ascii(bytes)
    }
}

/// Relies on `String::from_utf8`: ASCII bytes are valid UTF-8 and decode to
/// the string whose characters are exactly those bytes.
#[verifier::external_body]
fn string_from_ascii(v: Vec<u8>) -> (r: String)
    requires
        forall|i: int| 0 <= i < v@.len() ==> v@[i] < 128,
    ensures
        r@.len() == v@.len(),
        forall|i: int| 0 <= i < v@.len() ==> r@[i] == (v@[i] as char),
{
    match String::from_utf8(v) {
        Ok(s) => s,
        Err(_) => String::new(),
    }
}


} // verus!
