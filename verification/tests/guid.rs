use yuffie::error::Error;
use yuffie::guid::Guid;

#[test]
fn parse_null() {
    let guid = Guid::parse_str("00000000-0000-0000-0000-000000000000").unwrap();
    assert_eq!(guid, Guid::nil());
}

#[test]
fn endianness() {
    let guid = Guid::parse_str("01020304-0506-0708-090a-0b0c0d0e0f10").unwrap();
    let expected = Guid(0x01020304, 0x0506, 0x0708, [0x9, 0xA, 0xB, 0xC, 0xD, 0xE, 0xF, 0x10]);
    assert_eq!(guid, expected);
}

#[test]
fn format_lower_exact() {
    let g = Guid(0x01020304, 0x0506, 0x0708, [0x9, 0xA, 0xB, 0xC, 0xD, 0xE, 0xF, 0x10]);
    assert_eq!(g.to_string_lower(), "01020304-0506-0708-090a-0b0c0d0e0f10");
}

#[test]
fn format_upper_exact() {
    let g = Guid(0xBB25CF6F, 0xF1D4, 0x11D2, [0x9A, 0x0C, 0x00, 0x90, 0x27, 0x3F, 0xC1, 0xFD]);
    assert_eq!(g.to_string_upper(), "BB25CF6F-F1D4-11D2-9A0C-0090273FC1FD");
}

#[test]
fn round_trip_lower_and_upper() {
    let values = [
        Guid::nil(),
        Guid::max_value(),
        Guid(0xDEADBEEF, 0x1234, 0x5678, [1, 2, 3, 4, 5, 6, 7, 8]),
        Guid(0x00000001, 0x0000, 0xFFFF, [0, 0xFF, 0, 0xFF, 0, 0xFF, 0, 0xFF]),
    ];
    for g in values {
        let lower = g.to_string_lower();
        assert_eq!(lower.len(), 36);
        assert_eq!(lower.as_bytes()[8], b'-');
        assert_eq!(lower.as_bytes()[13], b'-');
        assert_eq!(lower.as_bytes()[18], b'-');
        assert_eq!(lower.as_bytes()[23], b'-');
        assert_eq!(Guid::parse_str(&lower).unwrap(), g);
        assert_eq!(Guid::parse_str(&g.to_string_upper()).unwrap(), g);
    }
}

#[test]
fn parse_rejects_wrong_length() {
    assert_eq!(Guid::parse_str("0102030405"), Err(Error::FormatError));
    assert_eq!(
        Guid::parse_str("01020304-0506-0708-090a-0b0c0d0e0f1000"),
        Err(Error::FormatError)
    );
}

#[test]
fn parse_rejects_misplaced_hyphen() {
    assert_eq!(
        Guid::parse_str("010203040506-0708-090a--0b0c0d0e0f10"),
        Err(Error::FormatError)
    );
}

#[test]
fn parse_rejects_non_hex() {
    assert_eq!(
        Guid::parse_str("0102030g-0506-0708-090a-0b0c0d0e0f10"),
        Err(Error::FormatError)
    );
}
