use yuffie::error::Error;
use yuffie::guid::Guid;
use yuffie::hii::{decode_package_list, encode_package_list, Package, PackageKind};

fn list_bytes(packages: &[(u8, &[u8])]) -> Vec<u8> {
    let mut body: Vec<u8> = Vec::new();
    for (kind, payload) in packages {
        let len = (payload.len() + 4) as u32;
        let word = ((*kind as u32) << 24) | len;
        body.extend_from_slice(&word.to_le_bytes());
        body.extend_from_slice(payload);
    }
    let mut out: Vec<u8> = Vec::new();
    // GUID 01020304-0506-0708-090a-0b0c0d0e0f10 on the wire
    out.extend_from_slice(&0x01020304u32.to_le_bytes());
    out.extend_from_slice(&0x0506u16.to_le_bytes());
    out.extend_from_slice(&0x0708u16.to_le_bytes());
    out.extend_from_slice(&[0x09, 0x0A, 0x0B, 0x0C, 0x0D, 0x0E, 0x0F, 0x10]);
    out.extend_from_slice(&((20 + body.len()) as u32).to_le_bytes());
    out.extend_from_slice(&body);
    out
}

#[test]
fn decode_then_encode_is_identity() {
    let data = list_bytes(&[(0x02, &[0x28, 0x02]), (0x04, &[0x00]), (0xE5, &[1, 2, 3])]);
    let list = decode_package_list(&data).unwrap();
    assert_eq!(list.guid, Guid(0x01020304, 0x0506, 0x0708, [9, 10, 11, 12, 13, 14, 15, 16]));
    assert_eq!(list.packages.len(), 3);
    assert_eq!(list.packages[0].kind, PackageKind(0x02));
    assert_eq!(list.packages[0].payload, vec![0x28, 0x02]);
    let out = encode_package_list(&list).unwrap();
    assert_eq!(out, data);
}

#[test]
fn empty_list_round_trips() {
    let data = list_bytes(&[]);
    let list = decode_package_list(&data).unwrap();
    assert!(list.packages.is_empty());
    assert_eq!(encode_package_list(&list).unwrap(), data);
}

#[test]
fn total_length_must_match() {
    let mut data = list_bytes(&[(0x02, &[0x28, 0x02])]);
    let n = data.len();
    data[16..20].copy_from_slice(&((n - 1) as u32).to_le_bytes());
    assert_eq!(decode_package_list(&data), Err(Error::LengthMismatch));
    data[16..20].copy_from_slice(&((n + 1) as u32).to_le_bytes());
    assert_eq!(decode_package_list(&data), Err(Error::TruncatedBuffer));
}

#[test]
fn short_header_is_truncated() {
    assert_eq!(decode_package_list(&[0u8; 10]), Err(Error::TruncatedBuffer));
}

#[test]
fn unknown_kind_is_rejected() {
    let data = list_bytes(&[(0x0B, &[])]);
    assert_eq!(decode_package_list(&data), Err(Error::UnknownPackageKind));
}

#[test]
fn reserved_kind_is_kept() {
    let data = list_bytes(&[(0xF0, &[0xAA])]);
    let list = decode_package_list(&data).unwrap();
    assert_eq!(list.packages[0].kind, PackageKind(0xF0));
    assert_eq!(list.packages[0].payload, vec![0xAA]);
}

#[test]
fn header_length_below_four_is_invalid() {
    let mut data = list_bytes(&[(0x02, &[])]);
    // rewrite the package word to declare length 3
    let word: u32 = (0x02u32 << 24) | 3;
    data[20..24].copy_from_slice(&word.to_le_bytes());
    assert_eq!(decode_package_list(&data), Err(Error::InvalidLength));
}

#[test]
fn oversized_payload_fails_encode() {
    let list = yuffie::hii::PackageList {
        guid: Guid::nil(),
        packages: vec![Package { kind: PackageKind(0x02), payload: vec![0u8; 0x100_0000] }],
    };
    assert_eq!(encode_package_list(&list), Err(Error::PayloadTooLarge));
}
