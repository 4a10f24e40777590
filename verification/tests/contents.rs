use yuffie::error::Error;
use yuffie::hii::contents::{decode_package, decode_packages, PackageContent};
use yuffie::hii::{Package, PackageKind, PackageList};
use yuffie::guid::Guid;

#[test]
fn forms_payload_is_an_opcode_stream() {
    match decode_package(0x02, &[0x28, 0x02]).unwrap() {
        PackageContent::Forms(ops) => assert_eq!(ops.len(), 1),
        other => panic!("wrong content: {:?}", other),
    }
}

#[test]
fn string_blocks_start_at_the_named_offset() {
    // header: HdrSize, StringInfoOffset 12 (package coordinates), then
    // the block stream: one narrow string and END
    let payload = [0, 0, 0, 0, 12, 0, 0, 0, 0x10, 0x41, 0x00, 0x00];
    match decode_package(0x04, &payload).unwrap() {
        PackageContent::Strings(blocks) => {
            assert_eq!(blocks.len(), 2);
            assert_eq!(blocks[0].payload, vec![0x41, 0x00]);
        },
        other => panic!("wrong content: {:?}", other),
    }
}

#[test]
fn image_blocks_start_at_the_named_offset() {
    let payload = [12, 0, 0, 0, 0, 0, 0, 0, 0x00];
    match decode_package(0x06, &payload).unwrap() {
        PackageContent::Images(blocks) => assert_eq!(blocks.len(), 1),
        other => panic!("wrong content: {:?}", other),
    }
}

#[test]
fn font_blocks_use_the_header_cell() {
    // HdrSize, GlyphBlockOffset 26, cell 8x1, offsets and advance, style;
    // then GLYPH_DEFAULT with one bitmap byte and END
    let mut payload = vec![0u8; 22];
    payload[4] = 26;
    payload[8] = 8; // cell width
    payload[10] = 1; // cell height
    payload.extend_from_slice(&[0x12, 0xAA, 0x00]);
    match decode_package(0x05, &payload).unwrap() {
        PackageContent::Fonts(blocks) => {
            assert_eq!(blocks.len(), 2);
            assert_eq!(blocks[0].payload, vec![0xAA]);
        },
        other => panic!("wrong content: {:?}", other),
    }
}

#[test]
fn failures_stay_with_their_package() {
    let list = PackageList {
        guid: Guid::nil(),
        packages: vec![
            Package { kind: PackageKind(0x02), payload: vec![0x28, 0x02] },
            Package { kind: PackageKind(0x02), payload: vec![0x29, 0x02] },
            Package { kind: PackageKind(0xE0), payload: vec![1, 2, 3] },
        ],
    };
    let results = decode_packages(&list);
    assert_eq!(results.len(), 3);
    assert!(results[0].is_ok());
    assert_eq!(results[1], Err(Error::ScopeUnderflow));
    assert_eq!(
        results[2],
        Ok(PackageContent::Opaque(0xE0, vec![1, 2, 3]))
    );
}

#[test]
fn bad_offset_is_rejected() {
    assert_eq!(decode_package(0x04, &[0, 0, 0, 0, 200, 0, 0, 0, 0]), Err(Error::InvalidLength));
    assert_eq!(decode_package(0x0A, &[3, 0, 0]), Err(Error::TruncatedBuffer));
    // a forms payload that fails its scope check surfaces that error
    assert_eq!(decode_package(0x02, &[0x29, 0x02]), Err(Error::ScopeUnderflow));
}
