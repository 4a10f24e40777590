use yuffie::error::Error;
use yuffie::hii::animation::{decode_animation_blocks, AibtOverlayImages};
use yuffie::hii::blocks::HiiBlock;
use yuffie::hii::font::decode_glyph_blocks;
use yuffie::hii::image::{decode_image_blocks, image_block_ids};
use yuffie::hii::blocks::encode_blocks;
use yuffie::hii::string::{decode_string_blocks, string_block_ids, SibtDuplicate, SibtSkip2,
    SibtStringScsu, SibtStringUcs2};

#[test]
fn string_stream_round_trips() {
    let data = [
        0x10, 0x41, 0x42, 0x00, // STRING_SCSU "AB"
        0x14, 0x48, 0x00, 0x00, 0x00, // STRING_UCS2 "H"
        0x20, 0x01, 0x00, // DUPLICATE of string 1
        0x00, // END
    ];
    let blocks = decode_string_blocks(&data).unwrap();
    assert_eq!(blocks.len(), 4);
    assert_eq!(blocks[0].kind, 0x10);
    assert_eq!(blocks[0].payload, vec![0x41, 0x42, 0x00]);
    assert_eq!(blocks[3].kind, 0x00);
    assert_eq!(encode_blocks(&blocks), data.to_vec());
}

#[test]
fn skip_advances_the_id_counter() {
    // a SKIP2 of three, then two literal strings: with string ids counting
    // from 1, the literals receive 4 and 5
    let data = [
        0x21, 0x03, 0x00, // SKIP2, count 3
        0x10, 0x41, 0x00, // STRING_SCSU "A"
        0x10, 0x42, 0x00, // STRING_SCSU "B"
        0x00, // END
    ];
    let blocks = decode_string_blocks(&data).unwrap();
    let ids = string_block_ids(&blocks, 1).unwrap();
    assert_eq!(ids, vec![4, 5]);
    let from_zero = string_block_ids(&blocks, 0).unwrap();
    assert_eq!(from_zero, vec![3, 4]);
}

#[test]
fn counted_strings_take_consecutive_ids() {
    let data = [
        0x16, 0x02, 0x00, // STRINGS_UCS2, count 2
        0x41, 0x00, 0x00, 0x00, // "A"
        0x42, 0x00, 0x00, 0x00, // "B"
        0x10, 0x43, 0x00, // STRING_SCSU "C"
        0x00, // END
    ];
    let blocks = decode_string_blocks(&data).unwrap();
    assert_eq!(blocks.len(), 3);
    let ids = string_block_ids(&blocks, 1).unwrap();
    assert_eq!(ids, vec![1, 2, 3]);
}

#[test]
fn string_stream_needs_terminators() {
    assert_eq!(decode_string_blocks(&[0x10, 0x41, 0x42]), Err(Error::TruncatedBuffer));
    assert_eq!(decode_string_blocks(&[0x14, 0x48, 0x00]), Err(Error::TruncatedBuffer));
}

#[test]
fn string_stream_must_end_with_end() {
    assert_eq!(decode_string_blocks(&[0x10, 0x41, 0x00]), Err(Error::TruncatedBuffer));
    // data after the END block
    assert_eq!(decode_string_blocks(&[0x00, 0x10, 0x41, 0x00]), Err(Error::LengthMismatch));
}

#[test]
fn unknown_string_block_type_is_rejected() {
    assert_eq!(decode_string_blocks(&[0x77, 0x00]), Err(Error::UnknownBlockType));
}

#[test]
fn ext_escape_carries_explicit_length() {
    // EXT2 carrying a FONT block: type2 0x40, 16-bit length 9 covering the
    // whole block, then 5 payload bytes
    let data = [0x31, 0x40, 0x09, 0x00, 0x01, 0x02, 0x03, 0x04, 0x05, 0x00];
    let blocks = decode_string_blocks(&data).unwrap();
    assert_eq!(blocks.len(), 2);
    assert_eq!(blocks[0].kind, 0x31);
    assert_eq!(blocks[0].payload.len(), 8);
    assert_eq!(encode_blocks(&blocks), data.to_vec());
}

#[test]
fn image_stream_round_trips() {
    let data = [
        0x14, 0x00, 0x02, 0x00, 0x02, 0x00, 1, 2, 3, 4, // 8-bit 2x2 bitmap
        0x18, 0x02, 0x00, 0x00, 0x00, 0xFF, 0xD8, // JPEG blob of 2 bytes
        0x22, 0x05, // SKIP1 of 5
        0x00, // END
    ];
    let blocks = decode_image_blocks(&data).unwrap();
    assert_eq!(blocks.len(), 4);
    assert_eq!(blocks[0].kind, 0x14);
    assert_eq!(blocks[0].payload.len(), 9);
    assert_eq!(encode_blocks(&blocks), data.to_vec());
    let ids = image_block_ids(&blocks, 1).unwrap();
    assert_eq!(ids, vec![1, 2]);
}

#[test]
fn image_bitmap_size_follows_geometry() {
    // a 1-bit 9x2 bitmap needs 2 padded rows of 2 bytes
    let data = [0x10, 0x00, 0x09, 0x00, 0x02, 0x00, 0xAA, 0xBB, 0xCC, 0xDD, 0x00];
    let blocks = decode_image_blocks(&data).unwrap();
    assert_eq!(blocks[0].payload.len(), 9);
    // one data byte short
    let short = [0x10, 0x00, 0x09, 0x00, 0x02, 0x00, 0xAA, 0xBB, 0xCC, 0x00];
    assert_eq!(decode_image_blocks(&short), Err(Error::TruncatedBuffer));
}

#[test]
fn image_skip_then_literal_ids() {
    let data = [
        0x21, 0x03, 0x00, // SKIP2, count 3
        0x14, 0x00, 0x01, 0x00, 0x01, 0x00, 0x7F, // 8-bit 1x1 bitmap
        0x14, 0x00, 0x01, 0x00, 0x01, 0x00, 0x80, // 8-bit 1x1 bitmap
        0x00, // END
    ];
    let blocks = decode_image_blocks(&data).unwrap();
    let ids = image_block_ids(&blocks, 1).unwrap();
    assert_eq!(ids, vec![4, 5]);
}

#[test]
fn animation_stream_round_trips() {
    let data = [
        0x10, // OVERLAY_IMAGES
        0x01, 0x00, // default image id
        0x10, 0x00, 0x08, 0x00, // width, height
        0x01, 0x00, // one cell
        0x00, 0x00, 0x00, 0x00, 0x02, 0x00, 0x64, 0x00, // the cell
        0x00, // END
    ];
    let blocks = decode_animation_blocks(&data).unwrap();
    assert_eq!(blocks.len(), 2);
    assert_eq!(blocks[0].payload.len(), 16);
    assert_eq!(encode_blocks(&blocks), data.to_vec());
}

#[test]
fn clear_animation_carries_background() {
    // CLEAR_IMAGES: 11 fixed payload bytes plus one cell
    let data = [
        0x11, 0x01, 0x00, 0x10, 0x00, 0x08, 0x00, 0x01, 0x00, 0x12, 0x34, 0x56, 0x00, 0x00, 0x00,
        0x00, 0x02, 0x00, 0x64, 0x00, 0x00,
    ];
    let blocks = decode_animation_blocks(&data).unwrap();
    assert_eq!(blocks[0].payload.len(), 19);
}

#[test]
fn glyph_stream_follows_default_cell() {
    // the package default cell is 8x2, so GLYPH_DEFAULT takes 2 bytes;
    // a DEFAULTS block switches to 16x1, so the next takes 2 as well
    let data = [
        0x12, 0xAA, 0xBB, // GLYPH_DEFAULT with the 8x2 cell
        0x23, 0x10, 0x00, 0x01, 0x00, 0, 0, 0, 0, 0, 0, // DEFAULTS: 16x1
        0x12, 0xCC, 0xDD, // GLYPH_DEFAULT with the new cell
        0x00, // END
    ];
    let blocks = decode_glyph_blocks(&data, 8, 2).unwrap();
    assert_eq!(blocks.len(), 4);
    assert_eq!(blocks[0].payload, vec![0xAA, 0xBB]);
    assert_eq!(blocks[2].payload, vec![0xCC, 0xDD]);
    assert_eq!(encode_blocks(&blocks), data.to_vec());
}

#[test]
fn glyph_with_own_cell() {
    // GLYPH carries its own 10-byte cell: 9x2 needs 4 bitmap bytes
    let data = [
        0x10, 0x09, 0x00, 0x02, 0x00, 0, 0, 0, 0, 0, 0, 1, 2, 3, 4, // GLYPH
        0x00, // END
    ];
    let blocks = decode_glyph_blocks(&data, 8, 19).unwrap();
    assert_eq!(blocks[0].payload.len(), 14);
}

#[test]
fn blocks_encode_by_hand() {
    let blocks = vec![
        HiiBlock { kind: 0x22, payload: vec![7] },
        HiiBlock { kind: 0x00, payload: vec![] },
    ];
    assert_eq!(encode_blocks(&blocks), vec![0x22, 7, 0x00]);
}

#[test]
fn typed_string_blocks_round_trip() {
    let scsu = SibtStringScsu::parse(&[0x41, 0x42, 0x00]).unwrap();
    assert_eq!(scsu.StringText, b"AB".to_vec());
    assert_eq!(scsu.encode(), vec![0x41, 0x42, 0x00]);
    // an interior terminator or a missing one is rejected
    assert!(SibtStringScsu::parse(&[0x41, 0x00, 0x42, 0x00]).is_err());
    assert!(SibtStringScsu::parse(&[0x41, 0x42]).is_err());

    let ucs2 = SibtStringUcs2::parse(&[0x48, 0x00, 0x69, 0x00, 0x00, 0x00]).unwrap();
    assert_eq!(ucs2.StringText, vec![0x48, 0x69]);
    assert_eq!(ucs2.encode(), vec![0x48, 0x00, 0x69, 0x00, 0x00, 0x00]);
    assert!(SibtStringUcs2::parse(&[0x48, 0x00, 0x69]).is_err());

    let dup = SibtDuplicate::parse(&[0x05, 0x00]).unwrap();
    assert_eq!(dup.StringId, 5);
    let skip = SibtSkip2::parse(&[0x03, 0x00]).unwrap();
    assert_eq!(skip.SkipCount, 3);
    assert_eq!(skip.encode(), vec![0x03, 0x00]);
}

#[test]
fn animation_cells_follow_their_count() {
    let payload = [
        0x01, 0x00, 0x10, 0x00, 0x08, 0x00, 0x02, 0x00, // header, two cells
        0x00, 0x00, 0x00, 0x00, 0x02, 0x00, 0x64, 0x00, // cell one
        0x04, 0x00, 0x04, 0x00, 0x03, 0x00, 0x32, 0x00, // cell two
    ];
    let block = AibtOverlayImages::parse(&payload).unwrap();
    assert_eq!(block.CellCount, 2);
    assert_eq!(block.AnimationCell.len(), 2);
    assert_eq!(block.AnimationCell[1].ImageId, 3);
    assert_eq!(block.encode(), payload.to_vec());
    // a count the data cannot honor is an error, never a shorter run
    let short = &payload[..payload.len() - 8];
    assert!(AibtOverlayImages::parse(short).is_err());
}
