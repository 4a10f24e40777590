use yuffie::error::Error;
use yuffie::hii::decode_package_list;
use yuffie::hii::ifr::{decode_ops, encode_ops, split_ops, IfrOp};

#[test]
fn version_opcode_round_trips() {
    let data = [0x28, 0x02];
    let ops = decode_ops(&data).unwrap();
    assert_eq!(ops.len(), 1);
    assert_eq!(ops[0].op, 0x28);
    assert!(!ops[0].open_scope);
    assert!(ops[0].payload.is_empty());
    assert_eq!(encode_ops(&ops).unwrap(), data.to_vec());
}

#[test]
fn form_scope_round_trips() {
    // FORM (scope, FormId 1, title 2) { SUBTITLE } END
    let data = [0x01, 0x86, 0x01, 0x00, 0x02, 0x00, 0x02, 0x07, 0x10, 0x00, 0x20, 0x00, 0x00,
        0x29, 0x02];
    let ops = decode_ops(&data).unwrap();
    assert_eq!(ops.len(), 3);
    assert!(ops[0].open_scope);
    assert_eq!(ops[0].payload, vec![0x01, 0x00, 0x02, 0x00]);
    assert_eq!(encode_ops(&ops).unwrap(), data.to_vec());
}

#[test]
fn scope_depth_returns_to_zero() {
    // one END too many underflows the scope stack
    let extra_end = [0x0A, 0x82, 0x46, 0x02, 0x29, 0x02, 0x29, 0x02];
    assert_eq!(decode_ops(&extra_end), Err(Error::ScopeUnderflow));
    // a missing END leaves the stack open at the end of the stream
    let missing_end = [0x0A, 0x82, 0x46, 0x02];
    assert_eq!(decode_ops(&missing_end), Err(Error::UnbalancedScope));
}

#[test]
fn unknown_opcode_is_preserved() {
    let data = [0xF1, 0x04, 0xAB, 0xCD];
    let ops = decode_ops(&data).unwrap();
    assert_eq!(ops[0].op, 0xF1);
    assert_eq!(ops[0].payload, vec![0xAB, 0xCD]);
    assert_eq!(encode_ops(&ops).unwrap(), data.to_vec());
}

#[test]
fn header_length_below_two_is_invalid() {
    assert_eq!(decode_ops(&[0x28, 0x01]), Err(Error::InvalidLength));
    assert_eq!(decode_ops(&[0x28, 0x00]), Err(Error::InvalidLength));
}

#[test]
fn truncated_record_is_rejected() {
    assert_eq!(decode_ops(&[0x28]), Err(Error::TruncatedBuffer));
    assert_eq!(decode_ops(&[0x01, 0x06, 0x01, 0x00]), Err(Error::TruncatedBuffer));
}

#[test]
fn expression_net_effect_one_is_accepted() {
    // SUPPRESS_IF (scope) { TRUE, ONE, ADD } END: pushes 1, pushes 1, pops 2 pushes 1
    let data = [0x0A, 0x82, 0x46, 0x02, 0x53, 0x02, 0x3A, 0x02, 0x29, 0x02];
    assert!(decode_ops(&data).is_ok());
}

#[test]
fn expression_net_effect_two_is_rejected() {
    // replacing ADD with a second TRUE leaves two values
    let data = [0x0A, 0x82, 0x46, 0x02, 0x46, 0x02, 0x29, 0x02];
    assert_eq!(decode_ops(&data), Err(Error::ExpressionImbalance));
}

#[test]
fn expression_underflow_is_rejected() {
    // ADD with only one value on the stack
    let data = [0x0A, 0x82, 0x46, 0x02, 0x3A, 0x02, 0x29, 0x02];
    assert_eq!(decode_ops(&data), Err(Error::ExpressionImbalance));
}

#[test]
fn payload_ceiling_is_enforced() {
    let too_large = IfrOp { op: 0x5F, open_scope: false, payload: vec![0u8; 126] };
    assert_eq!(encode_ops(&vec![too_large]), Err(Error::PayloadTooLarge));
    let largest = IfrOp { op: 0x5F, open_scope: false, payload: vec![0u8; 125] };
    let out = encode_ops(&vec![largest]).unwrap();
    assert_eq!(out.len(), 127);
    assert_eq!(out[1], 127);
}

#[test]
fn nesting_limit_is_enforced() {
    let mut data = Vec::new();
    for _ in 0..65 {
        data.extend_from_slice(&[0x01, 0x82]);
    }
    for _ in 0..65 {
        data.extend_from_slice(&[0x29, 0x02]);
    }
    assert_eq!(decode_ops(&data), Err(Error::ResourceLimitExceeded));
}

#[test]
fn forms_package_end_to_end() {
    // a FORMS package holding one balanced opcode stream, decoded through
    // the package list and re-encoded byte-identically
    let stream = [0x0A, 0x82, 0x46, 0x02, 0x53, 0x02, 0x3A, 0x02, 0x29, 0x02];
    let mut data: Vec<u8> = Vec::new();
    data.extend_from_slice(&[0; 16]);
    data.extend_from_slice(&((20 + 4 + stream.len()) as u32).to_le_bytes());
    let word: u32 = (0x02u32 << 24) | (4 + stream.len() as u32);
    data.extend_from_slice(&word.to_le_bytes());
    data.extend_from_slice(&stream);
    let list = decode_package_list(&data).unwrap();
    let ops = decode_ops(&list.packages[0].payload).unwrap();
    assert_eq!(ops.len(), 5);
    let payload = encode_ops(&ops).unwrap();
    assert_eq!(payload, stream.to_vec());
    let out = yuffie::hii::encode_package_list(&list).unwrap();
    assert_eq!(out, data);
}

#[test]
fn split_keeps_frame_bytes() {
    let data = [0x01, 0x84, 0xAA, 0xBB, 0x29, 0x02];
    let ops = split_ops(&data).unwrap();
    assert_eq!(ops.len(), 2);
    assert_eq!(ops[0].payload, vec![0xAA, 0xBB]);
}
