use yuffie::hii::forms::{parse_statement, IfrData, IfrDefault, IfrEqIdValList, IfrForm,
    IfrFormSet, IfrNumeric, IfrOneOfOption, IfrStatement, IfrTypeValue, IfrVarStore, OpHeader,
    OpCode, HiiDate};
use yuffie::hii::ifr::IfrOp;
use yuffie::error::Error;
use yuffie::guid::Guid;

#[test]
fn op_header_bit_fields() {
    let h = OpHeader { OpCode: OpCode(0x0A), ScopeAndLength: 0x86 };
    assert_eq!(h.scope(), 1);
    assert_eq!(h.length(), 6);
    let plain = OpHeader { OpCode: OpCode(0x28), ScopeAndLength: 0x02 };
    assert_eq!(plain.scope(), 0);
    assert_eq!(plain.length(), 2);
}

#[test]
fn form_record_round_trips() {
    let form = IfrForm::parse(&[0x01, 0x00, 0x34, 0x12]).unwrap();
    assert_eq!(form.FormId, 1);
    assert_eq!(form.FormTitle, 0x1234);
    assert_eq!(form.encode(), vec![0x01, 0x00, 0x34, 0x12]);
    assert_eq!(IfrForm::parse(&[0x01, 0x00, 0x34]), Err(Error::TruncatedBuffer));
    assert_eq!(IfrForm::parse(&[0x01, 0x00, 0x34, 0x12, 0x00]), Err(Error::LengthMismatch));
}

#[test]
fn numeric_width_follows_flags() {
    // a question header (11 bytes), flags selecting 16-bit, then min/max/step
    let mut payload = vec![0x10, 0x00, 0x11, 0x00, 0x01, 0x00, 0x02, 0x00, 0x00, 0x00, 0x00];
    payload.push(0x01); // flags: NUMERIC_SIZE_2
    payload.extend_from_slice(&[0x00, 0x00, 0xFF, 0x00, 0x01, 0x00]);
    let numeric = IfrNumeric::parse(&payload).unwrap();
    match numeric.Data {
        IfrData::U16(d) => {
            assert_eq!(d.MinValue, 0);
            assert_eq!(d.MaxValue, 0xFF);
            assert_eq!(d.Step, 1);
        },
        _ => panic!("wrong width"),
    }
    assert_eq!(numeric.encode(), payload);
    // the same payload with 32-bit flags no longer fits
    payload[11] = 0x02;
    assert!(IfrNumeric::parse(&payload).is_err());
}

#[test]
fn one_of_option_carries_typed_value() {
    // option text 5, flags 0, type DATE, then year 2024, month 6, day 1
    let payload = [0x05, 0x00, 0x00, 0x06, 0xE8, 0x07, 0x06, 0x01];
    let option = IfrOneOfOption::parse(&payload).unwrap();
    assert_eq!(option.Type, 0x06);
    assert_eq!(
        option.Value,
        IfrTypeValue::Date(HiiDate { Year: 2024, Month: 6, Day: 1 })
    );
    assert_eq!(option.encode(), payload.to_vec());
}

#[test]
fn default_value_buffer_takes_the_rest() {
    let payload = [0x00, 0x00, 0x0B, 0xDE, 0xAD, 0xBE, 0xEF];
    let default = IfrDefault::parse(&payload).unwrap();
    assert_eq!(default.Value, IfrTypeValue::Buffer(vec![0xDE, 0xAD, 0xBE, 0xEF]));
    assert_eq!(default.encode(), payload.to_vec());
}

#[test]
fn typed_value_must_fill_exactly() {
    // type U16 with three value bytes
    assert!(IfrDefault::parse(&[0x00, 0x00, 0x01, 0x01, 0x02, 0x03]).is_err());
    // unknown discriminant
    assert_eq!(
        IfrDefault::parse(&[0x00, 0x00, 0x08, 0x01]),
        Err(Error::UnknownBlockType)
    );
}

#[test]
fn eq_id_val_list_reads_its_count() {
    let payload = [0x07, 0x00, 0x02, 0x00, 0x0A, 0x00, 0x0B, 0x00];
    let list = IfrEqIdValList::parse(&payload).unwrap();
    assert_eq!(list.ListLength, 2);
    assert_eq!(list.ValueList, vec![0x0A, 0x0B]);
    assert_eq!(list.encode(), payload.to_vec());
    // declaring three values but carrying two is an error, never a
    // shorter list
    assert_eq!(
        IfrEqIdValList::parse(&[0x07, 0x00, 0x03, 0x00, 0x0A, 0x00, 0x0B, 0x00]),
        Err(Error::TruncatedBuffer)
    );
}

#[test]
fn form_set_collects_class_guids() {
    let mut payload = Vec::new();
    payload.extend_from_slice(&0x01020304u32.to_le_bytes());
    payload.extend_from_slice(&0x0506u16.to_le_bytes());
    payload.extend_from_slice(&0x0708u16.to_le_bytes());
    payload.extend_from_slice(&[9, 10, 11, 12, 13, 14, 15, 16]);
    payload.extend_from_slice(&[0x20, 0x00, 0x21, 0x00, 0x01]); // title, help, flags
    payload.extend_from_slice(&[0u8; 16]); // one nil class GUID
    let form_set = IfrFormSet::parse(&payload).unwrap();
    assert_eq!(
        form_set.Guid,
        Guid(0x01020304, 0x0506, 0x0708, [9, 10, 11, 12, 13, 14, 15, 16])
    );
    assert_eq!(form_set.ClassGuid, vec![Guid::nil()]);
    assert_eq!(form_set.encode(), payload);
    // a ragged class GUID tail is rejected
    payload.push(0);
    assert!(IfrFormSet::parse(&payload).is_err());
}

#[test]
fn var_store_keeps_raw_name() {
    let mut payload = Vec::new();
    payload.extend_from_slice(&[0u8; 16]);
    payload.extend_from_slice(&[0x01, 0x00, 0x08, 0x00]);
    payload.extend_from_slice(b"Setup\0");
    let store = IfrVarStore::parse(&payload).unwrap();
    assert_eq!(store.VarStoreId, 1);
    assert_eq!(store.Size, 8);
    assert_eq!(store.Name, b"Setup\0".to_vec());
    assert_eq!(store.encode(), payload);
}

#[test]
fn statements_dispatch_by_tag() {
    let form = IfrOp { op: 0x01, open_scope: true, payload: vec![0x01, 0x00, 0x34, 0x12] };
    match parse_statement(&form).unwrap() {
        IfrStatement::Form(f) => assert_eq!(f.FormId, 1),
        other => panic!("wrong statement: {:?}", other),
    }
    let end = IfrOp { op: 0x29, open_scope: false, payload: vec![] };
    assert_eq!(parse_statement(&end).unwrap(), IfrStatement::Operator(OpCode(0x29)));
    let vendor = IfrOp { op: 0xF1, open_scope: false, payload: vec![0xAB] };
    assert_eq!(
        parse_statement(&vendor).unwrap(),
        IfrStatement::Unknown(0xF1, vec![0xAB])
    );
}

#[test]
fn known_tag_with_wrong_payload_is_fatal() {
    let bad = IfrOp { op: 0x01, open_scope: false, payload: vec![0x01, 0x00] };
    assert!(parse_statement(&bad).is_err());
    let operator_with_payload = IfrOp { op: 0x3A, open_scope: false, payload: vec![1] };
    assert!(parse_statement(&operator_with_payload).is_err());
}

#[test]
fn ref_and_action_forms_dispatch_by_size() {
    // a question header alone: the short ACTION and REF forms
    let q = vec![0x10, 0x00, 0x11, 0x00, 0x01, 0x00, 0x02, 0x00, 0x00, 0x00, 0x00];
    let action1 = IfrOp { op: 0x0C, open_scope: false, payload: q.clone() };
    assert!(matches!(
        parse_statement(&action1).unwrap(),
        IfrStatement::Action1(_)
    ));
    let ref5 = IfrOp { op: 0x0F, open_scope: false, payload: q.clone() };
    assert!(matches!(parse_statement(&ref5).unwrap(), IfrStatement::Ref5(_)));
    // with a form id appended it is the plain REF record
    let mut with_form = q.clone();
    with_form.extend_from_slice(&[0x03, 0x00]);
    let r = IfrOp { op: 0x0F, open_scope: false, payload: with_form };
    assert!(matches!(parse_statement(&r).unwrap(), IfrStatement::Ref(_)));
    // the bare question reference carries no payload at all
    let qr3 = IfrOp { op: 0x51, open_scope: false, payload: vec![] };
    assert!(matches!(
        parse_statement(&qr3).unwrap(),
        IfrStatement::QuestionRef3(_)
    ));
}
