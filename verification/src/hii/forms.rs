//! Forms package: the Internal Forms Representation (IFR) type tables.
//!
//! A forms package is a stream of variable-length opcode records; the
//! record layer itself (headers, scopes, expression arity) lives in
//! [`crate::hii::ifr`]. This module holds the opcode numbers and the typed
//! payload records, one per opcode, as the wire format tables give them:
//! every multi-byte field is little-endian and nothing is aligned.

use vstd::prelude::*;

use crate::bytes::lemma_u16s_bytes_snoc;
use crate::bytes::u16_le_bytes;
use crate::bytes::u16s_bytes;
use crate::bytes::u32_le_bytes;
use crate::bytes::u64_le_bytes;
use crate::bytes::Reader;
use crate::bytes::Writer;
use crate::error::Error;
use crate::guid::Guid;
use crate::hii::guid_le_bytes;
use crate::hii::ifr::IfrOp;

verus! {

/// IFR opcode encodings.
#[derive(Clone, Copy, Debug, PartialEq, Eq, Structural)]
pub struct OpCode(pub u8);

impl OpCode {
    pub const FORM: u8 = 0x01;
    pub const SUBTITLE: u8 = 0x02;
    pub const TEXT: u8 = 0x03;
    pub const IMAGE: u8 = 0x04;
    pub const ONE_OF: u8 = 0x05;
    pub const CHECKBOX: u8 = 0x06;
    pub const NUMERIC: u8 = 0x07;
    pub const PASSWORD: u8 = 0x08;
    pub const ONE_OF_OPTION: u8 = 0x09;
    pub const SUPPRESS_IF: u8 = 0x0A;
    pub const LOCKED: u8 = 0x0B;
    pub const ACTION: u8 = 0x0C;
    pub const RESET_BUTTON: u8 = 0x0D;
    pub const FORM_SET: u8 = 0x0E;
    pub const REF: u8 = 0x0F;
    pub const NO_SUBMIT_IF: u8 = 0x10;
    pub const INCONSISTENT_IF: u8 = 0x11;
    pub const EQ_ID_VAL: u8 = 0x12;
    pub const EQ_ID_ID: u8 = 0x13;
    pub const EQ_ID_VAL_LIST: u8 = 0x14;
    pub const AND: u8 = 0x15;
    pub const OR: u8 = 0x16;
    pub const NOT: u8 = 0x17;
    pub const RULE: u8 = 0x18;
    pub const GRAY_OUT_IF: u8 = 0x19;
    pub const DATE: u8 = 0x1A;
    pub const TIME: u8 = 0x1B;
    pub const STRING: u8 = 0x1C;
    pub const REFRESH: u8 = 0x1D;
    pub const DISABLE_IF: u8 = 0x1E;
    pub const ANIMATION: u8 = 0x1F;
    pub const TO_LOWER: u8 = 0x20;
    pub const TO_UPPER: u8 = 0x21;
    pub const MAP: u8 = 0x22;
    pub const ORDERED_LIST: u8 = 0x23;
    pub const VARSTORE: u8 = 0x24;
    pub const VARSTORE_NAME_VALUE: u8 = 0x25;
    pub const VARSTORE_EFI: u8 = 0x26;
    pub const VARSTORE_DEVICE: u8 = 0x27;
    pub const VERSION: u8 = 0x28;
    pub const END: u8 = 0x29;
    pub const MATCH: u8 = 0x2A;
    pub const GET: u8 = 0x2B;
    pub const SET: u8 = 0x2C;
    pub const READ: u8 = 0x2D;
    pub const WRITE: u8 = 0x2E;
    pub const EQUAL: u8 = 0x2F;
    pub const NOT_EQUAL: u8 = 0x30;
    pub const GREATER_THAN: u8 = 0x31;
    pub const GREATER_EQUAL: u8 = 0x32;
    pub const LESS_THAN: u8 = 0x33;
    pub const LESS_EQUAL: u8 = 0x34;
    pub const BITWISE_AND: u8 = 0x35;
    pub const BITWISE_OR: u8 = 0x36;
    pub const BITWISE_NOT: u8 = 0x37;
    pub const SHIFT_LEFT: u8 = 0x38;
    pub const SHIFT_RIGHT: u8 = 0x39;
    pub const ADD: u8 = 0x3A;
    pub const SUBSTRACT: u8 = 0x3B;
    pub const MULTIPLY: u8 = 0x3C;
    pub const DIVIDE: u8 = 0x3D;
    pub const MODULO: u8 = 0x3E;
    pub const RULE_REF: u8 = 0x3F;
    pub const QUESTION_REF1: u8 = 0x40;
    pub const QUESTION_REF2: u8 = 0x41;
    pub const UINT8: u8 = 0x42;
    pub const UINT16: u8 = 0x43;
    pub const UINT32: u8 = 0x44;
    pub const UINT64: u8 = 0x45;
    pub const TRUE: u8 = 0x46;
    pub const FALSE: u8 = 0x47;
    pub const TO_UINT: u8 = 0x48;
    pub const TO_STRING: u8 = 0x49;
    pub const TO_BOOLEAN: u8 = 0x4A;
    pub const MID: u8 = 0x4B;
    pub const FIND: u8 = 0x4C;
    pub const TOKEN: u8 = 0x4D;
    pub const STRING_REF1: u8 = 0x4E;
    pub const STRING_REF2: u8 = 0x4F;
    pub const CONDITIONAL: u8 = 0x50;
    pub const QUESTION_REF3: u8 = 0x51;
    pub const ZERO: u8 = 0x52;
    pub const ONE: u8 = 0x53;
    pub const ONES: u8 = 0x54;
    pub const UNDEFINED: u8 = 0x55;
    pub const LENGTH: u8 = 0x56;
    pub const DUP: u8 = 0x57;
    pub const THIS: u8 = 0x58;
    pub const SPAN: u8 = 0x59;
    pub const VALUE: u8 = 0x5A;
    pub const DEFAULT: u8 = 0x5B;
    pub const DEFAULTSTORE: u8 = 0x5C;
    pub const FORM_MAP: u8 = 0x5D;
    pub const CATENATE: u8 = 0x5E;
    pub const GUID: u8 = 0x5F;
    pub const SECURITY: u8 = 0x60;
    pub const MODAL_TAG: u8 = 0x61;
    pub const REFRESH_ID: u8 = 0x62;
    pub const WARNING: u8 = 0x63;
    pub const MATCH2: u8 = 0x64;
}

/// `EFI_IFR_OP_HEADER`: one tag byte, then the scope bit over a 7-bit
/// length that counts the whole record, header included.
#[derive(Clone, Copy, Debug, PartialEq, Eq, Structural)]
pub struct OpHeader {
    /// Type of operation this header describes.
    pub OpCode: OpCode,
    pub ScopeAndLength: u8,
}

impl OpHeader {
    /// Whether the opcode begins a new scope: bit 7.
    pub fn scope(&self) -> (r: u8)
        ensures
            r == (self.ScopeAndLength >> 7) & 0x1,
    {
        (self.ScopeAndLength >> 7) & 0x1
    }

    /// The number of bytes in the opcode, including this header: bits 0..7.
    pub fn length(&self) -> (r: u8)
        ensures
            r == self.ScopeAndLength & 0x7F,
    {
        self.ScopeAndLength & 0x7F
    }
}

/// `EFI_HII_TIME`
#[derive(Clone, Copy, Debug, PartialEq, Eq, Structural)]
pub struct HiiTime {
    pub Hour: u8,
    pub Minute: u8,
    pub Seconds: u8,
}

/// `EFI_HII_DATE`
#[derive(Clone, Copy, Debug, PartialEq, Eq, Structural)]
pub struct HiiDate {
    pub Year: u16,
    pub Month: u8,
    pub Day: u8,
}

/// `EFI_HII_REF`
#[derive(Clone, Copy, Debug, PartialEq, Eq)]
pub struct HiiRef {
    pub QuestionId: u16,
    pub FormId: u16,
    pub FormsetGuid: Guid,
    pub DevicePath: u16,
}

/// `EFI_IFR_TYPE_VALUE`, read as the tagged union its adjacent type byte
/// selects; the discriminant is committed to before the payload is read.
#[derive(Clone, Debug, PartialEq, Eq)]
pub enum IfrTypeValue {
    U8(u8),
    U16(u16),
    U32(u32),
    U64(u64),
    Bool(u8),
    Time(HiiTime),
    Date(HiiDate),
    StringId(u16),
    Ref(HiiRef),
    Buffer(Vec<u8>),
}

/// `EFI_IFR_STATEMENT_HEADER`
#[derive(Clone, Copy, Debug, PartialEq, Eq, Structural)]
pub struct StatementHeader {
    pub Prompt: u16,
    pub Help: u16,
}

/// Question flag bits.
#[derive(Clone, Copy, Debug, PartialEq, Eq, Structural)]
pub struct QuestionFlags(pub u8);

impl QuestionFlags {
    pub const READ_ONLY: u8 = 1;
    pub const CALLBACK: u8 = 4;
    pub const RESET_REQUIRED: u8 = 16;
    pub const REST_STYLE: u8 = 32;
    pub const RECONNECT_REQUIRED: u8 = 64;
    pub const OPTIONS_ONLY: u8 = 128;
}

/// `EFI_IFR_QUESTION_HEADER`: the statement header and the question's
/// identifiers. The two bytes of `VarStoreInfo` are a name id or an offset
/// depending on the variable store the question names; they are preserved,
/// not interpreted.
#[derive(Clone, Copy, Debug, PartialEq, Eq, Structural)]
pub struct QuestionHeader {
    pub Header: StatementHeader,
    pub QuestionId: u16,
    pub VarStoreId: u16,
    pub VarStoreInfo: u16,
    pub Flags: QuestionFlags,
}

#[derive(Clone, Copy, Debug, PartialEq, Eq, Structural)]
pub struct IfrU8Data {
    pub MinValue: u8,
    pub MaxValue: u8,
    pub Step: u8,
}

#[derive(Clone, Copy, Debug, PartialEq, Eq, Structural)]
pub struct IfrU16Data {
    pub MinValue: u16,
    pub MaxValue: u16,
    pub Step: u16,
}

#[derive(Clone, Copy, Debug, PartialEq, Eq, Structural)]
pub struct IfrU32Data {
    pub MinValue: u32,
    pub MaxValue: u32,
    pub Step: u32,
}

#[derive(Clone, Copy, Debug, PartialEq, Eq, Structural)]
pub struct IfrU64Data {
    pub MinValue: u64,
    pub MaxValue: u64,
    pub Step: u64,
}

/// The numeric-range union of `NUMERIC` and `ONE_OF`, selected by the low
/// two bits of the flags byte.
#[derive(Clone, Copy, Debug, PartialEq, Eq)]
pub enum IfrData {
    U8(IfrU8Data),
    U16(IfrU16Data),
    U32(IfrU32Data),
    U64(IfrU64Data),
}

/// `EFI_IFR_ACTION`
#[derive(Clone, Copy, Debug, PartialEq, Eq)]
pub struct IfrAction {
    pub Question: QuestionHeader,
    pub QuestionConfig: u16,
}

/// `EFI_IFR_ACTION1`
#[derive(Clone, Copy, Debug, PartialEq, Eq)]
pub struct IfrAction1 {
    pub Question: QuestionHeader,
}

/// `EFI_IFR_ANIMATION`
#[derive(Clone, Copy, Debug, PartialEq, Eq)]
pub struct IfrAnimation {
    pub Id: u16,
}

/// `EFI_IFR_ADD`
#[derive(Clone, Copy, Debug, PartialEq, Eq)]
pub struct IfrAdd {}

/// `EFI_IFR_AND`
#[derive(Clone, Copy, Debug, PartialEq, Eq)]
pub struct IfrAnd {}

/// `EFI_IFR_BITWISE_AND`
#[derive(Clone, Copy, Debug, PartialEq, Eq)]
pub struct IfrBitwiseAnd {}

/// `EFI_IFR_BITWISE_NOT`
#[derive(Clone, Copy, Debug, PartialEq, Eq)]
pub struct IfrBitwiseNot {}

/// `EFI_IFR_BITWISE_OR`
#[derive(Clone, Copy, Debug, PartialEq, Eq)]
pub struct IfrBitwiseOr {}

/// `EFI_IFR_CATENATE`
#[derive(Clone, Copy, Debug, PartialEq, Eq)]
pub struct IfrCatenate {}

/// `EFI_IFR_CHECKBOX`
#[derive(Clone, Copy, Debug, PartialEq, Eq)]
pub struct IfrCheckbox {
    pub Question: QuestionHeader,
    pub Flags: u8,
}

/// `EFI_IFR_CONDITIONAL`
#[derive(Clone, Copy, Debug, PartialEq, Eq)]
pub struct IfrConditional {}

/// `EFI_IFR_DATE`
#[derive(Clone, Copy, Debug, PartialEq, Eq)]
pub struct IfrDate {
    pub Question: QuestionHeader,
    pub Flags: u8,
}

/// `EFI_IFR_DEFAULT`
#[derive(Clone, Debug, PartialEq, Eq)]
pub struct IfrDefault {
    pub DefaultId: u16,
    pub Type: u8,
    pub Value: IfrTypeValue,
}

/// `EFI_IFR_DEFAULT2`
#[derive(Clone, Copy, Debug, PartialEq, Eq)]
pub struct IfrDefault2 {
    pub DefaultId: u16,
    pub Type: u8,
}

/// `EFI_IFR_DEFAULTSTORE`
#[derive(Clone, Copy, Debug, PartialEq, Eq)]
pub struct IfrDefaultStore {
    pub DefaultName: u16,
    pub DefaultId: u16,
}

/// `EFI_IFR_DISABLE_IF`
#[derive(Clone, Copy, Debug, PartialEq, Eq)]
pub struct IfrDisableIf {}

/// `EFI_IFR_DIVIDE`
#[derive(Clone, Copy, Debug, PartialEq, Eq)]
pub struct IfrDivide {}

/// `EFI_IFR_DUP`
#[derive(Clone, Copy, Debug, PartialEq, Eq)]
pub struct IfrDup {}

/// `EFI_IFR_END`
#[derive(Clone, Copy, Debug, PartialEq, Eq)]
pub struct IfrEnd {}

/// `EFI_IFR_EQUAL`
#[derive(Clone, Copy, Debug, PartialEq, Eq)]
pub struct IfrEqual {}

/// `EFI_IFR_EQ_ID_ID`
#[derive(Clone, Copy, Debug, PartialEq, Eq)]
pub struct IfrEqIdId {}

/// `EFI_IFR_EQ_ID_VAL_LIST`
#[derive(Clone, Debug, PartialEq, Eq)]
pub struct IfrEqIdValList {
    pub QuestionId: u16,
    pub ListLength: u16,
    pub ValueList: Vec<u16>,
}

/// `EFI_IFR_EQ_ID_VAL`
#[derive(Clone, Copy, Debug, PartialEq, Eq)]
pub struct IfrEqIdVal {
    pub QuestionId: u16,
    pub Value: u16,
}

/// `EFI_IFR_FALSE`
#[derive(Clone, Copy, Debug, PartialEq, Eq)]
pub struct IfrFalse {}

/// `EFI_IFR_FIND`
#[derive(Clone, Copy, Debug, PartialEq, Eq)]
pub struct IfrFind {
    pub Format: u8,
}

/// `EFI_IFR_FORM`
#[derive(Clone, Copy, Debug, PartialEq, Eq)]
pub struct IfrForm {
    pub FormId: u16,
    pub FormTitle: u16,
}

/// `EFI_IFR_FORM_MAP_METHOD`
#[derive(Clone, Copy, Debug, PartialEq, Eq)]
pub struct IfrFormMapMethod {
    pub MethodTitle: u16,
    pub MethodIdentifier: Guid,
}

/// `EFI_IFR_FORM_MAP`
#[derive(Clone, Debug, PartialEq, Eq)]
pub struct IfrFormMap {
    pub FormId: u16,
    pub Methods: Vec<IfrFormMapMethod>,
}

/// `EFI_IFR_FORM_SET`
#[derive(Clone, Debug, PartialEq, Eq)]
pub struct IfrFormSet {
    pub Guid: Guid,
    pub FormSetTitle: u16,
    pub Help: u16,
    pub Flags: u8,
    pub ClassGuid: Vec<Guid>,
}

/// `EFI_IFR_GET`
#[derive(Clone, Copy, Debug, PartialEq, Eq)]
pub struct IfrGet {
    pub VarStoreId: u16,
    pub VarStoreInfo: u16,
    pub VarStoreType: u8,
}

/// `EFI_IFR_GRAY_OUT_IF`
#[derive(Clone, Copy, Debug, PartialEq, Eq)]
pub struct IfrGrayOutIf {}

/// `EFI_IFR_GREATER_EQUAL`
#[derive(Clone, Copy, Debug, PartialEq, Eq)]
pub struct IfrGreaterEqual {}

/// `EFI_IFR_GREATER_THAN`
#[derive(Clone, Copy, Debug, PartialEq, Eq)]
pub struct IfrGreaterThan {}

/// `EFI_IFR_GUID`
#[derive(Clone, Debug, PartialEq, Eq)]
pub struct IfrGuid {
    pub Guid: Guid,
    /// Whatever GUID-specific data follows the identifier.
    pub Data: Vec<u8>,
}

/// `EFI_IFR_IMAGE`
#[derive(Clone, Copy, Debug, PartialEq, Eq)]
pub struct IfrImage {
    pub Id: u16,
}

/// `EFI_IFR_INCONSISTENT_IF`
#[derive(Clone, Copy, Debug, PartialEq, Eq)]
pub struct IfrInconsistentIf {
    pub Error: u16,
}

/// `EFI_IFR_LENGTH`
#[derive(Clone, Copy, Debug, PartialEq, Eq)]
pub struct IfrLength {}

/// `EFI_IFR_LESS_EQUAL`
#[derive(Clone, Copy, Debug, PartialEq, Eq)]
pub struct IfrLessEqual {}

/// `EFI_IFR_LESS_THAN`
#[derive(Clone, Copy, Debug, PartialEq, Eq)]
pub struct IfrLessThan {}

/// `EFI_IFR_LOCKED`
#[derive(Clone, Copy, Debug, PartialEq, Eq)]
pub struct IfrLocked {}

/// `EFI_IFR_MAP`
#[derive(Clone, Copy, Debug, PartialEq, Eq)]
pub struct IfrMap {}

/// `EFI_IFR_MATCH`
#[derive(Clone, Copy, Debug, PartialEq, Eq)]
pub struct IfrMatch {}

/// `EFI_IFR_MID`
#[derive(Clone, Copy, Debug, PartialEq, Eq)]
pub struct IfrMid {}

/// `EFI_IFR_MODAL_TAG`
#[derive(Clone, Copy, Debug, PartialEq, Eq)]
pub struct IfrModalTag {}

/// `EFI_IFR_MODULO`
#[derive(Clone, Copy, Debug, PartialEq, Eq)]
pub struct IfrModulo {}

/// `EFI_IFR_MULTIPLY`
#[derive(Clone, Copy, Debug, PartialEq, Eq)]
pub struct IfrMultiply {}

/// `EFI_IFR_NOT`
#[derive(Clone, Copy, Debug, PartialEq, Eq)]
pub struct IfrNot {}

/// `EFI_IFR_NOT_EQUAL`
#[derive(Clone, Copy, Debug, PartialEq, Eq)]
pub struct IfrNotEqual {}

/// `EFI_IFR_NO_SUBMIT_IF`
#[derive(Clone, Copy, Debug, PartialEq, Eq)]
pub struct IfrNoSubmitIf {
    pub Error: u16,
}

/// `EFI_IFR_NUMERIC`
#[derive(Clone, Copy, Debug, PartialEq, Eq)]
pub struct IfrNumeric {
    pub Question: QuestionHeader,
    pub Flags: u8,
    pub Data: IfrData,
}

/// `EFI_IFR_ONE`
#[derive(Clone, Copy, Debug, PartialEq, Eq)]
pub struct IfrOne {}

/// `EFI_IFR_ONES`
#[derive(Clone, Copy, Debug, PartialEq, Eq)]
pub struct IfrOnes {}

/// `EFI_IFR_ONE_OF`
#[derive(Clone, Copy, Debug, PartialEq, Eq)]
pub struct IfrOneOf {
    pub Question: QuestionHeader,
    pub Flags: u8,
    pub Data: IfrData,
}

/// `EFI_IFR_ONE_OF_OPTION`
#[derive(Clone, Debug, PartialEq, Eq)]
pub struct IfrOneOfOption {
    pub Option: u16,
    pub Flags: u8,
    pub Type: u8,
    pub Value: IfrTypeValue,
}

/// `EFI_IFR_OR`
#[derive(Clone, Copy, Debug, PartialEq, Eq)]
pub struct IfrOr {}

/// `EFI_IFR_ORDERED_LIST`
#[derive(Clone, Copy, Debug, PartialEq, Eq)]
pub struct IfrOrderedList {
    pub Question: QuestionHeader,
    pub MaxContainers: u8,
    pub Flags: u8,
}

/// `EFI_IFR_PASSWORD`
#[derive(Clone, Copy, Debug, PartialEq, Eq)]
pub struct IfrPassword {
    pub Question: QuestionHeader,
    pub MinSize: u16,
    pub MaxSize: u16,
}

/// `EFI_IFR_QUESTION_REF1`
#[derive(Clone, Copy, Debug, PartialEq, Eq)]
pub struct IfrQuestionRef1 {
    pub QuestionId: u16,
}

/// `EFI_IFR_QUESTION_REF2`
#[derive(Clone, Copy, Debug, PartialEq, Eq)]
pub struct IfrQuestionRef2 {}

/// `EFI_IFR_QUESTION_REF3`
#[derive(Clone, Copy, Debug, PartialEq, Eq)]
pub struct IfrQuestionRef3 {}

/// `EFI_IFR_QUESTION_REF3_2`
#[derive(Clone, Copy, Debug, PartialEq, Eq)]
pub struct IfrQuestionRef3_2 {
    pub DevicePath: u16,
}

/// `EFI_IFR_QUESTION_REF3_3`
#[derive(Clone, Copy, Debug, PartialEq, Eq)]
pub struct IfrQuestionRef3_3 {
    pub DevicePath: u16,
    pub Guid: Guid,
}

/// `EFI_IFR_READ`
#[derive(Clone, Copy, Debug, PartialEq, Eq)]
pub struct IfrRead {}

/// `EFI_IFR_REF`
#[derive(Clone, Copy, Debug, PartialEq, Eq)]
pub struct IfrRef {
    pub Question: QuestionHeader,
    pub FormId: u16,
}

/// `EFI_IFR_REF2`
#[derive(Clone, Copy, Debug, PartialEq, Eq)]
pub struct IfrRef2 {
    pub Question: QuestionHeader,
    pub FormId: u16,
    pub QuestionId: u16,
}

/// `EFI_IFR_REF3`
#[derive(Clone, Copy, Debug, PartialEq, Eq)]
pub struct IfrRef3 {
    pub Question: QuestionHeader,
    pub FormId: u16,
    pub QuestionId: u16,
    pub FormSetId: Guid,
}

/// `EFI_IFR_REF4`
#[derive(Clone, Copy, Debug, PartialEq, Eq)]
pub struct IfrRef4 {
    pub Question: QuestionHeader,
    pub FormId: u16,
    pub QuestionId: u16,
    pub FormSetId: Guid,
    pub DevicePath: u16,
}

/// `EFI_IFR_REF5`
#[derive(Clone, Copy, Debug, PartialEq, Eq)]
pub struct IfrRef5 {
    pub Question: QuestionHeader,
}

/// `EFI_IFR_REFRESH`
#[derive(Clone, Copy, Debug, PartialEq, Eq)]
pub struct IfrRefresh {
    pub RefreshInterval: u8,
}

/// `EFI_IFR_REFRESH_ID`
#[derive(Clone, Copy, Debug, PartialEq, Eq)]
pub struct IfrRefreshId {
    pub RefreshEventGroupId: Guid,
}

/// `EFI_IFR_RESET_BUTTON`
#[derive(Clone, Copy, Debug, PartialEq, Eq)]
pub struct IfrResetButton {
    pub Statement: StatementHeader,
    pub DefaultId: u16,
}

/// `EFI_IFR_RULE`
#[derive(Clone, Copy, Debug, PartialEq, Eq)]
pub struct IfrRule {
    pub RuleId: u8,
}

/// `EFI_IFR_RULE_REF`
#[derive(Clone, Copy, Debug, PartialEq, Eq)]
pub struct IfrRuleRef {
    pub RuleId: u8,
}

/// `EFI_IFR_SECURITY`
#[derive(Clone, Copy, Debug, PartialEq, Eq)]
pub struct IfrSecurity {
    pub Permissions: Guid,
}

/// `EFI_IFR_SET`
#[derive(Clone, Copy, Debug, PartialEq, Eq)]
pub struct IfrSet {
    pub VarStoreId: u16,
    pub VarStoreInfo: u16,
    pub VarStoreType: u8,
}

/// `EFI_IFR_SHIFT_LEFT`
#[derive(Clone, Copy, Debug, PartialEq, Eq)]
pub struct IfrShiftLeft {}

/// `EFI_IFR_SHIFT_RIGHT`
#[derive(Clone, Copy, Debug, PartialEq, Eq)]
pub struct IfrShiftRight {}

/// `EFI_IFR_SPAN`
#[derive(Clone, Copy, Debug, PartialEq, Eq)]
pub struct IfrSpan {
    pub Flags: u8,
}

/// `EFI_IFR_STRING`
#[derive(Clone, Copy, Debug, PartialEq, Eq)]
pub struct IfrString {
    pub Question: QuestionHeader,
    pub MinSize: u8,
    pub MaxSize: u8,
    pub Flags: u8,
}

/// `EFI_IFR_STRING_REF1`
#[derive(Clone, Copy, Debug, PartialEq, Eq)]
pub struct IfrStringRef1 {
    pub StringId: u16,
}

/// `EFI_IFR_STRING_REF2`
#[derive(Clone, Copy, Debug, PartialEq, Eq)]
pub struct IfrStringRef2 {}

/// `EFI_IFR_SUBTITLE`
#[derive(Clone, Copy, Debug, PartialEq, Eq)]
pub struct IfrSubtitle {
    pub Statement: StatementHeader,
    pub Flags: u8,
}

/// `EFI_IFR_SUBTRACT`
#[derive(Clone, Copy, Debug, PartialEq, Eq)]
pub struct IfrSubtract {}

/// `EFI_IFR_SUPPRESS_IF`
#[derive(Clone, Copy, Debug, PartialEq, Eq)]
pub struct IfrSuprressIf {}

/// `EFI_IFR_TEXT`
#[derive(Clone, Copy, Debug, PartialEq, Eq)]
pub struct IfrText {
    pub Statement: StatementHeader,
    pub TextTwo: u16,
}

/// `EFI_IFR_THIS`
#[derive(Clone, Copy, Debug, PartialEq, Eq)]
pub struct IfrThis {}

/// `EFI_IFR_TIME`
#[derive(Clone, Copy, Debug, PartialEq, Eq)]
pub struct IfrTime {
    pub Question: QuestionHeader,
    pub Flags: u8,
}

/// `EFI_IFR_TOKEN`
#[derive(Clone, Copy, Debug, PartialEq, Eq)]
pub struct IfrToken {}

/// `EFI_IFR_TO_BOOLEAN`
#[derive(Clone, Copy, Debug, PartialEq, Eq)]
pub struct IfrToBoolean {}

/// `EFI_IFR_TO_LOWER`
#[derive(Clone, Copy, Debug, PartialEq, Eq)]
pub struct IfrToLower {}

/// `EFI_IFR_TO_STRING`
#[derive(Clone, Copy, Debug, PartialEq, Eq)]
pub struct IfrToString {
    pub Format: u8,
}

/// `EFI_IFR_TO_UINT`
#[derive(Clone, Copy, Debug, PartialEq, Eq)]
pub struct IfrToUint {}

/// `EFI_IFR_TO_UPPER`
#[derive(Clone, Copy, Debug, PartialEq, Eq)]
pub struct IfrToUpper {}

/// `EFI_IFR_TRUE`
#[derive(Clone, Copy, Debug, PartialEq, Eq)]
pub struct IfrTrue {}

/// `EFI_IFR_UINT8`
#[derive(Clone, Copy, Debug, PartialEq, Eq)]
pub struct IfrUint8 {
    pub Value: u8,
}

/// `EFI_IFR_UINT16`
#[derive(Clone, Copy, Debug, PartialEq, Eq)]
pub struct IfrUint16 {
    pub Value: u16,
}

/// `EFI_IFR_UINT32`
#[derive(Clone, Copy, Debug, PartialEq, Eq)]
pub struct IfrUint32 {
    pub Value: u32,
}

/// `EFI_IFR_UINT64`
#[derive(Clone, Copy, Debug, PartialEq, Eq)]
pub struct IfrUint64 {
    pub Value: u64,
}

/// `EFI_IFR_UNDEFINED`
#[derive(Clone, Copy, Debug, PartialEq, Eq)]
pub struct IfrUndefined {}

/// `EFI_IFR_VALUE`
#[derive(Clone, Copy, Debug, PartialEq, Eq)]
pub struct IfrValue {}

/// `EFI_IFR_VARSTORE`: the name bytes are kept raw, terminator included.
#[derive(Clone, Debug, PartialEq, Eq)]
pub struct IfrVarStore {
    pub Guid: Guid,
    pub VarStoreId: u16,
    pub Size: u16,
    pub Name: Vec<u8>,
}

/// `EFI_IFR_VARSTORE_NAME_VALUE`
#[derive(Clone, Copy, Debug, PartialEq, Eq)]
pub struct IfrVarStoreNameValue {
    pub VarStoreId: u16,
    pub Guid: Guid,
}

/// `EFI_IFR_VARSTORE_EFI`: the name bytes are kept raw, terminator
/// included.
#[derive(Clone, Debug, PartialEq, Eq)]
pub struct IfrVarStoreEfi {
    pub VarStoreId: u16,
    pub Guid: Guid,
    pub Attributes: u32,
    pub Size: u16,
    pub Name: Vec<u8>,
}

/// `EFI_IFR_VARSTORE_DEVICE`
#[derive(Clone, Copy, Debug, PartialEq, Eq)]
pub struct IfrVarStoreDevice {
    pub DevicePath: u16,
}

/// `EFI_IFR_VERSION`
#[derive(Clone, Copy, Debug, PartialEq, Eq)]
pub struct IfrVersion {}

/// `EFI_IFR_WRITE`
#[derive(Clone, Copy, Debug, PartialEq, Eq)]
pub struct IfrWrite {}

/// `EFI_IFR_ZERO`
#[derive(Clone, Copy, Debug, PartialEq, Eq)]
pub struct IfrZero {}

/// `EFI_IFR_WARNING_IF`
#[derive(Clone, Copy, Debug, PartialEq, Eq)]
pub struct IfrWarningIf {
    pub Warning: u16,
    pub TimeOut: u8,
}

/// `EFI_IFR_MATCH2`
#[derive(Clone, Copy, Debug, PartialEq, Eq)]
pub struct IfrMatch2 {
    pub SyntaxType: Guid,
}


/// The wire bytes of a statement header.
pub open spec fn statement_header_bytes(h: StatementHeader) -> Seq<u8> {
    u16_le_bytes(h.Prompt) + u16_le_bytes(h.Help)
}

/// The wire bytes of a question header.
pub open spec fn question_header_bytes(q: QuestionHeader) -> Seq<u8> {
    statement_header_bytes(q.Header) + u16_le_bytes(q.QuestionId) + u16_le_bytes(q.VarStoreId)
        + u16_le_bytes(q.VarStoreInfo) + seq![q.Flags.0]
}

/// The type byte each `IfrTypeValue` variant answers to.
pub open spec fn typed_value_tag(v: IfrTypeValue) -> u8 {
    match v {
        IfrTypeValue::U8(_) => 0x00,
        IfrTypeValue::U16(_) => 0x01,
        IfrTypeValue::U32(_) => 0x02,
        IfrTypeValue::U64(_) => 0x03,
        IfrTypeValue::Bool(_) => 0x04,
        IfrTypeValue::Time(_) => 0x05,
        IfrTypeValue::Date(_) => 0x06,
        IfrTypeValue::StringId(_) => 0x07,
        IfrTypeValue::Ref(_) => 0x0C,
        IfrTypeValue::Buffer(_) => 0x0B,
    }
}

/// The wire bytes of a typed value, without its discriminant.
pub open spec fn typed_value_bytes(v: IfrTypeValue) -> Seq<u8> {
    match v {
        IfrTypeValue::U8(x) => seq![x],
        IfrTypeValue::U16(x) => u16_le_bytes(x),
        IfrTypeValue::U32(x) => u32_le_bytes(x),
        IfrTypeValue::U64(x) => u64_le_bytes(x),
        IfrTypeValue::Bool(x) => seq![x],
        IfrTypeValue::Time(t) => seq![t.Hour, t.Minute, t.Seconds],
        IfrTypeValue::Date(d) => u16_le_bytes(d.Year) + seq![d.Month, d.Day],
        IfrTypeValue::StringId(x) => u16_le_bytes(x),
        IfrTypeValue::Ref(r) => u16_le_bytes(r.QuestionId) + u16_le_bytes(r.FormId)
            + guid_le_bytes(r.FormsetGuid) + u16_le_bytes(r.DevicePath),
        IfrTypeValue::Buffer(b) => b@,
    }
}

/// Whether a typed value of discriminant `t` can fill exactly `n`
/// bytes.
pub open spec fn typed_value_fits(t: u8, n: int) -> bool {
    if t == 0x00 || t == 0x04 {
        n == 1
    } else if t == 0x01 || t == 0x07 {
        n == 2
    } else if t == 0x02 {
        n == 4
    } else if t == 0x03 {
        n == 8
    } else if t == 0x05 {
        n == 3
    } else if t == 0x06 {
        n == 4
    } else if t == 0x0C {
        n == 22
    } else if t == 0x0B {
        true
    } else {
        false
    }
}

/// The width selector in the low two bits of a `NUMERIC` or `ONE_OF`
/// flags byte.
pub open spec fn numeric_width(flags: u8) -> u8 {
    (flags & 0x3) as u8
}

/// Whether a numeric-range union of the width `flags` selects fills
/// exactly `n` bytes.
pub open spec fn ifr_data_fits(flags: u8, n: int) -> bool {
    if numeric_width(flags) == 0 {
        n == 3
    } else if numeric_width(flags) == 1 {
        n == 6
    } else if numeric_width(flags) == 2 {
        n == 12
    } else {
        n == 24
    }
}

/// The wire bytes of the numeric-range union.
pub open spec fn ifr_data_bytes(d: IfrData) -> Seq<u8> {
    match d {
        IfrData::U8(x) => seq![x.MinValue, x.MaxValue, x.Step],
        IfrData::U16(x) => u16_le_bytes(x.MinValue) + u16_le_bytes(x.MaxValue) + u16_le_bytes(
            x.Step,
        ),
        IfrData::U32(x) => u32_le_bytes(x.MinValue) + u32_le_bytes(x.MaxValue) + u32_le_bytes(
            x.Step,
        ),
        IfrData::U64(x) => u64_le_bytes(x.MinValue) + u64_le_bytes(x.MaxValue) + u64_le_bytes(
            x.Step,
        ),
    }
}

/// The width selector a numeric-range union answers to.
pub open spec fn ifr_data_width(d: IfrData) -> u8 {
    match d {
        IfrData::U8(_) => 0,
        IfrData::U16(_) => 1,
        IfrData::U32(_) => 2,
        IfrData::U64(_) => 3,
    }
}

/// Reads a statement header.
fn read_statement_header(rd: &mut Reader) -> (r: Result<StatementHeader, Error>)
    requires
        old(rd).wf(),
    ensures
        final(rd).wf(),
        final(rd).bytes() == old(rd).bytes(),
        r is Ok <==> old(rd).left() >= 4,
        r is Ok ==> final(rd).at() == old(rd).at() + 4 && statement_header_bytes(r->Ok_0) == old(
            rd,
        ).bytes().subrange(old(rd).at(), old(rd).at() + 4),
        r is Err ==> r->Err_0 == Error::TruncatedBuffer,
{
    if rd.remaining() < 4 {
        return Err(Error::TruncatedBuffer);
    }
    let prompt = match rd.read_u16() {
        Ok(v) => v,
        Err(e) => {
            return Err(e);
        },
    };
    let help = match rd.read_u16() {
        Ok(v) => v,
        Err(e) => {
            return Err(e);
        },
    };
    let h = StatementHeader { Prompt: prompt, Help: help };
    proof {
        assert(statement_header_bytes(h) =~= old(rd).bytes().subrange(
            old(rd).at(),
            old(rd).at() + 4,
        ));
    }
    Ok(h)
}

/// Writes a statement header.
fn write_statement_header(w: &mut Writer, h: &StatementHeader)
    ensures
        final(w).bytes() == old(w).bytes() + statement_header_bytes(*h),
{
    w.write_u16(h.Prompt);
    w.write_u16(h.Help);
    proof {
        assert(w.bytes() =~= old(w).bytes() + statement_header_bytes(*h));
    }
}

/// Reads a question header.
fn read_question_header(rd: &mut Reader) -> (r: Result<QuestionHeader, Error>)
    requires
        old(rd).wf(),
    ensures
        final(rd).wf(),
        final(rd).bytes() == old(rd).bytes(),
        r is Ok <==> old(rd).left() >= 11,
        r is Ok ==> final(rd).at() == old(rd).at() + 11 && question_header_bytes(r->Ok_0) == old(
            rd,
        ).bytes().subrange(old(rd).at(), old(rd).at() + 11),
        r is Err ==> r->Err_0 == Error::TruncatedBuffer,
{
    if rd.remaining() < 11 {
        return Err(Error::TruncatedBuffer);
    }
    let header = match read_statement_header(rd) {
        Ok(v) => v,
        Err(e) => {
            return Err(e);
        },
    };
    let qid = match rd.read_u16() {
        Ok(v) => v,
        Err(e) => {
            return Err(e);
        },
    };
    let vsid = match rd.read_u16() {
        Ok(v) => v,
        Err(e) => {
            return Err(e);
        },
    };
    let vsinfo = match rd.read_u16() {
        Ok(v) => v,
        Err(e) => {
            return Err(e);
        },
    };
    let flags = match rd.read_u8() {
        Ok(v) => v,
        Err(e) => {
            return Err(e);
        },
    };
    let q = QuestionHeader {
        Header: header,
        QuestionId: qid,
        VarStoreId: vsid,
        VarStoreInfo: vsinfo,
        Flags: QuestionFlags(flags),
    };
    proof {
        assert(question_header_bytes(q) =~= old(rd).bytes().subrange(
            old(rd).at(),
            old(rd).at() + 11,
        ));
    }
    Ok(q)
}

/// Writes a question header.
fn write_question_header(w: &mut Writer, q: &QuestionHeader)
    ensures
        final(w).bytes() == old(w).bytes() + question_header_bytes(*q),
{
    write_statement_header(w, &q.Header);
    w.write_u16(q.QuestionId);
    w.write_u16(q.VarStoreId);
    w.write_u16(q.VarStoreInfo);
    w.write_u8(q.Flags.0);
    proof {
        assert(w.bytes() =~= old(w).bytes() + question_header_bytes(*q));
    }
}

/// Reads a typed value: the discriminant byte `t` has been read already
/// and the value takes everything the reader still holds. Accepts
/// exactly a known discriminant whose value fills the rest; the value
/// re-encodes to the bytes read.
pub fn read_typed_value(t: u8, rd: &mut Reader) -> (r: Result<IfrTypeValue, Error>)
    requires
        old(rd).wf(),
    ensures
        final(rd).wf(),
        final(rd).bytes() == old(rd).bytes(),
        r is Ok <==> typed_value_fits(t, old(rd).left()),
        r is Ok ==> final(rd).left() == 0 && typed_value_tag(r->Ok_0) == t && typed_value_bytes(
            r->Ok_0,
        ) == old(rd).bytes().subrange(old(rd).at(), old(rd).bytes().len() as int),
{
    let ghost start = rd.at();
    let left = rd.remaining();
    if t == 0x00 || t == 0x04 {
        if left != 1 {
            return Err(Error::LengthMismatch);
        }
        let x = match rd.read_u8() {
            Ok(v) => v,
            Err(e) => {
                return Err(e);
            },
        };
        let v = if t == 0x00 {
            IfrTypeValue::U8(x)
        } else {
            IfrTypeValue::Bool(x)
        };
        proof {
            assert(typed_value_bytes(v) =~= old(rd).bytes().subrange(
                start,
                old(rd).bytes().len() as int,
            ));
        }
        Ok(v)
    } else if t == 0x01 || t == 0x07 {
        if left != 2 {
            return Err(Error::LengthMismatch);
        }
        let x = match rd.read_u16() {
            Ok(v) => v,
            Err(e) => {
                return Err(e);
            },
        };
        let v = if t == 0x01 {
            IfrTypeValue::U16(x)
        } else {
            IfrTypeValue::StringId(x)
        };
        proof {
            assert(typed_value_bytes(v) =~= old(rd).bytes().subrange(
                start,
                old(rd).bytes().len() as int,
            ));
        }
        Ok(v)
    } else if t == 0x02 {
        if left != 4 {
            return Err(Error::LengthMismatch);
        }
        let x = match rd.read_u32() {
            Ok(v) => v,
            Err(e) => {
                return Err(e);
            },
        };
        let v = IfrTypeValue::U32(x);
        proof {
            assert(typed_value_bytes(v) =~= old(rd).bytes().subrange(
                start,
                old(rd).bytes().len() as int,
            ));
        }
        Ok(v)
    } else if t == 0x03 {
        if left != 8 {
            return Err(Error::LengthMismatch);
        }
        let x = match rd.read_u64() {
            Ok(v) => v,
            Err(e) => {
                return Err(e);
            },
        };
        let v = IfrTypeValue::U64(x);
        proof {
            assert(typed_value_bytes(v) =~= old(rd).bytes().subrange(
                start,
                old(rd).bytes().len() as int,
            ));
        }
        Ok(v)
    } else if t == 0x05 {
        if left != 3 {
            return Err(Error::LengthMismatch);
        }
        let hour = match rd.read_u8() {
            Ok(v) => v,
            Err(e) => {
                return Err(e);
            },
        };
        let minute = match rd.read_u8() {
            Ok(v) => v,
            Err(e) => {
                return Err(e);
            },
        };
        let seconds = match rd.read_u8() {
            Ok(v) => v,
            Err(e) => {
                return Err(e);
            },
        };
        let v = IfrTypeValue::Time(HiiTime { Hour: hour, Minute: minute, Seconds: seconds });
        proof {
            assert(typed_value_bytes(v) =~= old(rd).bytes().subrange(
                start,
                old(rd).bytes().len() as int,
            ));
        }
        Ok(v)
    } else if t == 0x06 {
        if left != 4 {
            return Err(Error::LengthMismatch);
        }
        let year = match rd.read_u16() {
            Ok(v) => v,
            Err(e) => {
                return Err(e);
            },
        };
        let month = match rd.read_u8() {
            Ok(v) => v,
            Err(e) => {
                return Err(e);
            },
        };
        let day = match rd.read_u8() {
            Ok(v) => v,
            Err(e) => {
                return Err(e);
            },
        };
        let v = IfrTypeValue::Date(HiiDate { Year: year, Month: month, Day: day });
        proof {
            assert(typed_value_bytes(v) =~= old(rd).bytes().subrange(
                start,
                old(rd).bytes().len() as int,
            ));
        }
        Ok(v)
    } else if t == 0x0C {
        if left != 22 {
            return Err(Error::LengthMismatch);
        }
        let qid = match rd.read_u16() {
            Ok(v) => v,
            Err(e) => {
                return Err(e);
            },
        };
        let fid = match rd.read_u16() {
            Ok(v) => v,
            Err(e) => {
                return Err(e);
            },
        };
        let guid = match crate::hii::read_wire_guid(rd) {
            Ok(v) => v,
            Err(e) => {
                return Err(e);
            },
        };
        let dp = match rd.read_u16() {
            Ok(v) => v,
            Err(e) => {
                return Err(e);
            },
        };
        let v = IfrTypeValue::Ref(
            HiiRef { QuestionId: qid, FormId: fid, FormsetGuid: guid, DevicePath: dp },
        );
        proof {
            assert(typed_value_bytes(v) =~= old(rd).bytes().subrange(
                start,
                old(rd).bytes().len() as int,
            ));
        }
        Ok(v)
    } else if t == 0x0B {
        let n = rd.remaining();
        let b = match rd.read_bytes(n) {
            Ok(v) => v,
            Err(e) => {
                return Err(e);
            },
        };
        let v = IfrTypeValue::Buffer(b);
        proof {
            assert(typed_value_bytes(v) =~= old(rd).bytes().subrange(
                start,
                old(rd).bytes().len() as int,
            ));
        }
        Ok(v)
    } else {
        Err(Error::UnknownBlockType)
    }
}

/// Writes a typed value, without its discriminant.
pub fn write_typed_value(w: &mut Writer, v: &IfrTypeValue)
    ensures
        final(w).bytes() == old(w).bytes() + typed_value_bytes(*v),
{
    match v {
        IfrTypeValue::U8(x) => {
            w.write_u8(*x);
        },
        IfrTypeValue::U16(x) => {
            w.write_u16(*x);
        },
        IfrTypeValue::U32(x) => {
            w.write_u32(*x);
        },
        IfrTypeValue::U64(x) => {
            w.write_u64(*x);
        },
        IfrTypeValue::Bool(x) => {
            w.write_u8(*x);
        },
        IfrTypeValue::Time(t) => {
            w.write_u8(t.Hour);
            w.write_u8(t.Minute);
            w.write_u8(t.Seconds);
            proof {
                assert(w.bytes() =~= old(w).bytes() + typed_value_bytes(*v));
            }
        },
        IfrTypeValue::Date(d) => {
            w.write_u16(d.Year);
            w.write_u8(d.Month);
            w.write_u8(d.Day);
            proof {
                assert(w.bytes() =~= old(w).bytes() + typed_value_bytes(*v));
            }
        },
        IfrTypeValue::StringId(x) => {
            w.write_u16(*x);
        },
        IfrTypeValue::Ref(r) => {
            w.write_u16(r.QuestionId);
            w.write_u16(r.FormId);
            crate::hii::write_wire_guid(w, &r.FormsetGuid);
            w.write_u16(r.DevicePath);
            proof {
                assert(w.bytes() =~= old(w).bytes() + typed_value_bytes(*v));
            }
        },
        IfrTypeValue::Buffer(b) => {
            w.write_bytes(b.as_slice());
        },
    }
}

/// Reads the numeric-range union of the width the flags byte selects.
pub fn read_ifr_data(flags: u8, rd: &mut Reader) -> (r: Result<IfrData, Error>)
    requires
        old(rd).wf(),
    ensures
        final(rd).wf(),
        final(rd).bytes() == old(rd).bytes(),
        r is Ok <==> ifr_data_fits(flags, old(rd).left()),
        r is Ok ==> final(rd).left() == 0 && ifr_data_width(r->Ok_0) == numeric_width(flags)
            && ifr_data_bytes(r->Ok_0) == old(rd).bytes().subrange(
            old(rd).at(),
            old(rd).bytes().len() as int,
        ),
{
    let ghost start = rd.at();
    let w = flags & 0x3;
    let left = rd.remaining();
    if w == 0 {
        if left != 3 {
            return Err(Error::LengthMismatch);
        }
        let mn = match rd.read_u8() {
            Ok(v) => v,
            Err(e) => {
                return Err(e);
            },
        };
        let mx = match rd.read_u8() {
            Ok(v) => v,
            Err(e) => {
                return Err(e);
            },
        };
        let st = match rd.read_u8() {
            Ok(v) => v,
            Err(e) => {
                return Err(e);
            },
        };
        let d = IfrData::U8(IfrU8Data { MinValue: mn, MaxValue: mx, Step: st });
        proof {
            assert(ifr_data_bytes(d) =~= old(rd).bytes().subrange(
                start,
                old(rd).bytes().len() as int,
            ));
        }
        Ok(d)
    } else if w == 1 {
        if left != 6 {
            return Err(Error::LengthMismatch);
        }
        let mn = match rd.read_u16() {
            Ok(v) => v,
            Err(e) => {
                return Err(e);
            },
        };
        let mx = match rd.read_u16() {
            Ok(v) => v,
            Err(e) => {
                return Err(e);
            },
        };
        let st = match rd.read_u16() {
            Ok(v) => v,
            Err(e) => {
                return Err(e);
            },
        };
        let d = IfrData::U16(IfrU16Data { MinValue: mn, MaxValue: mx, Step: st });
        proof {
            assert(ifr_data_bytes(d) =~= old(rd).bytes().subrange(
                start,
                old(rd).bytes().len() as int,
            ));
        }
        Ok(d)
    } else if w == 2 {
        if left != 12 {
            return Err(Error::LengthMismatch);
        }
        let mn = match rd.read_u32() {
            Ok(v) => v,
            Err(e) => {
                return Err(e);
            },
        };
        let mx = match rd.read_u32() {
            Ok(v) => v,
            Err(e) => {
                return Err(e);
            },
        };
        let st = match rd.read_u32() {
            Ok(v) => v,
            Err(e) => {
                return Err(e);
            },
        };
        let d = IfrData::U32(IfrU32Data { MinValue: mn, MaxValue: mx, Step: st });
        proof {
            assert(ifr_data_bytes(d) =~= old(rd).bytes().subrange(
                start,
                old(rd).bytes().len() as int,
            ));
        }
        Ok(d)
    } else {
        if left != 24 {
            return Err(Error::LengthMismatch);
        }
        let mn = match rd.read_u64() {
            Ok(v) => v,
            Err(e) => {
                return Err(e);
            },
        };
        let mx = match rd.read_u64() {
            Ok(v) => v,
            Err(e) => {
                return Err(e);
            },
        };
        let st = match rd.read_u64() {
            Ok(v) => v,
            Err(e) => {
                return Err(e);
            },
        };
        proof {
            assert(numeric_width(flags) == 3) by (bit_vector)
                requires
                    flags & 0x3 != 0 && flags & 0x3 != 1 && flags & 0x3 != 2,
            ;
        }
        let d = IfrData::U64(IfrU64Data { MinValue: mn, MaxValue: mx, Step: st });
        proof {
            assert(ifr_data_bytes(d) =~= old(rd).bytes().subrange(
                start,
                old(rd).bytes().len() as int,
            ));
        }
        Ok(d)
    }
}

/// Writes the numeric-range union.
pub fn write_ifr_data(w: &mut Writer, d: &IfrData)
    ensures
        final(w).bytes() == old(w).bytes() + ifr_data_bytes(*d),
{
    match d {
        IfrData::U8(x) => {
            w.write_u8(x.MinValue);
            w.write_u8(x.MaxValue);
            w.write_u8(x.Step);
            proof {
                assert(w.bytes() =~= old(w).bytes() + ifr_data_bytes(*d));
            }
        },
        IfrData::U16(x) => {
            w.write_u16(x.MinValue);
            w.write_u16(x.MaxValue);
            w.write_u16(x.Step);
            proof {
                assert(w.bytes() =~= old(w).bytes() + ifr_data_bytes(*d));
            }
        },
        IfrData::U32(x) => {
            w.write_u32(x.MinValue);
            w.write_u32(x.MaxValue);
            w.write_u32(x.Step);
            proof {
                assert(w.bytes() =~= old(w).bytes() + ifr_data_bytes(*d));
            }
        },
        IfrData::U64(x) => {
            w.write_u64(x.MinValue);
            w.write_u64(x.MaxValue);
            w.write_u64(x.Step);
            proof {
                assert(w.bytes() =~= old(w).bytes() + ifr_data_bytes(*d));
            }
        },
    }
}

/// The wire bytes of a `FORM` payload.
pub open spec fn ifr_form_bytes(v: IfrForm) -> Seq<u8> {
    u16_le_bytes(v.FormId) + u16_le_bytes(v.FormTitle)
}

impl IfrForm {
    /// Reads a `FORM` payload: accepts exactly its 4 fixed bytes
    /// and gives the record they spell; the record re-encodes to the
    /// payload.
    pub fn parse(payload: &[u8]) -> (r: Result<IfrForm, Error>)
        ensures
            r is Ok <==> payload@.len() == 4,
            r is Ok ==> ifr_form_bytes(r->Ok_0) == payload@,
            r is Err ==> (payload@.len() < 4 && r->Err_0 == Error::TruncatedBuffer) || (
            payload@.len() > 4 && r->Err_0 == Error::LengthMismatch),
    {
        if payload.len() < 4 {
            return Err(Error::TruncatedBuffer);
        }
        if payload.len() > 4 {
            return Err(Error::LengthMismatch);
        }
        let mut rd = Reader::new(payload);
        let x_FormId = match rd.read_u16() {
            Ok(v) => v,
            Err(e) => {
                return Err(e);
            },
        };
        let x_FormTitle = match rd.read_u16() {
            Ok(v) => v,
            Err(e) => {
                return Err(e);
            },
        };
        let v = IfrForm { FormId: x_FormId, FormTitle: x_FormTitle };
        proof {
            assert(ifr_form_bytes(v) =~= payload@);
        }
        Ok(v)
    }

    /// Writes the payload back.
    pub fn encode(&self) -> (r: Vec<u8>)
        ensures
            r@ == ifr_form_bytes(*self),
    {
        let mut w = Writer::new();
        w.write_u16(self.FormId);
        w.write_u16(self.FormTitle);
        proof {
            assert(w.bytes() =~= ifr_form_bytes(*self));
        }
        w.into_vec()
    }
}

/// The wire bytes of a `SUBTITLE` payload.
pub open spec fn ifr_subtitle_bytes(v: IfrSubtitle) -> Seq<u8> {
    statement_header_bytes(v.Statement) + seq![v.Flags]
}

impl IfrSubtitle {
    /// Reads a `SUBTITLE` payload: accepts exactly its 5 fixed bytes
    /// and gives the record they spell; the record re-encodes to the
    /// payload.
    pub fn parse(payload: &[u8]) -> (r: Result<IfrSubtitle, Error>)
        ensures
            r is Ok <==> payload@.len() == 5,
            r is Ok ==> ifr_subtitle_bytes(r->Ok_0) == payload@,
            r is Err ==> (payload@.len() < 5 && r->Err_0 == Error::TruncatedBuffer) || (
            payload@.len() > 5 && r->Err_0 == Error::LengthMismatch),
    {
        if payload.len() < 5 {
            return Err(Error::TruncatedBuffer);
        }
        if payload.len() > 5 {
            return Err(Error::LengthMismatch);
        }
        let mut rd = Reader::new(payload);
        let x_Statement = match read_statement_header(&mut rd) {
            Ok(v) => v,
            Err(e) => {
                return Err(e);
            },
        };
        let x_Flags = match rd.read_u8() {
            Ok(v) => v,
            Err(e) => {
                return Err(e);
            },
        };
        let v = IfrSubtitle { Statement: x_Statement, Flags: x_Flags };
        proof {
            assert(ifr_subtitle_bytes(v) =~= payload@);
        }
        Ok(v)
    }

    /// Writes the payload back.
    pub fn encode(&self) -> (r: Vec<u8>)
        ensures
            r@ == ifr_subtitle_bytes(*self),
    {
        let mut w = Writer::new();
        write_statement_header(&mut w, &self.Statement);
        w.write_u8(self.Flags);
        proof {
            assert(w.bytes() =~= ifr_subtitle_bytes(*self));
        }
        w.into_vec()
    }
}

/// The wire bytes of a `TEXT` payload.
pub open spec fn ifr_text_bytes(v: IfrText) -> Seq<u8> {
    statement_header_bytes(v.Statement) + u16_le_bytes(v.TextTwo)
}

impl IfrText {
    /// Reads a `TEXT` payload: accepts exactly its 6 fixed bytes
    /// and gives the record they spell; the record re-encodes to the
    /// payload.
    pub fn parse(payload: &[u8]) -> (r: Result<IfrText, Error>)
        ensures
            r is Ok <==> payload@.len() == 6,
            r is Ok ==> ifr_text_bytes(r->Ok_0) == payload@,
            r is Err ==> (payload@.len() < 6 && r->Err_0 == Error::TruncatedBuffer) || (
            payload@.len() > 6 && r->Err_0 == Error::LengthMismatch),
    {
        if payload.len() < 6 {
            return Err(Error::TruncatedBuffer);
        }
        if payload.len() > 6 {
            return Err(Error::LengthMismatch);
        }
        let mut rd = Reader::new(payload);
        let x_Statement = match read_statement_header(&mut rd) {
            Ok(v) => v,
            Err(e) => {
                return Err(e);
            },
        };
        let x_TextTwo = match rd.read_u16() {
            Ok(v) => v,
            Err(e) => {
                return Err(e);
            },
        };
        let v = IfrText { Statement: x_Statement, TextTwo: x_TextTwo };
        proof {
            assert(ifr_text_bytes(v) =~= payload@);
        }
        Ok(v)
    }

    /// Writes the payload back.
    pub fn encode(&self) -> (r: Vec<u8>)
        ensures
            r@ == ifr_text_bytes(*self),
    {
        let mut w = Writer::new();
        write_statement_header(&mut w, &self.Statement);
        w.write_u16(self.TextTwo);
        proof {
            assert(w.bytes() =~= ifr_text_bytes(*self));
        }
        w.into_vec()
    }
}

/// The wire bytes of a `IMAGE` payload.
pub open spec fn ifr_image_bytes(v: IfrImage) -> Seq<u8> {
    u16_le_bytes(v.Id)
}

impl IfrImage {
    /// Reads a `IMAGE` payload: accepts exactly its 2 fixed bytes
    /// and gives the record they spell; the record re-encodes to the
    /// payload.
    pub fn parse(payload: &[u8]) -> (r: Result<IfrImage, Error>)
        ensures
            r is Ok <==> payload@.len() == 2,
            r is Ok ==> ifr_image_bytes(r->Ok_0) == payload@,
            r is Err ==> (payload@.len() < 2 && r->Err_0 == Error::TruncatedBuffer) || (
            payload@.len() > 2 && r->Err_0 == Error::LengthMismatch),
    {
        if payload.len() < 2 {
            return Err(Error::TruncatedBuffer);
        }
        if payload.len() > 2 {
            return Err(Error::LengthMismatch);
        }
        let mut rd = Reader::new(payload);
        let x_Id = match rd.read_u16() {
            Ok(v) => v,
            Err(e) => {
                return Err(e);
            },
        };
        let v = IfrImage { Id: x_Id };
        proof {
            assert(ifr_image_bytes(v) =~= payload@);
        }
        Ok(v)
    }

    /// Writes the payload back.
    pub fn encode(&self) -> (r: Vec<u8>)
        ensures
            r@ == ifr_image_bytes(*self),
    {
        let mut w = Writer::new();
        w.write_u16(self.Id);
        proof {
            assert(w.bytes() =~= ifr_image_bytes(*self));
        }
        w.into_vec()
    }
}

/// The wire bytes of a `ANIMATION` payload.
pub open spec fn ifr_animation_bytes(v: IfrAnimation) -> Seq<u8> {
    u16_le_bytes(v.Id)
}

impl IfrAnimation {
    /// Reads a `ANIMATION` payload: accepts exactly its 2 fixed bytes
    /// and gives the record they spell; the record re-encodes to the
    /// payload.
    pub fn parse(payload: &[u8]) -> (r: Result<IfrAnimation, Error>)
        ensures
            r is Ok <==> payload@.len() == 2,
            r is Ok ==> ifr_animation_bytes(r->Ok_0) == payload@,
            r is Err ==> (payload@.len() < 2 && r->Err_0 == Error::TruncatedBuffer) || (
            payload@.len() > 2 && r->Err_0 == Error::LengthMismatch),
    {
        if payload.len() < 2 {
            return Err(Error::TruncatedBuffer);
        }
        if payload.len() > 2 {
            return Err(Error::LengthMismatch);
        }
        let mut rd = Reader::new(payload);
        let x_Id = match rd.read_u16() {
            Ok(v) => v,
            Err(e) => {
                return Err(e);
            },
        };
        let v = IfrAnimation { Id: x_Id };
        proof {
            assert(ifr_animation_bytes(v) =~= payload@);
        }
        Ok(v)
    }

    /// Writes the payload back.
    pub fn encode(&self) -> (r: Vec<u8>)
        ensures
            r@ == ifr_animation_bytes(*self),
    {
        let mut w = Writer::new();
        w.write_u16(self.Id);
        proof {
            assert(w.bytes() =~= ifr_animation_bytes(*self));
        }
        w.into_vec()
    }
}

/// The wire bytes of a `EQ_ID_VAL` payload.
pub open spec fn ifr_eq_id_val_bytes(v: IfrEqIdVal) -> Seq<u8> {
    u16_le_bytes(v.QuestionId) + u16_le_bytes(v.Value)
}

impl IfrEqIdVal {
    /// Reads a `EQ_ID_VAL` payload: accepts exactly its 4 fixed bytes
    /// and gives the record they spell; the record re-encodes to the
    /// payload.
    pub fn parse(payload: &[u8]) -> (r: Result<IfrEqIdVal, Error>)
        ensures
            r is Ok <==> payload@.len() == 4,
            r is Ok ==> ifr_eq_id_val_bytes(r->Ok_0) == payload@,
            r is Err ==> (payload@.len() < 4 && r->Err_0 == Error::TruncatedBuffer) || (
            payload@.len() > 4 && r->Err_0 == Error::LengthMismatch),
    {
        if payload.len() < 4 {
            return Err(Error::TruncatedBuffer);
        }
        if payload.len() > 4 {
            return Err(Error::LengthMismatch);
        }
        let mut rd = Reader::new(payload);
        let x_QuestionId = match rd.read_u16() {
            Ok(v) => v,
            Err(e) => {
                return Err(e);
            },
        };
        let x_Value = match rd.read_u16() {
            Ok(v) => v,
            Err(e) => {
                return Err(e);
            },
        };
        let v = IfrEqIdVal { QuestionId: x_QuestionId, Value: x_Value };
        proof {
            assert(ifr_eq_id_val_bytes(v) =~= payload@);
        }
        Ok(v)
    }

    /// Writes the payload back.
    pub fn encode(&self) -> (r: Vec<u8>)
        ensures
            r@ == ifr_eq_id_val_bytes(*self),
    {
        let mut w = Writer::new();
        w.write_u16(self.QuestionId);
        w.write_u16(self.Value);
        proof {
            assert(w.bytes() =~= ifr_eq_id_val_bytes(*self));
        }
        w.into_vec()
    }
}

/// The wire bytes of a `UINT8` payload.
pub open spec fn ifr_uint8_bytes(v: IfrUint8) -> Seq<u8> {
    seq![v.Value]
}

impl IfrUint8 {
    /// Reads a `UINT8` payload: accepts exactly its 1 fixed bytes
    /// and gives the record they spell; the record re-encodes to the
    /// payload.
    pub fn parse(payload: &[u8]) -> (r: Result<IfrUint8, Error>)
        ensures
            r is Ok <==> payload@.len() == 1,
            r is Ok ==> ifr_uint8_bytes(r->Ok_0) == payload@,
            r is Err ==> (payload@.len() < 1 && r->Err_0 == Error::TruncatedBuffer) || (
            payload@.len() > 1 && r->Err_0 == Error::LengthMismatch),
    {
        if payload.len() < 1 {
            return Err(Error::TruncatedBuffer);
        }
        if payload.len() > 1 {
            return Err(Error::LengthMismatch);
        }
        let mut rd = Reader::new(payload);
        let x_Value = match rd.read_u8() {
            Ok(v) => v,
            Err(e) => {
                return Err(e);
            },
        };
        let v = IfrUint8 { Value: x_Value };
        proof {
            assert(ifr_uint8_bytes(v) =~= payload@);
        }
        Ok(v)
    }

    /// Writes the payload back.
    pub fn encode(&self) -> (r: Vec<u8>)
        ensures
            r@ == ifr_uint8_bytes(*self),
    {
        let mut w = Writer::new();
        w.write_u8(self.Value);
        proof {
            assert(w.bytes() =~= ifr_uint8_bytes(*self));
        }
        w.into_vec()
    }
}

/// The wire bytes of a `UINT16` payload.
pub open spec fn ifr_uint16_bytes(v: IfrUint16) -> Seq<u8> {
    u16_le_bytes(v.Value)
}

impl IfrUint16 {
    /// Reads a `UINT16` payload: accepts exactly its 2 fixed bytes
    /// and gives the record they spell; the record re-encodes to the
    /// payload.
    pub fn parse(payload: &[u8]) -> (r: Result<IfrUint16, Error>)
        ensures
            r is Ok <==> payload@.len() == 2,
            r is Ok ==> ifr_uint16_bytes(r->Ok_0) == payload@,
            r is Err ==> (payload@.len() < 2 && r->Err_0 == Error::TruncatedBuffer) || (
            payload@.len() > 2 && r->Err_0 == Error::LengthMismatch),
    {
        if payload.len() < 2 {
            return Err(Error::TruncatedBuffer);
        }
        if payload.len() > 2 {
            return Err(Error::LengthMismatch);
        }
        let mut rd = Reader::new(payload);
        let x_Value = match rd.read_u16() {
            Ok(v) => v,
            Err(e) => {
                return Err(e);
            },
        };
        let v = IfrUint16 { Value: x_Value };
        proof {
            assert(ifr_uint16_bytes(v) =~= payload@);
        }
        Ok(v)
    }

    /// Writes the payload back.
    pub fn encode(&self) -> (r: Vec<u8>)
        ensures
            r@ == ifr_uint16_bytes(*self),
    {
        let mut w = Writer::new();
        w.write_u16(self.Value);
        proof {
            assert(w.bytes() =~= ifr_uint16_bytes(*self));
        }
        w.into_vec()
    }
}

/// The wire bytes of a `UINT32` payload.
pub open spec fn ifr_uint32_bytes(v: IfrUint32) -> Seq<u8> {
    u32_le_bytes(v.Value)
}

impl IfrUint32 {
    /// Reads a `UINT32` payload: accepts exactly its 4 fixed bytes
    /// and gives the record they spell; the record re-encodes to the
    /// payload.
    pub fn parse(payload: &[u8]) -> (r: Result<IfrUint32, Error>)
        ensures
            r is Ok <==> payload@.len() == 4,
            r is Ok ==> ifr_uint32_bytes(r->Ok_0) == payload@,
            r is Err ==> (payload@.len() < 4 && r->Err_0 == Error::TruncatedBuffer) || (
            payload@.len() > 4 && r->Err_0 == Error::LengthMismatch),
    {
        if payload.len() < 4 {
            return Err(Error::TruncatedBuffer);
        }
        if payload.len() > 4 {
            return Err(Error::LengthMismatch);
        }
        let mut rd = Reader::new(payload);
        let x_Value = match rd.read_u32() {
            Ok(v) => v,
            Err(e) => {
                return Err(e);
            },
        };
        let v = IfrUint32 { Value: x_Value };
        proof {
            assert(ifr_uint32_bytes(v) =~= payload@);
        }
        Ok(v)
    }

    /// Writes the payload back.
    pub fn encode(&self) -> (r: Vec<u8>)
        ensures
            r@ == ifr_uint32_bytes(*self),
    {
        let mut w = Writer::new();
        w.write_u32(self.Value);
        proof {
            assert(w.bytes() =~= ifr_uint32_bytes(*self));
        }
        w.into_vec()
    }
}

/// The wire bytes of a `UINT64` payload.
pub open spec fn ifr_uint64_bytes(v: IfrUint64) -> Seq<u8> {
    u64_le_bytes(v.Value)
}

impl IfrUint64 {
    /// Reads a `UINT64` payload: accepts exactly its 8 fixed bytes
    /// and gives the record they spell; the record re-encodes to the
    /// payload.
    pub fn parse(payload: &[u8]) -> (r: Result<IfrUint64, Error>)
        ensures
            r is Ok <==> payload@.len() == 8,
            r is Ok ==> ifr_uint64_bytes(r->Ok_0) == payload@,
            r is Err ==> (payload@.len() < 8 && r->Err_0 == Error::TruncatedBuffer) || (
            payload@.len() > 8 && r->Err_0 == Error::LengthMismatch),
    {
        if payload.len() < 8 {
            return Err(Error::TruncatedBuffer);
        }
        if payload.len() > 8 {
            return Err(Error::LengthMismatch);
        }
        let mut rd = Reader::new(payload);
        let x_Value = match rd.read_u64() {
            Ok(v) => v,
            Err(e) => {
                return Err(e);
            },
        };
        let v = IfrUint64 { Value: x_Value };
        proof {
            assert(ifr_uint64_bytes(v) =~= payload@);
        }
        Ok(v)
    }

    /// Writes the payload back.
    pub fn encode(&self) -> (r: Vec<u8>)
        ensures
            r@ == ifr_uint64_bytes(*self),
    {
        let mut w = Writer::new();
        w.write_u64(self.Value);
        proof {
            assert(w.bytes() =~= ifr_uint64_bytes(*self));
        }
        w.into_vec()
    }
}

/// The wire bytes of a `CHECKBOX` payload.
pub open spec fn ifr_checkbox_bytes(v: IfrCheckbox) -> Seq<u8> {
    question_header_bytes(v.Question) + seq![v.Flags]
}

impl IfrCheckbox {
    /// Reads a `CHECKBOX` payload: accepts exactly its 12 fixed bytes
    /// and gives the record they spell; the record re-encodes to the
    /// payload.
    pub fn parse(payload: &[u8]) -> (r: Result<IfrCheckbox, Error>)
        ensures
            r is Ok <==> payload@.len() == 12,
            r is Ok ==> ifr_checkbox_bytes(r->Ok_0) == payload@,
            r is Err ==> (payload@.len() < 12 && r->Err_0 == Error::TruncatedBuffer) || (
            payload@.len() > 12 && r->Err_0 == Error::LengthMismatch),
    {
        if payload.len() < 12 {
            return Err(Error::TruncatedBuffer);
        }
        if payload.len() > 12 {
            return Err(Error::LengthMismatch);
        }
        let mut rd = Reader::new(payload);
        let x_Question = match read_question_header(&mut rd) {
            Ok(v) => v,
            Err(e) => {
                return Err(e);
            },
        };
        let x_Flags = match rd.read_u8() {
            Ok(v) => v,
            Err(e) => {
                return Err(e);
            },
        };
        let v = IfrCheckbox { Question: x_Question, Flags: x_Flags };
        proof {
            assert(ifr_checkbox_bytes(v) =~= payload@);
        }
        Ok(v)
    }

    /// Writes the payload back.
    pub fn encode(&self) -> (r: Vec<u8>)
        ensures
            r@ == ifr_checkbox_bytes(*self),
    {
        let mut w = Writer::new();
        write_question_header(&mut w, &self.Question);
        w.write_u8(self.Flags);
        proof {
            assert(w.bytes() =~= ifr_checkbox_bytes(*self));
        }
        w.into_vec()
    }
}

/// The wire bytes of a `ACTION` payload.
pub open spec fn ifr_action_bytes(v: IfrAction) -> Seq<u8> {
    question_header_bytes(v.Question) + u16_le_bytes(v.QuestionConfig)
}

impl IfrAction {
    /// Reads a `ACTION` payload: accepts exactly its 13 fixed bytes
    /// and gives the record they spell; the record re-encodes to the
    /// payload.
    pub fn parse(payload: &[u8]) -> (r: Result<IfrAction, Error>)
        ensures
            r is Ok <==> payload@.len() == 13,
            r is Ok ==> ifr_action_bytes(r->Ok_0) == payload@,
            r is Err ==> (payload@.len() < 13 && r->Err_0 == Error::TruncatedBuffer) || (
            payload@.len() > 13 && r->Err_0 == Error::LengthMismatch),
    {
        if payload.len() < 13 {
            return Err(Error::TruncatedBuffer);
        }
        if payload.len() > 13 {
            return Err(Error::LengthMismatch);
        }
        let mut rd = Reader::new(payload);
        let x_Question = match read_question_header(&mut rd) {
            Ok(v) => v,
            Err(e) => {
                return Err(e);
            },
        };
        let x_QuestionConfig = match rd.read_u16() {
            Ok(v) => v,
            Err(e) => {
                return Err(e);
            },
        };
        let v = IfrAction { Question: x_Question, QuestionConfig: x_QuestionConfig };
        proof {
            assert(ifr_action_bytes(v) =~= payload@);
        }
        Ok(v)
    }

    /// Writes the payload back.
    pub fn encode(&self) -> (r: Vec<u8>)
        ensures
            r@ == ifr_action_bytes(*self),
    {
        let mut w = Writer::new();
        write_question_header(&mut w, &self.Question);
        w.write_u16(self.QuestionConfig);
        proof {
            assert(w.bytes() =~= ifr_action_bytes(*self));
        }
        w.into_vec()
    }
}

/// The wire bytes of a `REF` payload.
pub open spec fn ifr_ref_bytes(v: IfrRef) -> Seq<u8> {
    question_header_bytes(v.Question) + u16_le_bytes(v.FormId)
}

impl IfrRef {
    /// Reads a `REF` payload: accepts exactly its 13 fixed bytes
    /// and gives the record they spell; the record re-encodes to the
    /// payload.
    pub fn parse(payload: &[u8]) -> (r: Result<IfrRef, Error>)
        ensures
            r is Ok <==> payload@.len() == 13,
            r is Ok ==> ifr_ref_bytes(r->Ok_0) == payload@,
            r is Err ==> (payload@.len() < 13 && r->Err_0 == Error::TruncatedBuffer) || (
            payload@.len() > 13 && r->Err_0 == Error::LengthMismatch),
    {
        if payload.len() < 13 {
            return Err(Error::TruncatedBuffer);
        }
        if payload.len() > 13 {
            return Err(Error::LengthMismatch);
        }
        let mut rd = Reader::new(payload);
        let x_Question = match read_question_header(&mut rd) {
            Ok(v) => v,
            Err(e) => {
                return Err(e);
            },
        };
        let x_FormId = match rd.read_u16() {
            Ok(v) => v,
            Err(e) => {
                return Err(e);
            },
        };
        let v = IfrRef { Question: x_Question, FormId: x_FormId };
        proof {
            assert(ifr_ref_bytes(v) =~= payload@);
        }
        Ok(v)
    }

    /// Writes the payload back.
    pub fn encode(&self) -> (r: Vec<u8>)
        ensures
            r@ == ifr_ref_bytes(*self),
    {
        let mut w = Writer::new();
        write_question_header(&mut w, &self.Question);
        w.write_u16(self.FormId);
        proof {
            assert(w.bytes() =~= ifr_ref_bytes(*self));
        }
        w.into_vec()
    }
}

/// The wire bytes of a `REF` payload.
pub open spec fn ifr_ref2_bytes(v: IfrRef2) -> Seq<u8> {
    question_header_bytes(v.Question) + u16_le_bytes(v.FormId) + u16_le_bytes(v.QuestionId)
}

impl IfrRef2 {
    /// Reads a `REF` payload: accepts exactly its 15 fixed bytes
    /// and gives the record they spell; the record re-encodes to the
    /// payload.
    pub fn parse(payload: &[u8]) -> (r: Result<IfrRef2, Error>)
        ensures
            r is Ok <==> payload@.len() == 15,
            r is Ok ==> ifr_ref2_bytes(r->Ok_0) == payload@,
            r is Err ==> (payload@.len() < 15 && r->Err_0 == Error::TruncatedBuffer) || (
            payload@.len() > 15 && r->Err_0 == Error::LengthMismatch),
    {
        if payload.len() < 15 {
            return Err(Error::TruncatedBuffer);
        }
        if payload.len() > 15 {
            return Err(Error::LengthMismatch);
        }
        let mut rd = Reader::new(payload);
        let x_Question = match read_question_header(&mut rd) {
            Ok(v) => v,
            Err(e) => {
                return Err(e);
            },
        };
        let x_FormId = match rd.read_u16() {
            Ok(v) => v,
            Err(e) => {
                return Err(e);
            },
        };
        let x_QuestionId = match rd.read_u16() {
            Ok(v) => v,
            Err(e) => {
                return Err(e);
            },
        };
        let v = IfrRef2 { Question: x_Question, FormId: x_FormId, QuestionId: x_QuestionId };
        proof {
            assert(ifr_ref2_bytes(v) =~= payload@);
        }
        Ok(v)
    }

    /// Writes the payload back.
    pub fn encode(&self) -> (r: Vec<u8>)
        ensures
            r@ == ifr_ref2_bytes(*self),
    {
        let mut w = Writer::new();
        write_question_header(&mut w, &self.Question);
        w.write_u16(self.FormId);
        w.write_u16(self.QuestionId);
        proof {
            assert(w.bytes() =~= ifr_ref2_bytes(*self));
        }
        w.into_vec()
    }
}

/// The wire bytes of a `REF` payload.
pub open spec fn ifr_ref3_bytes(v: IfrRef3) -> Seq<u8> {
    question_header_bytes(v.Question) + u16_le_bytes(v.FormId) + u16_le_bytes(v.QuestionId) + guid_le_bytes(v.FormSetId)
}

impl IfrRef3 {
    /// Reads a `REF` payload: accepts exactly its 31 fixed bytes
    /// and gives the record they spell; the record re-encodes to the
    /// payload.
    pub fn parse(payload: &[u8]) -> (r: Result<IfrRef3, Error>)
        ensures
            r is Ok <==> payload@.len() == 31,
            r is Ok ==> ifr_ref3_bytes(r->Ok_0) == payload@,
            r is Err ==> (payload@.len() < 31 && r->Err_0 == Error::TruncatedBuffer) || (
            payload@.len() > 31 && r->Err_0 == Error::LengthMismatch),
    {
        if payload.len() < 31 {
            return Err(Error::TruncatedBuffer);
        }
        if payload.len() > 31 {
            return Err(Error::LengthMismatch);
        }
        let mut rd = Reader::new(payload);
        let x_Question = match read_question_header(&mut rd) {
            Ok(v) => v,
            Err(e) => {
                return Err(e);
            },
        };
        let x_FormId = match rd.read_u16() {
            Ok(v) => v,
            Err(e) => {
                return Err(e);
            },
        };
        let x_QuestionId = match rd.read_u16() {
            Ok(v) => v,
            Err(e) => {
                return Err(e);
            },
        };
        let x_FormSetId = match crate::hii::read_wire_guid(&mut rd) {
            Ok(v) => v,
            Err(e) => {
                return Err(e);
            },
        };
        let v = IfrRef3 { Question: x_Question, FormId: x_FormId, QuestionId: x_QuestionId, FormSetId: x_FormSetId };
        proof {
            assert(ifr_ref3_bytes(v) =~= payload@);
        }
        Ok(v)
    }

    /// Writes the payload back.
    pub fn encode(&self) -> (r: Vec<u8>)
        ensures
            r@ == ifr_ref3_bytes(*self),
    {
        let mut w = Writer::new();
        write_question_header(&mut w, &self.Question);
        w.write_u16(self.FormId);
        w.write_u16(self.QuestionId);
        crate::hii::write_wire_guid(&mut w, &self.FormSetId);
        proof {
            assert(w.bytes() =~= ifr_ref3_bytes(*self));
        }
        w.into_vec()
    }
}

/// The wire bytes of a `REF` payload.
pub open spec fn ifr_ref4_bytes(v: IfrRef4) -> Seq<u8> {
    question_header_bytes(v.Question) + u16_le_bytes(v.FormId) + u16_le_bytes(v.QuestionId) + guid_le_bytes(v.FormSetId) + u16_le_bytes(v.DevicePath)
}

impl IfrRef4 {
    /// Reads a `REF` payload: accepts exactly its 33 fixed bytes
    /// and gives the record they spell; the record re-encodes to the
    /// payload.
    pub fn parse(payload: &[u8]) -> (r: Result<IfrRef4, Error>)
        ensures
            r is Ok <==> payload@.len() == 33,
            r is Ok ==> ifr_ref4_bytes(r->Ok_0) == payload@,
            r is Err ==> (payload@.len() < 33 && r->Err_0 == Error::TruncatedBuffer) || (
            payload@.len() > 33 && r->Err_0 == Error::LengthMismatch),
    {
        if payload.len() < 33 {
            return Err(Error::TruncatedBuffer);
        }
        if payload.len() > 33 {
            return Err(Error::LengthMismatch);
        }
        let mut rd = Reader::new(payload);
        let x_Question = match read_question_header(&mut rd) {
            Ok(v) => v,
            Err(e) => {
                return Err(e);
            },
        };
        let x_FormId = match rd.read_u16() {
            Ok(v) => v,
            Err(e) => {
                return Err(e);
            },
        };
        let x_QuestionId = match rd.read_u16() {
            Ok(v) => v,
            Err(e) => {
                return Err(e);
            },
        };
        let x_FormSetId = match crate::hii::read_wire_guid(&mut rd) {
            Ok(v) => v,
            Err(e) => {
                return Err(e);
            },
        };
        let x_DevicePath = match rd.read_u16() {
            Ok(v) => v,
            Err(e) => {
                return Err(e);
            },
        };
        let v = IfrRef4 { Question: x_Question, FormId: x_FormId, QuestionId: x_QuestionId, FormSetId: x_FormSetId, DevicePath: x_DevicePath };
        proof {
            assert(ifr_ref4_bytes(v) =~= payload@);
        }
        Ok(v)
    }

    /// Writes the payload back.
    pub fn encode(&self) -> (r: Vec<u8>)
        ensures
            r@ == ifr_ref4_bytes(*self),
    {
        let mut w = Writer::new();
        write_question_header(&mut w, &self.Question);
        w.write_u16(self.FormId);
        w.write_u16(self.QuestionId);
        crate::hii::write_wire_guid(&mut w, &self.FormSetId);
        w.write_u16(self.DevicePath);
        proof {
            assert(w.bytes() =~= ifr_ref4_bytes(*self));
        }
        w.into_vec()
    }
}

/// The wire bytes of a `ORDERED_LIST` payload.
pub open spec fn ifr_ordered_list_bytes(v: IfrOrderedList) -> Seq<u8> {
    question_header_bytes(v.Question) + seq![v.MaxContainers] + seq![v.Flags]
}

impl IfrOrderedList {
    /// Reads a `ORDERED_LIST` payload: accepts exactly its 13 fixed bytes
    /// and gives the record they spell; the record re-encodes to the
    /// payload.
    pub fn parse(payload: &[u8]) -> (r: Result<IfrOrderedList, Error>)
        ensures
            r is Ok <==> payload@.len() == 13,
            r is Ok ==> ifr_ordered_list_bytes(r->Ok_0) == payload@,
            r is Err ==> (payload@.len() < 13 && r->Err_0 == Error::TruncatedBuffer) || (
            payload@.len() > 13 && r->Err_0 == Error::LengthMismatch),
    {
        if payload.len() < 13 {
            return Err(Error::TruncatedBuffer);
        }
        if payload.len() > 13 {
            return Err(Error::LengthMismatch);
        }
        let mut rd = Reader::new(payload);
        let x_Question = match read_question_header(&mut rd) {
            Ok(v) => v,
            Err(e) => {
                return Err(e);
            },
        };
        let x_MaxContainers = match rd.read_u8() {
            Ok(v) => v,
            Err(e) => {
                return Err(e);
            },
        };
        let x_Flags = match rd.read_u8() {
            Ok(v) => v,
            Err(e) => {
                return Err(e);
            },
        };
        let v = IfrOrderedList { Question: x_Question, MaxContainers: x_MaxContainers, Flags: x_Flags };
        proof {
            assert(ifr_ordered_list_bytes(v) =~= payload@);
        }
        Ok(v)
    }

    /// Writes the payload back.
    pub fn encode(&self) -> (r: Vec<u8>)
        ensures
            r@ == ifr_ordered_list_bytes(*self),
    {
        let mut w = Writer::new();
        write_question_header(&mut w, &self.Question);
        w.write_u8(self.MaxContainers);
        w.write_u8(self.Flags);
        proof {
            assert(w.bytes() =~= ifr_ordered_list_bytes(*self));
        }
        w.into_vec()
    }
}

/// The wire bytes of a `PASSWORD` payload.
pub open spec fn ifr_password_bytes(v: IfrPassword) -> Seq<u8> {
    question_header_bytes(v.Question) + u16_le_bytes(v.MinSize) + u16_le_bytes(v.MaxSize)
}

impl IfrPassword {
    /// Reads a `PASSWORD` payload: accepts exactly its 15 fixed bytes
    /// and gives the record they spell; the record re-encodes to the
    /// payload.
    pub fn parse(payload: &[u8]) -> (r: Result<IfrPassword, Error>)
        ensures
            r is Ok <==> payload@.len() == 15,
            r is Ok ==> ifr_password_bytes(r->Ok_0) == payload@,
            r is Err ==> (payload@.len() < 15 && r->Err_0 == Error::TruncatedBuffer) || (
            payload@.len() > 15 && r->Err_0 == Error::LengthMismatch),
    {
        if payload.len() < 15 {
            return Err(Error::TruncatedBuffer);
        }
        if payload.len() > 15 {
            return Err(Error::LengthMismatch);
        }
        let mut rd = Reader::new(payload);
        let x_Question = match read_question_header(&mut rd) {
            Ok(v) => v,
            Err(e) => {
                return Err(e);
            },
        };
        let x_MinSize = match rd.read_u16() {
            Ok(v) => v,
            Err(e) => {
                return Err(e);
            },
        };
        let x_MaxSize = match rd.read_u16() {
            Ok(v) => v,
            Err(e) => {
                return Err(e);
            },
        };
        let v = IfrPassword { Question: x_Question, MinSize: x_MinSize, MaxSize: x_MaxSize };
        proof {
            assert(ifr_password_bytes(v) =~= payload@);
        }
        Ok(v)
    }

    /// Writes the payload back.
    pub fn encode(&self) -> (r: Vec<u8>)
        ensures
            r@ == ifr_password_bytes(*self),
    {
        let mut w = Writer::new();
        write_question_header(&mut w, &self.Question);
        w.write_u16(self.MinSize);
        w.write_u16(self.MaxSize);
        proof {
            assert(w.bytes() =~= ifr_password_bytes(*self));
        }
        w.into_vec()
    }
}

/// The wire bytes of a `STRING` payload.
pub open spec fn ifr_string_bytes(v: IfrString) -> Seq<u8> {
    question_header_bytes(v.Question) + seq![v.MinSize] + seq![v.MaxSize] + seq![v.Flags]
}

impl IfrString {
    /// Reads a `STRING` payload: accepts exactly its 14 fixed bytes
    /// and gives the record they spell; the record re-encodes to the
    /// payload.
    pub fn parse(payload: &[u8]) -> (r: Result<IfrString, Error>)
        ensures
            r is Ok <==> payload@.len() == 14,
            r is Ok ==> ifr_string_bytes(r->Ok_0) == payload@,
            r is Err ==> (payload@.len() < 14 && r->Err_0 == Error::TruncatedBuffer) || (
            payload@.len() > 14 && r->Err_0 == Error::LengthMismatch),
    {
        if payload.len() < 14 {
            return Err(Error::TruncatedBuffer);
        }
        if payload.len() > 14 {
            return Err(Error::LengthMismatch);
        }
        let mut rd = Reader::new(payload);
        let x_Question = match read_question_header(&mut rd) {
            Ok(v) => v,
            Err(e) => {
                return Err(e);
            },
        };
        let x_MinSize = match rd.read_u8() {
            Ok(v) => v,
            Err(e) => {
                return Err(e);
            },
        };
        let x_MaxSize = match rd.read_u8() {
            Ok(v) => v,
            Err(e) => {
                return Err(e);
            },
        };
        let x_Flags = match rd.read_u8() {
            Ok(v) => v,
            Err(e) => {
                return Err(e);
            },
        };
        let v = IfrString { Question: x_Question, MinSize: x_MinSize, MaxSize: x_MaxSize, Flags: x_Flags };
        proof {
            assert(ifr_string_bytes(v) =~= payload@);
        }
        Ok(v)
    }

    /// Writes the payload back.
    pub fn encode(&self) -> (r: Vec<u8>)
        ensures
            r@ == ifr_string_bytes(*self),
    {
        let mut w = Writer::new();
        write_question_header(&mut w, &self.Question);
        w.write_u8(self.MinSize);
        w.write_u8(self.MaxSize);
        w.write_u8(self.Flags);
        proof {
            assert(w.bytes() =~= ifr_string_bytes(*self));
        }
        w.into_vec()
    }
}

/// The wire bytes of a `DATE` payload.
pub open spec fn ifr_date_bytes(v: IfrDate) -> Seq<u8> {
    question_header_bytes(v.Question) + seq![v.Flags]
}

impl IfrDate {
    /// Reads a `DATE` payload: accepts exactly its 12 fixed bytes
    /// and gives the record they spell; the record re-encodes to the
    /// payload.
    pub fn parse(payload: &[u8]) -> (r: Result<IfrDate, Error>)
        ensures
            r is Ok <==> payload@.len() == 12,
            r is Ok ==> ifr_date_bytes(r->Ok_0) == payload@,
            r is Err ==> (payload@.len() < 12 && r->Err_0 == Error::TruncatedBuffer) || (
            payload@.len() > 12 && r->Err_0 == Error::LengthMismatch),
    {
        if payload.len() < 12 {
            return Err(Error::TruncatedBuffer);
        }
        if payload.len() > 12 {
            return Err(Error::LengthMismatch);
        }
        let mut rd = Reader::new(payload);
        let x_Question = match read_question_header(&mut rd) {
            Ok(v) => v,
            Err(e) => {
                return Err(e);
            },
        };
        let x_Flags = match rd.read_u8() {
            Ok(v) => v,
            Err(e) => {
                return Err(e);
            },
        };
        let v = IfrDate { Question: x_Question, Flags: x_Flags };
        proof {
            assert(ifr_date_bytes(v) =~= payload@);
        }
        Ok(v)
    }

    /// Writes the payload back.
    pub fn encode(&self) -> (r: Vec<u8>)
        ensures
            r@ == ifr_date_bytes(*self),
    {
        let mut w = Writer::new();
        write_question_header(&mut w, &self.Question);
        w.write_u8(self.Flags);
        proof {
            assert(w.bytes() =~= ifr_date_bytes(*self));
        }
        w.into_vec()
    }
}

/// The wire bytes of a `TIME` payload.
pub open spec fn ifr_time_bytes(v: IfrTime) -> Seq<u8> {
    question_header_bytes(v.Question) + seq![v.Flags]
}

impl IfrTime {
    /// Reads a `TIME` payload: accepts exactly its 12 fixed bytes
    /// and gives the record they spell; the record re-encodes to the
    /// payload.
    pub fn parse(payload: &[u8]) -> (r: Result<IfrTime, Error>)
        ensures
            r is Ok <==> payload@.len() == 12,
            r is Ok ==> ifr_time_bytes(r->Ok_0) == payload@,
            r is Err ==> (payload@.len() < 12 && r->Err_0 == Error::TruncatedBuffer) || (
            payload@.len() > 12 && r->Err_0 == Error::LengthMismatch),
    {
        if payload.len() < 12 {
            return Err(Error::TruncatedBuffer);
        }
        if payload.len() > 12 {
            return Err(Error::LengthMismatch);
        }
        let mut rd = Reader::new(payload);
        let x_Question = match read_question_header(&mut rd) {
            Ok(v) => v,
            Err(e) => {
                return Err(e);
            },
        };
        let x_Flags = match rd.read_u8() {
            Ok(v) => v,
            Err(e) => {
                return Err(e);
            },
        };
        let v = IfrTime { Question: x_Question, Flags: x_Flags };
        proof {
            assert(ifr_time_bytes(v) =~= payload@);
        }
        Ok(v)
    }

    /// Writes the payload back.
    pub fn encode(&self) -> (r: Vec<u8>)
        ensures
            r@ == ifr_time_bytes(*self),
    {
        let mut w = Writer::new();
        write_question_header(&mut w, &self.Question);
        w.write_u8(self.Flags);
        proof {
            assert(w.bytes() =~= ifr_time_bytes(*self));
        }
        w.into_vec()
    }
}

/// The wire bytes of a `INCONSISTENT_IF` payload.
pub open spec fn ifr_inconsistent_if_bytes(v: IfrInconsistentIf) -> Seq<u8> {
    u16_le_bytes(v.Error)
}

impl IfrInconsistentIf {
    /// Reads a `INCONSISTENT_IF` payload: accepts exactly its 2 fixed bytes
    /// and gives the record they spell; the record re-encodes to the
    /// payload.
    pub fn parse(payload: &[u8]) -> (r: Result<IfrInconsistentIf, Error>)
        ensures
            r is Ok <==> payload@.len() == 2,
            r is Ok ==> ifr_inconsistent_if_bytes(r->Ok_0) == payload@,
            r is Err ==> (payload@.len() < 2 && r->Err_0 == Error::TruncatedBuffer) || (
            payload@.len() > 2 && r->Err_0 == Error::LengthMismatch),
    {
        if payload.len() < 2 {
            return Err(Error::TruncatedBuffer);
        }
        if payload.len() > 2 {
            return Err(Error::LengthMismatch);
        }
        let mut rd = Reader::new(payload);
        let x_Error = match rd.read_u16() {
            Ok(v) => v,
            Err(e) => {
                return Err(e);
            },
        };
        let v = IfrInconsistentIf { Error: x_Error };
        proof {
            assert(ifr_inconsistent_if_bytes(v) =~= payload@);
        }
        Ok(v)
    }

    /// Writes the payload back.
    pub fn encode(&self) -> (r: Vec<u8>)
        ensures
            r@ == ifr_inconsistent_if_bytes(*self),
    {
        let mut w = Writer::new();
        w.write_u16(self.Error);
        proof {
            assert(w.bytes() =~= ifr_inconsistent_if_bytes(*self));
        }
        w.into_vec()
    }
}

/// The wire bytes of a `NO_SUBMIT_IF` payload.
pub open spec fn ifr_no_submit_if_bytes(v: IfrNoSubmitIf) -> Seq<u8> {
    u16_le_bytes(v.Error)
}

impl IfrNoSubmitIf {
    /// Reads a `NO_SUBMIT_IF` payload: accepts exactly its 2 fixed bytes
    /// and gives the record they spell; the record re-encodes to the
    /// payload.
    pub fn parse(payload: &[u8]) -> (r: Result<IfrNoSubmitIf, Error>)
        ensures
            r is Ok <==> payload@.len() == 2,
            r is Ok ==> ifr_no_submit_if_bytes(r->Ok_0) == payload@,
            r is Err ==> (payload@.len() < 2 && r->Err_0 == Error::TruncatedBuffer) || (
            payload@.len() > 2 && r->Err_0 == Error::LengthMismatch),
    {
        if payload.len() < 2 {
            return Err(Error::TruncatedBuffer);
        }
        if payload.len() > 2 {
            return Err(Error::LengthMismatch);
        }
        let mut rd = Reader::new(payload);
        let x_Error = match rd.read_u16() {
            Ok(v) => v,
            Err(e) => {
                return Err(e);
            },
        };
        let v = IfrNoSubmitIf { Error: x_Error };
        proof {
            assert(ifr_no_submit_if_bytes(v) =~= payload@);
        }
        Ok(v)
    }

    /// Writes the payload back.
    pub fn encode(&self) -> (r: Vec<u8>)
        ensures
            r@ == ifr_no_submit_if_bytes(*self),
    {
        let mut w = Writer::new();
        w.write_u16(self.Error);
        proof {
            assert(w.bytes() =~= ifr_no_submit_if_bytes(*self));
        }
        w.into_vec()
    }
}

/// The wire bytes of a `WARNING` payload.
pub open spec fn ifr_warning_if_bytes(v: IfrWarningIf) -> Seq<u8> {
    u16_le_bytes(v.Warning) + seq![v.TimeOut]
}

impl IfrWarningIf {
    /// Reads a `WARNING` payload: accepts exactly its 3 fixed bytes
    /// and gives the record they spell; the record re-encodes to the
    /// payload.
    pub fn parse(payload: &[u8]) -> (r: Result<IfrWarningIf, Error>)
        ensures
            r is Ok <==> payload@.len() == 3,
            r is Ok ==> ifr_warning_if_bytes(r->Ok_0) == payload@,
            r is Err ==> (payload@.len() < 3 && r->Err_0 == Error::TruncatedBuffer) || (
            payload@.len() > 3 && r->Err_0 == Error::LengthMismatch),
    {
        if payload.len() < 3 {
            return Err(Error::TruncatedBuffer);
        }
        if payload.len() > 3 {
            return Err(Error::LengthMismatch);
        }
        let mut rd = Reader::new(payload);
        let x_Warning = match rd.read_u16() {
            Ok(v) => v,
            Err(e) => {
                return Err(e);
            },
        };
        let x_TimeOut = match rd.read_u8() {
            Ok(v) => v,
            Err(e) => {
                return Err(e);
            },
        };
        let v = IfrWarningIf { Warning: x_Warning, TimeOut: x_TimeOut };
        proof {
            assert(ifr_warning_if_bytes(v) =~= payload@);
        }
        Ok(v)
    }

    /// Writes the payload back.
    pub fn encode(&self) -> (r: Vec<u8>)
        ensures
            r@ == ifr_warning_if_bytes(*self),
    {
        let mut w = Writer::new();
        w.write_u16(self.Warning);
        w.write_u8(self.TimeOut);
        proof {
            assert(w.bytes() =~= ifr_warning_if_bytes(*self));
        }
        w.into_vec()
    }
}

/// The wire bytes of a `REFRESH` payload.
pub open spec fn ifr_refresh_bytes(v: IfrRefresh) -> Seq<u8> {
    seq![v.RefreshInterval]
}

impl IfrRefresh {
    /// Reads a `REFRESH` payload: accepts exactly its 1 fixed bytes
    /// and gives the record they spell; the record re-encodes to the
    /// payload.
    pub fn parse(payload: &[u8]) -> (r: Result<IfrRefresh, Error>)
        ensures
            r is Ok <==> payload@.len() == 1,
            r is Ok ==> ifr_refresh_bytes(r->Ok_0) == payload@,
            r is Err ==> (payload@.len() < 1 && r->Err_0 == Error::TruncatedBuffer) || (
            payload@.len() > 1 && r->Err_0 == Error::LengthMismatch),
    {
        if payload.len() < 1 {
            return Err(Error::TruncatedBuffer);
        }
        if payload.len() > 1 {
            return Err(Error::LengthMismatch);
        }
        let mut rd = Reader::new(payload);
        let x_RefreshInterval = match rd.read_u8() {
            Ok(v) => v,
            Err(e) => {
                return Err(e);
            },
        };
        let v = IfrRefresh { RefreshInterval: x_RefreshInterval };
        proof {
            assert(ifr_refresh_bytes(v) =~= payload@);
        }
        Ok(v)
    }

    /// Writes the payload back.
    pub fn encode(&self) -> (r: Vec<u8>)
        ensures
            r@ == ifr_refresh_bytes(*self),
    {
        let mut w = Writer::new();
        w.write_u8(self.RefreshInterval);
        proof {
            assert(w.bytes() =~= ifr_refresh_bytes(*self));
        }
        w.into_vec()
    }
}

/// The wire bytes of a `REFRESH_ID` payload.
pub open spec fn ifr_refresh_id_bytes(v: IfrRefreshId) -> Seq<u8> {
    guid_le_bytes(v.RefreshEventGroupId)
}

impl IfrRefreshId {
    /// Reads a `REFRESH_ID` payload: accepts exactly its 16 fixed bytes
    /// and gives the record they spell; the record re-encodes to the
    /// payload.
    pub fn parse(payload: &[u8]) -> (r: Result<IfrRefreshId, Error>)
        ensures
            r is Ok <==> payload@.len() == 16,
            r is Ok ==> ifr_refresh_id_bytes(r->Ok_0) == payload@,
            r is Err ==> (payload@.len() < 16 && r->Err_0 == Error::TruncatedBuffer) || (
            payload@.len() > 16 && r->Err_0 == Error::LengthMismatch),
    {
        if payload.len() < 16 {
            return Err(Error::TruncatedBuffer);
        }
        if payload.len() > 16 {
            return Err(Error::LengthMismatch);
        }
        let mut rd = Reader::new(payload);
        let x_RefreshEventGroupId = match crate::hii::read_wire_guid(&mut rd) {
            Ok(v) => v,
            Err(e) => {
                return Err(e);
            },
        };
        let v = IfrRefreshId { RefreshEventGroupId: x_RefreshEventGroupId };
        proof {
            assert(ifr_refresh_id_bytes(v) =~= payload@);
        }
        Ok(v)
    }

    /// Writes the payload back.
    pub fn encode(&self) -> (r: Vec<u8>)
        ensures
            r@ == ifr_refresh_id_bytes(*self),
    {
        let mut w = Writer::new();
        crate::hii::write_wire_guid(&mut w, &self.RefreshEventGroupId);
        proof {
            assert(w.bytes() =~= ifr_refresh_id_bytes(*self));
        }
        w.into_vec()
    }
}

/// The wire bytes of a `VARSTORE_NAME_VALUE` payload.
pub open spec fn ifr_var_store_name_value_bytes(v: IfrVarStoreNameValue) -> Seq<u8> {
    u16_le_bytes(v.VarStoreId) + guid_le_bytes(v.Guid)
}

impl IfrVarStoreNameValue {
    /// Reads a `VARSTORE_NAME_VALUE` payload: accepts exactly its 18 fixed bytes
    /// and gives the record they spell; the record re-encodes to the
    /// payload.
    pub fn parse(payload: &[u8]) -> (r: Result<IfrVarStoreNameValue, Error>)
        ensures
            r is Ok <==> payload@.len() == 18,
            r is Ok ==> ifr_var_store_name_value_bytes(r->Ok_0) == payload@,
            r is Err ==> (payload@.len() < 18 && r->Err_0 == Error::TruncatedBuffer) || (
            payload@.len() > 18 && r->Err_0 == Error::LengthMismatch),
    {
        if payload.len() < 18 {
            return Err(Error::TruncatedBuffer);
        }
        if payload.len() > 18 {
            return Err(Error::LengthMismatch);
        }
        let mut rd = Reader::new(payload);
        let x_VarStoreId = match rd.read_u16() {
            Ok(v) => v,
            Err(e) => {
                return Err(e);
            },
        };
        let x_Guid = match crate::hii::read_wire_guid(&mut rd) {
            Ok(v) => v,
            Err(e) => {
                return Err(e);
            },
        };
        let v = IfrVarStoreNameValue { VarStoreId: x_VarStoreId, Guid: x_Guid };
        proof {
            assert(ifr_var_store_name_value_bytes(v) =~= payload@);
        }
        Ok(v)
    }

    /// Writes the payload back.
    pub fn encode(&self) -> (r: Vec<u8>)
        ensures
            r@ == ifr_var_store_name_value_bytes(*self),
    {
        let mut w = Writer::new();
        w.write_u16(self.VarStoreId);
        crate::hii::write_wire_guid(&mut w, &self.Guid);
        proof {
            assert(w.bytes() =~= ifr_var_store_name_value_bytes(*self));
        }
        w.into_vec()
    }
}

/// The wire bytes of a `VARSTORE_DEVICE` payload.
pub open spec fn ifr_var_store_device_bytes(v: IfrVarStoreDevice) -> Seq<u8> {
    u16_le_bytes(v.DevicePath)
}

impl IfrVarStoreDevice {
    /// Reads a `VARSTORE_DEVICE` payload: accepts exactly its 2 fixed bytes
    /// and gives the record they spell; the record re-encodes to the
    /// payload.
    pub fn parse(payload: &[u8]) -> (r: Result<IfrVarStoreDevice, Error>)
        ensures
            r is Ok <==> payload@.len() == 2,
            r is Ok ==> ifr_var_store_device_bytes(r->Ok_0) == payload@,
            r is Err ==> (payload@.len() < 2 && r->Err_0 == Error::TruncatedBuffer) || (
            payload@.len() > 2 && r->Err_0 == Error::LengthMismatch),
    {
        if payload.len() < 2 {
            return Err(Error::TruncatedBuffer);
        }
        if payload.len() > 2 {
            return Err(Error::LengthMismatch);
        }
        let mut rd = Reader::new(payload);
        let x_DevicePath = match rd.read_u16() {
            Ok(v) => v,
            Err(e) => {
                return Err(e);
            },
        };
        let v = IfrVarStoreDevice { DevicePath: x_DevicePath };
        proof {
            assert(ifr_var_store_device_bytes(v) =~= payload@);
        }
        Ok(v)
    }

    /// Writes the payload back.
    pub fn encode(&self) -> (r: Vec<u8>)
        ensures
            r@ == ifr_var_store_device_bytes(*self),
    {
        let mut w = Writer::new();
        w.write_u16(self.DevicePath);
        proof {
            assert(w.bytes() =~= ifr_var_store_device_bytes(*self));
        }
        w.into_vec()
    }
}

/// The wire bytes of a `RULE` payload.
pub open spec fn ifr_rule_bytes(v: IfrRule) -> Seq<u8> {
    seq![v.RuleId]
}

impl IfrRule {
    /// Reads a `RULE` payload: accepts exactly its 1 fixed bytes
    /// and gives the record they spell; the record re-encodes to the
    /// payload.
    pub fn parse(payload: &[u8]) -> (r: Result<IfrRule, Error>)
        ensures
            r is Ok <==> payload@.len() == 1,
            r is Ok ==> ifr_rule_bytes(r->Ok_0) == payload@,
            r is Err ==> (payload@.len() < 1 && r->Err_0 == Error::TruncatedBuffer) || (
            payload@.len() > 1 && r->Err_0 == Error::LengthMismatch),
    {
        if payload.len() < 1 {
            return Err(Error::TruncatedBuffer);
        }
        if payload.len() > 1 {
            return Err(Error::LengthMismatch);
        }
        let mut rd = Reader::new(payload);
        let x_RuleId = match rd.read_u8() {
            Ok(v) => v,
            Err(e) => {
                return Err(e);
            },
        };
        let v = IfrRule { RuleId: x_RuleId };
        proof {
            assert(ifr_rule_bytes(v) =~= payload@);
        }
        Ok(v)
    }

    /// Writes the payload back.
    pub fn encode(&self) -> (r: Vec<u8>)
        ensures
            r@ == ifr_rule_bytes(*self),
    {
        let mut w = Writer::new();
        w.write_u8(self.RuleId);
        proof {
            assert(w.bytes() =~= ifr_rule_bytes(*self));
        }
        w.into_vec()
    }
}

/// The wire bytes of a `RULE_REF` payload.
pub open spec fn ifr_rule_ref_bytes(v: IfrRuleRef) -> Seq<u8> {
    seq![v.RuleId]
}

impl IfrRuleRef {
    /// Reads a `RULE_REF` payload: accepts exactly its 1 fixed bytes
    /// and gives the record they spell; the record re-encodes to the
    /// payload.
    pub fn parse(payload: &[u8]) -> (r: Result<IfrRuleRef, Error>)
        ensures
            r is Ok <==> payload@.len() == 1,
            r is Ok ==> ifr_rule_ref_bytes(r->Ok_0) == payload@,
            r is Err ==> (payload@.len() < 1 && r->Err_0 == Error::TruncatedBuffer) || (
            payload@.len() > 1 && r->Err_0 == Error::LengthMismatch),
    {
        if payload.len() < 1 {
            return Err(Error::TruncatedBuffer);
        }
        if payload.len() > 1 {
            return Err(Error::LengthMismatch);
        }
        let mut rd = Reader::new(payload);
        let x_RuleId = match rd.read_u8() {
            Ok(v) => v,
            Err(e) => {
                return Err(e);
            },
        };
        let v = IfrRuleRef { RuleId: x_RuleId };
        proof {
            assert(ifr_rule_ref_bytes(v) =~= payload@);
        }
        Ok(v)
    }

    /// Writes the payload back.
    pub fn encode(&self) -> (r: Vec<u8>)
        ensures
            r@ == ifr_rule_ref_bytes(*self),
    {
        let mut w = Writer::new();
        w.write_u8(self.RuleId);
        proof {
            assert(w.bytes() =~= ifr_rule_ref_bytes(*self));
        }
        w.into_vec()
    }
}

/// The wire bytes of a `QUESTION_REF1` payload.
pub open spec fn ifr_question_ref1_bytes(v: IfrQuestionRef1) -> Seq<u8> {
    u16_le_bytes(v.QuestionId)
}

impl IfrQuestionRef1 {
    /// Reads a `QUESTION_REF1` payload: accepts exactly its 2 fixed bytes
    /// and gives the record they spell; the record re-encodes to the
    /// payload.
    pub fn parse(payload: &[u8]) -> (r: Result<IfrQuestionRef1, Error>)
        ensures
            r is Ok <==> payload@.len() == 2,
            r is Ok ==> ifr_question_ref1_bytes(r->Ok_0) == payload@,
            r is Err ==> (payload@.len() < 2 && r->Err_0 == Error::TruncatedBuffer) || (
            payload@.len() > 2 && r->Err_0 == Error::LengthMismatch),
    {
        if payload.len() < 2 {
            return Err(Error::TruncatedBuffer);
        }
        if payload.len() > 2 {
            return Err(Error::LengthMismatch);
        }
        let mut rd = Reader::new(payload);
        let x_QuestionId = match rd.read_u16() {
            Ok(v) => v,
            Err(e) => {
                return Err(e);
            },
        };
        let v = IfrQuestionRef1 { QuestionId: x_QuestionId };
        proof {
            assert(ifr_question_ref1_bytes(v) =~= payload@);
        }
        Ok(v)
    }

    /// Writes the payload back.
    pub fn encode(&self) -> (r: Vec<u8>)
        ensures
            r@ == ifr_question_ref1_bytes(*self),
    {
        let mut w = Writer::new();
        w.write_u16(self.QuestionId);
        proof {
            assert(w.bytes() =~= ifr_question_ref1_bytes(*self));
        }
        w.into_vec()
    }
}

/// The wire bytes of a `QUESTION_REF3` payload.
pub open spec fn ifr_question_ref3_2_bytes(v: IfrQuestionRef3_2) -> Seq<u8> {
    u16_le_bytes(v.DevicePath)
}

impl IfrQuestionRef3_2 {
    /// Reads a `QUESTION_REF3` payload: accepts exactly its 2 fixed bytes
    /// and gives the record they spell; the record re-encodes to the
    /// payload.
    pub fn parse(payload: &[u8]) -> (r: Result<IfrQuestionRef3_2, Error>)
        ensures
            r is Ok <==> payload@.len() == 2,
            r is Ok ==> ifr_question_ref3_2_bytes(r->Ok_0) == payload@,
            r is Err ==> (payload@.len() < 2 && r->Err_0 == Error::TruncatedBuffer) || (
            payload@.len() > 2 && r->Err_0 == Error::LengthMismatch),
    {
        if payload.len() < 2 {
            return Err(Error::TruncatedBuffer);
        }
        if payload.len() > 2 {
            return Err(Error::LengthMismatch);
        }
        let mut rd = Reader::new(payload);
        let x_DevicePath = match rd.read_u16() {
            Ok(v) => v,
            Err(e) => {
                return Err(e);
            },
        };
        let v = IfrQuestionRef3_2 { DevicePath: x_DevicePath };
        proof {
            assert(ifr_question_ref3_2_bytes(v) =~= payload@);
        }
        Ok(v)
    }

    /// Writes the payload back.
    pub fn encode(&self) -> (r: Vec<u8>)
        ensures
            r@ == ifr_question_ref3_2_bytes(*self),
    {
        let mut w = Writer::new();
        w.write_u16(self.DevicePath);
        proof {
            assert(w.bytes() =~= ifr_question_ref3_2_bytes(*self));
        }
        w.into_vec()
    }
}

/// The wire bytes of a `QUESTION_REF3` payload.
pub open spec fn ifr_question_ref3_3_bytes(v: IfrQuestionRef3_3) -> Seq<u8> {
    u16_le_bytes(v.DevicePath) + guid_le_bytes(v.Guid)
}

impl IfrQuestionRef3_3 {
    /// Reads a `QUESTION_REF3` payload: accepts exactly its 18 fixed bytes
    /// and gives the record they spell; the record re-encodes to the
    /// payload.
    pub fn parse(payload: &[u8]) -> (r: Result<IfrQuestionRef3_3, Error>)
        ensures
            r is Ok <==> payload@.len() == 18,
            r is Ok ==> ifr_question_ref3_3_bytes(r->Ok_0) == payload@,
            r is Err ==> (payload@.len() < 18 && r->Err_0 == Error::TruncatedBuffer) || (
            payload@.len() > 18 && r->Err_0 == Error::LengthMismatch),
    {
        if payload.len() < 18 {
            return Err(Error::TruncatedBuffer);
        }
        if payload.len() > 18 {
            return Err(Error::LengthMismatch);
        }
        let mut rd = Reader::new(payload);
        let x_DevicePath = match rd.read_u16() {
            Ok(v) => v,
            Err(e) => {
                return Err(e);
            },
        };
        let x_Guid = match crate::hii::read_wire_guid(&mut rd) {
            Ok(v) => v,
            Err(e) => {
                return Err(e);
            },
        };
        let v = IfrQuestionRef3_3 { DevicePath: x_DevicePath, Guid: x_Guid };
        proof {
            assert(ifr_question_ref3_3_bytes(v) =~= payload@);
        }
        Ok(v)
    }

    /// Writes the payload back.
    pub fn encode(&self) -> (r: Vec<u8>)
        ensures
            r@ == ifr_question_ref3_3_bytes(*self),
    {
        let mut w = Writer::new();
        w.write_u16(self.DevicePath);
        crate::hii::write_wire_guid(&mut w, &self.Guid);
        proof {
            assert(w.bytes() =~= ifr_question_ref3_3_bytes(*self));
        }
        w.into_vec()
    }
}

/// The wire bytes of a `STRING_REF1` payload.
pub open spec fn ifr_string_ref1_bytes(v: IfrStringRef1) -> Seq<u8> {
    u16_le_bytes(v.StringId)
}

impl IfrStringRef1 {
    /// Reads a `STRING_REF1` payload: accepts exactly its 2 fixed bytes
    /// and gives the record they spell; the record re-encodes to the
    /// payload.
    pub fn parse(payload: &[u8]) -> (r: Result<IfrStringRef1, Error>)
        ensures
            r is Ok <==> payload@.len() == 2,
            r is Ok ==> ifr_string_ref1_bytes(r->Ok_0) == payload@,
            r is Err ==> (payload@.len() < 2 && r->Err_0 == Error::TruncatedBuffer) || (
            payload@.len() > 2 && r->Err_0 == Error::LengthMismatch),
    {
        if payload.len() < 2 {
            return Err(Error::TruncatedBuffer);
        }
        if payload.len() > 2 {
            return Err(Error::LengthMismatch);
        }
        let mut rd = Reader::new(payload);
        let x_StringId = match rd.read_u16() {
            Ok(v) => v,
            Err(e) => {
                return Err(e);
            },
        };
        let v = IfrStringRef1 { StringId: x_StringId };
        proof {
            assert(ifr_string_ref1_bytes(v) =~= payload@);
        }
        Ok(v)
    }

    /// Writes the payload back.
    pub fn encode(&self) -> (r: Vec<u8>)
        ensures
            r@ == ifr_string_ref1_bytes(*self),
    {
        let mut w = Writer::new();
        w.write_u16(self.StringId);
        proof {
            assert(w.bytes() =~= ifr_string_ref1_bytes(*self));
        }
        w.into_vec()
    }
}

/// The wire bytes of a `SECURITY` payload.
pub open spec fn ifr_security_bytes(v: IfrSecurity) -> Seq<u8> {
    guid_le_bytes(v.Permissions)
}

impl IfrSecurity {
    /// Reads a `SECURITY` payload: accepts exactly its 16 fixed bytes
    /// and gives the record they spell; the record re-encodes to the
    /// payload.
    pub fn parse(payload: &[u8]) -> (r: Result<IfrSecurity, Error>)
        ensures
            r is Ok <==> payload@.len() == 16,
            r is Ok ==> ifr_security_bytes(r->Ok_0) == payload@,
            r is Err ==> (payload@.len() < 16 && r->Err_0 == Error::TruncatedBuffer) || (
            payload@.len() > 16 && r->Err_0 == Error::LengthMismatch),
    {
        if payload.len() < 16 {
            return Err(Error::TruncatedBuffer);
        }
        if payload.len() > 16 {
            return Err(Error::LengthMismatch);
        }
        let mut rd = Reader::new(payload);
        let x_Permissions = match crate::hii::read_wire_guid(&mut rd) {
            Ok(v) => v,
            Err(e) => {
                return Err(e);
            },
        };
        let v = IfrSecurity { Permissions: x_Permissions };
        proof {
            assert(ifr_security_bytes(v) =~= payload@);
        }
        Ok(v)
    }

    /// Writes the payload back.
    pub fn encode(&self) -> (r: Vec<u8>)
        ensures
            r@ == ifr_security_bytes(*self),
    {
        let mut w = Writer::new();
        crate::hii::write_wire_guid(&mut w, &self.Permissions);
        proof {
            assert(w.bytes() =~= ifr_security_bytes(*self));
        }
        w.into_vec()
    }
}

/// The wire bytes of a `MATCH2` payload.
pub open spec fn ifr_match2_bytes(v: IfrMatch2) -> Seq<u8> {
    guid_le_bytes(v.SyntaxType)
}

impl IfrMatch2 {
    /// Reads a `MATCH2` payload: accepts exactly its 16 fixed bytes
    /// and gives the record they spell; the record re-encodes to the
    /// payload.
    pub fn parse(payload: &[u8]) -> (r: Result<IfrMatch2, Error>)
        ensures
            r is Ok <==> payload@.len() == 16,
            r is Ok ==> ifr_match2_bytes(r->Ok_0) == payload@,
            r is Err ==> (payload@.len() < 16 && r->Err_0 == Error::TruncatedBuffer) || (
            payload@.len() > 16 && r->Err_0 == Error::LengthMismatch),
    {
        if payload.len() < 16 {
            return Err(Error::TruncatedBuffer);
        }
        if payload.len() > 16 {
            return Err(Error::LengthMismatch);
        }
        let mut rd = Reader::new(payload);
        let x_SyntaxType = match crate::hii::read_wire_guid(&mut rd) {
            Ok(v) => v,
            Err(e) => {
                return Err(e);
            },
        };
        let v = IfrMatch2 { SyntaxType: x_SyntaxType };
        proof {
            assert(ifr_match2_bytes(v) =~= payload@);
        }
        Ok(v)
    }

    /// Writes the payload back.
    pub fn encode(&self) -> (r: Vec<u8>)
        ensures
            r@ == ifr_match2_bytes(*self),
    {
        let mut w = Writer::new();
        crate::hii::write_wire_guid(&mut w, &self.SyntaxType);
        proof {
            assert(w.bytes() =~= ifr_match2_bytes(*self));
        }
        w.into_vec()
    }
}

/// The wire bytes of a `RESET_BUTTON` payload.
pub open spec fn ifr_reset_button_bytes(v: IfrResetButton) -> Seq<u8> {
    statement_header_bytes(v.Statement) + u16_le_bytes(v.DefaultId)
}

impl IfrResetButton {
    /// Reads a `RESET_BUTTON` payload: accepts exactly its 6 fixed bytes
    /// and gives the record they spell; the record re-encodes to the
    /// payload.
    pub fn parse(payload: &[u8]) -> (r: Result<IfrResetButton, Error>)
        ensures
            r is Ok <==> payload@.len() == 6,
            r is Ok ==> ifr_reset_button_bytes(r->Ok_0) == payload@,
            r is Err ==> (payload@.len() < 6 && r->Err_0 == Error::TruncatedBuffer) || (
            payload@.len() > 6 && r->Err_0 == Error::LengthMismatch),
    {
        if payload.len() < 6 {
            return Err(Error::TruncatedBuffer);
        }
        if payload.len() > 6 {
            return Err(Error::LengthMismatch);
        }
        let mut rd = Reader::new(payload);
        let x_Statement = match read_statement_header(&mut rd) {
            Ok(v) => v,
            Err(e) => {
                return Err(e);
            },
        };
        let x_DefaultId = match rd.read_u16() {
            Ok(v) => v,
            Err(e) => {
                return Err(e);
            },
        };
        let v = IfrResetButton { Statement: x_Statement, DefaultId: x_DefaultId };
        proof {
            assert(ifr_reset_button_bytes(v) =~= payload@);
        }
        Ok(v)
    }

    /// Writes the payload back.
    pub fn encode(&self) -> (r: Vec<u8>)
        ensures
            r@ == ifr_reset_button_bytes(*self),
    {
        let mut w = Writer::new();
        write_statement_header(&mut w, &self.Statement);
        w.write_u16(self.DefaultId);
        proof {
            assert(w.bytes() =~= ifr_reset_button_bytes(*self));
        }
        w.into_vec()
    }
}

/// The wire bytes of a `DEFAULTSTORE` payload.
pub open spec fn ifr_default_store_bytes(v: IfrDefaultStore) -> Seq<u8> {
    u16_le_bytes(v.DefaultName) + u16_le_bytes(v.DefaultId)
}

impl IfrDefaultStore {
    /// Reads a `DEFAULTSTORE` payload: accepts exactly its 4 fixed bytes
    /// and gives the record they spell; the record re-encodes to the
    /// payload.
    pub fn parse(payload: &[u8]) -> (r: Result<IfrDefaultStore, Error>)
        ensures
            r is Ok <==> payload@.len() == 4,
            r is Ok ==> ifr_default_store_bytes(r->Ok_0) == payload@,
            r is Err ==> (payload@.len() < 4 && r->Err_0 == Error::TruncatedBuffer) || (
            payload@.len() > 4 && r->Err_0 == Error::LengthMismatch),
    {
        if payload.len() < 4 {
            return Err(Error::TruncatedBuffer);
        }
        if payload.len() > 4 {
            return Err(Error::LengthMismatch);
        }
        let mut rd = Reader::new(payload);
        let x_DefaultName = match rd.read_u16() {
            Ok(v) => v,
            Err(e) => {
                return Err(e);
            },
        };
        let x_DefaultId = match rd.read_u16() {
            Ok(v) => v,
            Err(e) => {
                return Err(e);
            },
        };
        let v = IfrDefaultStore { DefaultName: x_DefaultName, DefaultId: x_DefaultId };
        proof {
            assert(ifr_default_store_bytes(v) =~= payload@);
        }
        Ok(v)
    }

    /// Writes the payload back.
    pub fn encode(&self) -> (r: Vec<u8>)
        ensures
            r@ == ifr_default_store_bytes(*self),
    {
        let mut w = Writer::new();
        w.write_u16(self.DefaultName);
        w.write_u16(self.DefaultId);
        proof {
            assert(w.bytes() =~= ifr_default_store_bytes(*self));
        }
        w.into_vec()
    }
}

/// The wire bytes of a `DEFAULT` payload.
pub open spec fn ifr_default2_bytes(v: IfrDefault2) -> Seq<u8> {
    u16_le_bytes(v.DefaultId) + seq![v.Type]
}

impl IfrDefault2 {
    /// Reads a `DEFAULT` payload: accepts exactly its 3 fixed bytes
    /// and gives the record they spell; the record re-encodes to the
    /// payload.
    pub fn parse(payload: &[u8]) -> (r: Result<IfrDefault2, Error>)
        ensures
            r is Ok <==> payload@.len() == 3,
            r is Ok ==> ifr_default2_bytes(r->Ok_0) == payload@,
            r is Err ==> (payload@.len() < 3 && r->Err_0 == Error::TruncatedBuffer) || (
            payload@.len() > 3 && r->Err_0 == Error::LengthMismatch),
    {
        if payload.len() < 3 {
            return Err(Error::TruncatedBuffer);
        }
        if payload.len() > 3 {
            return Err(Error::LengthMismatch);
        }
        let mut rd = Reader::new(payload);
        let x_DefaultId = match rd.read_u16() {
            Ok(v) => v,
            Err(e) => {
                return Err(e);
            },
        };
        let x_Type = match rd.read_u8() {
            Ok(v) => v,
            Err(e) => {
                return Err(e);
            },
        };
        let v = IfrDefault2 { DefaultId: x_DefaultId, Type: x_Type };
        proof {
            assert(ifr_default2_bytes(v) =~= payload@);
        }
        Ok(v)
    }

    /// Writes the payload back.
    pub fn encode(&self) -> (r: Vec<u8>)
        ensures
            r@ == ifr_default2_bytes(*self),
    {
        let mut w = Writer::new();
        w.write_u16(self.DefaultId);
        w.write_u8(self.Type);
        proof {
            assert(w.bytes() =~= ifr_default2_bytes(*self));
        }
        w.into_vec()
    }
}

/// The wire bytes of a `GET` payload.
pub open spec fn ifr_get_bytes(v: IfrGet) -> Seq<u8> {
    u16_le_bytes(v.VarStoreId) + u16_le_bytes(v.VarStoreInfo) + seq![v.VarStoreType]
}

impl IfrGet {
    /// Reads a `GET` payload: accepts exactly its 5 fixed bytes
    /// and gives the record they spell; the record re-encodes to the
    /// payload.
    pub fn parse(payload: &[u8]) -> (r: Result<IfrGet, Error>)
        ensures
            r is Ok <==> payload@.len() == 5,
            r is Ok ==> ifr_get_bytes(r->Ok_0) == payload@,
            r is Err ==> (payload@.len() < 5 && r->Err_0 == Error::TruncatedBuffer) || (
            payload@.len() > 5 && r->Err_0 == Error::LengthMismatch),
    {
        if payload.len() < 5 {
            return Err(Error::TruncatedBuffer);
        }
        if payload.len() > 5 {
            return Err(Error::LengthMismatch);
        }
        let mut rd = Reader::new(payload);
        let x_VarStoreId = match rd.read_u16() {
            Ok(v) => v,
            Err(e) => {
                return Err(e);
            },
        };
        let x_VarStoreInfo = match rd.read_u16() {
            Ok(v) => v,
            Err(e) => {
                return Err(e);
            },
        };
        let x_VarStoreType = match rd.read_u8() {
            Ok(v) => v,
            Err(e) => {
                return Err(e);
            },
        };
        let v = IfrGet { VarStoreId: x_VarStoreId, VarStoreInfo: x_VarStoreInfo, VarStoreType: x_VarStoreType };
        proof {
            assert(ifr_get_bytes(v) =~= payload@);
        }
        Ok(v)
    }

    /// Writes the payload back.
    pub fn encode(&self) -> (r: Vec<u8>)
        ensures
            r@ == ifr_get_bytes(*self),
    {
        let mut w = Writer::new();
        w.write_u16(self.VarStoreId);
        w.write_u16(self.VarStoreInfo);
        w.write_u8(self.VarStoreType);
        proof {
            assert(w.bytes() =~= ifr_get_bytes(*self));
        }
        w.into_vec()
    }
}

/// The wire bytes of a `SET` payload.
pub open spec fn ifr_set_bytes(v: IfrSet) -> Seq<u8> {
    u16_le_bytes(v.VarStoreId) + u16_le_bytes(v.VarStoreInfo) + seq![v.VarStoreType]
}

impl IfrSet {
    /// Reads a `SET` payload: accepts exactly its 5 fixed bytes
    /// and gives the record they spell; the record re-encodes to the
    /// payload.
    pub fn parse(payload: &[u8]) -> (r: Result<IfrSet, Error>)
        ensures
            r is Ok <==> payload@.len() == 5,
            r is Ok ==> ifr_set_bytes(r->Ok_0) == payload@,
            r is Err ==> (payload@.len() < 5 && r->Err_0 == Error::TruncatedBuffer) || (
            payload@.len() > 5 && r->Err_0 == Error::LengthMismatch),
    {
        if payload.len() < 5 {
            return Err(Error::TruncatedBuffer);
        }
        if payload.len() > 5 {
            return Err(Error::LengthMismatch);
        }
        let mut rd = Reader::new(payload);
        let x_VarStoreId = match rd.read_u16() {
            Ok(v) => v,
            Err(e) => {
                return Err(e);
            },
        };
        let x_VarStoreInfo = match rd.read_u16() {
            Ok(v) => v,
            Err(e) => {
                return Err(e);
            },
        };
        let x_VarStoreType = match rd.read_u8() {
            Ok(v) => v,
            Err(e) => {
                return Err(e);
            },
        };
        let v = IfrSet { VarStoreId: x_VarStoreId, VarStoreInfo: x_VarStoreInfo, VarStoreType: x_VarStoreType };
        proof {
            assert(ifr_set_bytes(v) =~= payload@);
        }
        Ok(v)
    }

    /// Writes the payload back.
    pub fn encode(&self) -> (r: Vec<u8>)
        ensures
            r@ == ifr_set_bytes(*self),
    {
        let mut w = Writer::new();
        w.write_u16(self.VarStoreId);
        w.write_u16(self.VarStoreInfo);
        w.write_u8(self.VarStoreType);
        proof {
            assert(w.bytes() =~= ifr_set_bytes(*self));
        }
        w.into_vec()
    }
}

/// The wire bytes of a `FIND` payload.
pub open spec fn ifr_find_bytes(v: IfrFind) -> Seq<u8> {
    seq![v.Format]
}

impl IfrFind {
    /// Reads a `FIND` payload: accepts exactly its 1 fixed bytes
    /// and gives the record they spell; the record re-encodes to the
    /// payload.
    pub fn parse(payload: &[u8]) -> (r: Result<IfrFind, Error>)
        ensures
            r is Ok <==> payload@.len() == 1,
            r is Ok ==> ifr_find_bytes(r->Ok_0) == payload@,
            r is Err ==> (payload@.len() < 1 && r->Err_0 == Error::TruncatedBuffer) || (
            payload@.len() > 1 && r->Err_0 == Error::LengthMismatch),
    {
        if payload.len() < 1 {
            return Err(Error::TruncatedBuffer);
        }
        if payload.len() > 1 {
            return Err(Error::LengthMismatch);
        }
        let mut rd = Reader::new(payload);
        let x_Format = match rd.read_u8() {
            Ok(v) => v,
            Err(e) => {
                return Err(e);
            },
        };
        let v = IfrFind { Format: x_Format };
        proof {
            assert(ifr_find_bytes(v) =~= payload@);
        }
        Ok(v)
    }

    /// Writes the payload back.
    pub fn encode(&self) -> (r: Vec<u8>)
        ensures
            r@ == ifr_find_bytes(*self),
    {
        let mut w = Writer::new();
        w.write_u8(self.Format);
        proof {
            assert(w.bytes() =~= ifr_find_bytes(*self));
        }
        w.into_vec()
    }
}

/// The wire bytes of a `TO_STRING` payload.
pub open spec fn ifr_to_string_bytes(v: IfrToString) -> Seq<u8> {
    seq![v.Format]
}

impl IfrToString {
    /// Reads a `TO_STRING` payload: accepts exactly its 1 fixed bytes
    /// and gives the record they spell; the record re-encodes to the
    /// payload.
    pub fn parse(payload: &[u8]) -> (r: Result<IfrToString, Error>)
        ensures
            r is Ok <==> payload@.len() == 1,
            r is Ok ==> ifr_to_string_bytes(r->Ok_0) == payload@,
            r is Err ==> (payload@.len() < 1 && r->Err_0 == Error::TruncatedBuffer) || (
            payload@.len() > 1 && r->Err_0 == Error::LengthMismatch),
    {
        if payload.len() < 1 {
            return Err(Error::TruncatedBuffer);
        }
        if payload.len() > 1 {
            return Err(Error::LengthMismatch);
        }
        let mut rd = Reader::new(payload);
        let x_Format = match rd.read_u8() {
            Ok(v) => v,
            Err(e) => {
                return Err(e);
            },
        };
        let v = IfrToString { Format: x_Format };
        proof {
            assert(ifr_to_string_bytes(v) =~= payload@);
        }
        Ok(v)
    }

    /// Writes the payload back.
    pub fn encode(&self) -> (r: Vec<u8>)
        ensures
            r@ == ifr_to_string_bytes(*self),
    {
        let mut w = Writer::new();
        w.write_u8(self.Format);
        proof {
            assert(w.bytes() =~= ifr_to_string_bytes(*self));
        }
        w.into_vec()
    }
}

/// The wire bytes of a `SPAN` payload.
pub open spec fn ifr_span_bytes(v: IfrSpan) -> Seq<u8> {
    seq![v.Flags]
}

impl IfrSpan {
    /// Reads a `SPAN` payload: accepts exactly its 1 fixed bytes
    /// and gives the record they spell; the record re-encodes to the
    /// payload.
    pub fn parse(payload: &[u8]) -> (r: Result<IfrSpan, Error>)
        ensures
            r is Ok <==> payload@.len() == 1,
            r is Ok ==> ifr_span_bytes(r->Ok_0) == payload@,
            r is Err ==> (payload@.len() < 1 && r->Err_0 == Error::TruncatedBuffer) || (
            payload@.len() > 1 && r->Err_0 == Error::LengthMismatch),
    {
        if payload.len() < 1 {
            return Err(Error::TruncatedBuffer);
        }
        if payload.len() > 1 {
            return Err(Error::LengthMismatch);
        }
        let mut rd = Reader::new(payload);
        let x_Flags = match rd.read_u8() {
            Ok(v) => v,
            Err(e) => {
                return Err(e);
            },
        };
        let v = IfrSpan { Flags: x_Flags };
        proof {
            assert(ifr_span_bytes(v) =~= payload@);
        }
        Ok(v)
    }

    /// Writes the payload back.
    pub fn encode(&self) -> (r: Vec<u8>)
        ensures
            r@ == ifr_span_bytes(*self),
    {
        let mut w = Writer::new();
        w.write_u8(self.Flags);
        proof {
            assert(w.bytes() =~= ifr_span_bytes(*self));
        }
        w.into_vec()
    }
}


/// The wire bytes of a run of GUIDs.
pub open spec fn guids_bytes(s: Seq<Guid>) -> Seq<u8>
    decreases s.len(),
{
    if s.len() == 0 {
        Seq::empty()
    } else {
        guid_le_bytes(s[0]) + guids_bytes(s.drop_first())
    }
}

/// Appending one GUID appends its bytes.
proof fn lemma_guids_bytes_snoc(s: Seq<Guid>)
    requires
        s.len() > 0,
    ensures
        guids_bytes(s) == guids_bytes(s.drop_last()) + guid_le_bytes(s.last()),
    decreases s.len(),
{
    if s.len() == 1 {
        assert(s.drop_last() =~= Seq::<Guid>::empty());
        assert(s.drop_first() =~= Seq::<Guid>::empty());
        assert(guids_bytes(s) =~= guids_bytes(s.drop_last()) + guid_le_bytes(s.last()));
    } else {
        lemma_guids_bytes_snoc(s.drop_first());
        assert(s.drop_first().drop_last() =~= s.drop_last().drop_first());
        assert(s.drop_last()[0] == s[0]);
        assert(guids_bytes(s) =~= guids_bytes(s.drop_last()) + guid_le_bytes(s.last()));
    }
}

/// The wire bytes of a `ACTION` payload.
pub open spec fn ifr_action1_bytes(v: IfrAction1) -> Seq<u8> {
    question_header_bytes(v.Question)
}

impl IfrAction1 {
    /// Reads a `ACTION` payload: accepts exactly its 11 fixed bytes
    /// and gives the record they spell; the record re-encodes to the
    /// payload.
    pub fn parse(payload: &[u8]) -> (r: Result<IfrAction1, Error>)
        ensures
            r is Ok <==> payload@.len() == 11,
            r is Ok ==> ifr_action1_bytes(r->Ok_0) == payload@,
            r is Err ==> (payload@.len() < 11 && r->Err_0 == Error::TruncatedBuffer) || (
            payload@.len() > 11 && r->Err_0 == Error::LengthMismatch),
    {
        if payload.len() < 11 {
            return Err(Error::TruncatedBuffer);
        }
        if payload.len() > 11 {
            return Err(Error::LengthMismatch);
        }
        let mut rd = Reader::new(payload);
        let x_Question = match read_question_header(&mut rd) {
            Ok(v) => v,
            Err(e) => {
                return Err(e);
            },
        };
        let v = IfrAction1 { Question: x_Question };
        proof {
            assert(ifr_action1_bytes(v) =~= payload@);
        }
        Ok(v)
    }

    /// Writes the payload back.
    pub fn encode(&self) -> (r: Vec<u8>)
        ensures
            r@ == ifr_action1_bytes(*self),
    {
        let mut w = Writer::new();
        write_question_header(&mut w, &self.Question);
        proof {
            assert(w.bytes() =~= ifr_action1_bytes(*self));
        }
        w.into_vec()
    }
}

/// The wire bytes of a `REF` payload.
pub open spec fn ifr_ref5_bytes(v: IfrRef5) -> Seq<u8> {
    question_header_bytes(v.Question)
}

impl IfrRef5 {
    /// Reads a `REF` payload: accepts exactly its 11 fixed bytes
    /// and gives the record they spell; the record re-encodes to the
    /// payload.
    pub fn parse(payload: &[u8]) -> (r: Result<IfrRef5, Error>)
        ensures
            r is Ok <==> payload@.len() == 11,
            r is Ok ==> ifr_ref5_bytes(r->Ok_0) == payload@,
            r is Err ==> (payload@.len() < 11 && r->Err_0 == Error::TruncatedBuffer) || (
            payload@.len() > 11 && r->Err_0 == Error::LengthMismatch),
    {
        if payload.len() < 11 {
            return Err(Error::TruncatedBuffer);
        }
        if payload.len() > 11 {
            return Err(Error::LengthMismatch);
        }
        let mut rd = Reader::new(payload);
        let x_Question = match read_question_header(&mut rd) {
            Ok(v) => v,
            Err(e) => {
                return Err(e);
            },
        };
        let v = IfrRef5 { Question: x_Question };
        proof {
            assert(ifr_ref5_bytes(v) =~= payload@);
        }
        Ok(v)
    }

    /// Writes the payload back.
    pub fn encode(&self) -> (r: Vec<u8>)
        ensures
            r@ == ifr_ref5_bytes(*self),
    {
        let mut w = Writer::new();
        write_question_header(&mut w, &self.Question);
        proof {
            assert(w.bytes() =~= ifr_ref5_bytes(*self));
        }
        w.into_vec()
    }
}

/// The wire bytes of a `DEFAULT` payload.
pub open spec fn ifr_default_bytes(v: IfrDefault) -> Seq<u8> {
    u16_le_bytes(v.DefaultId) + seq![v.Type] + typed_value_bytes(v.Value)
}

impl IfrDefault {
    /// Reads a `DEFAULT` payload: the default store id, the type byte,
    /// then a typed value of that type filling the rest. The record
    /// re-encodes to the payload and its value answers to its type byte.
    pub fn parse(payload: &[u8]) -> (r: Result<IfrDefault, Error>)
        ensures
            r is Ok <==> payload@.len() >= 3 && typed_value_fits(payload@[2], payload@.len() - 3),
            r is Ok ==> ifr_default_bytes(r->Ok_0) == payload@ && typed_value_tag(r->Ok_0.Value)
                == r->Ok_0.Type,
    {
        if payload.len() < 3 {
            return Err(Error::TruncatedBuffer);
        }
        let mut rd = Reader::new(payload);
        let did = match rd.read_u16() {
            Ok(v) => v,
            Err(e) => {
                return Err(e);
            },
        };
        let t = match rd.read_u8() {
            Ok(v) => v,
            Err(e) => {
                return Err(e);
            },
        };
        let value = match read_typed_value(t, &mut rd) {
            Ok(v) => v,
            Err(e) => {
                return Err(e);
            },
        };
        let v = IfrDefault { DefaultId: did, Type: t, Value: value };
        proof {
            assert(ifr_default_bytes(v) =~= payload@);
        }
        Ok(v)
    }

    /// Writes the payload back.
    pub fn encode(&self) -> (r: Vec<u8>)
        ensures
            r@ == ifr_default_bytes(*self),
    {
        let mut w = Writer::new();
        w.write_u16(self.DefaultId);
        w.write_u8(self.Type);
        write_typed_value(&mut w, &self.Value);
        proof {
            assert(w.bytes() =~= ifr_default_bytes(*self));
        }
        w.into_vec()
    }
}

/// The wire bytes of a `ONE_OF_OPTION` payload.
pub open spec fn ifr_one_of_option_bytes(v: IfrOneOfOption) -> Seq<u8> {
    u16_le_bytes(v.Option) + seq![v.Flags, v.Type] + typed_value_bytes(v.Value)
}

impl IfrOneOfOption {
    /// Reads a `ONE_OF_OPTION` payload: the option text, the flags, the
    /// type byte, then a typed value of that type filling the rest. The
    /// record re-encodes to the payload and its value answers to its
    /// type byte.
    pub fn parse(payload: &[u8]) -> (r: Result<IfrOneOfOption, Error>)
        ensures
            r is Ok <==> payload@.len() >= 4 && typed_value_fits(payload@[3], payload@.len() - 4),
            r is Ok ==> ifr_one_of_option_bytes(r->Ok_0) == payload@ && typed_value_tag(
                r->Ok_0.Value,
            ) == r->Ok_0.Type,
    {
        if payload.len() < 4 {
            return Err(Error::TruncatedBuffer);
        }
        let mut rd = Reader::new(payload);
        let option = match rd.read_u16() {
            Ok(v) => v,
            Err(e) => {
                return Err(e);
            },
        };
        let flags = match rd.read_u8() {
            Ok(v) => v,
            Err(e) => {
                return Err(e);
            },
        };
        let t = match rd.read_u8() {
            Ok(v) => v,
            Err(e) => {
                return Err(e);
            },
        };
        let value = match read_typed_value(t, &mut rd) {
            Ok(v) => v,
            Err(e) => {
                return Err(e);
            },
        };
        let v = IfrOneOfOption { Option: option, Flags: flags, Type: t, Value: value };
        proof {
            assert(ifr_one_of_option_bytes(v) =~= payload@);
        }
        Ok(v)
    }

    /// Writes the payload back.
    pub fn encode(&self) -> (r: Vec<u8>)
        ensures
            r@ == ifr_one_of_option_bytes(*self),
    {
        let mut w = Writer::new();
        w.write_u16(self.Option);
        w.write_u8(self.Flags);
        w.write_u8(self.Type);
        write_typed_value(&mut w, &self.Value);
        proof {
            assert(w.bytes() =~= ifr_one_of_option_bytes(*self));
        }
        w.into_vec()
    }
}

/// The wire bytes of a `NUMERIC` payload.
pub open spec fn ifr_numeric_bytes(v: IfrNumeric) -> Seq<u8> {
    question_header_bytes(v.Question) + seq![v.Flags] + ifr_data_bytes(v.Data)
}

impl IfrNumeric {
    /// Reads a `NUMERIC` payload: the question header, the flags byte,
    /// then the numeric-range union of the width the flags select,
    /// filling the rest. The record re-encodes to the payload.
    pub fn parse(payload: &[u8]) -> (r: Result<IfrNumeric, Error>)
        ensures
            r is Ok <==> payload@.len() >= 12 && ifr_data_fits(payload@[11], payload@.len() - 12),
            r is Ok ==> ifr_numeric_bytes(r->Ok_0) == payload@ && ifr_data_width(r->Ok_0.Data)
                == numeric_width(r->Ok_0.Flags),
    {
        if payload.len() < 12 {
            return Err(Error::TruncatedBuffer);
        }
        let mut rd = Reader::new(payload);
        let question = match read_question_header(&mut rd) {
            Ok(v) => v,
            Err(e) => {
                return Err(e);
            },
        };
        let flags = match rd.read_u8() {
            Ok(v) => v,
            Err(e) => {
                return Err(e);
            },
        };
        let data = match read_ifr_data(flags, &mut rd) {
            Ok(v) => v,
            Err(e) => {
                return Err(e);
            },
        };
        let v = IfrNumeric { Question: question, Flags: flags, Data: data };
        proof {
            assert(ifr_numeric_bytes(v) =~= payload@);
        }
        Ok(v)
    }

    /// Writes the payload back.
    pub fn encode(&self) -> (r: Vec<u8>)
        ensures
            r@ == ifr_numeric_bytes(*self),
    {
        let mut w = Writer::new();
        write_question_header(&mut w, &self.Question);
        w.write_u8(self.Flags);
        write_ifr_data(&mut w, &self.Data);
        proof {
            assert(w.bytes() =~= ifr_numeric_bytes(*self));
        }
        w.into_vec()
    }
}

/// The wire bytes of a `ONE_OF` payload.
pub open spec fn ifr_one_of_bytes(v: IfrOneOf) -> Seq<u8> {
    question_header_bytes(v.Question) + seq![v.Flags] + ifr_data_bytes(v.Data)
}

impl IfrOneOf {
    /// Reads a `ONE_OF` payload; the same shape as `NUMERIC`.
    pub fn parse(payload: &[u8]) -> (r: Result<IfrOneOf, Error>)
        ensures
            r is Ok <==> payload@.len() >= 12 && ifr_data_fits(payload@[11], payload@.len() - 12),
            r is Ok ==> ifr_one_of_bytes(r->Ok_0) == payload@ && ifr_data_width(r->Ok_0.Data)
                == numeric_width(r->Ok_0.Flags),
    {
        if payload.len() < 12 {
            return Err(Error::TruncatedBuffer);
        }
        let mut rd = Reader::new(payload);
        let question = match read_question_header(&mut rd) {
            Ok(v) => v,
            Err(e) => {
                return Err(e);
            },
        };
        let flags = match rd.read_u8() {
            Ok(v) => v,
            Err(e) => {
                return Err(e);
            },
        };
        let data = match read_ifr_data(flags, &mut rd) {
            Ok(v) => v,
            Err(e) => {
                return Err(e);
            },
        };
        let v = IfrOneOf { Question: question, Flags: flags, Data: data };
        proof {
            assert(ifr_one_of_bytes(v) =~= payload@);
        }
        Ok(v)
    }

    /// Writes the payload back.
    pub fn encode(&self) -> (r: Vec<u8>)
        ensures
            r@ == ifr_one_of_bytes(*self),
    {
        let mut w = Writer::new();
        write_question_header(&mut w, &self.Question);
        w.write_u8(self.Flags);
        write_ifr_data(&mut w, &self.Data);
        proof {
            assert(w.bytes() =~= ifr_one_of_bytes(*self));
        }
        w.into_vec()
    }
}

/// The wire bytes of a `GUID` payload.
pub open spec fn ifr_guid_bytes(v: IfrGuid) -> Seq<u8> {
    guid_le_bytes(v.Guid) + v.Data@
}

impl IfrGuid {
    /// Reads a `GUID` payload: the vendor GUID, then whatever
    /// vendor-specific data follows, kept raw.
    pub fn parse(payload: &[u8]) -> (r: Result<IfrGuid, Error>)
        ensures
            r is Ok <==> payload@.len() >= 16,
            r is Ok ==> ifr_guid_bytes(r->Ok_0) == payload@,
            r is Err ==> r->Err_0 == Error::TruncatedBuffer,
    {
        let mut rd = Reader::new(payload);
        let guid = match crate::hii::read_wire_guid(&mut rd) {
            Ok(v) => v,
            Err(e) => {
                return Err(e);
            },
        };
        let n = rd.remaining();
        let data = match rd.read_bytes(n) {
            Ok(v) => v,
            Err(e) => {
                return Err(e);
            },
        };
        let v = IfrGuid { Guid: guid, Data: data };
        proof {
            assert(ifr_guid_bytes(v) =~= payload@);
        }
        Ok(v)
    }

    /// Writes the payload back.
    pub fn encode(&self) -> (r: Vec<u8>)
        ensures
            r@ == ifr_guid_bytes(*self),
    {
        let mut w = Writer::new();
        crate::hii::write_wire_guid(&mut w, &self.Guid);
        w.write_bytes(self.Data.as_slice());
        proof {
            assert(w.bytes() =~= ifr_guid_bytes(*self));
        }
        w.into_vec()
    }
}

/// The wire bytes of a `VARSTORE` payload; the name bytes are raw,
/// terminator included.
pub open spec fn ifr_var_store_bytes(v: IfrVarStore) -> Seq<u8> {
    guid_le_bytes(v.Guid) + u16_le_bytes(v.VarStoreId) + u16_le_bytes(v.Size) + v.Name@
}

impl IfrVarStore {
    /// Reads a `VARSTORE` payload: the store GUID, its id and size, then
    /// the store's name bytes, kept raw.
    pub fn parse(payload: &[u8]) -> (r: Result<IfrVarStore, Error>)
        ensures
            r is Ok <==> payload@.len() >= 20,
            r is Ok ==> ifr_var_store_bytes(r->Ok_0) == payload@,
            r is Err ==> r->Err_0 == Error::TruncatedBuffer,
    {
        let mut rd = Reader::new(payload);
        let guid = match crate::hii::read_wire_guid(&mut rd) {
            Ok(v) => v,
            Err(e) => {
                return Err(e);
            },
        };
        let vsid = match rd.read_u16() {
            Ok(v) => v,
            Err(e) => {
                return Err(e);
            },
        };
        let size = match rd.read_u16() {
            Ok(v) => v,
            Err(e) => {
                return Err(e);
            },
        };
        let n = rd.remaining();
        let name = match rd.read_bytes(n) {
            Ok(v) => v,
            Err(e) => {
                return Err(e);
            },
        };
        let v = IfrVarStore { Guid: guid, VarStoreId: vsid, Size: size, Name: name };
        proof {
            assert(ifr_var_store_bytes(v) =~= payload@);
        }
        Ok(v)
    }

    /// Writes the payload back.
    pub fn encode(&self) -> (r: Vec<u8>)
        ensures
            r@ == ifr_var_store_bytes(*self),
    {
        let mut w = Writer::new();
        crate::hii::write_wire_guid(&mut w, &self.Guid);
        w.write_u16(self.VarStoreId);
        w.write_u16(self.Size);
        w.write_bytes(self.Name.as_slice());
        proof {
            assert(w.bytes() =~= ifr_var_store_bytes(*self));
        }
        w.into_vec()
    }
}

/// The wire bytes of a `VARSTORE_EFI` payload; the name bytes are raw,
/// terminator included.
pub open spec fn ifr_var_store_efi_bytes(v: IfrVarStoreEfi) -> Seq<u8> {
    u16_le_bytes(v.VarStoreId) + guid_le_bytes(v.Guid) + u32_le_bytes(v.Attributes)
        + u16_le_bytes(v.Size) + v.Name@
}

impl IfrVarStoreEfi {
    /// Reads a `VARSTORE_EFI` payload: the store id, GUID, attribute
    /// bits and size, then the variable's name bytes, kept raw.
    pub fn parse(payload: &[u8]) -> (r: Result<IfrVarStoreEfi, Error>)
        ensures
            r is Ok <==> payload@.len() >= 24,
            r is Ok ==> ifr_var_store_efi_bytes(r->Ok_0) == payload@,
            r is Err ==> r->Err_0 == Error::TruncatedBuffer,
    {
        let mut rd = Reader::new(payload);
        let vsid = match rd.read_u16() {
            Ok(v) => v,
            Err(e) => {
                return Err(e);
            },
        };
        let guid = match crate::hii::read_wire_guid(&mut rd) {
            Ok(v) => v,
            Err(e) => {
                return Err(e);
            },
        };
        let attrs = match rd.read_u32() {
            Ok(v) => v,
            Err(e) => {
                return Err(e);
            },
        };
        let size = match rd.read_u16() {
            Ok(v) => v,
            Err(e) => {
                return Err(e);
            },
        };
        let n = rd.remaining();
        let name = match rd.read_bytes(n) {
            Ok(v) => v,
            Err(e) => {
                return Err(e);
            },
        };
        let v = IfrVarStoreEfi {
            VarStoreId: vsid,
            Guid: guid,
            Attributes: attrs,
            Size: size,
            Name: name,
        };
        proof {
            assert(ifr_var_store_efi_bytes(v) =~= payload@);
        }
        Ok(v)
    }

    /// Writes the payload back.
    pub fn encode(&self) -> (r: Vec<u8>)
        ensures
            r@ == ifr_var_store_efi_bytes(*self),
    {
        let mut w = Writer::new();
        w.write_u16(self.VarStoreId);
        crate::hii::write_wire_guid(&mut w, &self.Guid);
        w.write_u32(self.Attributes);
        w.write_u16(self.Size);
        w.write_bytes(self.Name.as_slice());
        proof {
            assert(w.bytes() =~= ifr_var_store_efi_bytes(*self));
        }
        w.into_vec()
    }
}


/// The wire bytes of an `EQ_ID_VAL_LIST` payload.
pub open spec fn ifr_eq_id_val_list_bytes(v: IfrEqIdValList) -> Seq<u8> {
    u16_le_bytes(v.QuestionId) + u16_le_bytes(v.ListLength) + u16s_bytes(v.ValueList@)
}

impl IfrEqIdValList {
    /// Reads an `EQ_ID_VAL_LIST` payload: the question id, the value
    /// count, then exactly that many 16-bit values; the count is read
    /// first and trusted, never inferred from the remaining data. The
    /// record re-encodes to the payload and its count matches its list.
    pub fn parse(payload: &[u8]) -> (r: Result<IfrEqIdValList, Error>)
        ensures
            r is Ok <==> payload@.len() >= 4 && payload@.len() == 4 + 2 * (crate::bytes::u16_at(
                payload@,
                2,
            ) as int),
            r is Ok ==> ifr_eq_id_val_list_bytes(r->Ok_0) == payload@ && r->Ok_0.ListLength as int
                == r->Ok_0.ValueList@.len(),
    {
        if payload.len() < 4 {
            return Err(Error::TruncatedBuffer);
        }
        let mut rd = Reader::new(payload);
        let qid = match rd.read_u16() {
            Ok(v) => v,
            Err(e) => {
                return Err(e);
            },
        };
        let n = match rd.read_u16() {
            Ok(v) => v,
            Err(e) => {
                return Err(e);
            },
        };
        if payload.len() < 4 + 2 * (n as usize) {
            return Err(Error::TruncatedBuffer);
        }
        if payload.len() > 4 + 2 * (n as usize) {
            return Err(Error::LengthMismatch);
        }
        let mut values: Vec<u16> = Vec::new();
        let mut i: u16 = 0;
        proof {
            assert(u16s_bytes(values@) =~= payload@.subrange(4, rd.at()));
        }
        while i < n
            invariant
                rd.wf(),
                rd.bytes() == payload@,
                i <= n,
                payload@.len() == 4 + 2 * (n as int),
                rd.at() == 4 + 2 * (i as int),
                values@.len() == i,
                u16s_bytes(values@) == payload@.subrange(4, rd.at()),
            decreases n - i,
        {
            let ghost at0 = rd.at();
            let ghost prev = values@;
            let x = match rd.read_u16() {
                Ok(v) => v,
                Err(e) => {
                    return Err(e);
                },
            };
            values.push(x);
            i = i + 1;
            proof {
                lemma_u16s_bytes_snoc(values@);
                assert(values@.drop_last() =~= prev);
                assert(u16s_bytes(values@) == u16s_bytes(prev) + u16_le_bytes(x));
                assert(payload@.subrange(4, at0) + payload@.subrange(at0, rd.at())
                    =~= payload@.subrange(4, rd.at()));
            }
        }
        let v = IfrEqIdValList { QuestionId: qid, ListLength: n, ValueList: values };
        proof {
            assert(ifr_eq_id_val_list_bytes(v) =~= payload@);
        }
        Ok(v)
    }

    /// Writes the payload back; asks that the count matches the list.
    pub fn encode(&self) -> (r: Vec<u8>)
        requires
            self.ListLength as int == self.ValueList@.len(),
        ensures
            r@ == ifr_eq_id_val_list_bytes(*self),
    {
        let mut w = Writer::new();
        w.write_u16(self.QuestionId);
        w.write_u16(self.ListLength);
        let mut i: usize = 0;
        proof {
            assert(self.ValueList@.subrange(0, 0) =~= Seq::<u16>::empty());
        }
        while i < self.ValueList.len()
            invariant
                i <= self.ValueList@.len(),
                w.bytes() == u16_le_bytes(self.QuestionId) + u16_le_bytes(self.ListLength)
                    + u16s_bytes(self.ValueList@.subrange(0, i as int)),
            decreases self.ValueList@.len() - i,
        {
            w.write_u16(self.ValueList[i]);
            i = i + 1;
            proof {
                lemma_u16s_bytes_snoc(self.ValueList@.subrange(0, i as int));
                assert(self.ValueList@.subrange(0, i as int).drop_last() =~= self.ValueList@
                    .subrange(0, i - 1));
                assert(w.bytes() =~= u16_le_bytes(self.QuestionId) + u16_le_bytes(self.ListLength)
                    + u16s_bytes(self.ValueList@.subrange(0, i as int)));
            }
        }
        proof {
            assert(self.ValueList@.subrange(0, self.ValueList@.len() as int) =~= self.ValueList@);
            assert(w.bytes() =~= ifr_eq_id_val_list_bytes(*self));
        }
        w.into_vec()
    }
}

/// The wire bytes of a `FORM_SET` payload.
pub open spec fn ifr_form_set_bytes(v: IfrFormSet) -> Seq<u8> {
    guid_le_bytes(v.Guid) + u16_le_bytes(v.FormSetTitle) + u16_le_bytes(v.Help) + seq![v.Flags]
        + guids_bytes(v.ClassGuid@)
}

impl IfrFormSet {
    /// Reads a `FORM_SET` payload: the form set GUID, its title and
    /// help, the flags byte, then whole class GUIDs to the end of the
    /// payload. The record re-encodes to the payload.
    pub fn parse(payload: &[u8]) -> (r: Result<IfrFormSet, Error>)
        ensures
            r is Ok <==> payload@.len() >= 21 && (payload@.len() - 21) % 16 == 0,
            r is Ok ==> ifr_form_set_bytes(r->Ok_0) == payload@,
    {
        if payload.len() < 21 {
            return Err(Error::TruncatedBuffer);
        }
        if (payload.len() - 21) % 16 != 0 {
            return Err(Error::LengthMismatch);
        }
        let mut rd = Reader::new(payload);
        let guid = match crate::hii::read_wire_guid(&mut rd) {
            Ok(v) => v,
            Err(e) => {
                return Err(e);
            },
        };
        let title = match rd.read_u16() {
            Ok(v) => v,
            Err(e) => {
                return Err(e);
            },
        };
        let help = match rd.read_u16() {
            Ok(v) => v,
            Err(e) => {
                return Err(e);
            },
        };
        let flags = match rd.read_u8() {
            Ok(v) => v,
            Err(e) => {
                return Err(e);
            },
        };
        let mut class: Vec<Guid> = Vec::new();
        proof {
            assert(guids_bytes(class@) =~= payload@.subrange(21, rd.at()));
        }
        while rd.remaining() > 0
            invariant
                rd.wf(),
                rd.bytes() == payload@,
                rd.at() >= 21,
                (payload@.len() - rd.at()) % 16 == 0,
                guids_bytes(class@) == payload@.subrange(21, rd.at()),
            decreases rd.left(),
        {
            let ghost at0 = rd.at();
            let ghost prev = class@;
            let g = match crate::hii::read_wire_guid(&mut rd) {
                Ok(v) => v,
                Err(e) => {
                    return Err(e);
                },
            };
            class.push(g);
            proof {
                lemma_guids_bytes_snoc(class@);
                assert(class@.drop_last() =~= prev);
                assert(guids_bytes(class@) == guids_bytes(prev) + guid_le_bytes(g));
                assert(payload@.subrange(21, at0) + payload@.subrange(at0, rd.at())
                    =~= payload@.subrange(21, rd.at()));
            }
        }
        let v = IfrFormSet {
            Guid: guid,
            FormSetTitle: title,
            Help: help,
            Flags: flags,
            ClassGuid: class,
        };
        proof {
            assert(ifr_form_set_bytes(v) =~= payload@);
        }
        Ok(v)
    }

    /// Writes the payload back.
    pub fn encode(&self) -> (r: Vec<u8>)
        ensures
            r@ == ifr_form_set_bytes(*self),
    {
        let mut w = Writer::new();
        crate::hii::write_wire_guid(&mut w, &self.Guid);
        w.write_u16(self.FormSetTitle);
        w.write_u16(self.Help);
        w.write_u8(self.Flags);
        let ghost fixed = w.bytes();
        let mut i: usize = 0;
        proof {
            assert(self.ClassGuid@.subrange(0, 0) =~= Seq::<Guid>::empty());
        }
        while i < self.ClassGuid.len()
            invariant
                i <= self.ClassGuid@.len(),
                w.bytes() == fixed + guids_bytes(self.ClassGuid@.subrange(0, i as int)),
            decreases self.ClassGuid@.len() - i,
        {
            crate::hii::write_wire_guid(&mut w, &self.ClassGuid[i]);
            i = i + 1;
            proof {
                lemma_guids_bytes_snoc(self.ClassGuid@.subrange(0, i as int));
                assert(self.ClassGuid@.subrange(0, i as int).drop_last() =~= self.ClassGuid@
                    .subrange(0, i - 1));
                assert(w.bytes() =~= fixed + guids_bytes(self.ClassGuid@.subrange(0, i as int)));
            }
        }
        proof {
            assert(self.ClassGuid@.subrange(0, self.ClassGuid@.len() as int) =~= self.ClassGuid@);
            assert(w.bytes() =~= ifr_form_set_bytes(*self));
        }
        w.into_vec()
    }
}


/// Opcodes that carry no payload at all: the expression operators, the
/// condition openers, and the structural tags.
pub open spec fn no_payload_op(tag: u8) -> bool {
    tag == 0x0A || tag == 0x0B || tag == 0x13 || tag == 0x15 || tag == 0x16 || tag == 0x17
        || tag == 0x19 || tag == 0x1E || tag == 0x20 || tag == 0x21 || tag == 0x22 || tag == 0x28
        || tag == 0x29 || tag == 0x2A || tag == 0x2D || tag == 0x2E || (0x2F <= tag && tag <= 0x3E)
        || tag == 0x41 || tag == 0x46 || tag == 0x47 || tag == 0x48 || tag == 0x4A || tag == 0x4B
        || tag == 0x4D || tag == 0x4F || tag == 0x50 || (0x52 <= tag && tag <= 0x58) || tag == 0x5A
        || tag == 0x5E || tag == 0x61
}

/// The tags the statement table knows; everything else is preserved
/// opaquely.
pub open spec fn known_statement_tag(tag: u8) -> bool {
    no_payload_op(tag) || (0x01 <= tag && tag <= 0x14) || (0x18 <= tag && tag <= 0x1D) || tag
        == 0x1F || (0x23 <= tag && tag <= 0x27) || tag == 0x2B || tag == 0x2C || tag == 0x3F
        || tag == 0x40 || (0x42 <= tag && tag <= 0x45) || tag == 0x49 || tag == 0x4C || tag == 0x4E
        || tag == 0x51 || tag == 0x59 || tag == 0x5B || tag == 0x5C || tag == 0x5F || (0x60 <= tag
        && tag <= 0x64)
}

/// One opcode record read as the typed record its tag selects. Tags the
/// table does not know are kept opaquely, never rejected.
#[derive(Clone, Debug, PartialEq, Eq)]
pub enum IfrStatement {
    Form(IfrForm),
    Subtitle(IfrSubtitle),
    Text(IfrText),
    Image(IfrImage),
    OneOf(IfrOneOf),
    Checkbox(IfrCheckbox),
    Numeric(IfrNumeric),
    Password(IfrPassword),
    OneOfOption(IfrOneOfOption),
    EqIdVal(IfrEqIdVal),
    EqIdValList(IfrEqIdValList),
    Rule(IfrRule),
    Date(IfrDate),
    Time(IfrTime),
    StringOp(IfrString),
    Refresh(IfrRefresh),
    Animation(IfrAnimation),
    OrderedList(IfrOrderedList),
    VarStore(IfrVarStore),
    VarStoreNameValue(IfrVarStoreNameValue),
    VarStoreEfi(IfrVarStoreEfi),
    VarStoreDevice(IfrVarStoreDevice),
    InconsistentIf(IfrInconsistentIf),
    NoSubmitIf(IfrNoSubmitIf),
    RuleRef(IfrRuleRef),
    QuestionRef1(IfrQuestionRef1),
    Uint8(IfrUint8),
    Uint16(IfrUint16),
    Uint32(IfrUint32),
    Uint64(IfrUint64),
    Find(IfrFind),
    ToString(IfrToString),
    StringRef1(IfrStringRef1),
    Span(IfrSpan),
    DefaultStore(IfrDefaultStore),
    Guid(IfrGuid),
    Security(IfrSecurity),
    RefreshId(IfrRefreshId),
    WarningIf(IfrWarningIf),
    Match2(IfrMatch2),
    ResetButton(IfrResetButton),
    FormSet(IfrFormSet),
    Get(IfrGet),
    SetOp(IfrSet),
    Action(IfrAction),
    Action1(IfrAction1),
    Ref(IfrRef),
    Ref2(IfrRef2),
    Ref3(IfrRef3),
    Ref4(IfrRef4),
    Ref5(IfrRef5),
    QuestionRef3(IfrQuestionRef3),
    QuestionRef3_2(IfrQuestionRef3_2),
    QuestionRef3_3(IfrQuestionRef3_3),
    Default(IfrDefault),
    Default2(IfrDefault2),
    /// An opcode with no payload: an expression operator, a condition
    /// opener, or a structural tag such as `END`.
    Operator(OpCode),
    /// An opcode outside the table, kept as its raw payload.
    Unknown(u8, Vec<u8>),
}

/// Whether a statement answers to the tag it was read under.
pub open spec fn statement_tag_ok(tag: u8, st: IfrStatement) -> bool {
    match st {
        IfrStatement::Form(_) => tag == 0x01,
        IfrStatement::Subtitle(_) => tag == 0x02,
        IfrStatement::Text(_) => tag == 0x03,
        IfrStatement::Image(_) => tag == 0x04,
        IfrStatement::OneOf(_) => tag == 0x05,
        IfrStatement::Checkbox(_) => tag == 0x06,
        IfrStatement::Numeric(_) => tag == 0x07,
        IfrStatement::Password(_) => tag == 0x08,
        IfrStatement::OneOfOption(_) => tag == 0x09,
        IfrStatement::EqIdVal(_) => tag == 0x12,
        IfrStatement::EqIdValList(_) => tag == 0x14,
        IfrStatement::Rule(_) => tag == 0x18,
        IfrStatement::Date(_) => tag == 0x1A,
        IfrStatement::Time(_) => tag == 0x1B,
        IfrStatement::StringOp(_) => tag == 0x1C,
        IfrStatement::Refresh(_) => tag == 0x1D,
        IfrStatement::Animation(_) => tag == 0x1F,
        IfrStatement::OrderedList(_) => tag == 0x23,
        IfrStatement::VarStore(_) => tag == 0x24,
        IfrStatement::VarStoreNameValue(_) => tag == 0x25,
        IfrStatement::VarStoreEfi(_) => tag == 0x26,
        IfrStatement::VarStoreDevice(_) => tag == 0x27,
        IfrStatement::InconsistentIf(_) => tag == 0x11,
        IfrStatement::NoSubmitIf(_) => tag == 0x10,
        IfrStatement::RuleRef(_) => tag == 0x3F,
        IfrStatement::QuestionRef1(_) => tag == 0x40,
        IfrStatement::Uint8(_) => tag == 0x42,
        IfrStatement::Uint16(_) => tag == 0x43,
        IfrStatement::Uint32(_) => tag == 0x44,
        IfrStatement::Uint64(_) => tag == 0x45,
        IfrStatement::Find(_) => tag == 0x4C,
        IfrStatement::ToString(_) => tag == 0x49,
        IfrStatement::StringRef1(_) => tag == 0x4E,
        IfrStatement::Span(_) => tag == 0x59,
        IfrStatement::DefaultStore(_) => tag == 0x5C,
        IfrStatement::Guid(_) => tag == 0x5F,
        IfrStatement::Security(_) => tag == 0x60,
        IfrStatement::RefreshId(_) => tag == 0x62,
        IfrStatement::WarningIf(_) => tag == 0x63,
        IfrStatement::Match2(_) => tag == 0x64,
        IfrStatement::ResetButton(_) => tag == 0x0D,
        IfrStatement::FormSet(_) => tag == 0x0E,
        IfrStatement::Get(_) => tag == 0x2B,
        IfrStatement::SetOp(_) => tag == 0x2C,
        IfrStatement::Action(_) => tag == 0x0C,
        IfrStatement::Action1(_) => tag == 0x0C,
        IfrStatement::Ref(_) => tag == 0x0F,
        IfrStatement::Ref2(_) => tag == 0x0F,
        IfrStatement::Ref3(_) => tag == 0x0F,
        IfrStatement::Ref4(_) => tag == 0x0F,
        IfrStatement::Ref5(_) => tag == 0x0F,
        IfrStatement::QuestionRef3(_) => tag == 0x51,
        IfrStatement::QuestionRef3_2(_) => tag == 0x51,
        IfrStatement::QuestionRef3_3(_) => tag == 0x51,
        IfrStatement::Default(_) => tag == 0x5B,
        IfrStatement::Default2(_) => tag == 0x5B,
        IfrStatement::Operator(c) => c.0 == tag && no_payload_op(tag),
        IfrStatement::Unknown(t, _) => t == tag,
    }
}

/// The payload a statement re-encodes to.
pub open spec fn statement_bytes(st: IfrStatement) -> Seq<u8> {
    match st {
        IfrStatement::Form(x) => ifr_form_bytes(x),
        IfrStatement::Subtitle(x) => ifr_subtitle_bytes(x),
        IfrStatement::Text(x) => ifr_text_bytes(x),
        IfrStatement::Image(x) => ifr_image_bytes(x),
        IfrStatement::OneOf(x) => ifr_one_of_bytes(x),
        IfrStatement::Checkbox(x) => ifr_checkbox_bytes(x),
        IfrStatement::Numeric(x) => ifr_numeric_bytes(x),
        IfrStatement::Password(x) => ifr_password_bytes(x),
        IfrStatement::OneOfOption(x) => ifr_one_of_option_bytes(x),
        IfrStatement::EqIdVal(x) => ifr_eq_id_val_bytes(x),
        IfrStatement::EqIdValList(x) => ifr_eq_id_val_list_bytes(x),
        IfrStatement::Rule(x) => ifr_rule_bytes(x),
        IfrStatement::Date(x) => ifr_date_bytes(x),
        IfrStatement::Time(x) => ifr_time_bytes(x),
        IfrStatement::StringOp(x) => ifr_string_bytes(x),
        IfrStatement::Refresh(x) => ifr_refresh_bytes(x),
        IfrStatement::Animation(x) => ifr_animation_bytes(x),
        IfrStatement::OrderedList(x) => ifr_ordered_list_bytes(x),
        IfrStatement::VarStore(x) => ifr_var_store_bytes(x),
        IfrStatement::VarStoreNameValue(x) => ifr_var_store_name_value_bytes(x),
        IfrStatement::VarStoreEfi(x) => ifr_var_store_efi_bytes(x),
        IfrStatement::VarStoreDevice(x) => ifr_var_store_device_bytes(x),
        IfrStatement::InconsistentIf(x) => ifr_inconsistent_if_bytes(x),
        IfrStatement::NoSubmitIf(x) => ifr_no_submit_if_bytes(x),
        IfrStatement::RuleRef(x) => ifr_rule_ref_bytes(x),
        IfrStatement::QuestionRef1(x) => ifr_question_ref1_bytes(x),
        IfrStatement::Uint8(x) => ifr_uint8_bytes(x),
        IfrStatement::Uint16(x) => ifr_uint16_bytes(x),
        IfrStatement::Uint32(x) => ifr_uint32_bytes(x),
        IfrStatement::Uint64(x) => ifr_uint64_bytes(x),
        IfrStatement::Find(x) => ifr_find_bytes(x),
        IfrStatement::ToString(x) => ifr_to_string_bytes(x),
        IfrStatement::StringRef1(x) => ifr_string_ref1_bytes(x),
        IfrStatement::Span(x) => ifr_span_bytes(x),
        IfrStatement::DefaultStore(x) => ifr_default_store_bytes(x),
        IfrStatement::Guid(x) => ifr_guid_bytes(x),
        IfrStatement::Security(x) => ifr_security_bytes(x),
        IfrStatement::RefreshId(x) => ifr_refresh_id_bytes(x),
        IfrStatement::WarningIf(x) => ifr_warning_if_bytes(x),
        IfrStatement::Match2(x) => ifr_match2_bytes(x),
        IfrStatement::ResetButton(x) => ifr_reset_button_bytes(x),
        IfrStatement::FormSet(x) => ifr_form_set_bytes(x),
        IfrStatement::Get(x) => ifr_get_bytes(x),
        IfrStatement::SetOp(x) => ifr_set_bytes(x),
        IfrStatement::Action(x) => ifr_action_bytes(x),
        IfrStatement::Action1(x) => ifr_action1_bytes(x),
        IfrStatement::Ref(x) => ifr_ref_bytes(x),
        IfrStatement::Ref2(x) => ifr_ref2_bytes(x),
        IfrStatement::Ref3(x) => ifr_ref3_bytes(x),
        IfrStatement::Ref4(x) => ifr_ref4_bytes(x),
        IfrStatement::Ref5(x) => ifr_ref5_bytes(x),
        IfrStatement::QuestionRef3(_) => Seq::empty(),
        IfrStatement::QuestionRef3_2(x) => ifr_question_ref3_2_bytes(x),
        IfrStatement::QuestionRef3_3(x) => ifr_question_ref3_3_bytes(x),
        IfrStatement::Default(x) => ifr_default_bytes(x),
        IfrStatement::Default2(x) => ifr_default2_bytes(x),
        IfrStatement::Operator(_) => Seq::empty(),
        IfrStatement::Unknown(_, p) => p@,
    }
}

/// Whether the statement table accepts a payload under `tag`: for each
/// known tag, the exact condition its record's `parse` accepts; a tag
/// outside the table is always accepted, opaquely.
pub open spec fn statement_accepts(tag: u8, payload: Seq<u8>) -> bool {
    if no_payload_op(tag) {
        payload.len() == 0
    } else if tag == 0x01 {
        payload.len() == 4
    } else if tag == 0x02 {
        payload.len() == 5
    } else if tag == 0x03 {
        payload.len() == 6
    } else if tag == 0x04 || tag == 0x1F || tag == 0x40 || tag == 0x4E || tag == 0x10 || tag
        == 0x11 || tag == 0x27 {
        payload.len() == 2
    } else if tag == 0x05 || tag == 0x07 {
        payload.len() >= 12 && ifr_data_fits(payload[11], payload.len() - 12)
    } else if tag == 0x06 || tag == 0x1A || tag == 0x1B {
        payload.len() == 12
    } else if tag == 0x08 {
        payload.len() == 15
    } else if tag == 0x09 {
        payload.len() >= 4 && typed_value_fits(payload[3], payload.len() - 4)
    } else if tag == 0x0C {
        payload.len() == 11 || payload.len() == 13
    } else if tag == 0x0D {
        payload.len() == 6
    } else if tag == 0x0E {
        payload.len() >= 21 && (payload.len() - 21) % 16 == 0
    } else if tag == 0x0F {
        payload.len() == 11 || payload.len() == 13 || payload.len() == 15 || payload.len() == 31
            || payload.len() == 33
    } else if tag == 0x12 || tag == 0x5C {
        payload.len() == 4
    } else if tag == 0x14 {
        payload.len() >= 4 && payload.len() == 4 + 2 * (crate::bytes::u16_at(payload, 2) as int)
    } else if tag == 0x18 || tag == 0x1D || tag == 0x3F || tag == 0x49 || tag == 0x4C || tag
        == 0x59 {
        payload.len() == 1
    } else if tag == 0x1C {
        payload.len() == 14
    } else if tag == 0x23 {
        payload.len() == 13
    } else if tag == 0x24 {
        payload.len() >= 20
    } else if tag == 0x25 {
        payload.len() == 18
    } else if tag == 0x26 {
        payload.len() >= 24
    } else if tag == 0x2B || tag == 0x2C {
        payload.len() == 5
    } else if tag == 0x42 {
        payload.len() == 1
    } else if tag == 0x43 {
        payload.len() == 2
    } else if tag == 0x44 {
        payload.len() == 4
    } else if tag == 0x45 {
        payload.len() == 8
    } else if tag == 0x51 {
        payload.len() == 0 || payload.len() == 2 || payload.len() == 18
    } else if tag == 0x5B {
        payload.len() == 3 || (payload.len() >= 3 && typed_value_fits(
            payload[2],
            payload.len() - 3,
        ))
    } else if tag == 0x5F {
        payload.len() >= 16
    } else if tag == 0x60 || tag == 0x62 || tag == 0x64 {
        payload.len() == 16
    } else if tag == 0x63 {
        payload.len() == 3
    } else {
        true
    }
}

/// Reads one record as the typed record its tag selects, per the
/// per-opcode field tables: the statement answers to the record's tag
/// and re-encodes to the record's payload. An unknown tag is kept
/// opaquely with its raw payload; a known tag whose payload does not
/// spell its record is an error, fatal to the containing package.
pub fn parse_statement(op: &IfrOp) -> (r: Result<IfrStatement, Error>)
    ensures
        r is Ok <==> statement_accepts(op.op, op.payload@),
        r is Ok ==> statement_tag_ok(op.op, r->Ok_0) && statement_bytes(r->Ok_0) == op.payload@,
        r is Ok ==> (r->Ok_0 is Unknown <==> !known_statement_tag(op.op)),
{
    let tag = op.op;
    let payload = op.payload.as_slice();
    if no_payload_op_at(tag) {
        if payload.len() != 0 {
            return Err(Error::LengthMismatch);
        }
        proof {
            assert(op.payload@ =~= Seq::<u8>::empty());
        }
        Ok(IfrStatement::Operator(OpCode(tag)))
    } else if tag == 0x0C {
        if payload.len() == 11 {
            match IfrAction1::parse(payload) {
                Ok(x) => Ok(IfrStatement::Action1(x)),
                Err(e) => Err(e),
            }
        } else {
            match IfrAction::parse(payload) {
                Ok(x) => Ok(IfrStatement::Action(x)),
                Err(e) => Err(e),
            }
        }
    } else if tag == 0x0F {
        if payload.len() == 13 {
            match IfrRef::parse(payload) {
                Ok(x) => Ok(IfrStatement::Ref(x)),
                Err(e) => Err(e),
            }
        } else if payload.len() == 15 {
            match IfrRef2::parse(payload) {
                Ok(x) => Ok(IfrStatement::Ref2(x)),
                Err(e) => Err(e),
            }
        } else if payload.len() == 31 {
            match IfrRef3::parse(payload) {
                Ok(x) => Ok(IfrStatement::Ref3(x)),
                Err(e) => Err(e),
            }
        } else if payload.len() == 33 {
            match IfrRef4::parse(payload) {
                Ok(x) => Ok(IfrStatement::Ref4(x)),
                Err(e) => Err(e),
            }
        } else if payload.len() == 11 {
            match IfrRef5::parse(payload) {
                Ok(x) => Ok(IfrStatement::Ref5(x)),
                Err(e) => Err(e),
            }
        } else {
            Err(Error::LengthMismatch)
        }
    } else if tag == 0x51 {
        if payload.len() == 0 {
            proof {
                assert(op.payload@ =~= Seq::<u8>::empty());
            }
            Ok(IfrStatement::QuestionRef3(IfrQuestionRef3 {  }))
        } else if payload.len() == 2 {
            match IfrQuestionRef3_2::parse(payload) {
                Ok(x) => Ok(IfrStatement::QuestionRef3_2(x)),
                Err(e) => Err(e),
            }
        } else {
            match IfrQuestionRef3_3::parse(payload) {
                Ok(x) => Ok(IfrStatement::QuestionRef3_3(x)),
                Err(e) => Err(e),
            }
        }
    } else if tag == 0x5B {
        if payload.len() == 3 {
            match IfrDefault2::parse(payload) {
                Ok(x) => Ok(IfrStatement::Default2(x)),
                Err(e) => Err(e),
            }
        } else {
            match IfrDefault::parse(payload) {
                Ok(x) => Ok(IfrStatement::Default(x)),
                Err(e) => Err(e),
            }
        }
    } else if tag == 0x01 {
        match IfrForm::parse(payload) {
            Ok(x) => Ok(IfrStatement::Form(x)),
            Err(e) => Err(e),
        }
    } else if tag == 0x02 {
        match IfrSubtitle::parse(payload) {
            Ok(x) => Ok(IfrStatement::Subtitle(x)),
            Err(e) => Err(e),
        }
    } else if tag == 0x03 {
        match IfrText::parse(payload) {
            Ok(x) => Ok(IfrStatement::Text(x)),
            Err(e) => Err(e),
        }
    } else if tag == 0x04 {
        match IfrImage::parse(payload) {
            Ok(x) => Ok(IfrStatement::Image(x)),
            Err(e) => Err(e),
        }
    } else if tag == 0x05 {
        match IfrOneOf::parse(payload) {
            Ok(x) => Ok(IfrStatement::OneOf(x)),
            Err(e) => Err(e),
        }
    } else if tag == 0x06 {
        match IfrCheckbox::parse(payload) {
            Ok(x) => Ok(IfrStatement::Checkbox(x)),
            Err(e) => Err(e),
        }
    } else if tag == 0x07 {
        match IfrNumeric::parse(payload) {
            Ok(x) => Ok(IfrStatement::Numeric(x)),
            Err(e) => Err(e),
        }
    } else if tag == 0x08 {
        match IfrPassword::parse(payload) {
            Ok(x) => Ok(IfrStatement::Password(x)),
            Err(e) => Err(e),
        }
    } else if tag == 0x09 {
        match IfrOneOfOption::parse(payload) {
            Ok(x) => Ok(IfrStatement::OneOfOption(x)),
            Err(e) => Err(e),
        }
    } else if tag == 0x12 {
        match IfrEqIdVal::parse(payload) {
            Ok(x) => Ok(IfrStatement::EqIdVal(x)),
            Err(e) => Err(e),
        }
    } else if tag == 0x14 {
        match IfrEqIdValList::parse(payload) {
            Ok(x) => Ok(IfrStatement::EqIdValList(x)),
            Err(e) => Err(e),
        }
    } else if tag == 0x18 {
        match IfrRule::parse(payload) {
            Ok(x) => Ok(IfrStatement::Rule(x)),
            Err(e) => Err(e),
        }
    } else if tag == 0x1A {
        match IfrDate::parse(payload) {
            Ok(x) => Ok(IfrStatement::Date(x)),
            Err(e) => Err(e),
        }
    } else if tag == 0x1B {
        match IfrTime::parse(payload) {
            Ok(x) => Ok(IfrStatement::Time(x)),
            Err(e) => Err(e),
        }
    } else if tag == 0x1C {
        match IfrString::parse(payload) {
            Ok(x) => Ok(IfrStatement::StringOp(x)),
            Err(e) => Err(e),
        }
    } else if tag == 0x1D {
        match IfrRefresh::parse(payload) {
            Ok(x) => Ok(IfrStatement::Refresh(x)),
            Err(e) => Err(e),
        }
    } else if tag == 0x1F {
        match IfrAnimation::parse(payload) {
            Ok(x) => Ok(IfrStatement::Animation(x)),
            Err(e) => Err(e),
        }
    } else if tag == 0x23 {
        match IfrOrderedList::parse(payload) {
            Ok(x) => Ok(IfrStatement::OrderedList(x)),
            Err(e) => Err(e),
        }
    } else if tag == 0x24 {
        match IfrVarStore::parse(payload) {
            Ok(x) => Ok(IfrStatement::VarStore(x)),
            Err(e) => Err(e),
        }
    } else if tag == 0x25 {
        match IfrVarStoreNameValue::parse(payload) {
            Ok(x) => Ok(IfrStatement::VarStoreNameValue(x)),
            Err(e) => Err(e),
        }
    } else if tag == 0x26 {
        match IfrVarStoreEfi::parse(payload) {
            Ok(x) => Ok(IfrStatement::VarStoreEfi(x)),
            Err(e) => Err(e),
        }
    } else if tag == 0x27 {
        match IfrVarStoreDevice::parse(payload) {
            Ok(x) => Ok(IfrStatement::VarStoreDevice(x)),
            Err(e) => Err(e),
        }
    } else if tag == 0x11 {
        match IfrInconsistentIf::parse(payload) {
            Ok(x) => Ok(IfrStatement::InconsistentIf(x)),
            Err(e) => Err(e),
        }
    } else if tag == 0x10 {
        match IfrNoSubmitIf::parse(payload) {
            Ok(x) => Ok(IfrStatement::NoSubmitIf(x)),
            Err(e) => Err(e),
        }
    } else if tag == 0x3F {
        match IfrRuleRef::parse(payload) {
            Ok(x) => Ok(IfrStatement::RuleRef(x)),
            Err(e) => Err(e),
        }
    } else if tag == 0x40 {
        match IfrQuestionRef1::parse(payload) {
            Ok(x) => Ok(IfrStatement::QuestionRef1(x)),
            Err(e) => Err(e),
        }
    } else if tag == 0x42 {
        match IfrUint8::parse(payload) {
            Ok(x) => Ok(IfrStatement::Uint8(x)),
            Err(e) => Err(e),
        }
    } else if tag == 0x43 {
        match IfrUint16::parse(payload) {
            Ok(x) => Ok(IfrStatement::Uint16(x)),
            Err(e) => Err(e),
        }
    } else if tag == 0x44 {
        match IfrUint32::parse(payload) {
            Ok(x) => Ok(IfrStatement::Uint32(x)),
            Err(e) => Err(e),
        }
    } else if tag == 0x45 {
        match IfrUint64::parse(payload) {
            Ok(x) => Ok(IfrStatement::Uint64(x)),
            Err(e) => Err(e),
        }
    } else if tag == 0x4C {
        match IfrFind::parse(payload) {
            Ok(x) => Ok(IfrStatement::Find(x)),
            Err(e) => Err(e),
        }
    } else if tag == 0x49 {
        match IfrToString::parse(payload) {
            Ok(x) => Ok(IfrStatement::ToString(x)),
            Err(e) => Err(e),
        }
    } else if tag == 0x4E {
        match IfrStringRef1::parse(payload) {
            Ok(x) => Ok(IfrStatement::StringRef1(x)),
            Err(e) => Err(e),
        }
    } else if tag == 0x59 {
        match IfrSpan::parse(payload) {
            Ok(x) => Ok(IfrStatement::Span(x)),
            Err(e) => Err(e),
        }
    } else if tag == 0x5C {
        match IfrDefaultStore::parse(payload) {
            Ok(x) => Ok(IfrStatement::DefaultStore(x)),
            Err(e) => Err(e),
        }
    } else if tag == 0x5F {
        match IfrGuid::parse(payload) {
            Ok(x) => Ok(IfrStatement::Guid(x)),
            Err(e) => Err(e),
        }
    } else if tag == 0x60 {
        match IfrSecurity::parse(payload) {
            Ok(x) => Ok(IfrStatement::Security(x)),
            Err(e) => Err(e),
        }
    } else if tag == 0x62 {
        match IfrRefreshId::parse(payload) {
            Ok(x) => Ok(IfrStatement::RefreshId(x)),
            Err(e) => Err(e),
        }
    } else if tag == 0x63 {
        match IfrWarningIf::parse(payload) {
            Ok(x) => Ok(IfrStatement::WarningIf(x)),
            Err(e) => Err(e),
        }
    } else if tag == 0x64 {
        match IfrMatch2::parse(payload) {
            Ok(x) => Ok(IfrStatement::Match2(x)),
            Err(e) => Err(e),
        }
    } else if tag == 0x0D {
        match IfrResetButton::parse(payload) {
            Ok(x) => Ok(IfrStatement::ResetButton(x)),
            Err(e) => Err(e),
        }
    } else if tag == 0x0E {
        match IfrFormSet::parse(payload) {
            Ok(x) => Ok(IfrStatement::FormSet(x)),
            Err(e) => Err(e),
        }
    } else if tag == 0x2B {
        match IfrGet::parse(payload) {
            Ok(x) => Ok(IfrStatement::Get(x)),
            Err(e) => Err(e),
        }
    } else if tag == 0x2C {
        match IfrSet::parse(payload) {
            Ok(x) => Ok(IfrStatement::SetOp(x)),
            Err(e) => Err(e),
        }
    } else {
        let mut raw: Vec<u8> = Vec::new();
        let mut i: usize = 0;
        while i < payload.len()
            invariant
                i <= payload@.len(),
                payload@ == op.payload@,
                raw@ == payload@.subrange(0, i as int),
            decreases payload@.len() - i,
        {
            raw.push(payload[i]);
            i = i + 1;
            proof {
                assert(raw@ =~= payload@.subrange(0, i as int));
            }
        }
        proof {
            assert(raw@ =~= op.payload@);
        }
        Ok(IfrStatement::Unknown(tag, raw))
    }
}

/// Whether `tag` carries no payload, as executable code.
fn no_payload_op_at(tag: u8) -> (r: bool)
    ensures
        r == no_payload_op(tag),
{
    tag == 0x0A || tag == 0x0B || tag == 0x13 || tag == 0x15 || tag == 0x16 || tag == 0x17
        || tag == 0x19 || tag == 0x1E || tag == 0x20 || tag == 0x21 || tag == 0x22 || tag == 0x28
        || tag == 0x29 || tag == 0x2A || tag == 0x2D || tag == 0x2E || (0x2F <= tag && tag <= 0x3E)
        || tag == 0x41 || tag == 0x46 || tag == 0x47 || tag == 0x48 || tag == 0x4A || tag == 0x4B
        || tag == 0x4D || tag == 0x4F || tag == 0x50 || (0x52 <= tag && tag <= 0x58) || tag == 0x5A
        || tag == 0x5E || tag == 0x61
}

} // verus!
