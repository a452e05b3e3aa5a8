//! The contents of the Arm system register descriptions published in XML form.
use crate::number::{
    split_prefix, strip_prefix2, u64_from_str_radix, u8_from_str_radix, unsigned_value,
};
use vstd::prelude::*;

verus! {

/// The number that `s` writes in binary after a `0b` prefix.
pub open spec fn binary_value(s: Seq<char>) -> Option<nat> {
    match strip_prefix2(s, seq!['0', 'b']) {
        Some(rest) => unsigned_value(rest, 2),
        None => None,
    }
}

/// The number that `s` writes in hexadecimal after a `0x` prefix.
pub open spec fn hex_value(s: Seq<char>) -> Option<nat> {
    match strip_prefix2(s, seq!['0', 'x']) {
        Some(rest) => unsigned_value(rest, 16),
        None => None,
    }
}

#[derive(Debug, Eq, PartialEq)]
pub struct RegisterPage {
    pub registers: Registers,
    pub timestamp: String,
    pub commit_id: String,
}

#[derive(Debug, Eq, PartialEq)]
pub struct Registers {
    pub register: Register,
}

#[derive(Debug, Eq, PartialEq)]
pub struct Register {
    pub execution_state: Option<ExecutionState>,
    pub is_register: bool,
    pub is_internal: bool,
    pub is_stub_entry: bool,
    pub reg_short_name: String,
    pub reg_long_name: String,
    pub reg_condition: Option<RegCondition>,
    pub power_domain_text: Option<Text>,
    pub reg_reset_value: RegResetValue,
    pub reg_mappings: RegMappings,
    pub reg_purpose: RegPurpose,
    pub reg_groups: RegGroups,
    pub reg_configuration: Option<RegConfiguration>,
    pub reg_attributes: RegAttributes,
    pub reg_fieldsets: RegFieldsets,
    pub access_mechanisms: AccessMechanisms,
    pub arch_variants: ArchVariants,
    pub reg_address: Vec<RegAddress>,
}

#[derive(Clone, Copy, Debug, Eq, PartialEq)]
pub enum ExecutionState {
    AArch32,
    AArch64,
    External,
}

#[derive(Debug, Eq, PartialEq)]
pub struct RegCondition {
    pub otherwise: Option<String>,
    pub condition: Vec<TextEntry>,
}

#[derive(Debug, Eq, PartialEq)]
pub struct RegResetValue {
    pub reg_reset_limited_to_el: Vec<String>,
    pub reg_reset_special_text: Option<RegResetSpecialText>,
}

#[derive(Debug, Eq, PartialEq)]
pub struct RegResetSpecialText {}

#[derive(Debug, Eq, PartialEq)]
pub struct RegMappings {
    pub reg_mapping: Vec<RegMapping>,
}

#[derive(Debug, Eq, PartialEq)]
pub struct RegMapping {
    pub mapped_name: MappedName,
    pub mapped_type: String,
    pub mapped_execution_state: ExecutionState,
    pub mapped_from_startbit: Option<u8>,
    pub mapped_from_endbit: Option<u8>,
    pub mapped_to_startbit: Option<u8>,
    pub mapped_to_endbit: Option<u8>,
    pub mapped_from_rangeset: Option<MappedFromRangeset>,
}

#[derive(Debug, Eq, PartialEq)]
pub struct MappedName {
    pub filename: String,
    pub name: String,
}

#[derive(Debug, Eq, PartialEq)]
pub struct MappedFromRangeset {
    pub output: String,
    pub range: Vec<Range>,
}

#[derive(Debug, Eq, PartialEq)]
pub struct Range {
    pub msb: u8,
    pub lsb: u8,
}

#[derive(Debug, Eq, PartialEq)]
pub struct RegPurpose {
    pub purpose_text: Vec<Text>,
}

#[derive(Debug, Eq, PartialEq)]
pub struct RegGroups {
    pub reg_group: Vec<String>,
}

#[derive(Debug, Eq, PartialEq)]
pub struct RegConfiguration {
    pub configuration_text: Vec<ConfigurationText>,
}

#[derive(Debug, Eq, PartialEq)]
pub struct ConfigurationText {}

#[derive(Debug, Eq, PartialEq)]
pub struct RegAttributes {
    pub attributes_text: Vec<Text>,
}

#[derive(Debug, Eq, PartialEq)]
pub struct RegFieldsets {
    pub fields: Vec<Fields>,
    pub reg_fieldset: Vec<RegFieldset>,
}

#[derive(Debug, Eq, PartialEq)]
pub struct Fields {
    pub id: Option<String>,
    pub length: Option<u8>,
    pub fields_condition: Option<String>,
    pub text_before_fields: Text,
    pub field: Vec<Field>,
}

#[derive(Debug, Eq, PartialEq)]
pub struct Field {
    pub id: String,
    pub has_partial_fieldset: bool,
    pub is_linked_to_partial_fieldset: bool,
    pub is_access_restriction_possible: bool,
    pub is_variable_length: bool,
    pub is_constant_value: bool,
    pub is_partial_field: bool,
    pub is_conditional_field_name: bool,
    pub rwtype: Option<String>,
    pub field_name: Option<String>,
    pub field_msb: u8,
    pub field_lsb: u8,
    pub rel_range: String,
    pub field_description: Vec<FieldDescription>,
}

#[derive(Debug, Eq, PartialEq)]
pub struct FieldDescription {
    pub order: Order,
    pub description: Vec<TextEntry>,
}

#[derive(Debug, Default, Eq, PartialEq)]
pub struct Text {
    pub text: Vec<TextEntry>,
}

#[derive(Debug, Eq, PartialEq)]
pub enum TextEntry {
    String(String),
    ArmDefinedWord(String),
    List(List),
    Note(Text),
    Para(Para),
    Table(Table),
}

#[derive(Debug, Eq, PartialEq)]
pub struct Para {
}

#[derive(Debug, Eq, PartialEq)]
pub struct List {
    pub listitem: Vec<ListItem>,
}

#[derive(Debug, Eq, PartialEq)]
pub struct ListItem {}

#[derive(Debug, Eq, PartialEq)]
pub struct Table {}

#[derive(Clone, Copy, Debug, Eq, PartialEq)]
pub enum Order {
    After,
    Before,
}

#[derive(Debug, Eq, PartialEq)]
pub struct RegFieldset {
    pub length: u8,
    pub fields_condition: Option<String>,
    pub fieldat: Vec<FieldAt>,
}

#[derive(Debug, Eq, PartialEq)]
pub struct FieldAt {
    pub id: String,
    pub label: Option<String>,
    pub msb: u8,
    pub lsb: u8,
}

#[derive(Debug, Eq, PartialEq)]
pub struct AccessMechanisms {
    pub access_mechanism: Vec<AccessMechanism>,
}

#[derive(Debug, Eq, PartialEq)]
pub struct AccessMechanism {
    pub accessor: Option<String>,
    pub type_: AccessMechanismType,
    pub table_id: Option<String>,
    pub encoding: Option<Encoding>,
    pub access_permission: Option<AccessPermission>,
    pub access_header: Option<AccessHeader>,
}

#[derive(Clone, Copy, Debug, Eq, PartialEq)]
pub enum AccessMechanismType {
    BlockAccessAbstract,
    SystemAccessor,
}

#[derive(Debug, Eq, PartialEq)]
pub struct Encoding {
    pub access_instruction: String,
    pub enc: Vec<Enc>,
}

#[derive(Debug, Eq, PartialEq)]
pub struct Enc {
    pub n: EncName,
    pub v: String,
}

impl Enc {
    /// Returns the value of an encoding written as `0b` followed by binary digits, if it fits in a
    /// byte.
    pub fn parse_value(&self) -> (r: Option<u8>)
        ensures
            r is Some <==> (binary_value(self.v@) matches Some(v) && v <= u8::MAX),
            r matches Some(n) ==> binary_value(self.v@) == Some(n as nat),
    {
        let rest = split_prefix(self.v.as_str(), '0', 'b')?;
        match u8_from_str_radix(rest, 2) {
            Ok(value) => Some(value),
            Err(_) => None,
        }
    }
}

#[derive(Clone, Copy, Debug, Eq, PartialEq)]
pub enum EncName {
    Coproc,
    CRd,
    CRm,
    CRn,
    M,
    M1,
    Op0,
    Op1,
    Op2,
    Opc1,
    Opc2,
    R,
    Reg,
}

#[derive(Debug, Eq, PartialEq)]
pub struct AccessPermission {
    pub ps: Ps,
}

#[derive(Debug, Eq, PartialEq)]
pub struct AccessHeader {}

#[derive(Debug, Eq, PartialEq)]
pub struct Ps {
    pub name: String,
    pub sections: usize,
    pub secttype: String,
    pub pstext: String,
}

#[derive(Debug, Eq, PartialEq)]
pub struct RegAddress {
    pub external_access: bool,
    pub mem_map_access: bool,
    pub block_access: Option<bool>,
    pub memory_access: Option<bool>,
    pub table_id: Option<String>,
    pub power_domain: Option<String>,
    pub reg_component: Option<String>,
    pub reg_frame: Option<String>,
    pub reg_offset: RegOffset,
    pub reg_instance: Option<String>,
    pub reg_access: RegAccess,
}

#[derive(Debug, Eq, PartialEq)]
pub struct RegOffset {
    pub hexnumber: String,
}

impl RegOffset {
    /// Returns the offset written as `0x` followed by hexadecimal digits, if it fits in 64 bits.
    pub fn parse_hex(&self) -> (r: Option<u64>)
        ensures
            r is Some <==> (hex_value(self.hexnumber@) matches Some(v) && v <= u64::MAX),
            r matches Some(n) ==> hex_value(self.hexnumber@) == Some(n as nat),
    {
        let rest = split_prefix(self.hexnumber.as_str(), '0', 'x')?;
        match u64_from_str_radix(rest, 16) {
            Ok(value) => Some(value),
            Err(_) => None,
        }
    }
}

#[derive(Debug, Eq, PartialEq)]
pub struct RegAccess {
    pub reg_access_state: Vec<RegAccessState>,
}

#[derive(Debug, Eq, PartialEq)]
pub struct RegAccessState {
    pub reg_access_level: Option<String>,
    pub reg_access_type: String,
}

#[derive(Debug, Eq, PartialEq)]
pub struct ArchVariants {
    pub arch_variant: Vec<ArchVariant>,
}

#[derive(Debug, Eq, PartialEq)]
pub struct ArchVariant {
    pub name: String,
}

} // verus!
