//! Bit extraction and the decoded-field record shared by all decoders.
use crate::text::{numeral, numeral_string};
use vstd::prelude::*;

verus! {

/// The bits `[start, end)` of `value`, shifted down to bit 0.
pub open spec fn extract(value: u64, start: nat, end: nat) -> u64 {
    (value >> (start as u64)) & (u64::MAX >> ((64 - (end - start)) as u64))
}

/// Returns the bits `[start, end)` of `value`, shifted down to bit 0.
pub fn extract_bits(value: u64, start: usize, end: usize) -> (r: u64)
    requires
        start < end <= 64,
    ensures
        r == extract(value, start as nat, end as nat),
{
    let shift: u64 = start as u64;
    let keep: u64 = (64 - (end - start)) as u64;
    (value >> shift) & (u64::MAX >> keep)
}

/// Information about a particular field.
#[derive(Debug, Eq, PartialEq)]
pub struct FieldInfo {
    /// The short name of the field, e.g. "ISS".
    pub name: &'static str,
    /// The long name of the field, e.g. "Instruction Specific Syndrome".
    pub long_name: Option<&'static str>,
    /// The index of the lowest bit of the field.
    pub start: usize,
    /// The number of bits in the field.
    pub width: usize,
    /// The value of the field.
    pub value: u64,
    /// A description explaining the field value, if available.
    pub description: Option<String>,
    /// Any sub-fields.
    pub subfields: Vec<FieldInfo>,
}

/// `a` and `b` have the same names, bits, value and description.
pub open spec fn same_head(a: FieldInfo, b: FieldInfo) -> bool {
    &&& a.name == b.name
    &&& a.long_name == b.long_name
    &&& a.start == b.start
    &&& a.width == b.width
    &&& a.value == b.value
    &&& opt_string(a.description) == opt_string(b.description)
}

impl Clone for FieldInfo {
    fn clone(&self) -> (r: Self)
        ensures
            r.name == self.name,
            r.long_name == self.long_name,
            r.start == self.start,
            r.width == self.width,
            r.value == self.value,
            opt_string(r.description) == opt_string(self.description),
            r.subfields@.len() == self.subfields@.len(),
            forall|j: int|
                0 <= j < self.subfields@.len() ==> same_head(
                    #[trigger] r.subfields@[j],
                    self.subfields@[j],
                ),
        decreases self,
    {
        let mut subfields: Vec<FieldInfo> = Vec::new();
        let mut i: usize = 0;
        while i < self.subfields.len()
            invariant
                i <= self.subfields@.len(),
                subfields@.len() == i,
                forall|j: int| 0 <= j < i ==> same_head(#[trigger] subfields@[j], self.subfields@[j]),
            decreases self.subfields@.len() - i,
        {
            proof {
                assert(decreases_to!(self.subfields => self.subfields[i as int]));
            }
            subfields.push(self.subfields[i].clone());
            i += 1;
        }
        let description = match &self.description {
            Some(d) => Some(d.clone()),
            None => None,
        };
        FieldInfo {
            name: self.name,
            long_name: self.long_name,
            start: self.start,
            width: self.width,
            value: self.value,
            description,
            subfields,
        }
    }
}

/// An error decoding a register value.
#[derive(Clone, Copy, Debug, Eq, PartialEq)]
pub enum DecodeError {
    /// A RES0 field was not 0.
    InvalidRes0 { res0: u64 },
    /// The EC field had an invalid value.
    InvalidEc { ec: u64 },
    /// The DFSC or IFSC field had an invalid value.
    InvalidFsc { fsc: u64 },
    /// The SET field had an invalid value.
    InvalidSet { set: u64 },
    /// The AET field had an invalid value.
    InvalidAet { aet: u64 },
    /// The AM field had an invalid value.
    InvalidAm { am: u64 },
    /// The ISS field has an invalid value for a trapped LD64B or ST64B* exception.
    InvalidLd64bIss { iss: u64 },
}

/// `value` in hexadecimal with a `0x` prefix and no padding.
pub open spec fn hex_text(value: u64) -> Seq<char> {
    "0x"@ + numeral(value as nat, 16, 0)
}

fn hex_string(value: u64) -> (r: String)
    ensures
        r@ == hex_text(value),
{
    let mut s = "0x".to_string();
    let digits = numeral_string(value, 16, 0);
    s.append(digits.as_str());
    s
}

/// The message that describes `e`.
pub open spec fn error_text(e: DecodeError) -> Seq<char> {
    match e {
        DecodeError::InvalidRes0 { res0 } => "Invalid ESR, res0 is "@ + hex_text(res0),
        DecodeError::InvalidEc { ec } => "Invalid EC "@ + hex_text(ec),
        DecodeError::InvalidFsc { fsc } => "Invalid DFSC or IFSC "@ + hex_text(fsc),
        DecodeError::InvalidSet { set } => "Invalid SET "@ + hex_text(set),
        DecodeError::InvalidAet { aet } => "Invalid AET "@ + hex_text(aet),
        DecodeError::InvalidAm { am } => "Invalid AM "@ + hex_text(am),
        DecodeError::InvalidLd64bIss { iss } => "Invalid ISS "@ + hex_text(iss)
            + " for trapped LD64B or ST64B*"@,
    }
}

impl DecodeError {
    /// Returns the message that describes the error.
    pub fn to_string(&self) -> (r: String)
        ensures
            r@ == error_text(*self),
    {
        let (prefix, value) = match *self {
            DecodeError::InvalidRes0 { res0 } => ("Invalid ESR, res0 is ", res0),
            DecodeError::InvalidEc { ec } => ("Invalid EC ", ec),
            DecodeError::InvalidFsc { fsc } => ("Invalid DFSC or IFSC ", fsc),
            DecodeError::InvalidSet { set } => ("Invalid SET ", set),
            DecodeError::InvalidAet { aet } => ("Invalid AET ", aet),
            DecodeError::InvalidAm { am } => ("Invalid AM ", am),
            DecodeError::InvalidLd64bIss { iss } => ("Invalid ISS ", iss),
        };
        let mut s = prefix.to_string();
        let hex = hex_string(value);
        s.append(hex.as_str());
        if let DecodeError::InvalidLd64bIss { .. } = *self {
            s.append(" for trapped LD64B or ST64B*");
        }
        s
    }
}

pub open spec fn opt_str(o: Option<&'static str>) -> Option<Seq<char>> {
    match o {
        Some(s) => Some(s@),
        None => None,
    }
}

pub open spec fn opt_string(o: Option<String>) -> Option<Seq<char>> {
    match o {
        Some(s) => Some(s@),
        None => None,
    }
}

/// The shape a decoded field is expected to have: its names, its bit range within the value it
/// was taken from, and the description given to its value.
pub struct FieldSpec {
    pub name: Seq<char>,
    pub long_name: Option<Seq<char>>,
    pub start: nat,
    pub end: nat,
    pub description: Option<Seq<char>>,
}

/// A field with no description.
pub open spec fn plain(name: &str, long_name: Option<&str>, start: nat, end: nat) -> FieldSpec {
    FieldSpec { name: name@, long_name: opt_str(long_name), start, end, description: None }
}

/// A field whose value is described by `description`.
pub open spec fn described(
    name: &str,
    long_name: Option<&str>,
    start: nat,
    end: nat,
    description: Seq<char>,
) -> FieldSpec {
    FieldSpec {
        name: name@,
        long_name: opt_str(long_name),
        start,
        end,
        description: Some(description),
    }
}

/// A reserved field that must read as zero.
pub open spec fn res0(start: nat, end: nat) -> FieldSpec {
    plain("RES0", Some("Reserved"), start, end)
}

/// `f` has the names, bit range and description of `s`, and holds those bits of `register`.
pub open spec fn head_matches(f: FieldInfo, register: u64, s: FieldSpec) -> bool {
    &&& f.name@ == s.name
    &&& opt_str(f.long_name) == s.long_name
    &&& f.start == s.start
    &&& f.start + f.width == s.end
    &&& f.value == extract(register, s.start, s.end)
    &&& opt_string(f.description) == s.description
}

/// `f` is the field `s` taken from `register`, with no subfields.
pub open spec fn is_leaf(f: FieldInfo, register: u64, s: FieldSpec) -> bool {
    &&& head_matches(f, register, s)
    &&& f.subfields@.len() == 0
}

/// `f` is the field `s` taken from `register`, and its subfields are those `subfields` describes,
/// taken from its own value.
pub open spec fn is_node(
    f: FieldInfo,
    register: u64,
    s: FieldSpec,
    subfields: Seq<FieldSpec>,
) -> bool {
    &&& head_matches(f, register, s)
    &&& leaves(f.subfields@, f.value, subfields)
}

/// Each of `fields` is the corresponding entry of `specs` taken from `register`.
pub open spec fn leaves(fields: Seq<FieldInfo>, register: u64, specs: Seq<FieldSpec>) -> bool {
    &&& fields.len() == specs.len()
    &&& forall|i: int| 0 <= i < fields.len() ==> is_leaf(#[trigger] fields[i], register, specs[i])
}

/// `r` is the outcome `expected` describes for `register`: the same error, or fields of the
/// expected shapes in the expected order.
pub open spec fn decoded_as(
    r: Result<Vec<FieldInfo>, DecodeError>,
    register: u64,
    expected: Result<Seq<FieldSpec>, DecodeError>,
) -> bool {
    match (r, expected) {
        (Ok(fields), Ok(specs)) => leaves(fields@, register, specs),
        (Err(e), Err(x)) => e == x,
        _ => false,
    }
}

/// The value of a field of `width` bits as text: "true" or "false" for a single bit, otherwise
/// hexadecimal with as many digits as the width calls for.
pub open spec fn value_text(value: u64, width: usize) -> Seq<char> {
    if width == 1 {
        if value == 1 {
            "true"@
        } else {
            "false"@
        }
    } else {
        "0x"@ + numeral(value as nat, 16, ((width + 3) / 4) as nat)
    }
}

/// The value of a field of `width` bits in binary, with as many digits as the width.
pub open spec fn binary_text(value: u64, width: usize) -> Seq<char> {
    "0b"@ + numeral(value as nat, 2, width as nat)
}

impl FieldInfo {
    pub(crate) fn get(
        register: u64,
        name: &'static str,
        long_name: Option<&'static str>,
        start: usize,
        end: usize,
    ) -> (r: Self)
        requires
            start < end <= 64,
        ensures
            r.name == name,
            r.long_name == long_name,
            r.start == start,
            r.width == end - start,
            r.value == extract(register, start as nat, end as nat),
            r.description is None,
            r.subfields@.len() == 0,
    {
        let value = extract_bits(register, start, end);
        FieldInfo {
            name,
            long_name,
            start,
            width: end - start,
            value,
            description: None,
            subfields: Vec::new(),
        }
    }

    pub(crate) fn get_bit(
        register: u64,
        name: &'static str,
        long_name: Option<&'static str>,
        bit: usize,
    ) -> (r: Self)
        requires
            bit < 64,
        ensures
            r.name == name,
            r.long_name == long_name,
            r.start == bit,
            r.width == 1,
            r.value == extract(register, bit as nat, bit as nat + 1),
            r.description is None,
            r.subfields@.len() == 0,
    {
        Self::get(register, name, long_name, bit, bit + 1)
    }

    /// The value of a one-bit field as a boolean.
    pub(crate) fn as_bit(&self) -> (r: bool)
        requires
            self.width == 1,
        ensures
            r == (self.value == 1),
    {
        self.value == 1
    }

    /// Fails with `InvalidRes0` unless the value is zero.
    pub(crate) fn check_res0(self) -> (r: Result<Self, DecodeError>)
        ensures
            self.value == 0 ==> r == Ok::<Self, DecodeError>(self),
            self.value != 0 ==> r == Err::<Self, DecodeError>(
                DecodeError::InvalidRes0 { res0: self.value },
            ),
    {
        if self.value != 0 {
            Err(DecodeError::InvalidRes0 { res0: self.value })
        } else {
            Ok(self)
        }
    }

    /// Assuming this field has a width of exactly 1, describes it with the given function.
    pub(crate) fn describe_bit<F: FnOnce(bool) -> &'static str>(self, describer: F) -> (r: Self)
        requires
            self.width == 1,
            describer.requires((self.value == 1,)),
        ensures
            r.name == self.name,
            r.long_name == self.long_name,
            r.start == self.start,
            r.width == self.width,
            r.value == self.value,
            r.subfields == self.subfields,
            exists|d: &'static str|
                describer.ensures((self.value == 1,), d) && opt_string(r.description) == Some(d@),
    {
        let bit = self.as_bit();
        let description = describer(bit);
        self.with_text(description)
    }

    /// Describes the value with the given function, or fails with its error.
    pub(crate) fn describe<F: FnOnce(u64) -> Result<&'static str, DecodeError>>(
        self,
        describer: F,
    ) -> (r: Result<Self, DecodeError>)
        requires
            describer.requires((self.value,)),
        ensures
            match r {
                Ok(f) => {
                    &&& f.name == self.name
                    &&& f.long_name == self.long_name
                    &&& f.start == self.start
                    &&& f.width == self.width
                    &&& f.value == self.value
                    &&& f.subfields == self.subfields
                    &&& exists|d: &'static str|
                        describer.ensures((self.value,), Ok::<&'static str, DecodeError>(d))
                            && opt_string(f.description) == Some(d@)
                },
                Err(e) => describer.ensures((self.value,), Err::<&'static str, DecodeError>(e)),
            },
    {
        let description = describer(self.value)?;
        Ok(self.with_text(description))
    }

    pub(crate) fn with_text(self, text: &'static str) -> (r: Self)
        ensures
            r.name == self.name,
            r.long_name == self.long_name,
            r.start == self.start,
            r.width == self.width,
            r.value == self.value,
            opt_string(r.description) == Some(text@),
            r.subfields == self.subfields,
    {
        FieldInfo { description: Some(text.to_string()), ..self }
    }

    /// Returns the value as a hexadecimal string, or "true" or "false" if it is a single bit.
    pub fn value_string(&self) -> (r: String)
        ensures
            r@ == value_text(self.value, self.width),
    {
        if self.width == 1 {
            if self.value == 1 {
                "true".to_string()
            } else {
                "false".to_string()
            }
        } else {
            let digits: usize = self.width / 4 + (self.width % 4 + 3) / 4;
            let mut s = "0x".to_string();
            let n = numeral_string(self.value, 16, digits);
            s.append(n.as_str());
            s
        }
    }

    /// Returns the value as a binary string.
    pub fn value_binary_string(&self) -> (r: String)
        ensures
            r@ == binary_text(self.value, self.width),
    {
        let mut s = "0b".to_string();
        let n = numeral_string(self.value, 2, self.width);
        s.append(n.as_str());
        s
    }

    /// Returns the field as text: its name, then its value as a boolean, or in hexadecimal and
    /// in binary.
    pub fn to_string(&self) -> (r: String)
        ensures
            self.width == 1 ==> r@ == self.name@ + ": "@ + value_text(self.value, self.width),
            self.width != 1 ==> r@ == self.name@ + ": "@ + value_text(self.value, self.width) + " "@
                + binary_text(self.value, self.width),
    {
        let mut s = self.name.to_string();
        s.append(": ");
        let v = self.value_string();
        s.append(v.as_str());
        if self.width != 1 {
            s.append(" ");
            let b = self.value_binary_string();
            s.append(b.as_str());
        }
        s
    }

}

} // verus!
