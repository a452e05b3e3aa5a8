//! Pointer Authentication failure syndromes.
use crate::field::{described, decoded_as, extract, res0, DecodeError, FieldInfo, FieldSpec};
use vstd::prelude::*;

verus! {

pub open spec fn iord_text(instruction_or_data: bool) -> Seq<char> {
    if instruction_or_data {
        "Data Key"@
    } else {
        "Instruction Key"@
    }
}

fn describe_instruction_or_data(instruction_or_data: bool) -> (r: &'static str)
    ensures
        r@ == iord_text(instruction_or_data),
{
    if instruction_or_data {
        "Data Key"
    } else {
        "Instruction Key"
    }
}

pub open spec fn aorb_text(a_or_b: bool) -> Seq<char> {
    if a_or_b {
        "B Key"@
    } else {
        "A Key"@
    }
}

fn describe_a_or_b(a_or_b: bool) -> (r: &'static str)
    ensures
        r@ == aorb_text(a_or_b),
{
    if a_or_b {
        "B Key"
    } else {
        "A Key"
    }
}

/// The fields of the ISS of a Pointer Authentication failure, or the first error that decoding it
/// meets.
pub open spec fn pauth_layout(iss: u64) -> Result<Seq<FieldSpec>, DecodeError> {
    if extract(iss, 2, 25) != 0 {
        Err(DecodeError::InvalidRes0 { res0: extract(iss, 2, 25) })
    } else {
        Ok(
            seq![
                res0(2, 25),
                described(
                    "IorD",
                    Some("Instruction key or Data key"),
                    1,
                    2,
                    iord_text(extract(iss, 1, 2) == 1),
                ),
                described("AorB", Some("A key or B key"), 0, 1, aorb_text(extract(iss, 0, 1) == 1)),
            ],
        )
    }
}

/// Decodes the ISS value for a Pointer Authentication failure.
pub fn decode_iss_pauth(iss: u64) -> (r: Result<Vec<FieldInfo>, DecodeError>)
    ensures
        decoded_as(r, iss, pauth_layout(iss)),
{
    let res0 = FieldInfo::get(iss, "RES0", Some("Reserved"), 2, 25).check_res0()?;
    let iord = FieldInfo::get_bit(
        iss,
        "IorD",
        Some("Instruction key or Data key"),
        1,
    ).describe_bit(describe_instruction_or_data);
    let aorb = FieldInfo::get_bit(
        iss,
        "AorB",
        Some("A key or B key"),
        0,
    ).describe_bit(describe_a_or_b);
    Ok(vec![res0, iord, aorb])
}

} // verus!
