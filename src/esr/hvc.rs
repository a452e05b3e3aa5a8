//! HVC, SVC and SMC instruction syndromes.
use crate::field::{decoded_as, extract, plain, res0, DecodeError, FieldInfo, FieldSpec};
use vstd::prelude::*;

verus! {

/// The fields of the ISS of an HVC, SVC or SMC instruction, or the first error that decoding it
/// meets.
pub open spec fn hvc_layout(iss: u64) -> Result<Seq<FieldSpec>, DecodeError> {
    if extract(iss, 16, 25) != 0 {
        Err(DecodeError::InvalidRes0 { res0: extract(iss, 16, 25) })
    } else {
        Ok(
            seq![
                res0(16, 25),
                plain("imm16", Some("Value of the immediate field from the instruction"), 0, 16),
            ],
        )
    }
}

/// Decodes the ISS value for an HVC, SVC or SMC instruction.
pub fn decode_iss_hvc(iss: u64) -> (r: Result<Vec<FieldInfo>, DecodeError>)
    ensures
        decoded_as(r, iss, hvc_layout(iss)),
{
    let res0 = FieldInfo::get(iss, "RES0", Some("Reserved"), 16, 25).check_res0()?;
    let imm16 = FieldInfo::get(
        iss,
        "imm16",
        Some("Value of the immediate field from the instruction"),
        0,
        16,
    );
    Ok(vec![res0, imm16])
}

} // verus!
