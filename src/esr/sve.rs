//! Trapped SVE, Advanced SIMD and floating-point access syndromes.
use crate::field::{described, decoded_as, extract, plain, res0, DecodeError, FieldInfo, FieldSpec};
use vstd::prelude::*;
use crate::esr::common::{cv_text, describe_cv};

verus! {

/// The fields of the ISS of a trapped SVE, Advanced SIMD or FP instruction, or the first error that
/// decoding it meets.
pub open spec fn sve_layout(iss: u64) -> Result<Seq<FieldSpec>, DecodeError> {
    if extract(iss, 0, 20) != 0 {
        Err(DecodeError::InvalidRes0 { res0: extract(iss, 0, 20) })
    } else {
        Ok(
            seq![
                described(
                    "CV",
                    Some("Condition code valid"),
                    24,
                    25,
                    cv_text(extract(iss, 24, 25) == 1),
                ),
                plain("COND", Some("Condition code of the trapped instruction"), 20, 24),
                res0(0, 20),
            ],
        )
    }
}

/// Decodes the ISS value for a trapped SVE, Advanced SIMD or FP instruction.
pub fn decode_iss_sve(iss: u64) -> (r: Result<Vec<FieldInfo>, DecodeError>)
    ensures
        decoded_as(r, iss, sve_layout(iss)),
{
    let cv = FieldInfo::get_bit(
        iss,
        "CV",
        Some("Condition code valid"),
        24,
    ).describe_bit(describe_cv);
    let cond = FieldInfo::get(
        iss,
        "COND",
        Some("Condition code of the trapped instruction"),
        20,
        24,
    );
    let res0 = FieldInfo::get(iss, "RES0", Some("Reserved"), 0, 20).check_res0()?;
    Ok(vec![cv, cond, res0])
}

} // verus!
