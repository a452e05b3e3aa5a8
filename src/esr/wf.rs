//! Trapped WF* instruction syndromes.
use crate::field::{described, decoded_as, extract, plain, res0, DecodeError, FieldInfo, FieldSpec};
use vstd::prelude::*;
use crate::esr::common::{cv_text, describe_cv};

verus! {

pub open spec fn rv_text(rv: bool) -> Seq<char> {
    if rv {
        "RN is valid"@
    } else {
        "RN is not valid"@
    }
}

fn describe_rv(rv: bool) -> (r: &'static str)
    ensures
        r@ == rv_text(rv),
{
    if rv {
        "RN is valid"
    } else {
        "RN is not valid"
    }
}

pub open spec fn ti_text(ti: u64) -> Seq<char> {
    if ti == 0b00 {
        "WFI trapped"@
    } else if ti == 0b01 {
        "WFE trapped"@
    } else if ti == 0b10 {
        "WFIT trapped"@
    } else {
        "WFET trapped"@
    }
}

/// Describes the two-bit trapped instruction field.
fn describe_ti(ti: u64) -> (r: Result<&'static str, DecodeError>)
    ensures
        r matches Ok(d) && d@ == ti_text(ti),
{
    Ok(
        match ti {
            0b00 => "WFI trapped",
            0b01 => "WFE trapped",
            0b10 => "WFIT trapped",
            _ => "WFET trapped",
        },
    )
}

/// The fields of the ISS of a trapped WF* instruction, or the first error that decoding it meets.
pub open spec fn wf_layout(iss: u64) -> Result<Seq<FieldSpec>, DecodeError> {
    if extract(iss, 10, 20) != 0 {
        Err(DecodeError::InvalidRes0 { res0: extract(iss, 10, 20) })
    } else if extract(iss, 3, 5) != 0 {
        Err(DecodeError::InvalidRes0 { res0: extract(iss, 3, 5) })
    } else {
        Ok(
            seq![
                described(
                    "CV",
                    Some("Condition code valid"),
                    24,
                    25,
                    cv_text(extract(iss, 24, 25) == 1),
                ),
                plain("COND", Some("Condition code of the trapped instruction"), 20, 24),
                res0(10, 20),
                plain("RN", Some("Register Number"), 5, 10),
                res0(3, 5),
                described("RV", Some("Register Valid"), 2, 3, rv_text(extract(iss, 2, 3) == 1)),
                described("TI", Some("Trapped Instruction"), 0, 2, ti_text(extract(iss, 0, 2))),
            ],
        )
    }
}

/// Decodes the ISS value for a trapped WF* instruction.
pub fn decode_iss_wf(iss: u64) -> (r: Result<Vec<FieldInfo>, DecodeError>)
    ensures
        decoded_as(r, iss, wf_layout(iss)),
{
    let cv = FieldInfo::get_bit(
        iss,
        "CV",
        Some("Condition code valid"),
        24,
    ).describe_bit(describe_cv);
    let cond = FieldInfo::get(
        iss,
        "COND",
        Some("Condition code of the trapped instruction"),
        20,
        24,
    );
    let res0a = FieldInfo::get(iss, "RES0", Some("Reserved"), 10, 20).check_res0()?;
    let rn = FieldInfo::get(iss, "RN", Some("Register Number"), 5, 10);
    let res0b = FieldInfo::get(iss, "RES0", Some("Reserved"), 3, 5).check_res0()?;
    let rv = FieldInfo::get_bit(iss, "RV", Some("Register Valid"), 2).describe_bit(describe_rv);
    let ti = FieldInfo::get(iss, "TI", Some("Trapped Instruction"), 0, 2).describe(describe_ti)?;
    Ok(vec![cv, cond, res0a, rn, res0b, rv, ti])
}

} // verus!
