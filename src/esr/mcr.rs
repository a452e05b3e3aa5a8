//! Trapped MCR, MRC, MCRR and MRRC syndromes.
use crate::field::{described, decoded_as, extract, plain, res0, DecodeError, FieldInfo, FieldSpec};
use vstd::prelude::*;
use crate::esr::common::{cv_text, describe_cv};

verus! {

pub open spec fn direction_text(direction: bool) -> Seq<char> {
    if direction {
        "Read from system register (MRC or VMRS)"@
    } else {
        "Write to system register (MCR)"@
    }
}

fn describe_direction(direction: bool) -> (r: &'static str)
    ensures
        r@ == direction_text(direction),
{
    if direction {
        "Read from system register (MRC or VMRS)"
    } else {
        "Write to system register (MCR)"
    }
}

/// The fields of the ISS of an MCR or MRC access, or the first error that decoding it meets.
pub open spec fn mcr_layout(iss: u64) -> Result<Seq<FieldSpec>, DecodeError> {
    Ok(
        seq![
            described(
                "CV",
                Some("Condition code valid"),
                24,
                25,
                cv_text(extract(iss, 24, 25) == 1),
            ),
            plain("COND", Some("Condition code of the trapped instruction"), 20, 24),
            plain("Opc2", None, 17, 20),
            plain("Opc1", None, 14, 17),
            plain("CRn", None, 10, 14),
            plain("Rt", None, 5, 10),
            plain("CRm", None, 1, 5),
            described(
                "Direction",
                Some("Direction of the trapped instruction"),
                0,
                1,
                direction_text(extract(iss, 0, 1) == 1),
            ),
        ],
    )
}

/// Decodes the ISS value for an MCR or MRC access.
pub fn decode_iss_mcr(iss: u64) -> (r: Result<Vec<FieldInfo>, DecodeError>)
    ensures
        decoded_as(r, iss, mcr_layout(iss)),
{
    let cv = FieldInfo::get_bit(
        iss,
        "CV",
        Some("Condition code valid"),
        24,
    ).describe_bit(describe_cv);
    let cond = FieldInfo::get(
        iss,
        "COND",
        Some("Condition code of the trapped instruction"),
        20,
        24,
    );
    let opc2 = FieldInfo::get(iss, "Opc2", None, 17, 20);
    let opc1 = FieldInfo::get(iss, "Opc1", None, 14, 17);
    let crn = FieldInfo::get(iss, "CRn", None, 10, 14);
    let rt = FieldInfo::get(iss, "Rt", None, 5, 10);
    let crm = FieldInfo::get(iss, "CRm", None, 1, 5);
    let direction = FieldInfo::get_bit(
        iss,
        "Direction",
        Some("Direction of the trapped instruction"),
        0,
    ).describe_bit(describe_direction);
    Ok(vec![cv, cond, opc2, opc1, crn, rt, crm, direction])
}

/// The fields of the ISS of an MCRR or MRRC access, or the first error that decoding it meets.
pub open spec fn mcrr_layout(iss: u64) -> Result<Seq<FieldSpec>, DecodeError> {
    if extract(iss, 15, 16) != 0 {
        Err(DecodeError::InvalidRes0 { res0: extract(iss, 15, 16) })
    } else {
        Ok(
            seq![
                described(
                    "CV",
                    Some("Condition code valid"),
                    24,
                    25,
                    cv_text(extract(iss, 24, 25) == 1),
                ),
                plain("COND", Some("Condition code of the trapped instruction"), 20, 24),
                plain("Opc2", None, 16, 20),
                res0(15, 16),
                plain("Rt2", None, 10, 15),
                plain("Rt", None, 5, 10),
                plain("CRm", None, 1, 5),
                described(
                    "Direction",
                    Some("Direction of the trapped instruction"),
                    0,
                    1,
                    direction_text(extract(iss, 0, 1) == 1),
                ),
            ],
        )
    }
}

/// Decodes the ISS value for an MCRR or MRRC access.
pub fn decode_iss_mcrr(iss: u64) -> (r: Result<Vec<FieldInfo>, DecodeError>)
    ensures
        decoded_as(r, iss, mcrr_layout(iss)),
{
    let cv = FieldInfo::get_bit(
        iss,
        "CV",
        Some("Condition code valid"),
        24,
    ).describe_bit(describe_cv);
    let cond = FieldInfo::get(
        iss,
        "COND",
        Some("Condition code of the trapped instruction"),
        20,
        24,
    );
    let opc2 = FieldInfo::get(iss, "Opc2", None, 16, 20);
    let res0 = FieldInfo::get_bit(iss, "RES0", Some("Reserved"), 15).check_res0()?;
    let rt2 = FieldInfo::get(iss, "Rt2", None, 10, 15);
    let rt = FieldInfo::get(iss, "Rt", None, 5, 10);
    let crm = FieldInfo::get(iss, "CRm", None, 1, 5);
    let direction = FieldInfo::get_bit(
        iss,
        "Direction",
        Some("Direction of the trapped instruction"),
        0,
    ).describe_bit(describe_direction);
    Ok(vec![cv, cond, opc2, res0, rt2, rt, crm, direction])
}

} // verus!
