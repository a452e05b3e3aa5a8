//! Trapped LDC and STC syndromes.
use crate::field::{described, decoded_as, extract, plain, res0, DecodeError, FieldInfo, FieldSpec};
use vstd::prelude::*;
use crate::esr::common::{cv_text, describe_cv};

verus! {

pub open spec fn offset_text(offset: bool) -> Seq<char> {
    if offset {
        "Add offset"@
    } else {
        "Subtract offset"@
    }
}

fn describe_offset(offset: bool) -> (r: &'static str)
    ensures
        r@ == offset_text(offset),
{
    if offset {
        "Add offset"
    } else {
        "Subtract offset"
    }
}

pub open spec fn direction_text(direction: bool) -> Seq<char> {
    if direction {
        "Read from memory (LDC)"@
    } else {
        "Write to memory (STC)"@
    }
}

fn describe_direction(direction: bool) -> (r: &'static str)
    ensures
        r@ == direction_text(direction),
{
    if direction {
        "Read from memory (LDC)"
    } else {
        "Write to memory (STC)"
    }
}

pub open spec fn am_text(am: u64) -> Option<Seq<char>> {
    if am == 0b000 {
        Some("Immediate unindexed"@)
    } else if am == 0b001 {
        Some("Immediate post-indexed"@)
    } else if am == 0b010 {
        Some("Immediate offset"@)
    } else if am == 0b011 {
        Some("Immediate pre-indexed"@)
    } else if am == 0b100 {
        Some("Reserved for trapped STR or T32 LDC"@)
    } else if am == 0b110 {
        Some("Reserved for trapped STC"@)
    } else {
        None
    }
}

fn describe_am(am: u64) -> (r: Result<&'static str, DecodeError>)
    ensures
        match r {
            Ok(d) => am_text(am) == Some(d@),
            Err(e) => am_text(am) is None && e == DecodeError::InvalidAm { am },
        },
{
    match am {
        0b000 => Ok("Immediate unindexed"),
        0b001 => Ok("Immediate post-indexed"),
        0b010 => Ok("Immediate offset"),
        0b011 => Ok("Immediate pre-indexed"),
        0b100 => Ok("Reserved for trapped STR or T32 LDC"),
        0b110 => Ok("Reserved for trapped STC"),
        _ => Err(DecodeError::InvalidAm { am }),
    }
}

/// The fields of the ISS of a trapped LDC or STC instruction, or the first error that decoding it
/// meets.
pub open spec fn ldc_layout(iss: u64) -> Result<Seq<FieldSpec>, DecodeError> {
    if extract(iss, 10, 12) != 0 {
        Err(DecodeError::InvalidRes0 { res0: extract(iss, 10, 12) })
    } else if am_text(extract(iss, 1, 4)) is None {
        Err(DecodeError::InvalidAm { am: extract(iss, 1, 4) })
    } else {
        Ok(
            seq![
                described(
                    "CV",
                    Some("Condition code valid"),
                    24,
                    25,
                    cv_text(extract(iss, 24, 25) == 1),
                ),
                plain("COND", Some("Condition code of the trapped instruction"), 20, 24),
                plain("imm8", Some("Immediate value of the trapped instruction"), 12, 20),
                res0(10, 12),
                plain(
                    "Rn",
                    Some("General-purpose register number of the trapped instruction"),
                    5,
                    10,
                ),
                described(
                    "Offset",
                    Some("Whether the offset is added or subtracted"),
                    4,
                    5,
                    offset_text(extract(iss, 4, 5) == 1),
                ),
                described("AM", Some("Addressing Mode"), 1, 4, am_text(extract(iss, 1, 4))->0),
                described(
                    "Direction",
                    Some("Direction of the trapped instruction"),
                    0,
                    1,
                    direction_text(extract(iss, 0, 1) == 1),
                ),
            ],
        )
    }
}

/// Decodes the ISS value for a trapped LDC or STC instruction.
pub fn decode_iss_ldc(iss: u64) -> (r: Result<Vec<FieldInfo>, DecodeError>)
    ensures
        decoded_as(r, iss, ldc_layout(iss)),
{
    let cv = FieldInfo::get_bit(
        iss,
        "CV",
        Some("Condition code valid"),
        24,
    ).describe_bit(describe_cv);
    let cond = FieldInfo::get(
        iss,
        "COND",
        Some("Condition code of the trapped instruction"),
        20,
        24,
    );
    let imm8 = FieldInfo::get(
        iss,
        "imm8",
        Some("Immediate value of the trapped instruction"),
        12,
        20,
    );
    let res0 = FieldInfo::get(iss, "RES0", Some("Reserved"), 10, 12).check_res0()?;
    let rn = FieldInfo::get(
        iss,
        "Rn",
        Some("General-purpose register number of the trapped instruction"),
        5,
        10,
    );
    let offset = FieldInfo::get_bit(
        iss,
        "Offset",
        Some("Whether the offset is added or subtracted"),
        4,
    ).describe_bit(describe_offset);
    let am = FieldInfo::get(iss, "AM", Some("Addressing Mode"), 1, 4).describe(describe_am)?;
    let direction = FieldInfo::get_bit(
        iss,
        "Direction",
        Some("Direction of the trapped instruction"),
        0,
    ).describe_bit(describe_direction);
    Ok(vec![cv, cond, imm8, res0, rn, offset, am, direction])
}

} // verus!
