//! Trapped LD64B and ST64B* syndromes.
use crate::field::{described, decoded_as, extract, DecodeError, FieldInfo, FieldSpec};
use vstd::prelude::*;

verus! {

pub open spec fn ld64b_text(iss: u64) -> Option<Seq<char>> {
    if iss == 0b00 {
        Some("ST64BV trapped"@)
    } else if iss == 0b01 {
        Some("ST64BV0 trapped"@)
    } else if iss == 0b10 {
        Some("LD64B or ST64B trapped"@)
    } else {
        None
    }
}

fn describe_iss_ld64b(iss: u64) -> (r: Result<&'static str, DecodeError>)
    ensures
        match r {
            Ok(d) => ld64b_text(iss) == Some(d@),
            Err(e) => ld64b_text(iss) is None && e == DecodeError::InvalidLd64bIss { iss },
        },
{
    match iss {
        0b00 => Ok("ST64BV trapped"),
        0b01 => Ok("ST64BV0 trapped"),
        0b10 => Ok("LD64B or ST64B trapped"),
        _ => Err(DecodeError::InvalidLd64bIss { iss }),
    }
}

/// The fields of the ISS of a trapped LD64B or ST64B* instruction, or the first error that decoding
/// it meets.
pub open spec fn ld64b_layout(iss: u64) -> Result<Seq<FieldSpec>, DecodeError> {
    if ld64b_text(extract(iss, 0, 25)) is None {
        Err(DecodeError::InvalidLd64bIss { iss: extract(iss, 0, 25) })
    } else {
        Ok(
            seq![
                described("ISS", None, 0, 25, ld64b_text(extract(iss, 0, 25))->0),
            ],
        )
    }
}

/// Decodes the ISS value for a trapped LD64B or ST64B* instruction.
pub fn decode_iss_ld64b(iss: u64) -> (r: Result<Vec<FieldInfo>, DecodeError>)
    ensures
        decoded_as(r, iss, ld64b_layout(iss)),
{
    let iss = FieldInfo::get(iss, "ISS", None, 0, 25).describe(describe_iss_ld64b)?;
    Ok(vec![iss])
}

} // verus!
