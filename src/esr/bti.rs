use crate::field::{decoded_as, extract, plain, res0, DecodeError, FieldInfo, FieldSpec};
use vstd::prelude::*;

verus! {

/// The fields of the ISS of a Branch Target Exception, or the first error that decoding it meets.
pub open spec fn bti_layout(iss: u64) -> Result<Seq<FieldSpec>, DecodeError> {
    if extract(iss, 2, 25) != 0 {
        Err(DecodeError::InvalidRes0 { res0: extract(iss, 2, 25) })
    } else {
        Ok(seq![res0(2, 25), plain("BTYPE", Some("PSTATE.BTYPE value"), 0, 2)])
    }
}

/// Decodes the ISS value for a Branch Target Exception.
pub fn decode_iss_bti(iss: u64) -> (r: Result<Vec<FieldInfo>, DecodeError>)
    ensures
        decoded_as(r, iss, bti_layout(iss)),
{
    let res0 = FieldInfo::get(iss, "RES0", Some("Reserved"), 2, 25).check_res0()?;
    let btype = FieldInfo::get(iss, "BTYPE", Some("PSTATE.BTYPE value"), 0, 2);
    Ok(vec![res0, btype])
}

} // verus!
