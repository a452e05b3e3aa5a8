//! Trusted Application Calls.
use crate::field::{extract, is_leaf, DecodeError, FieldInfo};
use vstd::prelude::*;
use crate::smccc::common::{
    common_text, describe_general32_queries, describe_general64_queries, function_number,
};

verus! {

/// Decodes the function number of a Trusted Application Call.
pub fn decode_tapp_service(smccc: u64, conv: u64) -> (r: Result<FieldInfo, DecodeError>)
    ensures
        r matches Ok(f) && is_leaf(
            f,
            smccc,
            function_number(common_text(conv, extract(smccc, 0, 16))),
        ),
{
    if conv == 0 {
        FieldInfo::get(smccc, "Function Number", None, 0, 16).describe(describe_general32_queries)
    } else {
        FieldInfo::get(smccc, "Function Number", None, 0, 16).describe(describe_general64_queries)
    }
}

} // verus!
