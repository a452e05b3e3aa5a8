//! Standard Hypervisor Service Calls.
use crate::field::{extract, is_leaf, DecodeError, FieldInfo};
use vstd::prelude::*;
use crate::smccc::common::{describe_general32_queries, function_number, general32_text};

verus! {

pub open spec fn hyp64_text(service: u64) -> Seq<char> {
    if 0x20 <= service <= 0x3F {
        "PV Time 64-bit calls"@
    } else {
        ""@
    }
}

fn describe_hyp64_service(service: u64) -> (r: Result<&'static str, DecodeError>)
    ensures
        r matches Ok(d) && d@ == hyp64_text(service),
{
    Ok(
        match service {
            0x20..=0x3F => "PV Time 64-bit calls",
            _ => "",
        },
    )
}

pub open spec fn hyp_text(conv: u64, function: u64) -> Seq<char> {
    if conv == 0 {
        general32_text(function)
    } else {
        hyp64_text(function)
    }
}

/// Decodes the function number of a Standard Hypervisor Service Call.
pub fn decode_hyp_service(smccc: u64, conv: u64) -> (r: Result<FieldInfo, DecodeError>)
    ensures
        r matches Ok(f) && is_leaf(
            f,
            smccc,
            function_number(hyp_text(conv, extract(smccc, 0, 16))),
        ),
{
    if conv == 0 {
        FieldInfo::get(smccc, "Function Number", None, 0, 16).describe(describe_general32_queries)
    } else {
        FieldInfo::get(smccc, "Function Number", None, 0, 16).describe(describe_hyp64_service)
    }
}

} // verus!
