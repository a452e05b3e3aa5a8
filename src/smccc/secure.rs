//! Standard Secure Service Calls, which include FF-A.
use crate::field::{extract, is_leaf, DecodeError, FieldInfo};
use vstd::prelude::*;
use crate::smccc::common::{function_number, general32_text, smccc_general32_queries};
use crate::smccc::ffa::{ffa32_name, ffa64_name, ffa_32_function_id, ffa_64_function_id};

verus! {

pub open spec fn secure_service_text(service: u64) -> Seq<char> {
    if 0x000 <= service <= 0x01F {
        "PSCI Call (Power Secure Control Interface)"@
    } else if 0x020 <= service <= 0x03F {
        "SDEI Call (Software Delegated Exception Interface)"@
    } else if 0x040 <= service <= 0x04F {
        "MM Call (Management Mode)"@
    } else if 0x050 <= service <= 0x05F {
        "TRNG Call"@
    } else if 0x060 <= service <= 0x0EF {
        "Unknown FF-A Call"@
    } else if 0x0F0 <= service <= 0x10F {
        "Errata Call"@
    } else if 0x150 <= service <= 0x1CF {
        "CCA Call"@
    } else {
        ""@
    }
}

fn secure_service(service: u64) -> (r: &'static str)
    ensures
        r@ == secure_service_text(service),
{
    match service {
        0x000..=0x01F => "PSCI Call (Power Secure Control Interface)",
        0x020..=0x03F => "SDEI Call (Software Delegated Exception Interface)",
        0x040..=0x04F => "MM Call (Management Mode)",
        0x050..=0x05F => "TRNG Call",
        0x060..=0x0EF => "Unknown FF-A Call",
        0x0F0..=0x10F => "Errata Call",
        0x150..=0x1CF => "CCA Call",
        _ => "",
    }
}

pub open spec fn secure32_text(service: u64) -> Seq<char> {
    if ffa32_name(service) is Some {
        ffa32_name(service)->0
    } else if service <= 0x1CF {
        secure_service_text(service)
    } else {
        general32_text(service)
    }
}

fn describe_secure32_service(service: u64) -> (r: Result<&'static str, DecodeError>)
    ensures
        r matches Ok(d) && d@ == secure32_text(service),
{
    if let Some(ffa_call) = ffa_32_function_id(service) {
        return Ok(ffa_call);
    }
    Ok(
        match service {
            0x000..=0x1CF => secure_service(service),
            _ => smccc_general32_queries(service),
        },
    )
}

pub open spec fn secure64_text(service: u64) -> Seq<char> {
    if ffa64_name(service) is Some {
        ffa64_name(service)->0
    } else {
        secure_service_text(service)
    }
}

fn describe_secure64_service(service: u64) -> (r: Result<&'static str, DecodeError>)
    ensures
        r matches Ok(d) && d@ == secure64_text(service),
{
    if let Some(ffa_call) = ffa_64_function_id(service) {
        return Ok(ffa_call);
    }
    Ok(secure_service(service))
}

pub open spec fn secure_text(conv: u64, function: u64) -> Seq<char> {
    if conv == 0 {
        secure32_text(function)
    } else {
        secure64_text(function)
    }
}

/// Decodes the function number of a Standard Secure Service Call.
pub fn decode_secure_service(smccc: u64, conv: u64) -> (r: Result<FieldInfo, DecodeError>)
    ensures
        r matches Ok(f) && is_leaf(
            f,
            smccc,
            function_number(secure_text(conv, extract(smccc, 0, 16))),
        ),
{
    let info = if conv == 0 {
        FieldInfo::get(smccc, "Function Number", None, 0, 16).describe(describe_secure32_service)?
    } else {
        FieldInfo::get(smccc, "Function Number", None, 0, 16).describe(describe_secure64_service)?
    };
    Ok(info)
}

} // verus!
