//! Arm Architecture Calls.
use crate::field::{extract, is_leaf, DecodeError, FieldInfo};
use vstd::prelude::*;
use crate::smccc::common::{function_number, reserved_fids, reserved_text};

verus! {

pub open spec fn arm32_text(service: u64) -> Seq<char> {
    if service == 0x0000 {
        "SMCCC_VERSION"@
    } else if service == 0x0001 {
        "SMCCC_ARCH_FEATURES"@
    } else if service == 0x0002 {
        "SMCCC_ARCH_SOC_ID"@
    } else if service == 0x3FFF {
        "SMCCC_ARCH_WORKAROUND_3"@
    } else if service == 0x7FFF {
        "SMCCC_ARCH_WORKAROUND_2"@
    } else if service == 0x8000 {
        "SMCCC_ARCH_WORKAROUND_1"@
    } else if service == 0xFF00 {
        "Call Count Query, deprecated from SMCCCv1.2"@
    } else if service == 0xFF01 {
        "Call UUID Query, deprecated from SMCCCv1.2"@
    } else if service == 0xFF03 {
        "Revision Query, deprecated from SMCCCv1.2"@
    } else {
        reserved_text(service)
    }
}

fn describe_arm32_service(service: u64) -> (r: Result<&'static str, DecodeError>)
    ensures
        r matches Ok(d) && d@ == arm32_text(service),
{
    Ok(
        match service {
            0x0000 => "SMCCC_VERSION",
            0x0001 => "SMCCC_ARCH_FEATURES",
            0x0002 => "SMCCC_ARCH_SOC_ID",
            0x3FFF => "SMCCC_ARCH_WORKAROUND_3",
            0x7FFF => "SMCCC_ARCH_WORKAROUND_2",
            0x8000 => "SMCCC_ARCH_WORKAROUND_1",
            0xFF00 => "Call Count Query, deprecated from SMCCCv1.2",
            0xFF01 => "Call UUID Query, deprecated from SMCCCv1.2",
            0xFF03 => "Revision Query, deprecated from SMCCCv1.2",
            _ => reserved_fids(service),
        },
    )
}

fn describe_arm64_service(service: u64) -> (r: Result<&'static str, DecodeError>)
    ensures
        r matches Ok(d) && d@ == reserved_text(service),
{
    Ok(reserved_fids(service))
}

pub open spec fn arm_text(conv: u64, function: u64) -> Seq<char> {
    if conv == 0 {
        arm32_text(function)
    } else {
        reserved_text(function)
    }
}

/// Decodes the function number of an Arm Architecture Call.
pub fn decode_arm_service(smccc: u64, conv: u64) -> (r: Result<FieldInfo, DecodeError>)
    ensures
        r matches Ok(f) && is_leaf(
            f,
            smccc,
            function_number(arm_text(conv, extract(smccc, 0, 16))),
        ),
{
    if conv == 0 {
        FieldInfo::get(smccc, "Function Number", None, 0, 16).describe(describe_arm32_service)
    } else {
        FieldInfo::get(smccc, "Function Number", None, 0, 16).describe(describe_arm64_service)
    }
}

} // verus!
