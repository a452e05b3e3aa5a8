//! Decoding of SMC Calling Convention function identifiers.
use crate::field::{described, extract, leaves, plain, DecodeError, FieldInfo, FieldSpec};
use vstd::prelude::*;
use crate::smccc::arm::{arm_text, decode_arm_service};
use crate::smccc::common::{common_text, decode_common_service, function_number};
use crate::smccc::hyp::{decode_hyp_service, hyp_text};
use crate::smccc::secure::{decode_secure_service, secure_text};
use crate::smccc::tapp::decode_tapp_service;

pub mod arm;
pub mod common;
pub mod ffa;
pub mod hyp;
pub mod secure;
pub mod tapp;

verus! {

pub open spec fn yield_service_text(service: u64) -> Seq<char> {
    if 0x00000000 <= service <= 0x0100FFFF {
        "Reserved for existing APIs (in use by the existing Armv7 devices)"@
    } else if 0x02000000 <= service <= 0x1FFFFFFF {
        "Trusted OS Yielding Calls"@
    } else if 0x20000000 <= service <= 0x7FFFFFFF {
        "Reserved for future expansion of Trusted OS Yielding Calls"@
    } else {
        "Unknown"@
    }
}

fn describe_yield_service(service: u64) -> (r: Result<&'static str, DecodeError>)
    ensures
        r matches Ok(d) && d@ == yield_service_text(service),
{
    Ok(
        match service {
            0x00000000..=0x0100FFFF => "Reserved for existing APIs (in use by the existing Armv7 devices)",
            0x02000000..=0x1FFFFFFF => "Trusted OS Yielding Calls",
            0x20000000..=0x7FFFFFFF => "Reserved for future expansion of Trusted OS Yielding Calls",
            _ => "Unknown",
        },
    )
}

pub open spec fn call_text(call: u64) -> Seq<char> {
    if call == 0x00 {
        "Yielding Call"@
    } else if call == 0x01 {
        "Fast Call"@
    } else {
        "Unknown"@
    }
}

fn describe_call(call: u64) -> (r: Result<&'static str, DecodeError>)
    ensures
        r matches Ok(d) && d@ == call_text(call),
{
    Ok(
        match call {
            0x00 => "Yielding Call",
            0x01 => "Fast Call",
            _ => "Unknown",
        },
    )
}

pub open spec fn convention_text(conv: u64) -> Seq<char> {
    if conv == 0x00 {
        "SMC32/HVC32"@
    } else if conv == 0x01 {
        "SMC64/HVC64"@
    } else {
        "Unknown"@
    }
}

fn describe_convention(conv: u64) -> (r: Result<&'static str, DecodeError>)
    ensures
        r matches Ok(d) && d@ == convention_text(conv),
{
    Ok(
        match conv {
            0x00 => "SMC32/HVC32",
            0x01 => "SMC64/HVC64",
            _ => "Unknown",
        },
    )
}

pub open spec fn service_text(service: u64) -> Seq<char> {
    if service == 0x00 {
        "Arm Architecture Call"@
    } else if service == 0x01 {
        "CPU Service Call"@
    } else if service == 0x02 {
        "SiP Service Call"@
    } else if service == 0x03 {
        "OEM Service Call"@
    } else if service == 0x04 {
        "Standard Secure Service Call"@
    } else if service == 0x05 {
        "Standard Hypervisor Service Call"@
    } else if service == 0x06 {
        "Vendor Specific Hypervisor Service Call"@
    } else if 0x07 <= service <= 0x2F {
        "Reserved for future use"@
    } else if 0x30 <= service <= 0x31 {
        "Trusted Application Call"@
    } else if 0x32 <= service <= 0x3F {
        "Trusted OS Call"@
    } else {
        "Unknown"@
    }
}

fn describe_service(service: u64) -> (r: Result<&'static str, DecodeError>)
    ensures
        r matches Ok(d) && d@ == service_text(service),
{
    Ok(
        match service {
            0x00 => "Arm Architecture Call",
            0x01 => "CPU Service Call",
            0x02 => "SiP Service Call",
            0x03 => "OEM Service Call",
            0x04 => "Standard Secure Service Call",
            0x05 => "Standard Hypervisor Service Call",
            0x06 => "Vendor Specific Hypervisor Service Call",
            0x07..=0x2F => "Reserved for future use",
            0x30..=0x31 => "Trusted Application Call",
            0x32..=0x3F => "Trusted OS Call",
            _ => "Unknown",
        },
    )
}

/// The description of the function number `function` of the service `service`, called with the
/// calling convention `conv`.
pub open spec fn function_text(service: u64, conv: u64, function: u64) -> Seq<char> {
    if service == 0x00 {
        arm_text(conv, function)
    } else if service == 0x04 {
        secure_text(conv, function)
    } else if service == 0x05 {
        hyp_text(conv, function)
    } else {
        common_text(conv, function)
    }
}

/// The fields of a Fast Call function identifier, after the call type.
pub open spec fn fastcall_fields(smccc: u64) -> Seq<FieldSpec> {
    let conv = extract(smccc, 30, 31);
    let service = extract(smccc, 24, 30);
    seq![
        described("Call Convention", None, 30, 31, convention_text(conv)),
        described("Service Call", None, 24, 30, service_text(service)),
        plain("MBZ", Some("Some legacy Armv7 set this to 1"), 17, 24),
        plain(
            "SVE live state",
            Some("No live state[1] From SMCCCv1.3, before SMCCCv1.3 MBZ"),
            16,
            17,
        ),
        function_number(function_text(service, conv, extract(smccc, 0, 16))),
    ]
}

/// Decodes a Fast Call function identifier, after the call type.
pub fn parse_fastcall(smccc: u64) -> (r: Result<Vec<FieldInfo>, DecodeError>)
    ensures
        r matches Ok(fields) && leaves(fields@, smccc, fastcall_fields(smccc)),
{
    let call_convention = FieldInfo::get(smccc, "Call Convention", None, 30, 31).describe(
        describe_convention,
    )?;
    let service_call = FieldInfo::get(smccc, "Service Call", None, 24, 30).describe(
        describe_service,
    )?;
    let mbz = FieldInfo::get(smccc, "MBZ", Some("Some legacy Armv7 set this to 1"), 17, 24);
    let sve = FieldInfo::get(
        smccc,
        "SVE live state",
        Some("No live state[1] From SMCCCv1.3, before SMCCCv1.3 MBZ"),
        16,
        17,
    );
    let function_number = match service_call.value {
        0x00 => decode_arm_service(smccc, call_convention.value)?,
        0x04 => decode_secure_service(smccc, call_convention.value)?,
        0x05 => decode_hyp_service(smccc, call_convention.value)?,
        0x30..=0x31 => decode_tapp_service(smccc, call_convention.value)?,
        _ => decode_common_service(smccc, call_convention.value)?,
    };
    Ok(vec![call_convention, service_call, mbz, sve, function_number])
}

/// The fields of a Yielding Call function identifier, after the call type.
pub open spec fn yieldcall_fields(smccc: u64) -> Seq<FieldSpec> {
    seq![described("Service Type", None, 0, 31, yield_service_text(extract(smccc, 0, 31)))]
}

/// Decodes a Yielding Call function identifier, after the call type.
pub fn parse_yieldcall(smccc: u64) -> (r: Result<Vec<FieldInfo>, DecodeError>)
    ensures
        r matches Ok(fields) && leaves(fields@, smccc, yieldcall_fields(smccc)),
{
    let yield_type = FieldInfo::get(smccc, "Service Type", None, 0, 31).describe(
        describe_yield_service,
    )?;
    Ok(vec![yield_type])
}

/// The fields of an SMCCC function identifier: the call type, then those of a Fast Call or of a
/// Yielding Call.
pub open spec fn smccc_fields(smccc: u64) -> Seq<FieldSpec> {
    seq![described("Call Type", None, 31, 32, call_text(extract(smccc, 31, 32)))] + if extract(
        smccc,
        31,
        32,
    ) == 1 {
        fastcall_fields(smccc)
    } else {
        yieldcall_fields(smccc)
    }
}

/// Decodes the function ID of an SMCCC (ARM DEN 0028E v1.4) call.
pub fn decode_smccc(smccc: u64) -> (r: Result<Vec<FieldInfo>, DecodeError>)
    ensures
        r matches Ok(fields) && leaves(fields@, smccc, smccc_fields(smccc)),
{
    let call_type = FieldInfo::get(smccc, "Call Type", None, 31, 32).describe(describe_call)?;
    let mut result = if call_type.value == 1 {
        parse_fastcall(smccc)?
    } else {
        parse_yieldcall(smccc)?
    };
    let mut fields = vec![call_type];
    fields.append(&mut result);
    Ok(fields)
}

} // verus!
