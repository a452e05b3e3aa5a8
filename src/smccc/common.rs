//! Function numbers shared by all SMCCC services.
use crate::field::{described, extract, is_leaf, DecodeError, FieldInfo, FieldSpec};
use vstd::prelude::*;

verus! {

pub open spec fn reserved_text(service: u64) -> Seq<char> {
    if 0xFF00 <= service <= 0xFFFF {
        "Reserved for future expansion"@
    } else {
        ""@
    }
}

/// Describes the function numbers reserved for future expansion in every service.
pub fn reserved_fids(service: u64) -> (r: &'static str)
    ensures
        r@ == reserved_text(service),
{
    match service {
        0xFF00..=0xFFFF => "Reserved for future expansion",
        _ => "",
    }
}

pub open spec fn general32_text(service: u64) -> Seq<char> {
    if service == 0xFF00 {
        "Call Count Query, deprecated from SMCCCv1.2"@
    } else if service == 0xFF01 {
        "Call UUID Query"@
    } else if service == 0xFF03 {
        "Revision Query"@
    } else {
        reserved_text(service)
    }
}

/// Describes the general queries that every 32-bit service answers.
pub fn smccc_general32_queries(service: u64) -> (r: &'static str)
    ensures
        r@ == general32_text(service),
{
    match service {
        0xFF00 => "Call Count Query, deprecated from SMCCCv1.2",
        0xFF01 => "Call UUID Query",
        0xFF03 => "Revision Query",
        _ => reserved_fids(service),
    }
}

/// Describes a 32-bit function number of a service that only answers the general queries.
pub fn describe_general32_queries(service: u64) -> (r: Result<&'static str, DecodeError>)
    ensures
        r matches Ok(d) && d@ == general32_text(service),
{
    Ok(smccc_general32_queries(service))
}

/// Describes a 64-bit function number of a service that defines none.
pub fn describe_general64_queries(service: u64) -> (r: Result<&'static str, DecodeError>)
    ensures
        r matches Ok(d) && d@ == reserved_text(service),
{
    Ok(reserved_fids(service))
}

/// The Function Number field, described by `description`.
pub open spec fn function_number(description: Seq<char>) -> FieldSpec {
    described("Function Number", None, 0, 16, description)
}

/// The description of a function number of a service that only answers the general queries.
pub open spec fn common_text(conv: u64, function: u64) -> Seq<char> {
    if conv == 0 {
        general32_text(function)
    } else {
        reserved_text(function)
    }
}

/// Decodes the function number of a call to a service that defines no functions of its own.
pub fn decode_common_service(smccc: u64, conv: u64) -> (r: Result<FieldInfo, DecodeError>)
    ensures
        r matches Ok(f) && is_leaf(
            f,
            smccc,
            function_number(common_text(conv, extract(smccc, 0, 16))),
        ),
{
    if conv == 0 {
        FieldInfo::get(smccc, "Function Number", None, 0, 16).describe(describe_general32_queries)
    } else {
        FieldInfo::get(smccc, "Function Number", None, 0, 16).describe(describe_general64_queries)
    }
}

} // verus!
