//! Breakpoint, Software Step and Watchpoint debug exception syndromes.
use crate::field::{described, decoded_as, extract, plain, res0, DecodeError, FieldInfo, FieldSpec};
use vstd::prelude::*;

verus! {

pub open spec fn debug_fsc_text(fsc: u64) -> Option<Seq<char>> {
    if fsc == 0b100010 {
        Some("Debug exception"@)
    } else {
        None
    }
}

fn describe_fsc(fsc: u64) -> (r: Result<&'static str, DecodeError>)
    ensures
        match r {
            Ok(d) => debug_fsc_text(fsc) == Some(d@),
            Err(e) => debug_fsc_text(fsc) is None && e == DecodeError::InvalidFsc { fsc },
        },
{
    match fsc {
        0b100010 => Ok("Debug exception"),
        _ => Err(DecodeError::InvalidFsc { fsc }),
    }
}

pub open spec fn isv_text(isv: bool) -> Seq<char> {
    if isv {
        "EX bit is valid"@
    } else {
        "EX bit is RES0"@
    }
}

fn describe_isv(isv: bool) -> (r: &'static str)
    ensures
        r@ == isv_text(isv),
{
    if isv {
        "EX bit is valid"
    } else {
        "EX bit is RES0"
    }
}

pub open spec fn ex_text(ex: bool) -> Seq<char> {
    if ex {
        "A Load-Exclusive instruction was stepped"@
    } else {
        "Some instruction other than a Load-Exclusive was stepped"@
    }
}

fn describe_ex(ex: bool) -> (r: &'static str)
    ensures
        r@ == ex_text(ex),
{
    if ex {
        "A Load-Exclusive instruction was stepped"
    } else {
        "Some instruction other than a Load-Exclusive was stepped"
    }
}

pub open spec fn wnr_text(wnr: bool) -> Seq<char> {
    if wnr {
        "Watchpoint caused by writing to memory"@
    } else {
        "Watchpoint caused by reading from memory"@
    }
}

fn describe_wnr(wnr: bool) -> (r: &'static str)
    ensures
        r@ == wnr_text(wnr),
{
    if wnr {
        "Watchpoint caused by writing to memory"
    } else {
        "Watchpoint caused by reading from memory"
    }
}

/// The fields of the ISS of a Breakpoint or Vector Catch debug exception, or the first error that
/// decoding it meets.
pub open spec fn breakpoint_vector_catch_layout(iss: u64) -> Result<Seq<FieldSpec>, DecodeError> {
    if extract(iss, 6, 25) != 0 {
        Err(DecodeError::InvalidRes0 { res0: extract(iss, 6, 25) })
    } else if debug_fsc_text(extract(iss, 0, 6)) is None {
        Err(DecodeError::InvalidFsc { fsc: extract(iss, 0, 6) })
    } else {
        Ok(
            seq![
                res0(6, 25),
                described(
                    "IFSC",
                    Some("Instruction Fault Status Code"),
                    0,
                    6,
                    debug_fsc_text(extract(iss, 0, 6))->0,
                ),
            ],
        )
    }
}

/// Decodes the ISS value for a Breakpoint or Vector Catch debug exception.
pub fn decode_iss_breakpoint_vector_catch(iss: u64) -> (r: Result<Vec<FieldInfo>, DecodeError>)
    ensures
        decoded_as(r, iss, breakpoint_vector_catch_layout(iss)),
{
    let res0 = FieldInfo::get(iss, "RES0", Some("Reserved"), 6, 25).check_res0()?;
    let ifsc = FieldInfo::get(
        iss,
        "IFSC",
        Some("Instruction Fault Status Code"),
        0,
        6,
    ).describe(describe_fsc)?;
    Ok(vec![res0, ifsc])
}

/// The fields of the ISS of a Software Step exception, or the first error that decoding it meets.
pub open spec fn software_step_layout(iss: u64) -> Result<Seq<FieldSpec>, DecodeError> {
    let isv = extract(iss, 24, 25) == 1;
    if extract(iss, 7, 24) != 0 {
        Err(DecodeError::InvalidRes0 { res0: extract(iss, 7, 24) })
    } else if !isv && extract(iss, 6, 7) != 0 {
        Err(DecodeError::InvalidRes0 { res0: extract(iss, 6, 7) })
    } else if debug_fsc_text(extract(iss, 0, 6)) is None {
        Err(DecodeError::InvalidFsc { fsc: extract(iss, 0, 6) })
    } else {
        Ok(
            seq![
                described("ISV", Some("Instruction Syndrome Valid"), 24, 25, isv_text(isv)),
                res0(7, 24),
                if isv {
                    described(
                        "EX",
                        Some("Exclusive operation"),
                        6,
                        7,
                        ex_text(extract(iss, 6, 7) == 1),
                    )
                } else {
                    plain("RES0", Some("Reserved because ISV is false"), 6, 7)
                },
                described(
                    "IFSC",
                    Some("Instruction Fault Status Code"),
                    0,
                    6,
                    debug_fsc_text(extract(iss, 0, 6))->0,
                ),
            ],
        )
    }
}

/// Decodes the ISS value for a Software Step exception.
pub fn decode_iss_software_step(iss: u64) -> (r: Result<Vec<FieldInfo>, DecodeError>)
    ensures
        decoded_as(r, iss, software_step_layout(iss)),
{
    let isv = FieldInfo::get_bit(iss, "ISV", Some("Instruction Syndrome Valid"), 24).describe_bit(
        describe_isv,
    );
    let res0 = FieldInfo::get(iss, "RES0", Some("Reserved"), 7, 24).check_res0()?;
    let ex = if isv.as_bit() {
        FieldInfo::get_bit(iss, "EX", Some("Exclusive operation"), 6).describe_bit(describe_ex)
    } else {
        FieldInfo::get_bit(iss, "RES0", Some("Reserved because ISV is false"), 6).check_res0()?
    };
    let ifsc = FieldInfo::get(iss, "IFSC", Some("Instruction Fault Status Code"), 0, 6).describe(
        describe_fsc,
    )?;
    Ok(vec![isv, res0, ex, ifsc])
}

/// The fields of the ISS of a Watchpoint exception, or the first error that decoding it meets.
pub open spec fn watchpoint_layout(iss: u64) -> Result<Seq<FieldSpec>, DecodeError> {
    if extract(iss, 15, 25) != 0 {
        Err(DecodeError::InvalidRes0 { res0: extract(iss, 15, 25) })
    } else if extract(iss, 14, 15) != 0 {
        Err(DecodeError::InvalidRes0 { res0: extract(iss, 14, 15) })
    } else if extract(iss, 9, 13) != 0 {
        Err(DecodeError::InvalidRes0 { res0: extract(iss, 9, 13) })
    } else if extract(iss, 7, 8) != 0 {
        Err(DecodeError::InvalidRes0 { res0: extract(iss, 7, 8) })
    } else if debug_fsc_text(extract(iss, 0, 6)) is None {
        Err(DecodeError::InvalidFsc { fsc: extract(iss, 0, 6) })
    } else {
        Ok(
            seq![
                res0(15, 25),
                res0(14, 15),
                plain("VNCR", None, 13, 14),
                res0(9, 13),
                plain("CM", Some("Cache Maintenance"), 8, 9),
                res0(7, 8),
                described("WnR", Some("Write not Read"), 6, 7, wnr_text(extract(iss, 6, 7) == 1)),
                described(
                    "DFSC",
                    Some("Data Fault Status Code"),
                    0,
                    6,
                    debug_fsc_text(extract(iss, 0, 6))->0,
                ),
            ],
        )
    }
}

/// Decodes the ISS value for a Watchpoint exception.
pub fn decode_iss_watchpoint(iss: u64) -> (r: Result<Vec<FieldInfo>, DecodeError>)
    ensures
        decoded_as(r, iss, watchpoint_layout(iss)),
{
    let res0a = FieldInfo::get(iss, "RES0", Some("Reserved"), 15, 25).check_res0()?;
    let res0b = FieldInfo::get_bit(iss, "RES0", Some("Reserved"), 14).check_res0()?;
    let vncr = FieldInfo::get_bit(iss, "VNCR", None, 13);
    let res0c = FieldInfo::get(iss, "RES0", Some("Reserved"), 9, 13).check_res0()?;
    let cm = FieldInfo::get_bit(iss, "CM", Some("Cache Maintenance"), 8);
    let res0d = FieldInfo::get_bit(iss, "RES0", Some("Reserved"), 7).check_res0()?;
    let wnr = FieldInfo::get_bit(iss, "WnR", Some("Write not Read"), 6).describe_bit(describe_wnr);
    let dfsc = FieldInfo::get(
        iss,
        "DFSC",
        Some("Data Fault Status Code"),
        0,
        6,
    ).describe(describe_fsc)?;
    Ok(vec![res0a, res0b, vncr, res0c, cm, res0d, wnr, dfsc])
}

/// The fields of the ISS of a Breakpoint instruction, or the first error that decoding it meets.
pub open spec fn breakpoint_layout(iss: u64) -> Result<Seq<FieldSpec>, DecodeError> {
    if extract(iss, 16, 25) != 0 {
        Err(DecodeError::InvalidRes0 { res0: extract(iss, 16, 25) })
    } else {
        Ok(
            seq![
                res0(16, 25),
                plain("Comment", Some("Instruction comment field or immediate field"), 0, 16),
            ],
        )
    }
}

/// Decodes the ISS value for a Breakpoint instruction.
pub fn decode_iss_breakpoint(iss: u64) -> (r: Result<Vec<FieldInfo>, DecodeError>)
    ensures
        decoded_as(r, iss, breakpoint_layout(iss)),
{
    let res0 = FieldInfo::get(iss, "RES0", Some("Reserved"), 16, 25).check_res0()?;
    let comment = FieldInfo::get(
        iss,
        "Comment",
        Some("Instruction comment field or immediate field"),
        0,
        16,
    );
    Ok(vec![res0, comment])
}

} // verus!
