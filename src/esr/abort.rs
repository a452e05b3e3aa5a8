//! Instruction Abort and Data Abort syndromes.
use crate::field::{
    described, decoded_as, extract, plain, res0, DecodeError, FieldInfo, FieldSpec,
};
use vstd::prelude::*;

verus! {

pub open spec fn isv_text(isv: bool) -> Seq<char> {
    if isv {
        "Valid instruction syndrome"@
    } else {
        "No valid instruction syndrome"@
    }
}

fn describe_isv(isv: bool) -> (r: &'static str)
    ensures
        r@ == isv_text(isv),
{
    if isv {
        "Valid instruction syndrome"
    } else {
        "No valid instruction syndrome"
    }
}

pub open spec fn sf_text(sf: bool) -> Seq<char> {
    if sf {
        "64-bit wide register"@
    } else {
        "32-bit wide register"@
    }
}

fn describe_sf(sf: bool) -> (r: &'static str)
    ensures
        r@ == sf_text(sf),
{
    if sf {
        "64-bit wide register"
    } else {
        "32-bit wide register"
    }
}

pub open spec fn ar_text(ar: bool) -> Seq<char> {
    if ar {
        "Acquire/release semantics"@
    } else {
        "No acquire/release semantics"@
    }
}

fn describe_ar(ar: bool) -> (r: &'static str)
    ensures
        r@ == ar_text(ar),
{
    if ar {
        "Acquire/release semantics"
    } else {
        "No acquire/release semantics"
    }
}

pub open spec fn fnv_text(fnv: bool) -> Seq<char> {
    if fnv {
        "FAR is not valid, it holds an unknown value"@
    } else {
        "FAR is valid"@
    }
}

fn describe_fnv(fnv: bool) -> (r: &'static str)
    ensures
        r@ == fnv_text(fnv),
{
    if fnv {
        "FAR is not valid, it holds an unknown value"
    } else {
        "FAR is valid"
    }
}

pub open spec fn wnr_text(wnr: bool) -> Seq<char> {
    if wnr {
        "Abort caused by writing to memory"@
    } else {
        "Abort caused by reading from memory"@
    }
}

fn describe_wnr(wnr: bool) -> (r: &'static str)
    ensures
        r@ == wnr_text(wnr),
{
    if wnr {
        "Abort caused by writing to memory"
    } else {
        "Abort caused by reading from memory"
    }
}

pub open spec fn sas_text(sas: u64) -> Seq<char> {
    if sas == 0b00 {
        "byte"@
    } else if sas == 0b01 {
        "halfword"@
    } else if sas == 0b10 {
        "word"@
    } else {
        "doubleword"@
    }
}

/// Describes the access size given by the two-bit SAS field.
fn describe_sas(sas: u64) -> (r: &'static str)
    ensures
        r@ == sas_text(sas),
{
    match sas {
        0b00 => "byte",
        0b01 => "halfword",
        0b10 => "word",
        _ => "doubleword",
    }
}

pub open spec fn fsc_text(fsc: u64) -> Option<Seq<char>> {
    if fsc == 0b000000 {
        Some("Address size fault, level 0 of translation or translation table base register."@)
    } else if fsc == 0b000001 {
        Some("Address size fault, level 1."@)
    } else if fsc == 0b000010 {
        Some("Address size fault, level 2."@)
    } else if fsc == 0b000011 {
        Some("Address size fault, level 3."@)
    } else if fsc == 0b000100 {
        Some("Translation fault, level 0."@)
    } else if fsc == 0b000101 {
        Some("Translation fault, level 1."@)
    } else if fsc == 0b000110 {
        Some("Translation fault, level 2."@)
    } else if fsc == 0b000111 {
        Some("Translation fault, level 3."@)
    } else if fsc == 0b001001 {
        Some("Access flag fault, level 1."@)
    } else if fsc == 0b001010 {
        Some("Access flag fault, level 2."@)
    } else if fsc == 0b001011 {
        Some("Access flag fault, level 3."@)
    } else if fsc == 0b001000 {
        Some("Access flag fault, level 0."@)
    } else if fsc == 0b001100 {
        Some("Permission fault, level 0."@)
    } else if fsc == 0b001101 {
        Some("Permission fault, level 1."@)
    } else if fsc == 0b001110 {
        Some("Permission fault, level 2."@)
    } else if fsc == 0b001111 {
        Some("Permission fault, level 3."@)
    } else if fsc == 0b010000 {
        Some("Synchronous External abort, not on translation table walk or hardware update of translation table."@)
    } else if fsc == 0b010001 {
        Some("Synchronous Tag Check Fault."@)
    } else if fsc == 0b010011 {
        Some("Synchronous External abort on translation table walk or hardware update of translation table, level -1."@)
    } else if fsc == 0b010100 {
        Some("Synchronous External abort on translation table walk or hardware update of translation table, level 0."@)
    } else if fsc == 0b010101 {
        Some("Synchronous External abort on translation table walk or hardware update of translation table, level 1."@)
    } else if fsc == 0b010110 {
        Some("Synchronous External abort on translation table walk or hardware update of translation table, level 2."@)
    } else if fsc == 0b010111 {
        Some("Synchronous External abort on translation table walk or hardware update of translation table, level 3."@)
    } else if fsc == 0b011000 {
        Some("Synchronous parity or ECC error on memory access, not on translation table walk."@)
    } else if fsc == 0b011011 {
        Some("Synchronous parity or ECC error on memory access on translation table walk or hardware update of translation table, level -1."@)
    } else if fsc == 0b011100 {
        Some("Synchronous parity or ECC error on memory access on translation table walk or hardware update of translation table, level 0."@)
    } else if fsc == 0b011101 {
        Some("Synchronous parity or ECC error on memory access on translation table walk or hardware update of translation table, level 1."@)
    } else if fsc == 0b011110 {
        Some("Synchronous parity or ECC error on memory access on translation table walk or hardware update of translation table, level 2."@)
    } else if fsc == 0b011111 {
        Some("Synchronous parity or ECC error on memory access on translation table walk or hardware update of translation table, level 3."@)
    } else if fsc == 0b100001 {
        Some("Alignment fault."@)
    } else if fsc == 0b101001 {
        Some("Address size fault, level -1."@)
    } else if fsc == 0b101011 {
        Some("Translation fault, level -1."@)
    } else if fsc == 0b110000 {
        Some("TLB conflict abort."@)
    } else if fsc == 0b110001 {
        Some("Unsupported atomic hardware update fault."@)
    } else if fsc == 0b110100 {
        Some("IMPLEMENTATION DEFINED fault (Lockdown)."@)
    } else if fsc == 0b110101 {
        Some("IMPLEMENTATION DEFINED fault (Unsupported Exclusive or Atomic access)."@)
    } else {
        None
    }
}

fn describe_fsc(fsc: u64) -> (r: Result<&'static str, DecodeError>)
    ensures
        match r {
            Ok(d) => fsc_text(fsc) == Some(d@),
            Err(e) => fsc_text(fsc) is None && e == DecodeError::InvalidFsc { fsc },
        },
{
    match fsc {
        0b000000 => Ok("Address size fault, level 0 of translation or translation table base register."),
        0b000001 => Ok("Address size fault, level 1."),
        0b000010 => Ok("Address size fault, level 2."),
        0b000011 => Ok("Address size fault, level 3."),
        0b000100 => Ok("Translation fault, level 0."),
        0b000101 => Ok("Translation fault, level 1."),
        0b000110 => Ok("Translation fault, level 2."),
        0b000111 => Ok("Translation fault, level 3."),
        0b001001 => Ok("Access flag fault, level 1."),
        0b001010 => Ok("Access flag fault, level 2."),
        0b001011 => Ok("Access flag fault, level 3."),
        0b001000 => Ok("Access flag fault, level 0."),
        0b001100 => Ok("Permission fault, level 0."),
        0b001101 => Ok("Permission fault, level 1."),
        0b001110 => Ok("Permission fault, level 2."),
        0b001111 => Ok("Permission fault, level 3."),
        0b010000 => Ok("Synchronous External abort, not on translation table walk or hardware update of translation table."),
        0b010001 => Ok("Synchronous Tag Check Fault."),
        0b010011 => Ok("Synchronous External abort on translation table walk or hardware update of translation table, level -1."),
        0b010100 => Ok("Synchronous External abort on translation table walk or hardware update of translation table, level 0."),
        0b010101 => Ok("Synchronous External abort on translation table walk or hardware update of translation table, level 1."),
        0b010110 => Ok("Synchronous External abort on translation table walk or hardware update of translation table, level 2."),
        0b010111 => Ok("Synchronous External abort on translation table walk or hardware update of translation table, level 3."),
        0b011000 => Ok("Synchronous parity or ECC error on memory access, not on translation table walk."),
        0b011011 => Ok("Synchronous parity or ECC error on memory access on translation table walk or hardware update of translation table, level -1."),
        0b011100 => Ok("Synchronous parity or ECC error on memory access on translation table walk or hardware update of translation table, level 0."),
        0b011101 => Ok("Synchronous parity or ECC error on memory access on translation table walk or hardware update of translation table, level 1."),
        0b011110 => Ok("Synchronous parity or ECC error on memory access on translation table walk or hardware update of translation table, level 2."),
        0b011111 => Ok("Synchronous parity or ECC error on memory access on translation table walk or hardware update of translation table, level 3."),
        0b100001 => Ok("Alignment fault."),
        0b101001 => Ok("Address size fault, level -1."),
        0b101011 => Ok("Translation fault, level -1."),
        0b110000 => Ok("TLB conflict abort."),
        0b110001 => Ok("Unsupported atomic hardware update fault."),
        0b110100 => Ok("IMPLEMENTATION DEFINED fault (Lockdown)."),
        0b110101 => Ok("IMPLEMENTATION DEFINED fault (Unsupported Exclusive or Atomic access)."),
        _ => Err(DecodeError::InvalidFsc { fsc }),
    }
}

pub open spec fn set_text(set: u64) -> Option<Seq<char>> {
    if set == 0b00 {
        Some("Recoverable state (UER)"@)
    } else if set == 0b10 {
        Some("Uncontainable (UC)"@)
    } else if set == 0b11 {
        Some("Restartable state (UEO)"@)
    } else {
        None
    }
}

fn describe_set(set: u64) -> (r: Result<&'static str, DecodeError>)
    ensures
        match r {
            Ok(d) => set_text(set) == Some(d@),
            Err(e) => set_text(set) is None && e == DecodeError::InvalidSet { set },
        },
{
    match set {
        0b00 => Ok("Recoverable state (UER)"),
        0b10 => Ok("Uncontainable (UC)"),
        0b11 => Ok("Restartable state (UEO)"),
        _ => Err(DecodeError::InvalidSet { set }),
    }
}

/// The Synchronous Error Type field, meaningful only for a synchronous External abort; otherwise
/// the bits are reserved.
pub open spec fn set_field(iss: u64, fsc: u64) -> FieldSpec {
    if fsc == 0b010000 {
        described("SET", Some("Synchronous Error Type"), 11, 13, set_text(extract(iss, 11, 13))->0)
    } else {
        res0(11, 13)
    }
}

/// The first error that checking the fault status code and the error type of `iss` finds: the
/// error type must be a defined one for a synchronous External abort, and reserved otherwise.
pub open spec fn fsc_error(iss: u64, fsc: u64) -> Option<DecodeError> {
    if fsc_text(fsc) is None {
        Some(DecodeError::InvalidFsc { fsc })
    } else if fsc == 0b010000 && set_text(extract(iss, 11, 13)) is None {
        Some(DecodeError::InvalidSet { set: extract(iss, 11, 13) })
    } else if fsc != 0b010000 && extract(iss, 11, 13) != 0 {
        Some(DecodeError::InvalidRes0 { res0: extract(iss, 11, 13) })
    } else {
        None
    }
}

/// The fields of the ISS of an Instruction Abort, or the first error that decoding it meets.
pub open spec fn instruction_abort_layout(iss: u64) -> Result<Seq<FieldSpec>, DecodeError> {
    let ifsc = extract(iss, 0, 6);
    if extract(iss, 13, 25) != 0 {
        Err(DecodeError::InvalidRes0 { res0: extract(iss, 13, 25) })
    } else if extract(iss, 8, 9) != 0 {
        Err(DecodeError::InvalidRes0 { res0: extract(iss, 8, 9) })
    } else if extract(iss, 6, 7) != 0 {
        Err(DecodeError::InvalidRes0 { res0: extract(iss, 6, 7) })
    } else if fsc_error(iss, ifsc) is Some {
        Err(fsc_error(iss, ifsc)->0)
    } else {
        Ok(
            seq![
                res0(13, 25),
                set_field(iss, ifsc),
                described(
                    "FnV",
                    Some("FAR not Valid"),
                    10,
                    11,
                    fnv_text(extract(iss, 10, 11) == 1),
                ),
                plain("EA", Some("External abort type"), 9, 10),
                res0(8, 9),
                plain("S1PTW", Some("Stage-1 translation table walk"), 7, 8),
                res0(6, 7),
                described("IFSC", Some("Instruction Fault Status Code"), 0, 6, fsc_text(ifsc)->0),
            ],
        )
    }
}

/// Decodes the ISS value for an Instruction Abort.
pub fn decode_iss_instruction_abort(iss: u64) -> (r: Result<Vec<FieldInfo>, DecodeError>)
    ensures
        decoded_as(r, iss, instruction_abort_layout(iss)),
{
    let res0a = FieldInfo::get(iss, "RES0", Some("Reserved"), 13, 25).check_res0()?;
    let fnv = FieldInfo::get_bit(iss, "FnV", Some("FAR not Valid"), 10).describe_bit(describe_fnv);
    let ea = FieldInfo::get_bit(iss, "EA", Some("External abort type"), 9);
    let res0b = FieldInfo::get_bit(iss, "RES0", Some("Reserved"), 8).check_res0()?;
    let s1ptw = FieldInfo::get_bit(iss, "S1PTW", Some("Stage-1 translation table walk"), 7);
    let res0c = FieldInfo::get_bit(iss, "RES0", Some("Reserved"), 6).check_res0()?;
    let ifsc = FieldInfo::get(iss, "IFSC", Some("Instruction Fault Status Code"), 0, 6).describe(
        describe_fsc,
    )?;
    let set = if ifsc.value == 0b010000 {
        FieldInfo::get(iss, "SET", Some("Synchronous Error Type"), 11, 13).describe(describe_set)?
    } else {
        FieldInfo::get(iss, "RES0", Some("Reserved"), 11, 13).check_res0()?
    };
    Ok(vec![res0a, set, fnv, ea, res0b, s1ptw, res0c, ifsc])
}

/// The fields of the instruction syndrome, present when ISV is set.
pub open spec fn instruction_syndrome(iss: u64) -> Seq<FieldSpec> {
    seq![
        described("SAS", Some("Syndrome Access Size"), 22, 24, sas_text(extract(iss, 22, 24))),
        plain("SSE", Some("Syndrome Sign Extend"), 21, 22),
        plain("SRT", Some("Syndrome Register Transfer"), 16, 21),
        described("SF", Some("Sixty-Four"), 15, 16, sf_text(extract(iss, 15, 16) == 1)),
        described("AR", Some("Acquire/Release"), 14, 15, ar_text(extract(iss, 14, 15) == 1)),
    ]
}

/// The fields of the ISS of a Data Abort, or the first error that decoding it meets.
pub open spec fn data_abort_layout(iss: u64) -> Result<Seq<FieldSpec>, DecodeError> {
    let isv = extract(iss, 24, 25) == 1;
    let dfsc = extract(iss, 0, 6);
    if !isv && extract(iss, 14, 24) != 0 {
        Err(DecodeError::InvalidRes0 { res0: extract(iss, 14, 24) })
    } else if fsc_error(iss, dfsc) is Some {
        Err(fsc_error(iss, dfsc)->0)
    } else {
        Ok(
            seq![described("ISV", Some("Instruction Syndrome Valid"), 24, 25, isv_text(isv))]
                + if isv {
                instruction_syndrome(iss)
            } else {
                seq![res0(14, 24)]
            } + seq![
                plain("VNCR", None, 13, 14),
                set_field(iss, dfsc),
                described(
                    "FnV",
                    Some("FAR not Valid"),
                    10,
                    11,
                    fnv_text(extract(iss, 10, 11) == 1),
                ),
                plain("EA", Some("External abort type"), 9, 10),
                plain("CM", Some("Cache Maintenance"), 8, 9),
                plain("S1PTW", Some("Stage-1 translation table walk"), 7, 8),
                described("WnR", Some("Write not Read"), 6, 7, wnr_text(extract(iss, 6, 7) == 1)),
                described("DFSC", Some("Data Fault Status Code"), 0, 6, fsc_text(dfsc)->0),
            ],
        )
    }
}

/// Decodes the ISS value for a Data Abort.
pub fn decode_iss_data_abort(iss: u64) -> (r: Result<Vec<FieldInfo>, DecodeError>)
    ensures
        decoded_as(r, iss, data_abort_layout(iss)),
{
    let isv = FieldInfo::get_bit(iss, "ISV", Some("Instruction Syndrome Valid"), 24).describe_bit(
        describe_isv,
    );
    let mut syndrome = if isv.as_bit() {
        // These fields are part of the instruction syndrome, and are only valid if ISV is true.
        let sas = FieldInfo::get(iss, "SAS", Some("Syndrome Access Size"), 22, 24);
        let sas_description = describe_sas(sas.value);
        let sas = sas.with_text(sas_description);
        let sse = FieldInfo::get_bit(iss, "SSE", Some("Syndrome Sign Extend"), 21);
        let srt = FieldInfo::get(iss, "SRT", Some("Syndrome Register Transfer"), 16, 21);
        let sf = FieldInfo::get_bit(iss, "SF", Some("Sixty-Four"), 15).describe_bit(describe_sf);
        let ar = FieldInfo::get_bit(iss, "AR", Some("Acquire/Release"), 14).describe_bit(
            describe_ar,
        );
        vec![sas, sse, srt, sf, ar]
    } else {
        let res0 = FieldInfo::get(iss, "RES0", Some("Reserved"), 14, 24).check_res0()?;
        vec![res0]
    };
    let vncr = FieldInfo::get_bit(iss, "VNCR", None, 13);
    let fnv = FieldInfo::get_bit(iss, "FnV", Some("FAR not Valid"), 10).describe_bit(describe_fnv);
    let ea = FieldInfo::get_bit(iss, "EA", Some("External abort type"), 9);
    let cm = FieldInfo::get_bit(iss, "CM", Some("Cache Maintenance"), 8);
    let s1ptw = FieldInfo::get_bit(iss, "S1PTW", Some("Stage-1 translation table walk"), 7);
    let wnr = FieldInfo::get_bit(iss, "WnR", Some("Write not Read"), 6).describe_bit(describe_wnr);
    let dfsc = FieldInfo::get(iss, "DFSC", Some("Data Fault Status Code"), 0, 6).describe(
        describe_fsc,
    )?;
    let set = if dfsc.value == 0b010000 {
        FieldInfo::get(iss, "SET", Some("Synchronous Error Type"), 11, 13).describe(describe_set)?
    } else {
        FieldInfo::get(iss, "RES0", Some("Reserved"), 11, 13).check_res0()?
    };
    let mut fields = vec![isv];
    fields.append(&mut syndrome);
    let mut rest = vec![vncr, set, fnv, ea, cm, s1ptw, wnr, dfsc];
    fields.append(&mut rest);
    Ok(fields)
}

} // verus!
