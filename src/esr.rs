//! Decoding of the Exception Syndrome Register.
use crate::field::{
    decoded_as, described, extract, is_leaf, is_node, plain, res0, DecodeError, FieldInfo,
    FieldSpec,
};
use crate::esr::abort::{
    data_abort_layout, decode_iss_data_abort, decode_iss_instruction_abort,
    instruction_abort_layout,
};
use crate::esr::breakpoint::{
    breakpoint_layout, breakpoint_vector_catch_layout, decode_iss_breakpoint,
    decode_iss_breakpoint_vector_catch, decode_iss_software_step, decode_iss_watchpoint,
    software_step_layout, watchpoint_layout,
};
use crate::esr::bti::{bti_layout, decode_iss_bti};
use crate::esr::fp::{decode_iss_fp, fp_layout};
use crate::esr::hvc::{decode_iss_hvc, hvc_layout};
use crate::esr::ld64b::{decode_iss_ld64b, ld64b_layout};
use crate::esr::ldc::{decode_iss_ldc, ldc_layout};
use crate::esr::mcr::{decode_iss_mcr, decode_iss_mcrr, mcr_layout, mcrr_layout};
use crate::esr::pauth::{decode_iss_pauth, pauth_layout};
use crate::esr::serror::{decode_iss_serror, serror_layout};
use crate::esr::sve::{decode_iss_sve, sve_layout};
use crate::esr::wf::{decode_iss_wf, wf_layout};
use crate::esr::msr::{decode_iss_msr, msr_fields, msr_text};
use vstd::prelude::*;

pub mod abort;
pub mod breakpoint;
pub mod bti;
pub mod common;
pub mod fp;
pub mod hvc;
pub mod ld64b;
pub mod ldc;
pub mod mcr;
pub mod msr;
pub mod pauth;
pub mod serror;
pub mod sve;
pub mod wf;

verus! {

/// The single reserved field of an ISS that holds nothing, or the error if it is not zero.
pub open spec fn res0_iss_layout(iss: u64) -> Result<Seq<FieldSpec>, DecodeError> {
    if extract(iss, 0, 25) != 0 {
        Err(DecodeError::InvalidRes0 { res0: extract(iss, 0, 25) })
    } else {
        Ok(seq![described("RES0", Some("Reserved"), 0, 25, "ISS is RES0"@)])
    }
}

/// Decodes an ISS value that is entirely reserved.
fn decode_iss_res0(iss: u64) -> (r: Result<Vec<FieldInfo>, DecodeError>)
    ensures
        decoded_as(r, iss, res0_iss_layout(iss)),
{
    let res0 = FieldInfo::get(iss, "RES0", Some("Reserved"), 0, 25).check_res0()?.with_text(
        "ISS is RES0",
    );
    Ok(vec![res0])
}

/// The kind of exception that the Exception Class `ec` stands for, if it is a defined class.
pub open spec fn ec_class(ec: u64) -> Option<Seq<char>> {
    if ec == 0b000000 {
        Some("Unknown reason"@)
    } else if ec == 0b000001 {
        Some("Wrapped WF* instruction execution"@)
    } else if ec == 0b000011 {
        Some("Trapped MCR or MRC access with coproc=0b1111"@)
    } else if ec == 0b000100 {
        Some("Trapped MCRR or MRRC access with coproc=0b1111"@)
    } else if ec == 0b000101 {
        Some("Trapped MCR or MRC access with coproc=0b1110"@)
    } else if ec == 0b000110 {
        Some("Trapped LDC or STC access"@)
    } else if ec == 0b000111 {
        Some("Trapped access to SVE, Advanced SIMD or floating point"@)
    } else if ec == 0b001010 {
        Some("Trapped execution of an LD64B, ST64B, ST64BV, or ST64BV0 instruction"@)
    } else if ec == 0b001100 {
        Some("Trapped MRRC access with (coproc==0b1110)"@)
    } else if ec == 0b001101 {
        Some("Branch Target Exception"@)
    } else if ec == 0b001110 {
        Some("Illegal Execution state"@)
    } else if ec == 0b010001 {
        Some("SVC instruction execution in AArch32 state"@)
    } else if ec == 0b010101 {
        Some("SVC instruction execution in AArch64 state"@)
    } else if ec == 0b010110 {
        Some("HVC instruction execution in AArch64 state"@)
    } else if ec == 0b010111 {
        Some("SMC instruction execution in AArch64 state"@)
    } else if ec == 0b011000 {
        Some("Trapped MSR, MRS or System instruction execution in AArch64 state"@)
    } else if ec == 0b011001 {
        Some("Access to SVE functionality trapped as a result of CPACR_EL1.ZEN, CPTR_EL2.ZEN, CPTR_EL2.TZ, or CPTR_EL3.EZ"@)
    } else if ec == 0b011100 {
        Some("Exception from a Pointer Authentication instruction authentication failure"@)
    } else if ec == 0b100000 {
        Some("Instruction Abort from a lower Exception level"@)
    } else if ec == 0b100001 {
        Some("Instruction Abort taken without a change in Exception level"@)
    } else if ec == 0b100010 {
        Some("PC alignment fault exception"@)
    } else if ec == 0b100100 {
        Some("Data Abort from a lower Exception level"@)
    } else if ec == 0b100101 {
        Some("Data Abort taken without a change in Exception level"@)
    } else if ec == 0b100110 {
        Some("SP alignment fault exception"@)
    } else if ec == 0b101000 {
        Some("Trapped floating-point exception taken from AArch32 state"@)
    } else if ec == 0b101100 {
        Some("Trapped floating-point exception taken from AArch64 state"@)
    } else if ec == 0b101111 {
        Some("SError interrupt"@)
    } else if ec == 0b110000 {
        Some("Breakpoint exception from a lower Exception level"@)
    } else if ec == 0b110001 {
        Some("Breakpoint exception taken without a change in Exception level"@)
    } else if ec == 0b110010 {
        Some("Software Step exception from a lower Exception level"@)
    } else if ec == 0b110011 {
        Some("Software Step exception taken without a change in Exception level"@)
    } else if ec == 0b110100 {
        Some("Watchpoint exception from a lower Exception level"@)
    } else if ec == 0b110101 {
        Some("Watchpoint exception taken without a change in Exception level"@)
    } else if ec == 0b111000 {
        Some("BKPT instruction execution in AArch32 state"@)
    } else if ec == 0b111100 {
        Some("BRK instruction execution in AArch64 state"@)
    } else {
        None
    }
}

/// The fields into which the ISS of the defined Exception Class `ec` is decoded.
pub open spec fn iss_layout(ec: u64, iss: u64) -> Result<Seq<FieldSpec>, DecodeError> {
    if ec == 0b000000 {
        res0_iss_layout(iss)
    } else if ec == 0b000001 {
        wf_layout(iss)
    } else if ec == 0b000011 {
        mcr_layout(iss)
    } else if ec == 0b000100 {
        mcrr_layout(iss)
    } else if ec == 0b000101 {
        mcr_layout(iss)
    } else if ec == 0b000110 {
        ldc_layout(iss)
    } else if ec == 0b000111 {
        sve_layout(iss)
    } else if ec == 0b001010 {
        ld64b_layout(iss)
    } else if ec == 0b001100 {
        mcrr_layout(iss)
    } else if ec == 0b001101 {
        bti_layout(iss)
    } else if ec == 0b001110 {
        res0_iss_layout(iss)
    } else if ec == 0b010001 {
        hvc_layout(iss)
    } else if ec == 0b010101 {
        hvc_layout(iss)
    } else if ec == 0b010110 {
        hvc_layout(iss)
    } else if ec == 0b010111 {
        hvc_layout(iss)
    } else if ec == 0b011000 {
        if extract(iss, 22, 25) != 0 {
            Err(DecodeError::InvalidRes0 { res0: extract(iss, 22, 25) })
        } else {
            Ok(msr_fields(iss))
        }
    } else if ec == 0b011001 {
        res0_iss_layout(iss)
    } else if ec == 0b011100 {
        pauth_layout(iss)
    } else if ec == 0b100000 {
        instruction_abort_layout(iss)
    } else if ec == 0b100001 {
        instruction_abort_layout(iss)
    } else if ec == 0b100010 {
        res0_iss_layout(iss)
    } else if ec == 0b100100 {
        data_abort_layout(iss)
    } else if ec == 0b100101 {
        data_abort_layout(iss)
    } else if ec == 0b100110 {
        res0_iss_layout(iss)
    } else if ec == 0b101000 {
        fp_layout(iss)
    } else if ec == 0b101100 {
        fp_layout(iss)
    } else if ec == 0b101111 {
        serror_layout(iss)
    } else if ec == 0b110000 {
        breakpoint_vector_catch_layout(iss)
    } else if ec == 0b110001 {
        breakpoint_vector_catch_layout(iss)
    } else if ec == 0b110010 {
        software_step_layout(iss)
    } else if ec == 0b110011 {
        software_step_layout(iss)
    } else if ec == 0b110100 {
        watchpoint_layout(iss)
    } else if ec == 0b110101 {
        watchpoint_layout(iss)
    } else if ec == 0b111000 {
        breakpoint_layout(iss)
    } else if ec == 0b111100 {
        breakpoint_layout(iss)
    } else {
        Err(DecodeError::InvalidEc { ec })
    }
}

/// The description given to the ISS itself: the trapped instruction, for MSR and MRS.
pub open spec fn iss_text(ec: u64, iss: u64) -> Option<Seq<char>> {
    if ec == 0b011000 {
        Some(msr_text(iss))
    } else {
        None
    }
}

pub open spec fn il_text(il: bool) -> Seq<char> {
    if il {
        "32-bit instruction trapped"@
    } else {
        "16-bit instruction trapped"@
    }
}

fn describe_il(il: bool) -> (r: &'static str)
    ensures
        r@ == il_text(il),
{
    if il {
        "32-bit instruction trapped"
    } else {
        "16-bit instruction trapped"
    }
}

/// The top-level fields of an Exception Syndrome Register value, other than the ISS.
pub open spec fn esr_head(esr: u64) -> Seq<FieldSpec> {
    seq![
        res0(37, 64),
        plain("ISS2", None, 32, 37),
        described("EC", Some("Exception Class"), 26, 32, ec_class(extract(esr, 26, 32))->0),
        described("IL", Some("Instruction Length"), 25, 26, il_text(extract(esr, 25, 26) == 1)),
    ]
}

/// The ISS field of an Exception Syndrome Register value.
pub open spec fn iss_field(esr: u64) -> FieldSpec {
    FieldSpec {
        name: "ISS"@,
        long_name: Some("Instruction Specific Syndrome"@),
        start: 0,
        end: 25,
        description: iss_text(extract(esr, 26, 32), extract(esr, 0, 25)),
    }
}

/// The error that decoding `esr` fails with, if it fails.
pub open spec fn esr_error(esr: u64) -> Option<DecodeError> {
    let ec = extract(esr, 26, 32);
    if extract(esr, 37, 64) != 0 {
        Some(DecodeError::InvalidRes0 { res0: extract(esr, 37, 64) })
    } else if ec_class(ec) is None {
        Some(DecodeError::InvalidEc { ec })
    } else if iss_layout(ec, extract(esr, 0, 25)) is Err {
        Some(iss_layout(ec, extract(esr, 0, 25))->Err_0)
    } else {
        None
    }
}

/// `r` is what decoding the Exception Syndrome Register value `esr` gives: the reserved bits,
/// ISS2, the Exception Class with its meaning, the instruction length, and the ISS with the
/// subfields that the class defines; or the first error met on the way.
pub open spec fn esr_decoded(esr: u64, r: Result<Vec<FieldInfo>, DecodeError>) -> bool {
    match esr_error(esr) {
        Some(e) => r == Err::<Vec<FieldInfo>, DecodeError>(e),
        None => match r {
            Ok(fields) => {
                &&& fields@.len() == 5
                &&& forall|i: int| 0 <= i < 4 ==> is_leaf(
                    #[trigger] fields@[i],
                    esr,
                    esr_head(esr)[i],
                )
                &&& is_node(
                    fields@[4],
                    esr,
                    iss_field(esr),
                    iss_layout(extract(esr, 26, 32), extract(esr, 0, 25))->Ok_0,
                )
            },
            Err(_) => false,
        },
    }
}

/// Decodes the given Exception Syndrome Register value, or returns an error if it is not valid.
pub fn decode(esr: u64) -> (r: Result<Vec<FieldInfo>, DecodeError>)
    ensures
        esr_decoded(esr, r),
{
    let res0 = FieldInfo::get(esr, "RES0", Some("Reserved"), 37, 64).check_res0()?;
    let iss2 = FieldInfo::get(esr, "ISS2", None, 32, 37);
    let ec = FieldInfo::get(esr, "EC", Some("Exception Class"), 26, 32);
    let il = FieldInfo::get_bit(
        esr,
        "IL",
        Some("Instruction Length"),
        25,
    ).describe_bit(describe_il);
    let iss = FieldInfo::get(esr, "ISS", Some("Instruction Specific Syndrome"), 0, 25);
    let (class, iss_subfields, iss_description) = match ec.value {
        0b000000 => ("Unknown reason", decode_iss_res0(iss.value)?, None),
        0b000001 => ("Wrapped WF* instruction execution", decode_iss_wf(iss.value)?, None),
        0b000011 => (
            "Trapped MCR or MRC access with coproc=0b1111",
            decode_iss_mcr(iss.value)?,
            None,
        ),
        0b000100 => (
            "Trapped MCRR or MRRC access with coproc=0b1111",
            decode_iss_mcrr(iss.value)?,
            None,
        ),
        0b000101 => (
            "Trapped MCR or MRC access with coproc=0b1110",
            decode_iss_mcr(iss.value)?,
            None,
        ),
        0b000110 => ("Trapped LDC or STC access", decode_iss_ldc(iss.value)?, None),
        0b000111 => (
            "Trapped access to SVE, Advanced SIMD or floating point",
            decode_iss_sve(iss.value)?,
            None,
        ),
        0b001010 => (
            "Trapped execution of an LD64B, ST64B, ST64BV, or ST64BV0 instruction",
            decode_iss_ld64b(iss.value)?,
            None,
        ),
        0b001100 => (
            "Trapped MRRC access with (coproc==0b1110)",
            decode_iss_mcrr(iss.value)?,
            None,
        ),
        0b001101 => ("Branch Target Exception", decode_iss_bti(iss.value)?, None),
        0b001110 => ("Illegal Execution state", decode_iss_res0(iss.value)?, None),
        0b010001 => (
            "SVC instruction execution in AArch32 state",
            decode_iss_hvc(iss.value)?,
            None,
        ),
        0b010101 => (
            "SVC instruction execution in AArch64 state",
            decode_iss_hvc(iss.value)?,
            None,
        ),
        0b010110 => (
            "HVC instruction execution in AArch64 state",
            decode_iss_hvc(iss.value)?,
            None,
        ),
        0b010111 => (
            "SMC instruction execution in AArch64 state",
            decode_iss_hvc(iss.value)?,
            None,
        ),
        0b011000 => {
            let (subfields, description) = decode_iss_msr(iss.value)?;
            (
                "Trapped MSR, MRS or System instruction execution in AArch64 state",
                subfields,
                description,
            )
        },
        0b011001 => (
            "Access to SVE functionality trapped as a result of CPACR_EL1.ZEN, CPTR_EL2.ZEN, CPTR_EL2.TZ, or CPTR_EL3.EZ",
            decode_iss_res0(iss.value)?,
            None,
        ),
        0b011100 => (
            "Exception from a Pointer Authentication instruction authentication failure",
            decode_iss_pauth(iss.value)?,
            None,
        ),
        0b100000 => (
            "Instruction Abort from a lower Exception level",
            decode_iss_instruction_abort(iss.value)?,
            None,
        ),
        0b100001 => (
            "Instruction Abort taken without a change in Exception level",
            decode_iss_instruction_abort(iss.value)?,
            None,
        ),
        0b100010 => ("PC alignment fault exception", decode_iss_res0(iss.value)?, None),
        0b100100 => (
            "Data Abort from a lower Exception level",
            decode_iss_data_abort(iss.value)?,
            None,
        ),
        0b100101 => (
            "Data Abort taken without a change in Exception level",
            decode_iss_data_abort(iss.value)?,
            None,
        ),
        0b100110 => ("SP alignment fault exception", decode_iss_res0(iss.value)?, None),
        0b101000 => (
            "Trapped floating-point exception taken from AArch32 state",
            decode_iss_fp(iss.value)?,
            None,
        ),
        0b101100 => (
            "Trapped floating-point exception taken from AArch64 state",
            decode_iss_fp(iss.value)?,
            None,
        ),
        0b101111 => ("SError interrupt", decode_iss_serror(iss.value)?, None),
        0b110000 => (
            "Breakpoint exception from a lower Exception level",
            decode_iss_breakpoint_vector_catch(iss.value)?,
            None,
        ),
        0b110001 => (
            "Breakpoint exception taken without a change in Exception level",
            decode_iss_breakpoint_vector_catch(iss.value)?,
            None,
        ),
        0b110010 => (
            "Software Step exception from a lower Exception level",
            decode_iss_software_step(iss.value)?,
            None,
        ),
        0b110011 => (
            "Software Step exception taken without a change in Exception level",
            decode_iss_software_step(iss.value)?,
            None,
        ),
        0b110100 => (
            "Watchpoint exception from a lower Exception level",
            decode_iss_watchpoint(iss.value)?,
            None,
        ),
        0b110101 => (
            "Watchpoint exception taken without a change in Exception level",
            decode_iss_watchpoint(iss.value)?,
            None,
        ),
        0b111000 => (
            "BKPT instruction execution in AArch32 state",
            decode_iss_breakpoint(iss.value)?,
            None,
        ),
        0b111100 => (
            "BRK instruction execution in AArch64 state",
            decode_iss_breakpoint(iss.value)?,
            None,
        ),
        _ => return Err(DecodeError::InvalidEc { ec: ec.value }),
    };
    let iss = FieldInfo { description: iss_description, subfields: iss_subfields, ..iss };
    let ec = ec.with_text(class);
    Ok(vec![res0, iss2, ec, il, iss])
}

} // verus!
