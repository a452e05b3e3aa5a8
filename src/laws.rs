//! Facts that hold of every decode, proved from the decoders' contracts.
use crate::esr::{ec_class, esr_decoded, esr_head, iss_layout, res0_iss_layout};
use crate::esr::abort::{data_abort_layout, instruction_abort_layout};
use crate::esr::breakpoint::{
    breakpoint_layout, breakpoint_vector_catch_layout, software_step_layout, watchpoint_layout,
};
use crate::esr::bti::bti_layout;
use crate::esr::fp::fp_layout;
use crate::esr::hvc::hvc_layout;
use crate::esr::ld64b::ld64b_layout;
use crate::esr::ldc::ldc_layout;
use crate::esr::mcr::{mcr_layout, mcrr_layout};
use crate::esr::msr::msr_fields;
use crate::esr::pauth::pauth_layout;
use crate::esr::serror::serror_layout;
use crate::esr::sve::sve_layout;
use crate::esr::wf::wf_layout;
use crate::field::{
    decoded_as, extract, is_leaf, leaves, opt_str, opt_string, DecodeError, FieldInfo, FieldSpec,
};
use crate::midr::midr_layout;
use crate::smccc::smccc_fields;
use vstd::prelude::*;

verus! {

/// `a` and `b` show the same thing: names, bits, value and description, and neither has
/// subfields.
pub open spec fn same_leaf(a: FieldInfo, b: FieldInfo) -> bool {
    &&& a.name@ == b.name@
    &&& opt_str(a.long_name) == opt_str(b.long_name)
    &&& a.start == b.start
    &&& a.width == b.width
    &&& a.value == b.value
    &&& opt_string(a.description) == opt_string(b.description)
    &&& a.subfields@.len() == 0
    &&& b.subfields@.len() == 0
}

/// `a` and `b` show the same thing, and so do their subfields, one by one.
pub open spec fn same_field(a: FieldInfo, b: FieldInfo) -> bool {
    &&& a.name@ == b.name@
    &&& opt_str(a.long_name) == opt_str(b.long_name)
    &&& a.start == b.start
    &&& a.width == b.width
    &&& a.value == b.value
    &&& opt_string(a.description) == opt_string(b.description)
    &&& a.subfields@.len() == b.subfields@.len()
    &&& forall|j: int|
        0 <= j < a.subfields@.len() ==> same_leaf(#[trigger] a.subfields@[j], b.subfields@[j])
}

/// `a` and `b` are the same error, or fields that show the same thing one by one.
pub open spec fn same_outcome(
    a: Result<Vec<FieldInfo>, DecodeError>,
    b: Result<Vec<FieldInfo>, DecodeError>,
) -> bool {
    match (a, b) {
        (Ok(x), Ok(y)) => {
            &&& x@.len() == y@.len()
            &&& forall|i: int| 0 <= i < x@.len() ==> same_field(#[trigger] x@[i], y@[i])
        },
        (Err(e), Err(f)) => e == f,
        _ => false,
    }
}

/// `f` holds the bits of `register` that its start and width name.
pub open spec fn holds_bits(f: FieldInfo, register: u64) -> bool {
    f.value == extract(register, f.start as nat, (f.start + f.width) as nat)
}

/// `f` holds its bits of `register`, and each of its subfields holds its bits of `f`'s value and
/// has no subfields of its own.
pub open spec fn tree_holds_bits(f: FieldInfo, register: u64) -> bool {
    &&& holds_bits(f, register)
    &&& forall|j: int|
        0 <= j < f.subfields@.len() ==> holds_bits(#[trigger] f.subfields@[j], f.value)
            && f.subfields@[j].subfields@.len() == 0
}

/// Decoding an Exception Syndrome Register value is deterministic: any two results of decoding
/// the same value show the same fields, or fail with the same error.
pub proof fn decode_is_deterministic(
    esr: u64,
    a: Result<Vec<FieldInfo>, DecodeError>,
    b: Result<Vec<FieldInfo>, DecodeError>,
)
    requires
        esr_decoded(esr, a),
        esr_decoded(esr, b),
    ensures
        same_outcome(a, b),
{
    if let (Ok(x), Ok(y)) = (a, b) {
        assert forall|i: int| 0 <= i < x@.len() implies same_field(#[trigger] x@[i], y@[i]) by {
            if i < 4 {
            } else {
                assert forall|j: int| 0 <= j < x@[i].subfields@.len() implies same_leaf(
                    #[trigger] x@[i].subfields@[j],
                    y@[i].subfields@[j],
                ) by {}
            }
        }
    }
}

/// Decoding a Main ID Register value is deterministic.
pub proof fn decode_midr_is_deterministic(
    midr: u64,
    a: Result<Vec<FieldInfo>, DecodeError>,
    b: Result<Vec<FieldInfo>, DecodeError>,
)
    requires
        decoded_as(a, midr, midr_layout(midr)),
        decoded_as(b, midr, midr_layout(midr)),
    ensures
        same_outcome(a, b),
{
    if let (Ok(x), Ok(y)) = (a, b) {
        assert forall|i: int| 0 <= i < x@.len() implies same_field(#[trigger] x@[i], y@[i]) by {}
    }
}

/// Decoding an SMCCC function identifier is deterministic.
pub proof fn decode_smccc_is_deterministic(
    smccc: u64,
    a: Result<Vec<FieldInfo>, DecodeError>,
    b: Result<Vec<FieldInfo>, DecodeError>,
)
    requires
        a matches Ok(x) && leaves(x@, smccc, smccc_fields(smccc)),
        b matches Ok(y) && leaves(y@, smccc, smccc_fields(smccc)),
    ensures
        same_outcome(a, b),
{
    if let (Ok(x), Ok(y)) = (a, b) {
        assert forall|i: int| 0 <= i < x@.len() implies same_field(#[trigger] x@[i], y@[i]) by {}
    }
}

/// Decoding an SMCCC function identifier looks only at its low 32 bits: two values that agree
/// there decode alike.
pub proof fn smccc_ignores_upper_bits(
    a: u64,
    b: u64,
    ra: Result<Vec<FieldInfo>, DecodeError>,
    rb: Result<Vec<FieldInfo>, DecodeError>,
)
    requires
        a & 0xffff_ffff == b & 0xffff_ffff,
        ra matches Ok(x) && leaves(x@, a, smccc_fields(a)),
        rb matches Ok(y) && leaves(y@, b, smccc_fields(b)),
    ensures
        same_outcome(ra, rb),
{
    assert((a >> 31u64) & (u64::MAX >> 63u64) == (b >> 31u64) & (u64::MAX >> 63u64)) by (bit_vector)
        requires
            a & 0xffff_ffff == b & 0xffff_ffff,
    ;
    assert((a >> 30u64) & (u64::MAX >> 63u64) == (b >> 30u64) & (u64::MAX >> 63u64)) by (bit_vector)
        requires
            a & 0xffff_ffff == b & 0xffff_ffff,
    ;
    assert((a >> 24u64) & (u64::MAX >> 58u64) == (b >> 24u64) & (u64::MAX >> 58u64)) by (bit_vector)
        requires
            a & 0xffff_ffff == b & 0xffff_ffff,
    ;
    assert((a >> 17u64) & (u64::MAX >> 57u64) == (b >> 17u64) & (u64::MAX >> 57u64)) by (bit_vector)
        requires
            a & 0xffff_ffff == b & 0xffff_ffff,
    ;
    assert((a >> 16u64) & (u64::MAX >> 63u64) == (b >> 16u64) & (u64::MAX >> 63u64)) by (bit_vector)
        requires
            a & 0xffff_ffff == b & 0xffff_ffff,
    ;
    assert((a >> 0u64) & (u64::MAX >> 48u64) == (b >> 0u64) & (u64::MAX >> 48u64)) by (bit_vector)
        requires
            a & 0xffff_ffff == b & 0xffff_ffff,
    ;
    assert((a >> 0u64) & (u64::MAX >> 33u64) == (b >> 0u64) & (u64::MAX >> 33u64)) by (bit_vector)
        requires
            a & 0xffff_ffff == b & 0xffff_ffff,
    ;
    assert(smccc_fields(a) == smccc_fields(b));
    if let (Ok(x), Ok(y)) = (ra, rb) {
        assert forall|i: int| 0 <= i < x@.len() implies same_field(#[trigger] x@[i], y@[i]) by {}
    }
}

/// An Exception Syndrome Register value whose reserved bits [37, 64) are not all zero does not
/// decode: it fails with `InvalidRes0` carrying those bits.
pub proof fn esr_reserved_bits_rejected(esr: u64, r: Result<Vec<FieldInfo>, DecodeError>)
    requires
        esr_decoded(esr, r),
        extract(esr, 37, 64) != 0,
    ensures
        r == Err::<Vec<FieldInfo>, DecodeError>(
            DecodeError::InvalidRes0 { res0: extract(esr, 37, 64) },
        ),
{
}

/// A Main ID Register value whose reserved bits [32, 64) are not all zero does not decode: it
/// fails with `InvalidRes0` carrying those bits.
pub proof fn midr_reserved_bits_rejected(midr: u64, r: Result<Vec<FieldInfo>, DecodeError>)
    requires
        decoded_as(r, midr, midr_layout(midr)),
        extract(midr, 32, 64) != 0,
    ensures
        r == Err::<Vec<FieldInfo>, DecodeError>(
            DecodeError::InvalidRes0 { res0: extract(midr, 32, 64) },
        ),
{
}

/// Every Exception Class value is below 64 and is handled: where decoding succeeds the class has
/// a meaning and the EC field carries it; a class without one fails with `InvalidEc` carrying
/// the class, once the reserved bits have passed; and `InvalidEc` names only such a class.
pub proof fn exception_classes_covered(esr: u64, r: Result<Vec<FieldInfo>, DecodeError>)
    requires
        esr_decoded(esr, r),
    ensures
        extract(esr, 26, 32) < 64,
        r matches Ok(fields) ==> {
            &&& ec_class(extract(esr, 26, 32)) is Some
            &&& fields@[2].value == extract(esr, 26, 32)
            &&& opt_string(fields@[2].description) == ec_class(extract(esr, 26, 32))
        },
        extract(esr, 37, 64) == 0 && ec_class(extract(esr, 26, 32)) is None ==> r == Err::<
            Vec<FieldInfo>,
            DecodeError,
        >(DecodeError::InvalidEc { ec: extract(esr, 26, 32) }),
        r matches Err(DecodeError::InvalidEc { ec }) ==> ec == extract(esr, 26, 32) && ec_class(
            ec,
        ) is None,
{
    assert((esr >> 26u64) & (u64::MAX >> 58u64) < 64) by (bit_vector);
    if let Ok(fields) = r {
        assert(fields@[2] == fields@[2]);
    }
}

/// Every field of a decoded Exception Syndrome Register value holds the bits of the register
/// that its start and width name, and every subfield those of its parent field's value.
pub proof fn esr_fields_hold_their_bits(esr: u64, r: Result<Vec<FieldInfo>, DecodeError>)
    requires
        esr_decoded(esr, r),
    ensures
        r matches Ok(fields) ==> forall|i: int|
            0 <= i < fields@.len() ==> tree_holds_bits(#[trigger] fields@[i], esr),
{
    if let Ok(fields) = r {
        assert forall|i: int| 0 <= i < fields@.len() implies tree_holds_bits(
            #[trigger] fields@[i],
            esr,
        ) by {
            if i == 4 {
                let f = fields@[4];
                assert forall|j: int| 0 <= j < f.subfields@.len() implies holds_bits(
                    #[trigger] f.subfields@[j],
                    f.value,
                ) && f.subfields@[j].subfields@.len() == 0 by {}
            }
        }
    }
}

/// Every field of a decoded Main ID Register value holds the bits that its start and width name.
pub proof fn midr_fields_hold_their_bits(midr: u64, r: Result<Vec<FieldInfo>, DecodeError>)
    requires
        decoded_as(r, midr, midr_layout(midr)),
    ensures
        r matches Ok(fields) ==> forall|i: int|
            0 <= i < fields@.len() ==> tree_holds_bits(#[trigger] fields@[i], midr),
{
}

/// Every field of a decoded SMCCC function identifier holds the bits that its start and width
/// name.
pub proof fn smccc_fields_hold_their_bits(smccc: u64, r: Result<Vec<FieldInfo>, DecodeError>)
    requires
        r matches Ok(x) && leaves(x@, smccc, smccc_fields(smccc)),
    ensures
        r matches Ok(fields) ==> forall|i: int|
            0 <= i < fields@.len() ==> tree_holds_bits(#[trigger] fields@[i], smccc),
{
}

/// Each entry of `specs` named RES0 names bits of `iss` that are zero.
pub open spec fn reserved_entries_zero(specs: Seq<FieldSpec>, iss: u64) -> bool {
    forall|j: int|
        0 <= j < specs.len() && (#[trigger] specs[j]).name[0] == 'R' && specs[j].name[1] == 'E'
            ==> extract(iss, specs[j].start, specs[j].end) == 0
}

proof fn breakpoint_layout_reserved_zero(iss: u64)
    requires
        breakpoint_layout(iss) is Ok,
    ensures
        reserved_entries_zero(breakpoint_layout(iss)->Ok_0, iss),
{
    let specs = breakpoint_layout(iss)->Ok_0;
    assert forall|j: int|
        0 <= j < specs.len() && (#[trigger] specs[j]).name[0] == 'R' && specs[j].name[1] == 'E'
        implies extract(iss, specs[j].start, specs[j].end) == 0 by {
        reveal_strlit("Comment");
        reveal_strlit("RES0");
        if j == 0 {
        } else if j == 1 {
        }
    }
}

proof fn breakpoint_vector_catch_layout_reserved_zero(iss: u64)
    requires
        breakpoint_vector_catch_layout(iss) is Ok,
    ensures
        reserved_entries_zero(breakpoint_vector_catch_layout(iss)->Ok_0, iss),
{
    let specs = breakpoint_vector_catch_layout(iss)->Ok_0;
    assert forall|j: int|
        0 <= j < specs.len() && (#[trigger] specs[j]).name[0] == 'R' && specs[j].name[1] == 'E'
        implies extract(iss, specs[j].start, specs[j].end) == 0 by {
        reveal_strlit("IFSC");
        reveal_strlit("RES0");
        if j == 0 {
        } else if j == 1 {
        }
    }
}

proof fn bti_layout_reserved_zero(iss: u64)
    requires
        bti_layout(iss) is Ok,
    ensures
        reserved_entries_zero(bti_layout(iss)->Ok_0, iss),
{
    let specs = bti_layout(iss)->Ok_0;
    assert forall|j: int|
        0 <= j < specs.len() && (#[trigger] specs[j]).name[0] == 'R' && specs[j].name[1] == 'E'
        implies extract(iss, specs[j].start, specs[j].end) == 0 by {
        reveal_strlit("BTYPE");
        reveal_strlit("RES0");
        if j == 0 {
        } else if j == 1 {
        }
    }
}

proof fn data_abort_layout_reserved_zero(iss: u64)
    requires
        data_abort_layout(iss) is Ok,
    ensures
        reserved_entries_zero(data_abort_layout(iss)->Ok_0, iss),
{
    let specs = data_abort_layout(iss)->Ok_0;
    assert forall|j: int|
        0 <= j < specs.len() && (#[trigger] specs[j]).name[0] == 'R' && specs[j].name[1] == 'E'
        implies extract(iss, specs[j].start, specs[j].end) == 0 by {
        reveal_strlit("AR");
        reveal_strlit("CM");
        reveal_strlit("DFSC");
        reveal_strlit("EA");
        reveal_strlit("FnV");
        reveal_strlit("ISV");
        reveal_strlit("RES0");
        reveal_strlit("S1PTW");
        reveal_strlit("SAS");
        reveal_strlit("SET");
        reveal_strlit("SF");
        reveal_strlit("SRT");
        reveal_strlit("SSE");
        reveal_strlit("VNCR");
        reveal_strlit("WnR");
        if j == 0 {
        } else if j == 1 {
        } else if j == 2 {
        } else if j == 3 {
        } else if j == 4 {
        } else if j == 5 {
        } else if j == 6 {
        } else if j == 7 {
        } else if j == 8 {
        } else if j == 9 {
        } else if j == 10 {
        } else if j == 11 {
        } else if j == 12 {
        } else if j == 13 {
        } else if j == 14 {
        }
    }
}

proof fn fp_layout_reserved_zero(iss: u64)
    requires
        fp_layout(iss) is Ok,
    ensures
        reserved_entries_zero(fp_layout(iss)->Ok_0, iss),
{
    let specs = fp_layout(iss)->Ok_0;
    assert forall|j: int|
        0 <= j < specs.len() && (#[trigger] specs[j]).name[0] == 'R' && specs[j].name[1] == 'E'
        implies extract(iss, specs[j].start, specs[j].end) == 0 by {
        reveal_strlit("DZF");
        reveal_strlit("IDF");
        reveal_strlit("IOF");
        reveal_strlit("IXF");
        reveal_strlit("OFF");
        reveal_strlit("RES0");
        reveal_strlit("TFV");
        reveal_strlit("UFF");
        reveal_strlit("VECITR");
        if j == 0 {
        } else if j == 1 {
        } else if j == 2 {
        } else if j == 3 {
        } else if j == 4 {
        } else if j == 5 {
        } else if j == 6 {
        } else if j == 7 {
        } else if j == 8 {
        } else if j == 9 {
        } else if j == 10 {
        }
    }
}

proof fn hvc_layout_reserved_zero(iss: u64)
    requires
        hvc_layout(iss) is Ok,
    ensures
        reserved_entries_zero(hvc_layout(iss)->Ok_0, iss),
{
    let specs = hvc_layout(iss)->Ok_0;
    assert forall|j: int|
        0 <= j < specs.len() && (#[trigger] specs[j]).name[0] == 'R' && specs[j].name[1] == 'E'
        implies extract(iss, specs[j].start, specs[j].end) == 0 by {
        reveal_strlit("RES0");
        reveal_strlit("imm16");
        if j == 0 {
        } else if j == 1 {
        }
    }
}

proof fn instruction_abort_layout_reserved_zero(iss: u64)
    requires
        instruction_abort_layout(iss) is Ok,
    ensures
        reserved_entries_zero(instruction_abort_layout(iss)->Ok_0, iss),
{
    let specs = instruction_abort_layout(iss)->Ok_0;
    assert forall|j: int|
        0 <= j < specs.len() && (#[trigger] specs[j]).name[0] == 'R' && specs[j].name[1] == 'E'
        implies extract(iss, specs[j].start, specs[j].end) == 0 by {
        reveal_strlit("AR");
        reveal_strlit("EA");
        reveal_strlit("FnV");
        reveal_strlit("IFSC");
        reveal_strlit("RES0");
        reveal_strlit("S1PTW");
        reveal_strlit("SAS");
        reveal_strlit("SET");
        reveal_strlit("SF");
        reveal_strlit("SRT");
        reveal_strlit("SSE");
        if j == 0 {
        } else if j == 1 {
        } else if j == 2 {
        } else if j == 3 {
        } else if j == 4 {
        } else if j == 5 {
        } else if j == 6 {
        } else if j == 7 {
        }
    }
}

proof fn ld64b_layout_reserved_zero(iss: u64)
    requires
        ld64b_layout(iss) is Ok,
    ensures
        reserved_entries_zero(ld64b_layout(iss)->Ok_0, iss),
{
    let specs = ld64b_layout(iss)->Ok_0;
    assert forall|j: int|
        0 <= j < specs.len() && (#[trigger] specs[j]).name[0] == 'R' && specs[j].name[1] == 'E'
        implies extract(iss, specs[j].start, specs[j].end) == 0 by {
        reveal_strlit("ISS");
        reveal_strlit("RES0");
        if j == 0 {
        }
    }
}

proof fn ldc_layout_reserved_zero(iss: u64)
    requires
        ldc_layout(iss) is Ok,
    ensures
        reserved_entries_zero(ldc_layout(iss)->Ok_0, iss),
{
    let specs = ldc_layout(iss)->Ok_0;
    assert forall|j: int|
        0 <= j < specs.len() && (#[trigger] specs[j]).name[0] == 'R' && specs[j].name[1] == 'E'
        implies extract(iss, specs[j].start, specs[j].end) == 0 by {
        reveal_strlit("AM");
        reveal_strlit("COND");
        reveal_strlit("CV");
        reveal_strlit("Direction");
        reveal_strlit("Offset");
        reveal_strlit("RES0");
        reveal_strlit("Rn");
        reveal_strlit("imm8");
        if j == 0 {
        } else if j == 1 {
        } else if j == 2 {
        } else if j == 3 {
        } else if j == 4 {
        } else if j == 5 {
        } else if j == 6 {
        } else if j == 7 {
        }
    }
}

proof fn mcr_layout_reserved_zero(iss: u64)
    requires
        mcr_layout(iss) is Ok,
    ensures
        reserved_entries_zero(mcr_layout(iss)->Ok_0, iss),
{
    let specs = mcr_layout(iss)->Ok_0;
    assert forall|j: int|
        0 <= j < specs.len() && (#[trigger] specs[j]).name[0] == 'R' && specs[j].name[1] == 'E'
        implies extract(iss, specs[j].start, specs[j].end) == 0 by {
        reveal_strlit("COND");
        reveal_strlit("CRm");
        reveal_strlit("CRn");
        reveal_strlit("CV");
        reveal_strlit("Direction");
        reveal_strlit("Opc1");
        reveal_strlit("Opc2");
        reveal_strlit("RES0");
        reveal_strlit("Rt");
        if j == 0 {
        } else if j == 1 {
        } else if j == 2 {
        } else if j == 3 {
        } else if j == 4 {
        } else if j == 5 {
        } else if j == 6 {
        } else if j == 7 {
        }
    }
}

proof fn mcrr_layout_reserved_zero(iss: u64)
    requires
        mcrr_layout(iss) is Ok,
    ensures
        reserved_entries_zero(mcrr_layout(iss)->Ok_0, iss),
{
    let specs = mcrr_layout(iss)->Ok_0;
    assert forall|j: int|
        0 <= j < specs.len() && (#[trigger] specs[j]).name[0] == 'R' && specs[j].name[1] == 'E'
        implies extract(iss, specs[j].start, specs[j].end) == 0 by {
        reveal_strlit("COND");
        reveal_strlit("CRm");
        reveal_strlit("CV");
        reveal_strlit("Direction");
        reveal_strlit("Opc2");
        reveal_strlit("RES0");
        reveal_strlit("Rt");
        reveal_strlit("Rt2");
        if j == 0 {
        } else if j == 1 {
        } else if j == 2 {
        } else if j == 3 {
        } else if j == 4 {
        } else if j == 5 {
        } else if j == 6 {
        } else if j == 7 {
        }
    }
}

proof fn pauth_layout_reserved_zero(iss: u64)
    requires
        pauth_layout(iss) is Ok,
    ensures
        reserved_entries_zero(pauth_layout(iss)->Ok_0, iss),
{
    let specs = pauth_layout(iss)->Ok_0;
    assert forall|j: int|
        0 <= j < specs.len() && (#[trigger] specs[j]).name[0] == 'R' && specs[j].name[1] == 'E'
        implies extract(iss, specs[j].start, specs[j].end) == 0 by {
        reveal_strlit("AorB");
        reveal_strlit("IorD");
        reveal_strlit("RES0");
        if j == 0 {
        } else if j == 1 {
        } else if j == 2 {
        }
    }
}

proof fn res0_iss_layout_reserved_zero(iss: u64)
    requires
        res0_iss_layout(iss) is Ok,
    ensures
        reserved_entries_zero(res0_iss_layout(iss)->Ok_0, iss),
{
    let specs = res0_iss_layout(iss)->Ok_0;
    assert forall|j: int|
        0 <= j < specs.len() && (#[trigger] specs[j]).name[0] == 'R' && specs[j].name[1] == 'E'
        implies extract(iss, specs[j].start, specs[j].end) == 0 by {
        reveal_strlit("RES0");
        if j == 0 {
        }
    }
}

proof fn serror_layout_reserved_zero(iss: u64)
    requires
        serror_layout(iss) is Ok,
    ensures
        reserved_entries_zero(serror_layout(iss)->Ok_0, iss),
{
    let specs = serror_layout(iss)->Ok_0;
    assert forall|j: int|
        0 <= j < specs.len() && (#[trigger] specs[j]).name[0] == 'R' && specs[j].name[1] == 'E'
        implies extract(iss, specs[j].start, specs[j].end) == 0 by {
        reveal_strlit("AET");
        reveal_strlit("DFSC");
        reveal_strlit("EA");
        reveal_strlit("IDS");
        reveal_strlit("IESB");
        reveal_strlit("IMPDEF");
        reveal_strlit("RES0");
        if extract(iss, 24, 25) == 1 {
            if j == 0 {
            } else if j == 1 {
            } else if j == 2 {
            } else if j == 3 {
            } else if j == 4 {
            } else if j == 5 {
            } else if j == 6 {
            } else if j == 7 {
            }
        } else if extract(iss, 0, 6) == 0b010001 {
            if j == 0 {
            } else if j == 1 {
            } else if j == 2 {
            } else if j == 3 {
            } else if j == 4 {
            } else if j == 5 {
            } else if j == 6 {
            } else if j == 7 {
            }
        } else {
            if j == 0 {
            } else if j == 1 {
            } else if j == 2 {
            } else if j == 3 {
            } else if j == 4 {
            } else if j == 5 {
            } else if j == 6 {
            } else if j == 7 {
            }
        }
    }
}

proof fn software_step_layout_reserved_zero(iss: u64)
    requires
        software_step_layout(iss) is Ok,
    ensures
        reserved_entries_zero(software_step_layout(iss)->Ok_0, iss),
{
    let specs = software_step_layout(iss)->Ok_0;
    assert forall|j: int|
        0 <= j < specs.len() && (#[trigger] specs[j]).name[0] == 'R' && specs[j].name[1] == 'E'
        implies extract(iss, specs[j].start, specs[j].end) == 0 by {
        reveal_strlit("EX");
        reveal_strlit("IFSC");
        reveal_strlit("ISV");
        reveal_strlit("RES0");
        if j == 0 {
        } else if j == 1 {
        } else if j == 2 {
        } else if j == 3 {
        } else if j == 4 {
        }
    }
}

proof fn sve_layout_reserved_zero(iss: u64)
    requires
        sve_layout(iss) is Ok,
    ensures
        reserved_entries_zero(sve_layout(iss)->Ok_0, iss),
{
    let specs = sve_layout(iss)->Ok_0;
    assert forall|j: int|
        0 <= j < specs.len() && (#[trigger] specs[j]).name[0] == 'R' && specs[j].name[1] == 'E'
        implies extract(iss, specs[j].start, specs[j].end) == 0 by {
        reveal_strlit("COND");
        reveal_strlit("CV");
        reveal_strlit("RES0");
        if j == 0 {
        } else if j == 1 {
        } else if j == 2 {
        }
    }
}

proof fn watchpoint_layout_reserved_zero(iss: u64)
    requires
        watchpoint_layout(iss) is Ok,
    ensures
        reserved_entries_zero(watchpoint_layout(iss)->Ok_0, iss),
{
    let specs = watchpoint_layout(iss)->Ok_0;
    assert forall|j: int|
        0 <= j < specs.len() && (#[trigger] specs[j]).name[0] == 'R' && specs[j].name[1] == 'E'
        implies extract(iss, specs[j].start, specs[j].end) == 0 by {
        reveal_strlit("CM");
        reveal_strlit("DFSC");
        reveal_strlit("RES0");
        reveal_strlit("VNCR");
        reveal_strlit("WnR");
        if j == 0 {
        } else if j == 1 {
        } else if j == 2 {
        } else if j == 3 {
        } else if j == 4 {
        } else if j == 5 {
        } else if j == 6 {
        } else if j == 7 {
        }
    }
}

proof fn wf_layout_reserved_zero(iss: u64)
    requires
        wf_layout(iss) is Ok,
    ensures
        reserved_entries_zero(wf_layout(iss)->Ok_0, iss),
{
    let specs = wf_layout(iss)->Ok_0;
    assert forall|j: int|
        0 <= j < specs.len() && (#[trigger] specs[j]).name[0] == 'R' && specs[j].name[1] == 'E'
        implies extract(iss, specs[j].start, specs[j].end) == 0 by {
        reveal_strlit("COND");
        reveal_strlit("CV");
        reveal_strlit("RES0");
        reveal_strlit("RN");
        reveal_strlit("RV");
        reveal_strlit("TI");
        if j == 0 {
        } else if j == 1 {
        } else if j == 2 {
        } else if j == 3 {
        } else if j == 4 {
        } else if j == 5 {
        } else if j == 6 {
        }
    }
}

proof fn msr_reserved_zero(iss: u64)
    requires
        extract(iss, 22, 25) == 0,
    ensures
        reserved_entries_zero(msr_fields(iss), iss),
{
    let specs = msr_fields(iss);
    assert forall|j: int|
        0 <= j < specs.len() && (#[trigger] specs[j]).name[0] == 'R' && specs[j].name[1] == 'E'
        implies extract(iss, specs[j].start, specs[j].end) == 0 by {
        reveal_strlit("CRm");
        reveal_strlit("CRn");
        reveal_strlit("Direction");
        reveal_strlit("Op0");
        reveal_strlit("Op1");
        reveal_strlit("Op2");
        reveal_strlit("RES0");
        reveal_strlit("Rt");
        if j == 0 {
        } else if j == 1 {
        } else if j == 2 {
        } else if j == 3 {
        } else if j == 4 {
        } else if j == 5 {
        } else if j == 6 {
        } else if j == 7 {
        }
    }
}

proof fn layout_reserved_entries_zero(ec: u64, iss: u64)
    requires
        iss_layout(ec, iss) is Ok,
    ensures
        reserved_entries_zero(iss_layout(ec, iss)->Ok_0, iss),
{
    if ec == 0b000000 {
        res0_iss_layout_reserved_zero(iss);
    } else if ec == 0b000001 {
        wf_layout_reserved_zero(iss);
    } else if ec == 0b000011 {
        mcr_layout_reserved_zero(iss);
    } else if ec == 0b000100 {
        mcrr_layout_reserved_zero(iss);
    } else if ec == 0b000101 {
        mcr_layout_reserved_zero(iss);
    } else if ec == 0b000110 {
        ldc_layout_reserved_zero(iss);
    } else if ec == 0b000111 {
        sve_layout_reserved_zero(iss);
    } else if ec == 0b001010 {
        ld64b_layout_reserved_zero(iss);
    } else if ec == 0b001100 {
        mcrr_layout_reserved_zero(iss);
    } else if ec == 0b001101 {
        bti_layout_reserved_zero(iss);
    } else if ec == 0b001110 {
        res0_iss_layout_reserved_zero(iss);
    } else if ec == 0b010001 {
        hvc_layout_reserved_zero(iss);
    } else if ec == 0b010101 {
        hvc_layout_reserved_zero(iss);
    } else if ec == 0b010110 {
        hvc_layout_reserved_zero(iss);
    } else if ec == 0b010111 {
        hvc_layout_reserved_zero(iss);
    } else if ec == 0b011000 {
        msr_reserved_zero(iss);
    } else if ec == 0b011001 {
        res0_iss_layout_reserved_zero(iss);
    } else if ec == 0b011100 {
        pauth_layout_reserved_zero(iss);
    } else if ec == 0b100000 {
        instruction_abort_layout_reserved_zero(iss);
    } else if ec == 0b100001 {
        instruction_abort_layout_reserved_zero(iss);
    } else if ec == 0b100010 {
        res0_iss_layout_reserved_zero(iss);
    } else if ec == 0b100100 {
        data_abort_layout_reserved_zero(iss);
    } else if ec == 0b100101 {
        data_abort_layout_reserved_zero(iss);
    } else if ec == 0b100110 {
        res0_iss_layout_reserved_zero(iss);
    } else if ec == 0b101000 {
        fp_layout_reserved_zero(iss);
    } else if ec == 0b101100 {
        fp_layout_reserved_zero(iss);
    } else if ec == 0b101111 {
        serror_layout_reserved_zero(iss);
    } else if ec == 0b110000 {
        breakpoint_vector_catch_layout_reserved_zero(iss);
    } else if ec == 0b110001 {
        breakpoint_vector_catch_layout_reserved_zero(iss);
    } else if ec == 0b110010 {
        software_step_layout_reserved_zero(iss);
    } else if ec == 0b110011 {
        software_step_layout_reserved_zero(iss);
    } else if ec == 0b110100 {
        watchpoint_layout_reserved_zero(iss);
    } else if ec == 0b110101 {
        watchpoint_layout_reserved_zero(iss);
    } else if ec == 0b111000 {
        breakpoint_layout_reserved_zero(iss);
    } else if ec == 0b111100 {
        breakpoint_layout_reserved_zero(iss);
    }
}

/// Consecutive entries of `specs` go from high bits to low: each ends at or below the start of
/// the one before it, and the first ends at or below bit `top`. Each entry is at least one bit.
pub open spec fn descending(specs: Seq<FieldSpec>, top: nat) -> bool {
    &&& forall|k: int| 0 <= k < specs.len() ==> (#[trigger] specs[k]).start < specs[k].end
    &&& forall|k: int|
        0 <= k && k + 1 < specs.len() ==> (#[trigger] specs[k + 1]).end <= specs[k].start
    &&& specs.len() > 0 ==> specs[0].end <= top
}

proof fn breakpoint_layout_descends(iss: u64)
    requires
        breakpoint_layout(iss) is Ok,
    ensures
        descending(breakpoint_layout(iss)->Ok_0, 25),
{
    let specs = breakpoint_layout(iss)->Ok_0;
    assert forall|k: int| 0 <= k < specs.len() implies (#[trigger] specs[k]).start < specs[k].end
        by {
        if k == 0 {
        } else if k == 1 {
        }
    }
    assert forall|k: int| 0 <= k && k + 1 < specs.len() implies (#[trigger] specs[k + 1]).end
        <= specs[k].start by {
        if k == 0 {
        } else if k == 1 {
        }
    }
}

proof fn breakpoint_vector_catch_layout_descends(iss: u64)
    requires
        breakpoint_vector_catch_layout(iss) is Ok,
    ensures
        descending(breakpoint_vector_catch_layout(iss)->Ok_0, 25),
{
    let specs = breakpoint_vector_catch_layout(iss)->Ok_0;
    assert forall|k: int| 0 <= k < specs.len() implies (#[trigger] specs[k]).start < specs[k].end
        by {
        if k == 0 {
        } else if k == 1 {
        }
    }
    assert forall|k: int| 0 <= k && k + 1 < specs.len() implies (#[trigger] specs[k + 1]).end
        <= specs[k].start by {
        if k == 0 {
        } else if k == 1 {
        }
    }
}

proof fn bti_layout_descends(iss: u64)
    requires
        bti_layout(iss) is Ok,
    ensures
        descending(bti_layout(iss)->Ok_0, 25),
{
    let specs = bti_layout(iss)->Ok_0;
    assert forall|k: int| 0 <= k < specs.len() implies (#[trigger] specs[k]).start < specs[k].end
        by {
        if k == 0 {
        } else if k == 1 {
        }
    }
    assert forall|k: int| 0 <= k && k + 1 < specs.len() implies (#[trigger] specs[k + 1]).end
        <= specs[k].start by {
        if k == 0 {
        } else if k == 1 {
        }
    }
}

proof fn data_abort_layout_descends(iss: u64)
    requires
        data_abort_layout(iss) is Ok,
    ensures
        descending(data_abort_layout(iss)->Ok_0, 25),
{
    let specs = data_abort_layout(iss)->Ok_0;
    assert forall|k: int| 0 <= k < specs.len() implies (#[trigger] specs[k]).start < specs[k].end
        by {
        if extract(iss, 24, 25) == 1 {
            if k == 0 {
            } else if k == 1 {
            } else if k == 2 {
            } else if k == 3 {
            } else if k == 4 {
            } else if k == 5 {
            } else if k == 6 {
            } else if k == 7 {
            } else if k == 8 {
            } else if k == 9 {
            } else if k == 10 {
            } else if k == 11 {
            } else if k == 12 {
            } else if k == 13 {
            } else if k == 14 {
            }
        } else {
            if k == 0 {
            } else if k == 1 {
            } else if k == 2 {
            } else if k == 3 {
            } else if k == 4 {
            } else if k == 5 {
            } else if k == 6 {
            } else if k == 7 {
            } else if k == 8 {
            } else if k == 9 {
            } else if k == 10 {
            } else if k == 11 {
            } else if k == 12 {
            } else if k == 13 {
            } else if k == 14 {
            }
        }
    }
    assert forall|k: int| 0 <= k && k + 1 < specs.len() implies (#[trigger] specs[k + 1]).end
        <= specs[k].start by {
        if extract(iss, 24, 25) == 1 {
            if k == 0 {
            } else if k == 1 {
            } else if k == 2 {
            } else if k == 3 {
            } else if k == 4 {
            } else if k == 5 {
            } else if k == 6 {
            } else if k == 7 {
            } else if k == 8 {
            } else if k == 9 {
            } else if k == 10 {
            } else if k == 11 {
            } else if k == 12 {
            } else if k == 13 {
            } else if k == 14 {
            }
        } else {
            if k == 0 {
            } else if k == 1 {
            } else if k == 2 {
            } else if k == 3 {
            } else if k == 4 {
            } else if k == 5 {
            } else if k == 6 {
            } else if k == 7 {
            } else if k == 8 {
            } else if k == 9 {
            } else if k == 10 {
            } else if k == 11 {
            } else if k == 12 {
            } else if k == 13 {
            } else if k == 14 {
            }
        }
    }
}

proof fn fp_layout_descends(iss: u64)
    requires
        fp_layout(iss) is Ok,
    ensures
        descending(fp_layout(iss)->Ok_0, 25),
{
    let specs = fp_layout(iss)->Ok_0;
    assert forall|k: int| 0 <= k < specs.len() implies (#[trigger] specs[k]).start < specs[k].end
        by {
        if k == 0 {
        } else if k == 1 {
        } else if k == 2 {
        } else if k == 3 {
        } else if k == 4 {
        } else if k == 5 {
        } else if k == 6 {
        } else if k == 7 {
        } else if k == 8 {
        } else if k == 9 {
        } else if k == 10 {
        }
    }
    assert forall|k: int| 0 <= k && k + 1 < specs.len() implies (#[trigger] specs[k + 1]).end
        <= specs[k].start by {
        if k == 0 {
        } else if k == 1 {
        } else if k == 2 {
        } else if k == 3 {
        } else if k == 4 {
        } else if k == 5 {
        } else if k == 6 {
        } else if k == 7 {
        } else if k == 8 {
        } else if k == 9 {
        } else if k == 10 {
        }
    }
}

proof fn hvc_layout_descends(iss: u64)
    requires
        hvc_layout(iss) is Ok,
    ensures
        descending(hvc_layout(iss)->Ok_0, 25),
{
    let specs = hvc_layout(iss)->Ok_0;
    assert forall|k: int| 0 <= k < specs.len() implies (#[trigger] specs[k]).start < specs[k].end
        by {
        if k == 0 {
        } else if k == 1 {
        }
    }
    assert forall|k: int| 0 <= k && k + 1 < specs.len() implies (#[trigger] specs[k + 1]).end
        <= specs[k].start by {
        if k == 0 {
        } else if k == 1 {
        }
    }
}

proof fn instruction_abort_layout_descends(iss: u64)
    requires
        instruction_abort_layout(iss) is Ok,
    ensures
        descending(instruction_abort_layout(iss)->Ok_0, 25),
{
    let specs = instruction_abort_layout(iss)->Ok_0;
    assert forall|k: int| 0 <= k < specs.len() implies (#[trigger] specs[k]).start < specs[k].end
        by {
        if k == 0 {
        } else if k == 1 {
        } else if k == 2 {
        } else if k == 3 {
        } else if k == 4 {
        } else if k == 5 {
        } else if k == 6 {
        } else if k == 7 {
        }
    }
    assert forall|k: int| 0 <= k && k + 1 < specs.len() implies (#[trigger] specs[k + 1]).end
        <= specs[k].start by {
        if k == 0 {
        } else if k == 1 {
        } else if k == 2 {
        } else if k == 3 {
        } else if k == 4 {
        } else if k == 5 {
        } else if k == 6 {
        } else if k == 7 {
        }
    }
}

proof fn ld64b_layout_descends(iss: u64)
    requires
        ld64b_layout(iss) is Ok,
    ensures
        descending(ld64b_layout(iss)->Ok_0, 25),
{
    let specs = ld64b_layout(iss)->Ok_0;
    assert forall|k: int| 0 <= k < specs.len() implies (#[trigger] specs[k]).start < specs[k].end
        by {
        if k == 0 {
        }
    }
    assert forall|k: int| 0 <= k && k + 1 < specs.len() implies (#[trigger] specs[k + 1]).end
        <= specs[k].start by {
        if k == 0 {
        }
    }
}

proof fn ldc_layout_descends(iss: u64)
    requires
        ldc_layout(iss) is Ok,
    ensures
        descending(ldc_layout(iss)->Ok_0, 25),
{
    let specs = ldc_layout(iss)->Ok_0;
    assert forall|k: int| 0 <= k < specs.len() implies (#[trigger] specs[k]).start < specs[k].end
        by {
        if k == 0 {
        } else if k == 1 {
        } else if k == 2 {
        } else if k == 3 {
        } else if k == 4 {
        } else if k == 5 {
        } else if k == 6 {
        } else if k == 7 {
        }
    }
    assert forall|k: int| 0 <= k && k + 1 < specs.len() implies (#[trigger] specs[k + 1]).end
        <= specs[k].start by {
        if k == 0 {
        } else if k == 1 {
        } else if k == 2 {
        } else if k == 3 {
        } else if k == 4 {
        } else if k == 5 {
        } else if k == 6 {
        } else if k == 7 {
        }
    }
}

proof fn mcr_layout_descends(iss: u64)
    requires
        mcr_layout(iss) is Ok,
    ensures
        descending(mcr_layout(iss)->Ok_0, 25),
{
    let specs = mcr_layout(iss)->Ok_0;
    assert forall|k: int| 0 <= k < specs.len() implies (#[trigger] specs[k]).start < specs[k].end
        by {
        if k == 0 {
        } else if k == 1 {
        } else if k == 2 {
        } else if k == 3 {
        } else if k == 4 {
        } else if k == 5 {
        } else if k == 6 {
        } else if k == 7 {
        }
    }
    assert forall|k: int| 0 <= k && k + 1 < specs.len() implies (#[trigger] specs[k + 1]).end
        <= specs[k].start by {
        if k == 0 {
        } else if k == 1 {
        } else if k == 2 {
        } else if k == 3 {
        } else if k == 4 {
        } else if k == 5 {
        } else if k == 6 {
        } else if k == 7 {
        }
    }
}

proof fn mcrr_layout_descends(iss: u64)
    requires
        mcrr_layout(iss) is Ok,
    ensures
        descending(mcrr_layout(iss)->Ok_0, 25),
{
    let specs = mcrr_layout(iss)->Ok_0;
    assert forall|k: int| 0 <= k < specs.len() implies (#[trigger] specs[k]).start < specs[k].end
        by {
        if k == 0 {
        } else if k == 1 {
        } else if k == 2 {
        } else if k == 3 {
        } else if k == 4 {
        } else if k == 5 {
        } else if k == 6 {
        } else if k == 7 {
        }
    }
    assert forall|k: int| 0 <= k && k + 1 < specs.len() implies (#[trigger] specs[k + 1]).end
        <= specs[k].start by {
        if k == 0 {
        } else if k == 1 {
        } else if k == 2 {
        } else if k == 3 {
        } else if k == 4 {
        } else if k == 5 {
        } else if k == 6 {
        } else if k == 7 {
        }
    }
}

proof fn pauth_layout_descends(iss: u64)
    requires
        pauth_layout(iss) is Ok,
    ensures
        descending(pauth_layout(iss)->Ok_0, 25),
{
    let specs = pauth_layout(iss)->Ok_0;
    assert forall|k: int| 0 <= k < specs.len() implies (#[trigger] specs[k]).start < specs[k].end
        by {
        if k == 0 {
        } else if k == 1 {
        } else if k == 2 {
        }
    }
    assert forall|k: int| 0 <= k && k + 1 < specs.len() implies (#[trigger] specs[k + 1]).end
        <= specs[k].start by {
        if k == 0 {
        } else if k == 1 {
        } else if k == 2 {
        }
    }
}

proof fn res0_iss_layout_descends(iss: u64)
    requires
        res0_iss_layout(iss) is Ok,
    ensures
        descending(res0_iss_layout(iss)->Ok_0, 25),
{
    let specs = res0_iss_layout(iss)->Ok_0;
    assert forall|k: int| 0 <= k < specs.len() implies (#[trigger] specs[k]).start < specs[k].end
        by {
        if k == 0 {
        }
    }
    assert forall|k: int| 0 <= k && k + 1 < specs.len() implies (#[trigger] specs[k + 1]).end
        <= specs[k].start by {
        if k == 0 {
        }
    }
}

proof fn serror_layout_descends(iss: u64)
    requires
        serror_layout(iss) is Ok,
    ensures
        descending(serror_layout(iss)->Ok_0, 25),
{
    let specs = serror_layout(iss)->Ok_0;
    assert forall|k: int| 0 <= k < specs.len() implies (#[trigger] specs[k]).start < specs[k].end
        by {
        if extract(iss, 24, 25) == 1 {
            if k == 0 {
            } else if k == 1 {
            } else if k == 2 {
            } else if k == 3 {
            } else if k == 4 {
            } else if k == 5 {
            } else if k == 6 {
            } else if k == 7 {
            } else if k == 8 {
            }
        } else {
            if k == 0 {
            } else if k == 1 {
            } else if k == 2 {
            } else if k == 3 {
            } else if k == 4 {
            } else if k == 5 {
            } else if k == 6 {
            } else if k == 7 {
            } else if k == 8 {
            }
        }
    }
    assert forall|k: int| 0 <= k && k + 1 < specs.len() implies (#[trigger] specs[k + 1]).end
        <= specs[k].start by {
        if extract(iss, 24, 25) == 1 {
            if k == 0 {
            } else if k == 1 {
            } else if k == 2 {
            } else if k == 3 {
            } else if k == 4 {
            } else if k == 5 {
            } else if k == 6 {
            } else if k == 7 {
            } else if k == 8 {
            }
        } else {
            if k == 0 {
            } else if k == 1 {
            } else if k == 2 {
            } else if k == 3 {
            } else if k == 4 {
            } else if k == 5 {
            } else if k == 6 {
            } else if k == 7 {
            } else if k == 8 {
            }
        }
    }
}

proof fn software_step_layout_descends(iss: u64)
    requires
        software_step_layout(iss) is Ok,
    ensures
        descending(software_step_layout(iss)->Ok_0, 25),
{
    let specs = software_step_layout(iss)->Ok_0;
    assert forall|k: int| 0 <= k < specs.len() implies (#[trigger] specs[k]).start < specs[k].end
        by {
        if k == 0 {
        } else if k == 1 {
        } else if k == 2 {
        } else if k == 3 {
        } else if k == 4 {
        }
    }
    assert forall|k: int| 0 <= k && k + 1 < specs.len() implies (#[trigger] specs[k + 1]).end
        <= specs[k].start by {
        if k == 0 {
        } else if k == 1 {
        } else if k == 2 {
        } else if k == 3 {
        } else if k == 4 {
        }
    }
}

proof fn sve_layout_descends(iss: u64)
    requires
        sve_layout(iss) is Ok,
    ensures
        descending(sve_layout(iss)->Ok_0, 25),
{
    let specs = sve_layout(iss)->Ok_0;
    assert forall|k: int| 0 <= k < specs.len() implies (#[trigger] specs[k]).start < specs[k].end
        by {
        if k == 0 {
        } else if k == 1 {
        } else if k == 2 {
        }
    }
    assert forall|k: int| 0 <= k && k + 1 < specs.len() implies (#[trigger] specs[k + 1]).end
        <= specs[k].start by {
        if k == 0 {
        } else if k == 1 {
        } else if k == 2 {
        }
    }
}

proof fn watchpoint_layout_descends(iss: u64)
    requires
        watchpoint_layout(iss) is Ok,
    ensures
        descending(watchpoint_layout(iss)->Ok_0, 25),
{
    let specs = watchpoint_layout(iss)->Ok_0;
    assert forall|k: int| 0 <= k < specs.len() implies (#[trigger] specs[k]).start < specs[k].end
        by {
        if k == 0 {
        } else if k == 1 {
        } else if k == 2 {
        } else if k == 3 {
        } else if k == 4 {
        } else if k == 5 {
        } else if k == 6 {
        } else if k == 7 {
        }
    }
    assert forall|k: int| 0 <= k && k + 1 < specs.len() implies (#[trigger] specs[k + 1]).end
        <= specs[k].start by {
        if k == 0 {
        } else if k == 1 {
        } else if k == 2 {
        } else if k == 3 {
        } else if k == 4 {
        } else if k == 5 {
        } else if k == 6 {
        } else if k == 7 {
        }
    }
}

proof fn wf_layout_descends(iss: u64)
    requires
        wf_layout(iss) is Ok,
    ensures
        descending(wf_layout(iss)->Ok_0, 25),
{
    let specs = wf_layout(iss)->Ok_0;
    assert forall|k: int| 0 <= k < specs.len() implies (#[trigger] specs[k]).start < specs[k].end
        by {
        if k == 0 {
        } else if k == 1 {
        } else if k == 2 {
        } else if k == 3 {
        } else if k == 4 {
        } else if k == 5 {
        } else if k == 6 {
        }
    }
    assert forall|k: int| 0 <= k && k + 1 < specs.len() implies (#[trigger] specs[k + 1]).end
        <= specs[k].start by {
        if k == 0 {
        } else if k == 1 {
        } else if k == 2 {
        } else if k == 3 {
        } else if k == 4 {
        } else if k == 5 {
        } else if k == 6 {
        }
    }
}

proof fn msr_descends(iss: u64)
    requires
        extract(iss, 22, 25) == 0,
    ensures
        descending(msr_fields(iss), 25),
{
    let specs = msr_fields(iss);
    assert forall|k: int| 0 <= k < specs.len() implies (#[trigger] specs[k]).start < specs[k].end
        by {
        if k == 0 {
        } else if k == 1 {
        } else if k == 2 {
        } else if k == 3 {
        } else if k == 4 {
        } else if k == 5 {
        } else if k == 6 {
        } else if k == 7 {
        }
    }
    assert forall|k: int| 0 <= k && k + 1 < specs.len() implies (#[trigger] specs[k + 1]).end
        <= specs[k].start by {
        if k == 0 {
        } else if k == 1 {
        } else if k == 2 {
        } else if k == 3 {
        } else if k == 4 {
        } else if k == 5 {
        } else if k == 6 {
        } else if k == 7 {
        }
    }
}

proof fn layout_descends(ec: u64, iss: u64)
    requires
        iss_layout(ec, iss) is Ok,
    ensures
        descending(iss_layout(ec, iss)->Ok_0, 25),
{
    if ec == 0b000000 {
        res0_iss_layout_descends(iss);
    } else if ec == 0b000001 {
        wf_layout_descends(iss);
    } else if ec == 0b000011 {
        mcr_layout_descends(iss);
    } else if ec == 0b000100 {
        mcrr_layout_descends(iss);
    } else if ec == 0b000101 {
        mcr_layout_descends(iss);
    } else if ec == 0b000110 {
        ldc_layout_descends(iss);
    } else if ec == 0b000111 {
        sve_layout_descends(iss);
    } else if ec == 0b001010 {
        ld64b_layout_descends(iss);
    } else if ec == 0b001100 {
        mcrr_layout_descends(iss);
    } else if ec == 0b001101 {
        bti_layout_descends(iss);
    } else if ec == 0b001110 {
        res0_iss_layout_descends(iss);
    } else if ec == 0b010001 {
        hvc_layout_descends(iss);
    } else if ec == 0b010101 {
        hvc_layout_descends(iss);
    } else if ec == 0b010110 {
        hvc_layout_descends(iss);
    } else if ec == 0b010111 {
        hvc_layout_descends(iss);
    } else if ec == 0b011000 {
        msr_descends(iss);
    } else if ec == 0b011001 {
        res0_iss_layout_descends(iss);
    } else if ec == 0b011100 {
        pauth_layout_descends(iss);
    } else if ec == 0b100000 {
        instruction_abort_layout_descends(iss);
    } else if ec == 0b100001 {
        instruction_abort_layout_descends(iss);
    } else if ec == 0b100010 {
        res0_iss_layout_descends(iss);
    } else if ec == 0b100100 {
        data_abort_layout_descends(iss);
    } else if ec == 0b100101 {
        data_abort_layout_descends(iss);
    } else if ec == 0b100110 {
        res0_iss_layout_descends(iss);
    } else if ec == 0b101000 {
        fp_layout_descends(iss);
    } else if ec == 0b101100 {
        fp_layout_descends(iss);
    } else if ec == 0b101111 {
        serror_layout_descends(iss);
    } else if ec == 0b110000 {
        breakpoint_vector_catch_layout_descends(iss);
    } else if ec == 0b110001 {
        breakpoint_vector_catch_layout_descends(iss);
    } else if ec == 0b110010 {
        software_step_layout_descends(iss);
    } else if ec == 0b110011 {
        software_step_layout_descends(iss);
    } else if ec == 0b110100 {
        watchpoint_layout_descends(iss);
    } else if ec == 0b110101 {
        watchpoint_layout_descends(iss);
    } else if ec == 0b111000 {
        breakpoint_layout_descends(iss);
    } else if ec == 0b111100 {
        breakpoint_layout_descends(iss);
    }
}

/// In a descending sequence every later entry ends at or below the start of every earlier one.
proof fn descending_pairwise(specs: Seq<FieldSpec>, top: nat, i: int, j: int)
    requires
        descending(specs, top),
        0 <= i < j < specs.len(),
    ensures
        specs[j].end <= specs[i].start,
    decreases j - i,
{
    assert(specs[(j - 1) + 1].end <= specs[j - 1].start);
    if j > i + 1 {
        descending_pairwise(specs, top, i, j - 1);
        assert(specs[j - 1].start < specs[j - 1].end);
    }
}

/// In a successfully decoded Exception Syndrome Register value the top-level fields tile the
/// register from bit 63 down to bit 0 and put together give it back; the ISS subfields each take
/// at least one bit within the ISS, go from high bits to low, and no two share a bit.
pub proof fn esr_fields_tile_the_register(esr: u64, r: Result<Vec<FieldInfo>, DecodeError>)
    requires
        esr_decoded(esr, r),
    ensures
        r matches Ok(fields) ==> {
            &&& fields@.len() == 5
            &&& fields@[0].start + fields@[0].width == 64
            &&& forall|i: int|
                0 <= i < 4 ==> (#[trigger] fields@[i + 1]).start + fields@[i + 1].width
                    == fields@[i].start
            &&& fields@[4].start == 0
            &&& esr == (fields@[0].value << 37u64) | (fields@[1].value << 32u64) | (
            fields@[2].value << 26u64) | (fields@[3].value << 25u64) | fields@[4].value
        },
        r matches Ok(fields) ==> forall|j: int|
            0 <= j < fields@[4].subfields@.len() ==> (#[trigger] fields@[4].subfields@[j]).width > 0
                && fields@[4].subfields@[j].start + fields@[4].subfields@[j].width <= 25,
        r matches Ok(fields) ==> forall|i: int, j: int|
            0 <= i < j < fields@[4].subfields@.len() ==> (#[trigger] fields@[4].subfields@[j]).start
                + fields@[4].subfields@[j].width <= (#[trigger] fields@[4].subfields@[i]).start,
{
    if let Ok(fields) = r {
        let ec = extract(esr, 26, 32);
        let iss = extract(esr, 0, 25);
        assert(esr == (((esr >> 37u64) & (u64::MAX >> 37u64)) << 37u64) | (((esr >> 32u64) & (
        u64::MAX >> 59u64)) << 32u64) | (((esr >> 26u64) & (u64::MAX >> 58u64)) << 26u64) | (((
        esr >> 25u64) & (u64::MAX >> 63u64)) << 25u64) | ((esr >> 0u64) & (u64::MAX >> 39u64)))
            by (bit_vector);
        assert forall|i: int| 0 <= i < 4 implies (#[trigger] fields@[i + 1]).start + fields@[i
            + 1].width == fields@[i].start by {
            assert(is_leaf(fields@[i], esr, esr_head(esr)[i]));
        }
        layout_descends(ec, iss);
        let specs = iss_layout(ec, iss)->Ok_0;
        let subs = fields@[4].subfields@;
        assert forall|i: int, j: int| 0 <= i < j < subs.len() implies (#[trigger] subs[j]).start
            + subs[j].width <= (#[trigger] subs[i]).start by {
            descending_pairwise(specs, 25, i, j);
        }
    }
}

/// In a successfully decoded Exception Syndrome Register value, every ISS subfield named RES0
/// holds zero.
pub proof fn esr_reserved_subfields_are_zero(esr: u64, r: Result<Vec<FieldInfo>, DecodeError>)
    requires
        esr_decoded(esr, r),
    ensures
        r matches Ok(fields) ==> forall|j: int|
            0 <= j < fields@[4].subfields@.len() && (#[trigger] fields@[4].subfields@[j]).name@
                == "RES0"@ ==> fields@[4].subfields@[j].value == 0,
{
    broadcast use vstd::string::group_string_axioms;

    if let Ok(fields) = r {
        let iss = fields@[4];
        let ec = extract(esr, 26, 32);
        layout_reserved_entries_zero(ec, extract(esr, 0, 25));
        let specs = iss_layout(ec, extract(esr, 0, 25))->Ok_0;
        assert forall|j: int|
            0 <= j < iss.subfields@.len() && (#[trigger] iss.subfields@[j]).name@ == "RES0"@ implies
            iss.subfields@[j].value == 0 by {
            reveal_strlit("RES0");
            assert(specs[j].name[0] == 'R' && specs[j].name[1] == 'E');
        }
    }
}

} // verus!
