//! Trapped floating-point exception syndromes.
use crate::field::{described, decoded_as, extract, plain, res0, DecodeError, FieldInfo, FieldSpec};
use vstd::prelude::*;

verus! {

pub open spec fn tfv_text(tfv: bool) -> Seq<char> {
    if tfv {
        "One or more floating-point exceptions occurred; IDF, IXF, UFF, OFF, DZF and IOF hold information about what."@
    } else {
        "IDF, IXF, UFF, OFF, DZF and IOF do not hold valid information."@
    }
}

fn describe_tfv(tfv: bool) -> (r: &'static str)
    ensures
        r@ == tfv_text(tfv),
{
    if tfv {
        "One or more floating-point exceptions occurred; IDF, IXF, UFF, OFF, DZF and IOF hold information about what."
    } else {
        "IDF, IXF, UFF, OFF, DZF and IOF do not hold valid information."
    }
}

pub open spec fn idf_text(idf: bool) -> Seq<char> {
    if idf {
        "Input denormal floating-point exception occurred."@
    } else {
        "Input denormal floating-point exception did not occur."@
    }
}

fn describe_idf(idf: bool) -> (r: &'static str)
    ensures
        r@ == idf_text(idf),
{
    if idf {
        "Input denormal floating-point exception occurred."
    } else {
        "Input denormal floating-point exception did not occur."
    }
}

pub open spec fn ixf_text(ixf: bool) -> Seq<char> {
    if ixf {
        "Inexact floating-point exception occurred."@
    } else {
        "Inexact floating-point exception did not occur."@
    }
}

fn describe_ixf(ixf: bool) -> (r: &'static str)
    ensures
        r@ == ixf_text(ixf),
{
    if ixf {
        "Inexact floating-point exception occurred."
    } else {
        "Inexact floating-point exception did not occur."
    }
}

pub open spec fn uff_text(uff: bool) -> Seq<char> {
    if uff {
        "Underflow floating-point exception occurred."@
    } else {
        "Underflow floating-point exception did not occur."@
    }
}

fn describe_uff(uff: bool) -> (r: &'static str)
    ensures
        r@ == uff_text(uff),
{
    if uff {
        "Underflow floating-point exception occurred."
    } else {
        "Underflow floating-point exception did not occur."
    }
}

pub open spec fn off_text(off: bool) -> Seq<char> {
    if off {
        "Overflow floating-point exception occurred."@
    } else {
        "Overflow floating-point exception did not occur."@
    }
}

fn describe_off(off: bool) -> (r: &'static str)
    ensures
        r@ == off_text(off),
{
    if off {
        "Overflow floating-point exception occurred."
    } else {
        "Overflow floating-point exception did not occur."
    }
}

pub open spec fn dzf_text(dzf: bool) -> Seq<char> {
    if dzf {
        "Divide by Zero floating-point exception occurred."@
    } else {
        "Divide by Zero floating-point exception did not occur."@
    }
}

fn describe_dzf(dzf: bool) -> (r: &'static str)
    ensures
        r@ == dzf_text(dzf),
{
    if dzf {
        "Divide by Zero floating-point exception occurred."
    } else {
        "Divide by Zero floating-point exception did not occur."
    }
}

pub open spec fn iof_text(iof: bool) -> Seq<char> {
    if iof {
        "Invalid Operation floating-point exception occurred."@
    } else {
        "Invalid Operation floating-point exception did not occur."@
    }
}

fn describe_iof(iof: bool) -> (r: &'static str)
    ensures
        r@ == iof_text(iof),
{
    if iof {
        "Invalid Operation floating-point exception occurred."
    } else {
        "Invalid Operation floating-point exception did not occur."
    }
}

/// The fields of the ISS of a floating-point exception, or the first error that decoding it meets.
pub open spec fn fp_layout(iss: u64) -> Result<Seq<FieldSpec>, DecodeError> {
    if extract(iss, 24, 25) != 0 {
        Err(DecodeError::InvalidRes0 { res0: extract(iss, 24, 25) })
    } else if extract(iss, 11, 23) != 0 {
        Err(DecodeError::InvalidRes0 { res0: extract(iss, 11, 23) })
    } else if extract(iss, 5, 7) != 0 {
        Err(DecodeError::InvalidRes0 { res0: extract(iss, 5, 7) })
    } else {
        Ok(
            seq![
                res0(24, 25),
                described(
                    "TFV",
                    Some("Trapped Fault Valid"),
                    23,
                    24,
                    tfv_text(extract(iss, 23, 24) == 1),
                ),
                res0(11, 23),
                plain("VECITR", Some("RES1 or UNKNOWN"), 8, 11),
                described("IDF", Some("Input Denormal"), 7, 8, idf_text(extract(iss, 7, 8) == 1)),
                res0(5, 7),
                described("IXF", Some("Inexact"), 4, 5, ixf_text(extract(iss, 4, 5) == 1)),
                described("UFF", Some("Underflow"), 3, 4, uff_text(extract(iss, 3, 4) == 1)),
                described("OFF", Some("Overflow"), 2, 3, off_text(extract(iss, 2, 3) == 1)),
                described("DZF", Some("Divide by Zero"), 1, 2, dzf_text(extract(iss, 1, 2) == 1)),
                described(
                    "IOF",
                    Some("Invalid Operation"),
                    0,
                    1,
                    iof_text(extract(iss, 0, 1) == 1),
                ),
            ],
        )
    }
}

/// Decodes the ISS value for a floating-point exception.
pub fn decode_iss_fp(iss: u64) -> (r: Result<Vec<FieldInfo>, DecodeError>)
    ensures
        decoded_as(r, iss, fp_layout(iss)),
{
    let res0a = FieldInfo::get_bit(iss, "RES0", Some("Reserved"), 24).check_res0()?;
    let tfv = FieldInfo::get_bit(
        iss,
        "TFV",
        Some("Trapped Fault Valid"),
        23,
    ).describe_bit(describe_tfv);
    let res0b = FieldInfo::get(iss, "RES0", Some("Reserved"), 11, 23).check_res0()?;
    let vecitr = FieldInfo::get(iss, "VECITR", Some("RES1 or UNKNOWN"), 8, 11);
    let idf = FieldInfo::get_bit(iss, "IDF", Some("Input Denormal"), 7).describe_bit(describe_idf);
    let res0c = FieldInfo::get(iss, "RES0", Some("Reserved"), 5, 7).check_res0()?;
    let ixf = FieldInfo::get_bit(iss, "IXF", Some("Inexact"), 4).describe_bit(describe_ixf);
    let uff = FieldInfo::get_bit(iss, "UFF", Some("Underflow"), 3).describe_bit(describe_uff);
    let off = FieldInfo::get_bit(iss, "OFF", Some("Overflow"), 2).describe_bit(describe_off);
    let dzf = FieldInfo::get_bit(iss, "DZF", Some("Divide by Zero"), 1).describe_bit(describe_dzf);
    let iof = FieldInfo::get_bit(
        iss,
        "IOF",
        Some("Invalid Operation"),
        0,
    ).describe_bit(describe_iof);
    Ok(vec![res0a, tfv, res0b, vecitr, idf, res0c, ixf, uff, off, dzf, iof])
}

} // verus!
