//! SError interrupt syndromes.
use crate::field::{described, decoded_as, extract, plain, res0, DecodeError, FieldInfo, FieldSpec};
use vstd::prelude::*;

verus! {

pub open spec fn ids_text(ids: bool) -> Seq<char> {
    if ids {
        "The rest of the ISS is encoded in an implementation-defined format"@
    } else {
        "The rest of the ISS is encoded according to the platform"@
    }
}

fn describe_ids(ids: bool) -> (r: &'static str)
    ensures
        r@ == ids_text(ids),
{
    if ids {
        "The rest of the ISS is encoded in an implementation-defined format"
    } else {
        "The rest of the ISS is encoded according to the platform"
    }
}

pub open spec fn iesb_text(iesb: bool) -> Seq<char> {
    if iesb {
        "The SError interrupt was synchronized by the implicit error synchronization event and taken immediately."@
    } else {
        "The SError interrupt was not synchronized by the implicit error synchronization event or not taken immediately."@
    }
}

fn describe_iesb(iesb: bool) -> (r: &'static str)
    ensures
        r@ == iesb_text(iesb),
{
    if iesb {
        "The SError interrupt was synchronized by the implicit error synchronization event and taken immediately."
    } else {
        "The SError interrupt was not synchronized by the implicit error synchronization event or not taken immediately."
    }
}

pub open spec fn aet_text(aet: u64) -> Option<Seq<char>> {
    if aet == 0b000 {
        Some("Uncontainable (UC)"@)
    } else if aet == 0b001 {
        Some("Unrecoverable state (UEU)"@)
    } else if aet == 0b010 {
        Some("Restartable state (UEO)"@)
    } else if aet == 0b011 {
        Some("Recoverable state (UER)"@)
    } else if aet == 0b110 {
        Some("Corrected (CE)"@)
    } else {
        None
    }
}

fn describe_aet(aet: u64) -> (r: Result<&'static str, DecodeError>)
    ensures
        match r {
            Ok(d) => aet_text(aet) == Some(d@),
            Err(e) => aet_text(aet) is None && e == DecodeError::InvalidAet { aet },
        },
{
    match aet {
        0b000 => Ok("Uncontainable (UC)"),
        0b001 => Ok("Unrecoverable state (UEU)"),
        0b010 => Ok("Restartable state (UEO)"),
        0b011 => Ok("Recoverable state (UER)"),
        0b110 => Ok("Corrected (CE)"),
        _ => Err(DecodeError::InvalidAet { aet }),
    }
}

pub open spec fn serror_dfsc_text(dfsc: u64) -> Option<Seq<char>> {
    if dfsc == 0b000000 {
        Some("Uncategorized error"@)
    } else if dfsc == 0b010001 {
        Some("Asynchronous SError interrupt"@)
    } else {
        None
    }
}

fn describe_dfsc(dfsc: u64) -> (r: Result<&'static str, DecodeError>)
    ensures
        match r {
            Ok(d) => serror_dfsc_text(dfsc) == Some(d@),
            Err(e) => serror_dfsc_text(dfsc) is None && e == DecodeError::InvalidFsc { fsc: dfsc },
        },
{
    match dfsc {
        0b000000 => Ok("Uncategorized error"),
        0b010001 => Ok("Asynchronous SError interrupt"),
        _ => Err(DecodeError::InvalidFsc { fsc: dfsc }),
    }
}

/// The fields of the ISS of an SError interrupt, or the first error that decoding it meets.
pub open spec fn serror_layout(iss: u64) -> Result<Seq<FieldSpec>, DecodeError> {
    let ids = extract(iss, 24, 25) == 1;
    let dfsc = extract(iss, 0, 6);
    let aet = extract(iss, 10, 13);
    let ids_field = described(
        "IDS",
        Some("Implementation Defined Syndrome"),
        24,
        25,
        ids_text(ids),
    );
    if ids {
        Ok(seq![ids_field, plain("IMPDEF", Some("Implementation defined"), 0, 24)])
    } else if serror_dfsc_text(dfsc) is None {
        Err(DecodeError::InvalidFsc { fsc: dfsc })
    } else if extract(iss, 14, 24) != 0 {
        Err(DecodeError::InvalidRes0 { res0: extract(iss, 14, 24) })
    } else if dfsc != 0b010001 && extract(iss, 13, 14) != 0 {
        Err(DecodeError::InvalidRes0 { res0: extract(iss, 13, 14) })
    } else if aet_text(aet) is None {
        Err(DecodeError::InvalidAet { aet })
    } else if extract(iss, 6, 9) != 0 {
        Err(DecodeError::InvalidRes0 { res0: extract(iss, 6, 9) })
    } else {
        Ok(
            seq![
                ids_field,
                res0(14, 24),
                if dfsc == 0b010001 {
                    described(
                        "IESB",
                        Some("Implicit Error Synchronisation event"),
                        13,
                        14,
                        iesb_text(extract(iss, 13, 14) == 1),
                    )
                } else {
                    plain("RES0", Some("Reserved for this DFSC value"), 13, 14)
                },
                described("AET", Some("Asynchronous Error Type"), 10, 13, aet_text(aet)->0),
                plain("EA", Some("External Abort type"), 9, 10),
                res0(6, 9),
                described("DFSC", Some("Data Fault Status Code"), 0, 6, serror_dfsc_text(dfsc)->0),
            ],
        )
    }
}

/// Decodes the ISS value for an SError interrupt.
pub fn decode_iss_serror(iss: u64) -> (r: Result<Vec<FieldInfo>, DecodeError>)
    ensures
        decoded_as(r, iss, serror_layout(iss)),
{
    let ids = FieldInfo::get_bit(
        iss,
        "IDS",
        Some("Implementation Defined Syndrome"),
        24,
    ).describe_bit(
        describe_ids,
    );
    let mut platform_fields = if ids.as_bit() {
        let impdef = FieldInfo::get(iss, "IMPDEF", Some("Implementation defined"), 0, 24);
        vec![impdef]
    } else {
        let dfsc = FieldInfo::get(iss, "DFSC", Some("Data Fault Status Code"), 0, 6).describe(
            describe_dfsc,
        )?;
        let res0a = FieldInfo::get(iss, "RES0", Some("Reserved"), 14, 24).check_res0()?;
        let iesb = if dfsc.value == 0b010001 {
            FieldInfo::get_bit(
                iss,
                "IESB",
                Some("Implicit Error Synchronisation event"),
                13,
            ).describe_bit(describe_iesb)
        } else {
            FieldInfo::get_bit(iss, "RES0", Some("Reserved for this DFSC value"), 13).check_res0()?
        };
        let aet = FieldInfo::get(iss, "AET", Some("Asynchronous Error Type"), 10, 13).describe(
            describe_aet,
        )?;
        let ea = FieldInfo::get_bit(iss, "EA", Some("External Abort type"), 9);
        let res0b = FieldInfo::get(iss, "RES0", Some("Reserved"), 6, 9).check_res0()?;
        vec![res0a, iesb, aet, ea, res0b, dfsc]
    };
    let mut fields = vec![ids];
    fields.append(&mut platform_fields);
    Ok(fields)
}

} // verus!
