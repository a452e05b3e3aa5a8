//! Decoding of the Main ID Register.
use crate::field::{described, decoded_as, extract, plain, res0, DecodeError, FieldInfo, FieldSpec};
use vstd::prelude::*;

verus! {

pub open spec fn implementer_text(implementer: u64) -> Seq<char> {
    if implementer == 0x00 {
        "Reserved for software use"@
    } else if implementer == 0xC0 {
        "Ampere Computing"@
    } else if implementer == 0x41 {
        "Arm Limited"@
    } else if implementer == 0x42 {
        "Broadcom Corporation"@
    } else if implementer == 0x43 {
        "Cavium Inc."@
    } else if implementer == 0x44 {
        "Digital Equipment Corporation"@
    } else if implementer == 0x46 {
        "Fujitsu Ltd."@
    } else if implementer == 0x49 {
        "Infineon Technologies AG"@
    } else if implementer == 0x4D {
        "Motorola or Freescale Semiconductor Inc."@
    } else if implementer == 0x4E {
        "NVIDIA Corporation"@
    } else if implementer == 0x50 {
        "Applied Micro Circuits Corporation"@
    } else if implementer == 0x51 {
        "Qualcomm Inc."@
    } else if implementer == 0x56 {
        "Marvell International Ltd."@
    } else if implementer == 0x69 {
        "Intel Corporation"@
    } else {
        "Unknown"@
    }
}

fn describe_implementer(implementer: u64) -> (r: Result<&'static str, DecodeError>)
    ensures
        r matches Ok(d) && d@ == implementer_text(implementer),
{
    Ok(
        match implementer {
            0x00 => "Reserved for software use",
            0xC0 => "Ampere Computing",
            0x41 => "Arm Limited",
            0x42 => "Broadcom Corporation",
            0x43 => "Cavium Inc.",
            0x44 => "Digital Equipment Corporation",
            0x46 => "Fujitsu Ltd.",
            0x49 => "Infineon Technologies AG",
            0x4D => "Motorola or Freescale Semiconductor Inc.",
            0x4E => "NVIDIA Corporation",
            0x50 => "Applied Micro Circuits Corporation",
            0x51 => "Qualcomm Inc.",
            0x56 => "Marvell International Ltd.",
            0x69 => "Intel Corporation",
            _ => "Unknown",
        },
    )
}

pub open spec fn architecture_text(architecture: u64) -> Seq<char> {
    if architecture == 0b0001 {
        "Armv4"@
    } else if architecture == 0b0010 {
        "Armv4T"@
    } else if architecture == 0b0011 {
        "Armv5"@
    } else if architecture == 0b0100 {
        "Armv5T"@
    } else if architecture == 0b0101 {
        "Armv5TE"@
    } else if architecture == 0b0110 {
        "Armv5TEJ"@
    } else if architecture == 0b0111 {
        "Armv6"@
    } else if architecture == 0b1111 {
        "Architectural features are individually identified"@
    } else {
        "Reserved"@
    }
}

fn describe_architecture(architecture: u64) -> (r: Result<&'static str, DecodeError>)
    ensures
        r matches Ok(d) && d@ == architecture_text(architecture),
{
    Ok(
        match architecture {
            0b0001 => "Armv4",
            0b0010 => "Armv4T",
            0b0011 => "Armv5",
            0b0100 => "Armv5T",
            0b0101 => "Armv5TE",
            0b0110 => "Armv5TEJ",
            0b0111 => "Armv6",
            0b1111 => "Architectural features are individually identified",
            _ => "Reserved",
        },
    )
}

/// The fields of a Main ID Register value, or the first error that decoding it meets.
pub open spec fn midr_layout(midr: u64) -> Result<Seq<FieldSpec>, DecodeError> {
    if extract(midr, 32, 64) != 0 {
        Err(DecodeError::InvalidRes0 { res0: extract(midr, 32, 64) })
    } else {
        Ok(
            seq![
                res0(32, 64),
                described("Implementer", None, 24, 32, implementer_text(extract(midr, 24, 32))),
                plain("Variant", None, 20, 24),
                described("Architecture", None, 16, 20, architecture_text(extract(midr, 16, 20))),
                plain("PartNum", Some("Part number"), 4, 16),
                plain("Revision", None, 0, 4),
            ],
        )
    }
}

/// Decodes the given Main ID Register value, or returns an error if it is not valid.
pub fn decode_midr(midr: u64) -> (r: Result<Vec<FieldInfo>, DecodeError>)
    ensures
        decoded_as(r, midr, midr_layout(midr)),
{
    let res0 = FieldInfo::get(midr, "RES0", Some("Reserved"), 32, 64).check_res0()?;
    let implementer = FieldInfo::get(
        midr,
        "Implementer",
        None,
        24,
        32,
    ).describe(describe_implementer)?;
    let variant = FieldInfo::get(midr, "Variant", None, 20, 24);
    let architecture = FieldInfo::get(
        midr,
        "Architecture",
        None,
        16,
        20,
    ).describe(describe_architecture)?;
    let partnum = FieldInfo::get(midr, "PartNum", Some("Part number"), 4, 16);
    let revision = FieldInfo::get(midr, "Revision", None, 0, 4);
    Ok(vec![res0, implementer, variant, architecture, partnum, revision])
}

} // verus!
