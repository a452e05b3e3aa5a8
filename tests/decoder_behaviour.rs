use aarch64_esr_decoder::sysregs::{Enc, EncName, RegOffset};
use aarch64_esr_decoder::{decode, decode_midr, decode_smccc, parse_number, DecodeError, FieldInfo};

fn bits(value: u64, start: usize, width: usize) -> u64 {
    if width == 64 {
        value >> start
    } else {
        (value >> start) & ((1u64 << width) - 1)
    }
}

fn check_bits(fields: &[FieldInfo], register: u64) {
    for field in fields {
        assert_eq!(field.value, bits(register, field.start, field.width), "{}", field.name);
        for sub in &field.subfields {
            assert_eq!(sub.value, bits(field.value, sub.start, sub.width), "{}", sub.name);
            assert!(sub.subfields.is_empty());
        }
    }
}

fn description(field: &FieldInfo) -> &str {
    field.description.as_deref().unwrap()
}

const SAMPLES: [u64; 8] = [
    0x0,
    0x96000050,
    0x97523050,
    0x82001e10,
    0x1f300000,
    0x62300001,
    0xbe000000,
    0x2000_0000_0000_0000,
];

#[test]
fn decoding_twice_gives_the_same_result() {
    for value in SAMPLES {
        assert_eq!(decode(value), decode(value));
        assert_eq!(decode_midr(value), decode_midr(value));
        assert_eq!(decode_smccc(value), decode_smccc(value));
    }
}

#[test]
fn esr_reserved_bits_fail_with_their_value() {
    assert_eq!(decode(1 << 37), Err(DecodeError::InvalidRes0 { res0: 1 }));
    assert_eq!(
        decode(0xffff_ffe0_0000_0000),
        Err(DecodeError::InvalidRes0 { res0: 0x7ff_ffff })
    );
}

#[test]
fn midr_reserved_bits_fail_with_their_value() {
    assert_eq!(decode_midr(1 << 32), Err(DecodeError::InvalidRes0 { res0: 1 }));
    assert_eq!(
        decode_midr(0xffff_ffff_410f_d034),
        Err(DecodeError::InvalidRes0 { res0: 0xffff_ffff })
    );
}

#[test]
fn iss_reserved_bits_fail_with_their_value() {
    // Branch Target Exception with bit 2 of the ISS set.
    assert_eq!(decode(0x3400_0004), Err(DecodeError::InvalidRes0 { res0: 1 }));
    // Unknown reason with a nonzero ISS.
    assert_eq!(decode(0x0000_0005), Err(DecodeError::InvalidRes0 { res0: 5 }));
}

#[test]
fn every_exception_class_is_handled() {
    let mut defined = 0;
    for ec in 0..64u64 {
        let esr = (ec << 26) | (1 << 25);
        match decode(esr) {
            Ok(fields) => {
                defined += 1;
                assert_eq!(fields.len(), 5);
                assert_eq!(fields[2].name, "EC");
                assert_eq!(fields[2].value, ec);
                assert!(!description(&fields[2]).is_empty());
                check_bits(&fields, esr);
            }
            Err(DecodeError::InvalidEc { ec: e }) => assert_eq!(e, ec),
            Err(_) => {}
        }
    }
    assert!(defined > 20);
    assert_eq!(decode(0x0800_0000), Err(DecodeError::InvalidEc { ec: 2 }));
}

#[test]
fn fields_hold_their_bits() {
    for value in SAMPLES {
        if let Ok(fields) = decode(value) {
            check_bits(&fields, value);
        }
        if let Ok(fields) = decode_midr(value) {
            check_bits(&fields, value);
        }
        check_bits(&decode_smccc(value).unwrap(), value);
    }
}

#[test]
fn each_decode_error_has_an_input() {
    assert_eq!(decode(0x9600_003f), Err(DecodeError::InvalidFsc { fsc: 0x3f }));
    assert_eq!(decode(0x8200_0810), Err(DecodeError::InvalidSet { set: 1 }));
    assert_eq!(decode(0xbc00_1000), Err(DecodeError::InvalidAet { aet: 4 }));
    assert_eq!(decode(0x1800_000a), Err(DecodeError::InvalidAm { am: 5 }));
    assert_eq!(decode(0x2800_0003), Err(DecodeError::InvalidLd64bIss { iss: 3 }));
}

#[test]
fn msr_and_mrs_are_described_as_instructions() {
    let fields = decode(0x6230_0001).unwrap();
    assert_eq!(fields[4].description.as_deref(), Some("MRS x0, MIDR_EL1"));
    assert_eq!(fields[4].subfields.len(), 8);
    let fields = decode(0x6230_0240).unwrap();
    assert_eq!(fields[4].description.as_deref(), Some("MSR MIDR_EL1, x18"));
    // An encoding that names no known register.
    let fields = decode(0x6200_0001).unwrap();
    assert_eq!(fields[4].description.as_deref(), Some("MRS x0, unknown"));
}

#[test]
fn midr_of_an_arm_core() {
    let fields = decode_midr(0x410f_d034).unwrap();
    let summary: Vec<(&str, u64)> = fields.iter().map(|f| (f.name, f.value)).collect();
    assert_eq!(
        summary,
        vec![
            ("RES0", 0),
            ("Implementer", 0x41),
            ("Variant", 0),
            ("Architecture", 0xf),
            ("PartNum", 0xd03),
            ("Revision", 4),
        ]
    );
    assert_eq!(description(&fields[1]), "Arm Limited");
    assert_eq!(
        description(&fields[3]),
        "Architectural features are individually identified"
    );
    assert_eq!(description(&decode_midr(0x990f_0000).unwrap()[1]), "Unknown");
}

#[test]
fn smccc_fast_calls() {
    let fields = decode_smccc(0x8400_0000).unwrap();
    let names: Vec<&str> = fields.iter().map(|f| f.name).collect();
    assert_eq!(
        names,
        vec!["Call Type", "Call Convention", "Service Call", "MBZ", "SVE live state", "Function Number"]
    );
    assert_eq!(description(&fields[0]), "Fast Call");
    assert_eq!(description(&fields[1]), "SMC32/HVC32");
    assert_eq!(description(&fields[2]), "Standard Secure Service Call");
    assert_eq!(description(&fields[5]), "PSCI Call (Power Secure Control Interface)");
    assert_eq!(description(&decode_smccc(0x8400_0063).unwrap()[5]), "FFA_VERSION_32");
    let fields = decode_smccc(0xc400_0066).unwrap();
    assert_eq!(description(&fields[1]), "SMC64/HVC64");
    assert_eq!(description(&fields[5]), "FFA_RXTX_MAP_64");
    assert_eq!(
        description(&decode_smccc(0x8000_ff00).unwrap()[5]),
        "Call Count Query, deprecated from SMCCCv1.2"
    );
}

#[test]
fn smccc_yielding_call() {
    let fields = decode_smccc(0x0100_0000).unwrap();
    assert_eq!(fields.len(), 2);
    assert_eq!(description(&fields[0]), "Yielding Call");
    assert_eq!(fields[1].name, "Service Type");
    assert_eq!(fields[1].width, 31);
    assert_eq!(
        description(&fields[1]),
        "Reserved for existing APIs (in use by the existing Armv7 devices)"
    );
}

fn field(width: usize, value: u64) -> FieldInfo {
    FieldInfo {
        name: "EC",
        long_name: None,
        start: 0,
        width,
        value,
        description: None,
        subfields: vec![],
    }
}

#[test]
fn values_as_text() {
    assert_eq!(field(6, 37).value_string(), "0x25");
    assert_eq!(field(6, 37).value_binary_string(), "0b100101");
    assert_eq!(field(25, 0).value_string(), "0x0000000");
    assert_eq!(field(1, 1).value_string(), "true");
    assert_eq!(field(1, 0).value_string(), "false");
    assert_eq!(field(6, 37).to_string(), "EC: 0x25 0b100101");
    assert_eq!(field(1, 1).to_string(), "EC: true");
    assert_eq!(field(64, u64::MAX).value_string(), "0xffffffffffffffff");
}

#[test]
fn numbers_at_the_edges() {
    assert_eq!(parse_number("18446744073709551615"), Ok(u64::MAX));
    assert!(parse_number("18446744073709551616").is_err());
    assert_eq!(parse_number("0xffffffffffffffff"), Ok(u64::MAX));
    assert_eq!(parse_number("+5"), Ok(5));
    assert!(parse_number("0x").is_err());
    assert!(parse_number("").is_err());
    assert_eq!(parse_number("0x10"), Ok(16));
}

#[test]
fn encodings_and_offsets() {
    let enc = Enc { n: EncName::Coproc, v: "0b1101".to_string() };
    assert_eq!(enc.parse_value(), Some(13));
    let enc = Enc { n: EncName::Op0, v: "1101".to_string() };
    assert_eq!(enc.parse_value(), None);
    let enc = Enc { n: EncName::Op0, v: "0b111111111".to_string() };
    assert_eq!(enc.parse_value(), None);
    assert_eq!(RegOffset { hexnumber: "0x18".to_string() }.parse_hex(), Some(0x18));
    assert_eq!(RegOffset { hexnumber: "18".to_string() }.parse_hex(), None);
}

#[test]
fn reserved_subfields_read_zero() {
    for ec in 0..64u64 {
        for iss in [0u64, 0x10, 0x1_0000, 0x100_0000, 0x80_0010, 0x1f_ffff, 0x804, 0x1810] {
            let esr = (ec << 26) | (1 << 25) | iss;
            if let Ok(fields) = decode(esr) {
                for sub in &fields[4].subfields {
                    if sub.name == "RES0" {
                        assert_eq!(sub.value, 0, "{:#x}", esr);
                    }
                }
            }
        }
    }
}

#[test]
fn abort_error_type_bits_are_reserved_unless_external_abort() {
    // Data Abort with a translation fault: bits [11, 13) are reserved.
    assert_eq!(decode(0x9600_0804), Err(DecodeError::InvalidRes0 { res0: 1 }));
    assert_eq!(decode(0x9600_1804), Err(DecodeError::InvalidRes0 { res0: 3 }));
    // Instruction Abort with a translation fault.
    assert_eq!(decode(0x8200_0804), Err(DecodeError::InvalidRes0 { res0: 1 }));
    // With a synchronous External abort the bits are the error type.
    let fields = decode(0x9600_1810).unwrap();
    let set = &fields[4].subfields[3];
    assert_eq!((set.name, set.start, set.value), ("SET", 11, 3));
    assert_eq!(set.description.as_deref(), Some("Restartable state (UEO)"));
}

#[test]
fn error_messages() {
    assert_eq!(DecodeError::InvalidRes0 { res0: 0x7ff }.to_string(), "Invalid ESR, res0 is 0x7ff");
    assert_eq!(DecodeError::InvalidEc { ec: 2 }.to_string(), "Invalid EC 0x2");
    assert_eq!(DecodeError::InvalidFsc { fsc: 0x3f }.to_string(), "Invalid DFSC or IFSC 0x3f");
    assert_eq!(DecodeError::InvalidSet { set: 1 }.to_string(), "Invalid SET 0x1");
    assert_eq!(DecodeError::InvalidAet { aet: 4 }.to_string(), "Invalid AET 0x4");
    assert_eq!(DecodeError::InvalidAm { am: 0 }.to_string(), "Invalid AM 0x0");
    assert_eq!(
        DecodeError::InvalidLd64bIss { iss: 3 }.to_string(),
        "Invalid ISS 0x3 for trapped LD64B or ST64B*"
    );
}

#[test]
fn corrected_serror() {
    let fields = decode(0xbc00_1800).unwrap();
    let aet = &fields[4].subfields[3];
    assert_eq!((aet.name, aet.value), ("AET", 6));
    assert_eq!(aet.description.as_deref(), Some("Corrected (CE)"));
}

#[test]
fn field_info_clones() {
    let fields = decode(0x9600_0050).unwrap();
    let copy: Vec<FieldInfo> = fields.iter().map(|f| f.clone()).collect();
    assert_eq!(copy, fields);
}

#[test]
fn esr_fields_tile_the_register() {
    for value in SAMPLES {
        if let Ok(fields) = decode(value) {
            let starts: Vec<(usize, usize)> = fields.iter().map(|f| (f.start, f.width)).collect();
            assert_eq!(starts, vec![(37, 27), (32, 5), (26, 6), (25, 1), (0, 25)]);
            let rebuilt = fields.iter().fold(0u64, |acc, f| acc | (f.value << f.start));
            assert_eq!(rebuilt, value);
            let subs = &fields[4].subfields;
            for (i, a) in subs.iter().enumerate() {
                assert!(a.width > 0 && a.start + a.width <= 25);
                for b in &subs[i + 1..] {
                    assert!(b.start + b.width <= a.start);
                }
            }
        }
    }
}

#[test]
fn smccc_ignores_upper_bits() {
    for value in [0x8400_0000u64, 0xc400_0066, 0x0100_0000, 0x8000_ff00] {
        assert_eq!(decode_smccc(value), decode_smccc(value | 0xdead_beef_0000_0000));
    }
}
