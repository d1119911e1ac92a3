use kasm;

#[test]
fn generate_null_machine_code() {
    let is = kasm::instructions::generate_instruction_set();
    let p = kasm::pass1::Program::new();
    let mc = match kasm::pass2::pass2(is, p) {
        Ok(mc) => mc,
        Err(_) => panic!("This should never error"),
    };
    assert_eq!(0, mc.len());
}

#[test]
fn generate_simple_machine_code() {
    let is = kasm::instructions::generate_instruction_set();
    let mut p = kasm::pass1::Program::new();
    p.code.push(kasm::pass1::CodeTableEntry {
        address: 0x1234,
        content: kasm::pass1::Content::Code(kasm::pass1::Code {
            mnemonic: kasm::instructions::Mnemonic::LDA,
            address_mode: kasm::instructions::AddressMode::Absolute,
            value: kasm::instructions::Value::U8(0xab),
        }),
    });
    let mc = match kasm::pass2::pass2(is, p) {
        Ok(mc) => mc,
        Err(_) => panic!("This should never error"),
    };
    assert_eq!(mc[0x0000], 0x00);
    assert_eq!(mc[0x1233], 0x00);
    assert_eq!(mc[0x1234], 0xad);
    assert_eq!(mc[0x1235], 0xab);
}

#[test]
fn word_value_is_emitted_low_byte_first() {
    let is = kasm::instructions::generate_instruction_set();
    let mut p = kasm::pass1::Program::new();
    p.code.push(kasm::pass1::CodeTableEntry {
        address: 0,
        content: kasm::pass1::Content::Code(kasm::pass1::Code {
            mnemonic: kasm::instructions::Mnemonic::JMP,
            address_mode: kasm::instructions::AddressMode::Absolute,
            value: kasm::instructions::Value::U16(0x1234),
        }),
    });
    let mc = kasm::pass2::pass2(is, p).expect("emission should succeed");
    assert_eq!(mc, vec![0x4c, 0x34, 0x12]);
}

#[test]
fn unknown_label_is_a_typed_error() {
    let is = kasm::instructions::generate_instruction_set();
    let mut p = kasm::pass1::Program::new();
    p.code.push(kasm::pass1::CodeTableEntry {
        address: 0,
        content: kasm::pass1::Content::Code(kasm::pass1::Code {
            mnemonic: kasm::instructions::Mnemonic::JMP,
            address_mode: kasm::instructions::AddressMode::Absolute,
            value: kasm::instructions::Value::String(b"nowhere".to_vec()),
        }),
    });
    match kasm::pass2::pass2(is, p) {
        Ok(_) => panic!("Did not expect an unresolved label to emit"),
        Err(e) => assert_eq!(e.0, kasm::errors::ErrorCode::UnknownLabel),
    }
}

#[test]
fn unencodable_pair_is_a_typed_error() {
    let is = kasm::instructions::generate_instruction_set();
    let mut p = kasm::pass1::Program::new();
    p.code.push(kasm::pass1::CodeTableEntry {
        address: 0,
        content: kasm::pass1::Content::Code(kasm::pass1::Code {
            mnemonic: kasm::instructions::Mnemonic::STA,
            address_mode: kasm::instructions::AddressMode::Immediate,
            value: kasm::instructions::Value::U8(0x01),
        }),
    });
    match kasm::pass2::pass2(is, p) {
        Ok(_) => panic!("Did not expect sta immediate to encode"),
        Err(e) => assert_eq!(e.0, kasm::errors::ErrorCode::UnknownInstruction),
    }
}
