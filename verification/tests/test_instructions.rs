use kasm::instructions::address_mode_length;
use kasm::instructions::generate_instruction_set;
use kasm::instructions::str_to_mnemonic;
use kasm::instructions::AddressMode;
use kasm::instructions::InstructionKey;
use kasm::instructions::Mnemonic;

#[test]
fn test_good_str_to_mnemonic() {
    if str_to_mnemonic("sta".as_bytes()).is_err() {
        panic!("Expected sta to return Mnemonic::STA");
    };
}

#[test]
fn test_bad_str_to_mnemonic() {
    if str_to_mnemonic("abc".as_bytes()).is_ok() {
        panic!("Did not expect abc to return a valid mnemonic");
    };
}

#[test]
fn sample_opcodes_match_reference_chart() {
    let is = generate_instruction_set();
    let lda_imm = InstructionKey { mnemonic: Mnemonic::LDA, address_mode: AddressMode::Immediate };
    assert_eq!(is.get(&lda_imm), Some(0xa9));
    let sta_zp = InstructionKey { mnemonic: Mnemonic::STA, address_mode: AddressMode::Zeropage };
    assert_eq!(is.get(&sta_zp), Some(0x85));
    let inc_impl = InstructionKey { mnemonic: Mnemonic::INC, address_mode: AddressMode::Implied };
    assert_eq!(is.get(&inc_impl), Some(0x1a));
}

#[test]
fn missing_pair_has_no_opcode() {
    let is = generate_instruction_set();
    let sta_imm = InstructionKey { mnemonic: Mnemonic::STA, address_mode: AddressMode::Immediate };
    assert_eq!(is.get(&sta_imm), None);
}

#[test]
fn mode_lengths() {
    assert_eq!(address_mode_length(AddressMode::Implied), 1);
    assert_eq!(address_mode_length(AddressMode::Immediate), 2);
    assert_eq!(address_mode_length(AddressMode::Absolute), 3);
    assert_eq!(address_mode_length(AddressMode::Indirect), 3);
    assert_eq!(address_mode_length(AddressMode::Zeropage), 2);
}
