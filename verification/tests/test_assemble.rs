use kasm::errors::ErrorCode;
use kasm::pad_image;
use kasm::run;

#[test]
fn end_to_end_sample() {
    let source = b"; comment\nlda #$00\ninc\nsta $00\n";
    let out = run(source).expect("assembly should succeed");
    // Relative to the base address, no leading gap.
    assert_eq!(out.len(), 0x1005);
    assert_eq!(&out[0x1000..], &[0xa9, 0x00, 0x1a, 0x85, 0x00]);
    assert_eq!(out[0x0000], 0x00);
    assert_eq!(out[0x0fff], 0x00);
}

#[test]
fn assembling_twice_yields_identical_output() {
    let source = b"lda #$00\ninc\nsta $00\n";
    let first = run(source).expect("assembly should succeed");
    let second = run(source).expect("assembly should succeed");
    assert_eq!(first, second);
}

#[test]
fn org_gap_is_zero_filled_exactly() {
    let source = b".org $2000\nlda #$01\n.org $2010\nlda #$02\n";
    let out = run(source).expect("assembly should succeed");
    assert_eq!(out.len(), 0x2012);
    assert_eq!(out[0x2000], 0xa9);
    assert_eq!(out[0x2001], 0x01);
    for k in 0x2002..0x2010 {
        assert_eq!(out[k], 0x00);
    }
    assert_eq!(out[0x2010], 0xa9);
    assert_eq!(out[0x2011], 0x02);
}

#[test]
fn word_operand_little_endian() {
    let source = b"jmp $1234\n";
    let out = run(source).expect("assembly should succeed");
    assert_eq!(out.len(), 0x1003);
    assert_eq!(&out[0x1000..], &[0x4c, 0x34, 0x12]);
}

#[test]
fn forward_reference_resolves() {
    let source = b"jmp target\ninc\ntarget:\nrts\n";
    let out = run(source).expect("assembly should succeed");
    assert_eq!(out.len(), 0x1005);
    assert_eq!(&out[0x1000..], &[0x4c, 0x04, 0x10, 0x1a, 0x60]);
}

#[test]
fn backward_reference_resolves() {
    let source = b"start:\ninc\njmp start\n";
    let out = run(source).expect("assembly should succeed");
    assert_eq!(out.len(), 0x1004);
    assert_eq!(&out[0x1000..], &[0x1a, 0x4c, 0x00, 0x10]);
}

#[test]
fn equ_value_resolves() {
    let source = b".equ screen = $00ff\nlda screen\n";
    let out = run(source).expect("assembly should succeed");
    assert_eq!(out.len(), 0x1003);
    assert_eq!(&out[0x1000..], &[0xad, 0xff, 0x00]);
}

#[test]
fn byte_directive_emits_verbatim() {
    let source = b".byte $01, $02, $03\n";
    let out = run(source).expect("assembly should succeed");
    assert_eq!(out.len(), 0x1003);
    assert_eq!(&out[0x1000..], &[0x01, 0x02, 0x03]);
}

#[test]
fn ascii_directive_expands_escapes() {
    let source = b".ascii \"A\\n\"\n";
    let out = run(source).expect("assembly should succeed");
    assert_eq!(out.len(), 0x1002);
    assert_eq!(&out[0x1000..], &[0x41, 0x0a]);
}

#[test]
fn empty_source_assembles_to_nothing() {
    assert_eq!(run(b"").expect("assembly should succeed"), Vec::<u8>::new());
    assert_eq!(run(b"; only a comment\n").expect("ok"), Vec::<u8>::new());
}

#[test]
fn duplicate_label_rejected() {
    let source = b"dup:\ninc\ndup:\n";
    match run(source) {
        Ok(_) => panic!("Did not expect a duplicate label to assemble"),
        Err(e) => assert_eq!(e.0, ErrorCode::DuplicateLabel),
    }
}

#[test]
fn duplicate_of_equ_rejected_either_order() {
    match run(b"dup:\n.equ dup = $0001\n") {
        Ok(_) => panic!("Did not expect a duplicate name to assemble"),
        Err(e) => assert_eq!(e.0, ErrorCode::DuplicateLabel),
    }
    match run(b".equ dup = $0001\ndup:\n") {
        Ok(_) => panic!("Did not expect a duplicate name to assemble"),
        Err(e) => assert_eq!(e.0, ErrorCode::DuplicateLabel),
    }
}

#[test]
fn unknown_mnemonic_rejected() {
    match run(b"xyz #$00\n") {
        Ok(_) => panic!("Did not expect an unknown mnemonic to assemble"),
        Err(e) => assert_eq!(e.0, ErrorCode::UnknownInstruction),
    }
}

#[test]
fn unknown_syntax_rejected() {
    match run(b"@what\n") {
        Ok(_) => panic!("Did not expect unknown syntax to assemble"),
        Err(e) => assert_eq!(e.0, ErrorCode::UnknownSyntax),
    }
}

#[test]
fn unknown_directive_rejected() {
    match run(b".foo bar\n") {
        Ok(_) => panic!("Did not expect an unknown directive to assemble"),
        Err(e) => assert_eq!(e.0, ErrorCode::UnknownDirective),
    }
}

#[test]
fn org_without_address_rejected() {
    match run(b".org zzz\n") {
        Ok(_) => panic!("Did not expect a bad org to assemble"),
        Err(e) => assert_eq!(e.0, ErrorCode::AddressExpected),
    }
}

#[test]
fn byte_without_hex_rejected() {
    match run(b".byte $zz\n") {
        Ok(_) => panic!("Did not expect a bad byte list to assemble"),
        Err(e) => assert_eq!(e.0, ErrorCode::HexExpected),
    }
}

#[test]
fn equ_without_hex_rejected() {
    match run(b".equ a = $zz\n") {
        Ok(_) => panic!("Did not expect a bad equ value to assemble"),
        Err(e) => assert_eq!(e.0, ErrorCode::HexExpected),
    }
}

#[test]
fn equ_without_assignment_rejected() {
    match run(b".equ foo $12\n") {
        Ok(_) => panic!("Did not expect a malformed equ to assemble"),
        Err(e) => assert_eq!(e.0, ErrorCode::MalformedEqu),
    }
}

#[test]
fn unresolved_label_rejected() {
    match run(b"jmp nowhere\n") {
        Ok(_) => panic!("Did not expect an unresolved label to assemble"),
        Err(e) => assert_eq!(e.0, ErrorCode::UnknownLabel),
    }
}

#[test]
fn zeropage_indexed_operands() {
    let out = run(b"lda $ab,x\nsta $cd,x\n").expect("assembly should succeed");
    assert_eq!(&out[0x1000..], &[0xb5, 0xab, 0x95, 0xcd]);
}

#[test]
fn indirect_operands() {
    let out = run(b"jmp ($1234)\nlda ($12,x)\nlda ($34),y\n").expect("assembly should succeed");
    assert_eq!(&out[0x1000..], &[0x6c, 0x34, 0x12, 0xa1, 0x12, 0xb1, 0x34]);
}

#[test]
fn indexed_label_operand() {
    let out = run(b"lda tbl,x\ntbl:\n.byte $07\n").expect("assembly should succeed");
    // lda absolute,x of the label's address, low byte first.
    assert_eq!(&out[0x1000..], &[0xbd, 0x03, 0x10, 0x07]);
}

#[test]
fn immediate_label_operand_uses_stored_width() {
    // A resolved symbol is always emitted two bytes wide, even where the
    // immediate shape reserved one: the following addresses shift by one.
    let out = run(b".equ answer = $0042\nlda #answer\n").expect("assembly should succeed");
    assert_eq!(out.len(), 0x1003);
    assert_eq!(&out[0x1000..], &[0xa9, 0x42, 0x00]);
}

#[test]
fn rti_assembles() {
    let out = run(b"rti\n").expect("assembly should succeed");
    assert_eq!(&out[0x1000..], &[0x40]);
}

#[test]
fn uppercase_mnemonics_are_lowercased() {
    let out = run(b"LDA #$0f\n").expect("assembly should succeed");
    assert_eq!(&out[0x1000..], &[0xa9, 0x0f]);
}

#[test]
fn unclassified_operand_fails_in_emission() {
    // An operand matching no shape is carried to pass 2, where it surfaces
    // as a missing opcode.
    match run(b"lda $GG\n") {
        Ok(_) => panic!("Did not expect an unclassified operand to assemble"),
        Err(e) => assert_eq!(e.0, ErrorCode::UnknownInstruction),
    }
}

#[test]
fn pad_image_lays_the_file_out() {
    assert_eq!(pad_image(&[1, 2], 3, 8), vec![0, 0, 0, 1, 2, 0, 0, 0]);
    assert_eq!(pad_image(&[1], 0, 0), vec![1]);
    // A size smaller than the content adds nothing.
    assert_eq!(pad_image(&[1, 2, 3], 1, 2), vec![0, 1, 2, 3]);
}
