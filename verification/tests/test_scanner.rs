use kasm::scanner::scanner;

#[test]
fn comment_scans_identically() {
    let with_comment = scanner(b"lda #$00 ; load zero");
    let without = scanner(b"lda #$00");
    assert_eq!(with_comment.len(), 1);
    assert_eq!(without.len(), 1);
    assert_eq!(with_comment[0].line, without[0].line);
    assert_eq!(with_comment[0].line_number, without[0].line_number);
}

#[test]
fn lines_are_trimmed() {
    let t = scanner(b"   inc  \n");
    assert_eq!(t.len(), 1);
    assert_eq!(t[0].line, b"inc".to_vec());
}

#[test]
fn dropped_lines_still_count() {
    let t = scanner(b"\n; a comment\nlda #$00\n");
    assert_eq!(t.len(), 1);
    assert_eq!(t[0].line, b"lda #$00".to_vec());
    assert_eq!(t[0].line_number, 3);
}

#[test]
fn comment_only_and_blank_lines_are_dropped() {
    let t = scanner(b"  \n; one\n   ; two\n\n");
    assert_eq!(t.len(), 0);
}
