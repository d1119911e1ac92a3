use kasm::ascii::ascii_to_bytes;
use kasm::ascii::unescape;

#[test]
fn test_ascii_to_bytes() {
    // We escape the escapes because .to_string() unescapes
    let (a, s) = ascii_to_bytes("Hello\\nWorld!\\r".as_bytes());
    assert_eq!(s, 13);
    assert_eq!(
        a,
        vec![0x48, 0x65, 0x6c, 0x6c, 0x6f, 0x0a, 0x57, 0x6f, 0x72, 0x6c, 0x64, 0x21, 0x0d]
    );
}

#[test]
fn test_unknown_escape_to_bytes() {
    // We escape the escapes because .to_string() unescapes
    let (a, s) = ascii_to_bytes("\\H".as_bytes());
    assert_eq!(s, 1);
    assert_eq!(a, vec![0x48]);
}

#[test]
fn test_unescape() {
    let value = unescape(0x61);
    assert_eq!(0x07, value);
}

#[test]
fn test_unknown_escape() {
    let value = unescape(0x00);
    assert_eq!(0x00, value);
}

#[test]
fn escape_sequence_newline() {
    // ".ascii \"A\n\"" emits the letter and a raw newline byte.
    let (a, s) = ascii_to_bytes("A\\n".as_bytes());
    assert_eq!(s, 2);
    assert_eq!(a, vec![0x41, 0x0a]);
}

#[test]
fn vertical_tab_escape() {
    assert_eq!(unescape(0x76), 0x0b);
    let (a, s) = ascii_to_bytes("a\\vb".as_bytes());
    assert_eq!(s, 3);
    assert_eq!(a, vec![0x61, 0x0b, 0x62]);
}

#[test]
fn question_mark_escape() {
    assert_eq!(unescape(0x3f), 0x3f);
    let (a, s) = ascii_to_bytes("\\?".as_bytes());
    assert_eq!(s, 1);
    assert_eq!(a, vec![0x3f]);
}

#[test]
fn trailing_lone_backslash_emits_nothing() {
    let (a, s) = ascii_to_bytes("ab\\".as_bytes());
    assert_eq!(s, 2);
    assert_eq!(a, vec![0x61, 0x62]);
}
