use std::io::BufRead;

use skulk::util::{is_yes, reply_of};

/// Read a yes/no answer from `reader` as the command-line program does:
/// end of input means no.
fn confirm_from_reader<R: BufRead>(_prompt: &str, reader: &mut R) -> bool {
    let mut line = String::new();
    if reader.read_line(&mut line).unwrap_or(0) == 0 {
        return false;
    }
    is_yes(&line)
}

#[test]
fn confirm_y() {
    let mut input = std::io::Cursor::new(b"y\n");
    assert!(confirm_from_reader("Delete?", &mut input));
}

#[test]
fn confirm_yes() {
    let mut input = std::io::Cursor::new(b"yes\n");
    assert!(confirm_from_reader("Delete?", &mut input));
}

#[test]
fn confirm_n() {
    let mut input = std::io::Cursor::new(b"n\n");
    assert!(!confirm_from_reader("Delete?", &mut input));
}

#[test]
fn confirm_empty() {
    let mut input = std::io::Cursor::new(b"\n");
    assert!(!confirm_from_reader("Delete?", &mut input));
}

#[test]
fn confirm_eof_returns_false() {
    let mut input = std::io::Cursor::new(b"");
    assert!(!confirm_from_reader("Delete?", &mut input));
}

#[test]
fn is_yes_ignores_case_and_spaces() {
    assert!(is_yes("  YES \n"));
    assert!(is_yes("Y"));
    assert!(!is_yes("yep"));
    assert!(!is_yes(""));
}

#[test]
fn reply_of_empty_takes_default() {
    assert!(reply_of("", true));
    assert!(!reply_of("   \n", false));
    assert!(reply_of("y", false));
    assert!(!reply_of("no", true));
}
