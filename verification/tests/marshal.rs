use posix_fs::file_system::marshal::{c_string_to_str, str_to_c_string};

#[test]
fn a_null_pointer_decodes_to_nothing() {
    assert_eq!(c_string_to_str(None), None);
}

#[test]
fn text_ends_at_the_terminator() {
    assert_eq!(c_string_to_str(Some(b"/tmp/file\0")), Some(String::from("/tmp/file")));
    assert_eq!(c_string_to_str(Some(b"\0")), Some(String::new()));
}

#[test]
fn nothing_behind_the_first_terminator_is_read() {
    assert_eq!(c_string_to_str(Some(b"abc\0def\0")), Some(String::from("abc")));
    assert_eq!(c_string_to_str(Some(b"abc\0\xff\xfe")), Some(String::from("abc")));
    assert_eq!(c_string_to_str(Some(b"\0\xff")), Some(String::new()));
}

#[test]
fn text_of_several_bytes_a_character() {
    let memory = "gr\u{fc}\u{df}e/\u{65e5}\u{672c}\0".as_bytes();
    assert_eq!(c_string_to_str(Some(memory)), Some(String::from("gr\u{fc}\u{df}e/\u{65e5}\u{672c}")));
}

#[test]
fn invalid_utf8_decodes_to_nothing() {
    assert_eq!(c_string_to_str(Some(b"\xff\xfe\0")), None);
    assert_eq!(c_string_to_str(Some(b"ab\xc3\0")), None);
    assert_eq!(c_string_to_str(Some(b"\xed\xa0\x80\0")), None);
    assert_eq!(c_string_to_str(Some(b"\xc0\xaf\0")), None);
}

#[test]
fn memory_without_terminator_decodes_to_nothing() {
    assert_eq!(c_string_to_str(Some(b"abc")), None);
    assert_eq!(c_string_to_str(Some(b"")), None);
}

#[test]
fn a_null_destination_takes_nothing() {
    assert!(!str_to_c_string(String::from("root"), None));
    assert!(!str_to_c_string(String::new(), None));
}

#[test]
fn the_text_is_written_with_its_terminator() {
    let mut buffer = [0x5Au8; 8];
    assert!(str_to_c_string(String::from("root"), Some(&mut buffer)));
    assert_eq!(buffer, [b'r', b'o', b'o', b't', 0, 0x5A, 0x5A, 0x5A]);
}

#[test]
fn a_text_that_fills_the_buffer_with_its_terminator() {
    let mut buffer = [0xAAu8; 6];
    assert!(str_to_c_string(String::from("wheel"), Some(&mut buffer)));
    assert_eq!(&buffer, b"wheel\0");
}

#[test]
fn an_empty_text_is_only_a_terminator() {
    let mut buffer = [1u8, 2, 3];
    assert!(str_to_c_string(String::new(), Some(&mut buffer)));
    assert_eq!(buffer, [0, 2, 3]);
    let mut one = [7u8];
    assert!(str_to_c_string(String::new(), Some(&mut one)));
    assert_eq!(one, [0]);
}

#[test]
fn the_bytes_are_those_of_utf8() {
    let mut buffer = [0xFFu8; 7];
    assert!(str_to_c_string(String::from("\u{fc}\u{20ac}"), Some(&mut buffer)));
    assert_eq!(buffer, [0xC3, 0xBC, 0xE2, 0x82, 0xAC, 0, 0xFF]);
}

#[test]
fn what_was_written_decodes_to_the_text() {
    let mut buffer = [0x7Fu8; 16];
    assert!(str_to_c_string(String::from("daemon"), Some(&mut buffer)));
    assert_eq!(c_string_to_str(Some(&buffer)), Some(String::from("daemon")));
}

#[test]
fn a_shorter_text_replaces_a_longer_one() {
    let mut buffer = [0x7Fu8; 16];
    assert!(str_to_c_string(String::from("daemon"), Some(&mut buffer)));
    assert!(str_to_c_string(String::from("bin"), Some(&mut buffer)));
    assert_eq!(c_string_to_str(Some(&buffer)), Some(String::from("bin")));
    assert_eq!(&buffer[..8], b"bin\0on\0\x7f");
}
