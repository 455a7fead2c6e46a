use hex_patch::commands::CommandRegistry;
use hex_patch::header::{Arch, Header, HeaderView};
use hex_patch::text::{bytes_to_hex, fmt_i64, fmt_u64, parse_i64, parse_u64};
use hex_patch::edit::handle_string_edit;
use hex_patch::log::{level_from_i64, LogLevel};
use hex_patch::style::{parse_color_str, ColorVal, NamedColor};
use hex_patch::keys::parse_key_code;
use hex_patch::keys::{KeyCode, KeyEvent};
use hex_patch::PluginError;

#[test]
fn upsert_same_identifier_updates_in_place() {
    let mut r = CommandRegistry::new();
    r.upsert("test".to_string(), "A".to_string());
    r.upsert("test".to_string(), "B".to_string());
    let cs = r.get_commands();
    assert_eq!(cs.len(), 1);
    assert_eq!(cs[0].command, "test");
    assert_eq!(cs[0].description, "B");
}

#[test]
fn remove_and_readd_appends_at_end() {
    let mut r = CommandRegistry::new();
    r.upsert("a".to_string(), "A".to_string());
    r.upsert("b".to_string(), "B".to_string());
    r.remove("a");
    r.upsert("a".to_string(), "A".to_string());
    let cs = r.get_commands();
    assert_eq!(cs.len(), 2);
    assert_eq!(cs[0].command, "b");
    assert_eq!(cs[1].command, "a");
}

#[test]
fn add_checked_rejects_undefined_names() {
    let mut r = CommandRegistry::new();
    let e = r.add_checked("test".to_string(), "T".to_string(), false);
    assert!(matches!(e, Err(PluginError::CommandValidation(n)) if n == "test"));
    assert_eq!(r.get_commands().len(), 0);
    assert!(r.add_checked("test".to_string(), "T".to_string(), true).is_ok());
    assert_eq!(r.get_commands().len(), 1);
}

#[test]
fn decimal_formatting_and_parsing() {
    assert_eq!(fmt_u64(0), "0");
    assert_eq!(fmt_u64(90210), "90210");
    assert_eq!(fmt_i64(-42), "-42");
    assert_eq!(fmt_i64(i64::MIN), "-9223372036854775808");
    assert_eq!(parse_u64("90210"), Some(90210));
    assert_eq!(parse_u64(""), None);
    assert_eq!(parse_u64("12x"), None);
    assert_eq!(parse_u64("99999999999999999999"), None);
    assert_eq!(parse_i64("-42"), Some(-42));
    assert_eq!(parse_i64("-9223372036854775808"), Some(i64::MIN));
    assert_eq!(parse_i64("-9223372036854775809"), None);
}

#[test]
fn hex_encoding_of_bytes() {
    assert_eq!(bytes_to_hex(&vec![]), "");
    assert_eq!(bytes_to_hex(&vec![0xde, 0xad, 0x00, 0x0f]), "dead000f");
}

#[test]
fn unrecognised_buffer_projects_to_defaults() {
    let buf = vec![0u8; 0x100];
    assert!(Header::parse_header(&buf).is_none());
    let v = HeaderView::from_bytes(&buf);
    assert_eq!(v.bitness, 64);
    assert_eq!(v.architecture, Arch::Unknown);
    assert_eq!(v.entry_point, 0);
}

#[test]
fn elf_header_is_recognised() {
    let mut buf = vec![0u8; 0x40];
    buf[0] = 0x7f;
    buf[1] = b'E';
    buf[2] = b'L';
    buf[3] = b'F';
    buf[4] = 2; // ELF64
    buf[5] = 1; // little-endian
    buf[0x12] = 0x3e; // x86-64
    buf[0x18] = 0x00;
    buf[0x19] = 0x10;
    buf[0x1a] = 0x40; // entry 0x401000
    let h = Header::parse_header(&buf).expect("ELF header expected");
    assert_eq!(h.bitness(), 64);
    assert_eq!(h.entry_point(), 0x401000);
    let v = HeaderView::from_bytes(&buf);
    assert_eq!(v.architecture, Arch::X86_64);
}

#[test]
fn pe_header_is_recognised() {
    let mut buf = vec![0u8; 0x100];
    buf[0] = b'M';
    buf[1] = b'Z';
    buf[0x3c] = 0x80; // PE signature at 0x80
    buf[0x80] = b'P';
    buf[0x81] = b'E';
    buf[0x84] = 0x64;
    buf[0x85] = 0x86; // machine x86-64
    buf[0x98] = 0x0b;
    buf[0x99] = 0x02; // PE32+
    buf[0xa8] = 0x78;
    buf[0xa9] = 0x56; // entry 0x5678
    let h = Header::parse_header(&buf).expect("PE header expected");
    assert_eq!(h.bitness(), 64);
    assert_eq!(h.entry_point(), 0x5678);
    let v = HeaderView::from_bytes(&buf);
    assert_eq!(v.architecture, Arch::X86_64);
}

#[test]
fn string_edit_inserts_and_moves() {
    let mut text: Vec<char> = vec!['a', 'c'];
    let mut cursor: usize = 1;
    let ev = KeyEvent::plain(KeyCode::Char("b".to_string()));
    handle_string_edit(&mut text, &mut cursor, &ev, None, false, None);
    assert_eq!(text, vec!['a', 'b', 'c']);
    assert_eq!(cursor, 2);
    handle_string_edit(&mut text, &mut cursor, &KeyEvent::plain(KeyCode::Backspace), None, false, None);
    assert_eq!(text, vec!['a', 'c']);
    assert_eq!(cursor, 1);
    handle_string_edit(&mut text, &mut cursor, &KeyEvent::plain(KeyCode::End), None, false, None);
    assert_eq!(cursor, 2);
    handle_string_edit(&mut text, &mut cursor, &KeyEvent::plain(KeyCode::Home), None, false, None);
    assert_eq!(cursor, 0);
    handle_string_edit(&mut text, &mut cursor, &KeyEvent::plain(KeyCode::Delete), None, false, None);
    assert_eq!(text, vec!['c']);
}

#[test]
fn string_edit_respects_charset_capitalize_and_max_len() {
    let hex_chars: Vec<char> = "0123456789ABCDEF".chars().collect();
    let mut text: Vec<char> = vec![];
    let mut cursor: usize = 0;
    // lowercase input is uppercased before the charset check
    let ev = KeyEvent::plain(KeyCode::Char("f".to_string()));
    handle_string_edit(&mut text, &mut cursor, &ev, Some(&hex_chars), true, Some(2));
    assert_eq!(text, vec!['F']);
    // a character outside the set is dropped
    let ev = KeyEvent::plain(KeyCode::Char("g".to_string()));
    handle_string_edit(&mut text, &mut cursor, &ev, Some(&hex_chars), true, Some(2));
    assert_eq!(text, vec!['F']);
    // the length bound stops further input
    let ev = KeyEvent::plain(KeyCode::Char("0".to_string()));
    handle_string_edit(&mut text, &mut cursor, &ev, Some(&hex_chars), true, Some(2));
    let ev = KeyEvent::plain(KeyCode::Char("1".to_string()));
    handle_string_edit(&mut text, &mut cursor, &ev, Some(&hex_chars), true, Some(2));
    assert_eq!(text, vec!['F', '0']);
    assert_eq!(cursor, 2);
}

#[test]
fn level_numbers_map_to_ordered_severities() {
    assert_eq!(level_from_i64(0), LogLevel::Silent);
    assert_eq!(level_from_i64(1), LogLevel::Debug);
    assert_eq!(level_from_i64(2), LogLevel::Info);
    assert_eq!(level_from_i64(3), LogLevel::Warning);
    assert_eq!(level_from_i64(4), LogLevel::Error);
    assert_eq!(level_from_i64(99), LogLevel::Error);
}

#[test]
fn key_codes_and_colors_parse_exactly() {
    assert_eq!(parse_key_code(&"Enter".to_string()), Some(KeyCode::Enter));
    assert_eq!(parse_key_code(&"F5".to_string()), Some(KeyCode::F(5)));
    assert_eq!(
        parse_key_code(&"x".to_string()),
        Some(KeyCode::Char("x".to_string()))
    );
    assert_eq!(parse_key_code(&"NotAKey".to_string()), None);
    assert_eq!(parse_color_str("#0a1B2c"), Some(ColorVal::Rgb(0x0a, 0x1b, 0x2c)));
    assert_eq!(parse_color_str("#0a1b2"), None);
    assert_eq!(parse_color_str("LightCyan"), Some(ColorVal::Named(NamedColor::LightCyan)));
    assert_eq!(parse_color_str("Fuchsia"), None);
}
