use hightower::procinfo::{image_path_from_buffer, process_info_from_entry, wide_nul_to_string};
use hightower::process::SignatureStatus;

#[test]
fn wide_nul_to_string_stops_at_first_nul() {
    let buffer = [b'h' as u16, b'i' as u16, 0, b'x' as u16];
    assert_eq!(wide_nul_to_string(&buffer), "hi");
}

#[test]
fn wide_nul_to_string_without_nul_reads_everything() {
    let buffer = [b'a' as u16, b'b' as u16];
    assert_eq!(wide_nul_to_string(&buffer), "ab");
}

#[test]
fn wide_nul_to_string_decodes_non_ascii_units() {
    // "é" (U+00E9), a surrogate pair for U+1F600, then NUL and junk.
    let buffer = [0x00E9u16, 0xD83D, 0xDE00, 0, 0x0041];
    assert_eq!(wide_nul_to_string(&buffer), "é\u{1F600}");
}

#[test]
fn an_entry_with_a_path_is_not_restricted() {
    let name = [b's' as u16, b'.' as u16, b'e' as u16, 0, 7, 7];
    let info = process_info_from_entry(42, &name, Some(r"C:\x\s.e".to_string()));
    assert_eq!(info.pid, 42);
    assert_eq!(info.name, "s.e");
    assert_eq!(info.executable_path.as_deref(), Some(r"C:\x\s.e"));
    assert!(!info.restricted);
    assert_eq!(info.signature, SignatureStatus::Unchecked);
}

#[test]
fn an_entry_without_a_path_is_restricted() {
    let name = [b'S' as u16, 0];
    let info = process_info_from_entry(4, &name, None);
    assert_eq!(info.name, "S");
    assert!(info.executable_path.is_none());
    assert!(info.restricted);
}

#[test]
fn image_path_reads_only_the_written_units() {
    let buffer = [b'C' as u16, b':' as u16, b'\\' as u16, b'a' as u16, b'z' as u16, 0];
    assert_eq!(image_path_from_buffer(&buffer, 4), r"C:\a");
    assert_eq!(image_path_from_buffer(&buffer, 0), "");
}
