use cdylib_shim::bytes::{bytes_eq, is_valid_utf8, scan_nul};
use cdylib_shim::export::Export;
use cdylib_shim::hooks::{scan_module, FnItem, HookError};
use cdylib_shim::loader::{join_system_path, system_dir};

#[test]
fn slot_identifier_is_upper_snake_with_suffix() {
    // the slot identifier is derived from the export's name by real case
    // conversion: handing the name back unchanged would fail this
    let export = Export::new(b"GetFileVersionInfoA".to_vec());
    let ident = export.address().ident();
    assert_eq!(ident, b"GET_FILE_VERSION_INFO_A_ADDRESS".to_vec());
}

#[test]
fn slot_identifier_of_lowercase_name() {
    let export = Export::new(b"strnlen".to_vec());
    assert_eq!(export.address().ident(), b"STRNLEN_ADDRESS".to_vec());
}

#[test]
fn byte_equality_is_exact() {
    assert!(bytes_eq(b"Foo", b"Foo"));
    assert!(!bytes_eq(b"Foo", b"foo"));
    assert!(!bytes_eq(b"Foo", b"Fo"));
    assert!(bytes_eq(b"", b""));
}

#[test]
fn nul_scan_finds_first_terminator() {
    assert_eq!(scan_nul(b"ab\0c\0", 0), Some(2));
    assert_eq!(scan_nul(b"ab\0c\0", 3), Some(4));
    assert_eq!(scan_nul(b"abc", 0), None);
}

#[test]
fn utf8_validation_matches_the_encoding() {
    assert!(is_valid_utf8(b"plain ascii"));
    assert!(is_valid_utf8(&[0xc3, 0xa9])); // U+00E9
    assert!(is_valid_utf8(&[0xe2, 0x82, 0xac])); // U+20AC
    assert!(is_valid_utf8(&[0xf0, 0x9f, 0x92, 0xbb])); // U+1F4BB
    assert!(!is_valid_utf8(&[0xff]));
    assert!(!is_valid_utf8(&[0xc3])); // truncated sequence
    assert!(!is_valid_utf8(&[0xc0, 0xaf])); // overlong encoding
    assert!(!is_valid_utf8(&[0xed, 0xa0, 0x80])); // surrogate
    assert!(!is_valid_utf8(&[0xf4, 0x90, 0x80, 0x80])); // above U+10FFFF
    assert!(!is_valid_utf8(&[0x80])); // stray continuation byte
}

#[test]
fn no_system_directory_on_this_platform() {
    assert!(system_dir().is_none());
}

#[test]
fn system_path_joins_directory_and_name() {
    let p = join_system_path(&b"C:\\sys".to_vec(), &b"version.dll".to_vec());
    assert_eq!(p, b"C:\\sys\\version.dll".to_vec());
}

fn item(name: &[u8], attrs: &[&[u8]]) -> FnItem {
    FnItem { name: name.to_vec(), attrs: attrs.iter().map(|a| a.to_vec()).collect() }
}

#[test]
fn module_scan_collects_markers() {
    let exports = vec![b"Foo".to_vec(), b"Bar".to_vec()];
    let fns = vec![
        item(b"setup", &[b"init", b"inline"]),
        item(b"Bar", &[b"hook"]),
        item(b"helper", &[b"inline"]),
        item(b"on_load", &[b"load"]),
        item(b"on_unload", &[b"unload"]),
    ];
    let m = scan_module(&exports, &fns).unwrap();
    assert_eq!(m.init, Some(b"setup".to_vec()));
    assert_eq!(m.load, Some(b"on_load".to_vec()));
    assert_eq!(m.unload, Some(b"on_unload".to_vec()));
    assert_eq!(m.hooks.len(), 1);
    assert_eq!(m.hooks[0].name, b"Bar".to_vec());
}

#[test]
fn two_markers_on_one_function_fail() {
    let exports = vec![b"Foo".to_vec()];
    let fns = vec![item(b"Foo", &[b"init", b"hook"])];
    assert_eq!(
        scan_module(&exports, &fns),
        Err(HookError::MultipleMarkers(b"Foo".to_vec()))
    );
}

#[test]
fn second_init_function_fails() {
    let exports = vec![b"Foo".to_vec()];
    let fns = vec![item(b"a", &[b"init"]), item(b"b", &[b"init"])];
    assert_eq!(scan_module(&exports, &fns), Err(HookError::DuplicateInit(b"b".to_vec())));
}

#[test]
fn hook_function_must_name_an_export() {
    let exports = vec![b"Foo".to_vec()];
    let fns = vec![item(b"Qux", &[b"hook"])];
    assert_eq!(scan_module(&exports, &fns), Err(HookError::NotAnExport(b"Qux".to_vec())));
}
