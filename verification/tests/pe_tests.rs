use cdylib_shim::pe::{export_names, PeError};

fn put_le16(img: &mut Vec<u8>, off: usize, v: u16) {
    img[off] = (v & 0xff) as u8;
    img[off + 1] = (v >> 8) as u8;
}

fn put_le32(img: &mut Vec<u8>, off: usize, v: u32) {
    img[off] = (v & 0xff) as u8;
    img[off + 1] = ((v >> 8) & 0xff) as u8;
    img[off + 2] = ((v >> 16) & 0xff) as u8;
    img[off + 3] = ((v >> 24) & 0xff) as u8;
}

/// A minimal mapped 64-bit image exporting the given names.
fn build_image(names: &[&[u8]]) -> Vec<u8> {
    let mut img = vec![0u8; 0x800];
    img[0] = 0x4d; // M
    img[1] = 0x5a; // Z
    put_le32(&mut img, 0x3c, 0x80); // offset of the newer headers
    put_le32(&mut img, 0x80, 0x4550); // PE\0\0
    put_le16(&mut img, 0x80 + 4 + 16, 0xf0); // SizeOfOptionalHeader
    put_le16(&mut img, 0x98, 0x20b); // 64-bit optional header magic
    put_le32(&mut img, 0x98 + 108, 16); // NumberOfRvaAndSizes
    put_le32(&mut img, 0x98 + 112, 0x200); // export directory address
    put_le32(&mut img, 0x200 + 24, names.len() as u32); // NumberOfNames
    put_le32(&mut img, 0x200 + 32, 0x300); // AddressOfNames
    let mut cursor = 0x400usize;
    for (i, name) in names.iter().enumerate() {
        put_le32(&mut img, 0x300 + 4 * i, cursor as u32);
        for &b in *name {
            img[cursor] = b;
            cursor += 1;
        }
        img[cursor] = 0; // NUL terminator
        cursor += 1;
    }
    img
}

#[test]
fn reads_three_exports_in_order() {
    let img = build_image(&[b"Foo", b"Bar", b"Baz"]);
    let names = export_names(&img).unwrap();
    assert_eq!(names, vec![b"Foo".to_vec(), b"Bar".to_vec(), b"Baz".to_vec()]);
}

#[test]
fn tolerates_zero_exports() {
    let img = build_image(&[]);
    let names = export_names(&img).unwrap();
    assert!(names.is_empty());
}

#[test]
fn rejects_empty_image() {
    assert_eq!(export_names(&[]), Err(PeError::Truncated));
}

#[test]
fn rejects_bad_dos_signature() {
    let mut img = build_image(&[b"Foo"]);
    img[0] = 0x4e;
    assert_eq!(export_names(&img), Err(PeError::BadDosSignature));
}

#[test]
fn rejects_bad_pe_signature() {
    let mut img = build_image(&[b"Foo"]);
    put_le32(&mut img, 0x80, 0x4551);
    assert_eq!(export_names(&img), Err(PeError::BadPeSignature));
}

#[test]
fn rejects_unknown_optional_header_magic() {
    let mut img = build_image(&[b"Foo"]);
    put_le16(&mut img, 0x98, 0x30c);
    assert_eq!(export_names(&img), Err(PeError::BadOptionalHeader));
}

#[test]
fn rejects_too_small_optional_header() {
    let mut img = build_image(&[b"Foo"]);
    put_le16(&mut img, 0x80 + 4 + 16, 0x10);
    assert_eq!(export_names(&img), Err(PeError::BadOptionalHeader));
}

#[test]
fn rejects_zero_data_directories() {
    let mut img = build_image(&[b"Foo"]);
    put_le32(&mut img, 0x98 + 108, 0);
    assert_eq!(export_names(&img), Err(PeError::NoExportDirectory));
}

#[test]
fn rejects_missing_export_directory() {
    let mut img = build_image(&[b"Foo"]);
    put_le32(&mut img, 0x98 + 112, 0);
    assert_eq!(export_names(&img), Err(PeError::NoExportDirectory));
}

#[test]
fn rejects_export_directory_outside_image() {
    let mut img = build_image(&[b"Foo"]);
    put_le32(&mut img, 0x98 + 112, 0x7f0);
    assert_eq!(export_names(&img), Err(PeError::Truncated));
}

#[test]
fn rejects_zero_name_table_with_names_announced() {
    let mut img = build_image(&[b"Foo"]);
    put_le32(&mut img, 0x200 + 32, 0);
    assert_eq!(export_names(&img), Err(PeError::BadNameTable));
}

#[test]
fn rejects_name_running_off_the_image() {
    let mut img = build_image(&[b"Foo"]);
    // point the name at the last byte and take away its terminator
    put_le32(&mut img, 0x300, 0x7ff);
    img[0x7ff] = 0x41;
    assert_eq!(export_names(&img), Err(PeError::Truncated));
}

#[test]
fn rejects_name_that_is_not_text() {
    let mut img = build_image(&[b"Foo"]);
    img[0x400] = 0xff; // not valid in any UTF-8 encoding
    assert_eq!(export_names(&img), Err(PeError::BadExportName));
}

#[test]
fn accepts_multibyte_text_name() {
    // a two-byte encoding (U+00E9) inside a name is valid text
    let img = build_image(&[&[0x46, 0xc3, 0xa9][..]]);
    let names = export_names(&img).unwrap();
    assert_eq!(names, vec![vec![0x46, 0xc3, 0xa9]]);
}

#[test]
fn reads_32_bit_layout() {
    let names: &[&[u8]] = &[b"Alpha", b"Beta"];
    let mut img = vec![0u8; 0x800];
    img[0] = 0x4d;
    img[1] = 0x5a;
    put_le32(&mut img, 0x3c, 0x80);
    put_le32(&mut img, 0x80, 0x4550);
    put_le16(&mut img, 0x80 + 4 + 16, 0xe0); // 32-bit optional header size
    put_le16(&mut img, 0x98, 0x10b); // 32-bit magic
    put_le32(&mut img, 0x98 + 92, 16);
    put_le32(&mut img, 0x98 + 96, 0x200);
    put_le32(&mut img, 0x200 + 24, names.len() as u32);
    put_le32(&mut img, 0x200 + 32, 0x300);
    let mut cursor = 0x400usize;
    for (i, name) in names.iter().enumerate() {
        put_le32(&mut img, 0x300 + 4 * i, cursor as u32);
        for &b in *name {
            img[cursor] = b;
            cursor += 1;
        }
        img[cursor] = 0;
        cursor += 1;
    }
    let got = export_names(&img).unwrap();
    assert_eq!(got, vec![b"Alpha".to_vec(), b"Beta".to_vec()]);
}
