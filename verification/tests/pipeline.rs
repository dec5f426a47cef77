use pe_exports::error::PeError;
use pe_exports::extract::extract_export_names;

// Layout of the synthetic PE32+ fixture:
//   0x000  "MZ", e_lfanew = 0x40 at 0x3C
//   0x040  "PE", 1 section, optional header of 0xF0 bytes, magic 0x020B,
//          export directory entry (RVA 0x1000, size 0x3B) at 0xC8
//   0x148  one 40-byte section record: VA 0x1000, size 0x200, raw ptr 0x200
//   0x200  export directory: name-table RVA 0x1030 at +0x0C, 2 names at +0x18
//   0x230  "Alpha\0Beta\0"
const E_LFANEW: usize = 0x40;
const OPT_SIZE: u16 = 0xF0;
const SECTION_TABLE: usize = 0x148;
const EXPORT_FOA: usize = 0x200;
const EXPORT_RVA: u32 = 0x1000;
const EXPORT_SIZE: u32 = 0x3B;
const NAMES_RVA: u32 = 0x1030;
const NAMES_FOA: usize = 0x230;

fn put_u16(d: &mut [u8], off: usize, v: u16) {
    d[off] = (v & 0xFF) as u8;
    d[off + 1] = (v >> 8) as u8;
}

fn put_u32(d: &mut [u8], off: usize, v: u32) {
    d[off] = (v & 0xFF) as u8;
    d[off + 1] = ((v >> 8) & 0xFF) as u8;
    d[off + 2] = ((v >> 16) & 0xFF) as u8;
    d[off + 3] = ((v >> 24) & 0xFF) as u8;
}

/// A well-formed single-section PE32+ image exporting "Alpha" and "Beta".
fn build_image() -> Vec<u8> {
    let mut d = vec![0u8; EXPORT_FOA + EXPORT_SIZE as usize];
    d[0] = 0x4D;
    d[1] = 0x5A;
    put_u32(&mut d, 0x3C, E_LFANEW as u32);
    d[E_LFANEW] = 0x50;
    d[E_LFANEW + 1] = 0x45;
    put_u16(&mut d, E_LFANEW + 0x06, 1);
    put_u16(&mut d, E_LFANEW + 0x14, OPT_SIZE);
    d[E_LFANEW + 0x18] = 0x0B;
    d[E_LFANEW + 0x19] = 0x02;
    put_u32(&mut d, E_LFANEW + 0x88, EXPORT_RVA);
    put_u32(&mut d, E_LFANEW + 0x8C, EXPORT_SIZE);
    put_u32(&mut d, SECTION_TABLE + 0x0C, 0x1000);
    put_u32(&mut d, SECTION_TABLE + 0x10, 0x200);
    put_u32(&mut d, SECTION_TABLE + 0x14, 0x200);
    put_u32(&mut d, EXPORT_FOA + 0x0C, NAMES_RVA);
    put_u32(&mut d, EXPORT_FOA + 0x18, 2);
    for (i, b) in b"Alpha\0Beta\0".iter().enumerate() {
        d[NAMES_FOA + i] = *b;
    }
    d
}

#[test]
fn end_to_end_alpha_beta() {
    let d = build_image();
    let names = extract_export_names(&d).unwrap();
    assert_eq!(names, vec!["Alpha".to_string(), "Beta".to_string()]);
}

#[test]
fn names_keep_table_order_and_count() {
    // Deliberately unsorted names: the decoder must not sort or drop any.
    let blob = b"Zeta\0Alpha\0Mid\0";
    let mut d = build_image();
    d.resize(NAMES_FOA + blob.len(), 0);
    put_u32(&mut d, E_LFANEW + 0x8C, (NAMES_FOA - EXPORT_FOA + blob.len()) as u32);
    put_u32(&mut d, EXPORT_FOA + 0x18, 3);
    for (i, b) in blob.iter().enumerate() {
        d[NAMES_FOA + i] = *b;
    }
    let names = extract_export_names(&d).unwrap();
    assert_eq!(names.len(), 3);
    assert_eq!(names, vec!["Zeta", "Alpha", "Mid"]);
    for n in &names {
        assert!(!n.contains('\u{0}'));
    }
}

#[test]
fn missing_mz_signature() {
    let mut d = build_image();
    d[0] = 0x4E;
    d[1] = 0x5B;
    d.truncate(64);
    assert_eq!(extract_export_names(&d), Err(PeError::InvalidDosHeader));
}

#[test]
fn empty_and_tiny_files() {
    assert_eq!(extract_export_names(&Vec::new()), Err(PeError::InvalidDosHeader));
    assert_eq!(extract_export_names(&vec![0x4D]), Err(PeError::InvalidDosHeader));
    // A valid MZ signature but no room for the rest of the DOS header.
    let mut d = build_image();
    d.truncate(0x20);
    assert_eq!(extract_export_names(&d), Err(PeError::IoError));
}

#[test]
fn missing_pe_signature() {
    let mut d = build_image();
    d[E_LFANEW] = 0x51;
    assert_eq!(extract_export_names(&d), Err(PeError::InvalidNtHeader));
}

#[test]
fn zero_optional_header() {
    let mut d = build_image();
    put_u16(&mut d, E_LFANEW + 0x14, 0);
    assert_eq!(extract_export_names(&d), Err(PeError::MissingOptionalHeader));
}

#[test]
fn pe32_image_rejected() {
    // The 32-bit optional header magic is 0x010B: never decoded best-effort.
    let mut d = build_image();
    d[E_LFANEW + 0x18] = 0x0B;
    d[E_LFANEW + 0x19] = 0x01;
    assert_eq!(extract_export_names(&d), Err(PeError::UnsupportedImageFormat));
}

#[test]
fn no_export_table() {
    let mut d = build_image();
    put_u32(&mut d, E_LFANEW + 0x88, 0);
    assert_eq!(extract_export_names(&d), Err(PeError::NoExportTable));
    let mut d = build_image();
    put_u32(&mut d, E_LFANEW + 0x8C, 0);
    assert_eq!(extract_export_names(&d), Err(PeError::NoExportTable));
}

#[test]
fn section_table_past_end_of_file() {
    let mut d = build_image();
    d.truncate(0x100);
    assert_eq!(extract_export_names(&d), Err(PeError::IoError));
}

#[test]
fn export_rva_outside_all_sections() {
    // An export RVA no section contains must fail, never fall back to a
    // sentinel offset.
    let mut d = build_image();
    put_u32(&mut d, E_LFANEW + 0x88, 0x9000);
    assert_eq!(extract_export_names(&d), Err(PeError::RvaTranslationFailed));
}

#[test]
fn name_table_rva_outside_all_sections() {
    let mut d = build_image();
    put_u32(&mut d, EXPORT_FOA + 0x0C, 0x9000);
    assert_eq!(extract_export_names(&d), Err(PeError::RvaTranslationFailed));
}

#[test]
fn number_of_names_exceeds_blob() {
    let mut d = build_image();
    put_u32(&mut d, EXPORT_FOA + 0x18, 1000);
    assert_eq!(extract_export_names(&d), Err(PeError::TruncatedNameTable));
}

#[test]
fn name_table_offset_past_buffer() {
    // The name-table RVA translates fine but lands beyond the buffered
    // export-directory span.
    let mut d = build_image();
    put_u32(&mut d, EXPORT_FOA + 0x0C, 0x1100);
    assert_eq!(extract_export_names(&d), Err(PeError::TruncatedNameTable));
}

#[test]
fn export_directory_too_small_for_fields() {
    let mut d = build_image();
    put_u32(&mut d, E_LFANEW + 0x8C, 0x10);
    assert_eq!(extract_export_names(&d), Err(PeError::TruncatedNameTable));
}

#[test]
fn export_directory_past_end_of_file() {
    let mut d = build_image();
    d.truncate(EXPORT_FOA + 0x20);
    assert_eq!(extract_export_names(&d), Err(PeError::IoError));
}

#[test]
fn extraction_is_idempotent() {
    let d = build_image();
    let first = extract_export_names(&d);
    let second = extract_export_names(&d);
    assert_eq!(first, second);
    let bad = {
        let mut b = build_image();
        b[0] = 0;
        b
    };
    assert_eq!(extract_export_names(&bad), extract_export_names(&bad));
}

#[test]
fn error_messages() {
    assert_eq!(PeError::InvalidDosHeader.message(), "Wrong DOS header");
    assert_eq!(PeError::InvalidNtHeader.message(), "Wrong NT header");
    assert_eq!(PeError::MissingOptionalHeader.message(), "No optional header");
    assert_eq!(PeError::UnsupportedImageFormat.message(), "PE64 magic mismatch");
    assert_eq!(PeError::NoExportTable.message(), "No exports");
    assert_eq!(PeError::RvaTranslationFailed.message(), "Can't convert RVA to FOA");
    assert_eq!(PeError::TruncatedNameTable.message(), "Truncated name table");
    assert_eq!(PeError::IoError.message(), "Failed to read");
}
