use pe::data_source::{DataSource, DataSourceError, DataSourceExt, FileDataSource};
use pe::pe::ParseError;
use pe::pe_structs_wrapper::{ExportEntry, ImageBase, ImportEntry};
use pe::listing::{import_entry_text, import_heading, imports_listing};
use pe::app_context::AppContext;
use pe::pe_structs_wrapper::NtHeaders;
use pe::PeFile;

fn put16(b: &mut [u8], at: usize, v: u16) {
    b[at..at + 2].copy_from_slice(&v.to_le_bytes());
}

fn put32(b: &mut [u8], at: usize, v: u32) {
    b[at..at + 4].copy_from_slice(&v.to_le_bytes());
}

fn put64(b: &mut [u8], at: usize, v: u64) {
    b[at..at + 8].copy_from_slice(&v.to_le_bytes());
}

fn put_str(b: &mut [u8], at: usize, s: &str) {
    b[at..at + s.len()].copy_from_slice(s.as_bytes());
    b[at + s.len()] = 0;
}

/// A PE32+ image in its in-memory layout: one `.text` section at RVA
/// 0x1000, an import directory at 0x1200 and an export directory at 0x1100.
fn memory_image() -> Vec<u8> {
    let mut b = vec![0u8; 0x1400];
    // DOS header
    b[0] = b'M';
    b[1] = b'Z';
    put32(&mut b, 60, 0x40);
    // NT headers
    let nt = 0x40;
    b[nt..nt + 4].copy_from_slice(b"PE\0\0");
    let fh = nt + 4;
    put16(&mut b, fh, 0x8664);
    put16(&mut b, fh + 2, 1);
    put32(&mut b, fh + 4, 0x1234_5678);
    put16(&mut b, fh + 16, 240);
    put16(&mut b, fh + 18, 0x0022);
    let oh = nt + 24;
    put16(&mut b, oh, 0x20b);
    b[oh + 2] = 14;
    b[oh + 3] = 0;
    put32(&mut b, oh + 4, 0x400);
    put32(&mut b, oh + 16, 0x1000);
    put32(&mut b, oh + 20, 0x1000);
    put64(&mut b, oh + 24, 0x1_4000_0000);
    put32(&mut b, oh + 32, 0x200);
    put32(&mut b, oh + 36, 0x200);
    put16(&mut b, oh + 40, 6);
    put16(&mut b, oh + 42, 1);
    put32(&mut b, oh + 56, 0x2000);
    put32(&mut b, oh + 60, 0x400);
    put16(&mut b, oh + 68, 3);
    put16(&mut b, oh + 70, 0x8160);
    put64(&mut b, oh + 72, 0x10_0000);
    put32(&mut b, oh + 108, 16);
    // data directories: export, then import
    put32(&mut b, oh + 112, 0x1100);
    put32(&mut b, oh + 116, 0x80);
    put32(&mut b, oh + 120, 0x1200);
    put32(&mut b, oh + 124, 0x28);
    // section table
    let st = nt + 264;
    b[st..st + 5].copy_from_slice(b".text");
    put32(&mut b, st + 8, 0x400);
    put32(&mut b, st + 12, 0x1000);
    put32(&mut b, st + 16, 0x400);
    put32(&mut b, st + 20, 0x400);
    put32(&mut b, st + 36, 0x6000_0020);
    // export directory
    let ed = 0x1100;
    put32(&mut b, ed + 12, 0x1180);
    put32(&mut b, ed + 16, 1);
    put32(&mut b, ed + 20, 2);
    put32(&mut b, ed + 24, 1);
    put32(&mut b, ed + 28, 0x1140);
    put32(&mut b, ed + 32, 0x1150);
    put32(&mut b, ed + 36, 0x1158);
    put32(&mut b, 0x1140, 0x1010);
    put32(&mut b, 0x1144, 0x1160);
    put32(&mut b, 0x1150, 0x1170);
    put16(&mut b, 0x1158, 0);
    put_str(&mut b, 0x1160, "OTHER.Func");
    put_str(&mut b, 0x1170, "MyFunc");
    put_str(&mut b, 0x1180, "test.dll");
    // import directory: one descriptor, then the all-zero one
    let id = 0x1200;
    put32(&mut b, id, 0x1240);
    put32(&mut b, id + 12, 0x1280);
    put32(&mut b, id + 16, 0x1260);
    put64(&mut b, 0x1240, 0x12A0);
    put64(&mut b, 0x1248, 0x8000_0000_0000_0005);
    put_str(&mut b, 0x1280, "KERNEL32.dll");
    put16(&mut b, 0x12A0, 1);
    put_str(&mut b, 0x12A2, "ExitProcess");
    b
}

/// The same image in its on-disk layout: the section's data at file
/// offset 0x400.
fn file_image() -> Vec<u8> {
    let m = memory_image();
    let mut f = m[..0x400].to_vec();
    f.extend_from_slice(&m[0x1000..0x1400]);
    f
}

fn open_memory() -> PeFile {
    let src: Box<dyn DataSource> = Box::new(memory_image());
    match PeFile::open_from_datasource(src) {
        Ok(pe) => pe,
        Err(e) => panic!("{}", e.to_string()),
    }
}

fn open_file() -> PeFile {
    let src: Box<dyn DataSource> =
        Box::new(FileDataSource::from_contents("on-disk.exe".to_string(), file_image()));
    match PeFile::open_from_datasource(src) {
        Ok(pe) => pe,
        Err(e) => panic!("{}", e.to_string()),
    }
}

#[test]
fn parses_headers_of_memory_image() {
    let pe = open_memory();
    assert_eq!(pe.dos_header().magic(), 0x5A4D);
    assert_eq!(pe.dos_header().e_lfanew(), 0x40);
    assert_eq!(pe.nt_headers().signature(), 0x4550);
    assert_eq!(pe.nt_headers().total_size(), 264);
    assert_eq!(pe.nt_headers().file_header().machine(), 0x8664);
    assert_eq!(pe.nt_headers().file_header().number_of_sections(), 1);
    assert_eq!(pe.nt_headers().file_header().time_date_stamp(), 0x1234_5678);
    assert!(pe.is_pe32_plus());
    assert_eq!(pe.address_of_entry_point(), 0x1000);
    let oh = pe.nt_headers().optional_header();
    assert_eq!(oh.magic(), 0x20b);
    assert_eq!(oh.linker_version(), (14, 0));
    assert_eq!(oh.operating_system_version(), (6, 1));
    assert_eq!(oh.size_of_image(), 0x2000);
    assert_eq!(oh.subsystem(), 3);
    assert_eq!(oh.base_of_data(), None);
    assert_eq!(oh.image_base().as_u64(), 0x1_4000_0000);
    assert_eq!(oh.size_of_stack_reserve().as_u64(), 0x10_0000);
    assert_eq!(oh.number_of_rva_and_sizes(), 16);
    assert_eq!(pe.data_source().url(), "");
}

#[test]
fn parses_sections_of_memory_image() {
    let pe = open_memory();
    let sections = pe.sections();
    assert_eq!(sections.len(), 1);
    assert!(!sections.is_empty());
    let text = &sections.sections()[0];
    assert_eq!(text.name(), ".text");
    assert_eq!(text.virtual_address(), 0x1000);
    assert_eq!(text.virtual_size(), 0x400);
    assert_eq!(text.raw_size(), 0x400);
    assert_eq!(text.raw_offset(), 0x400);
    assert_eq!(text.characteristics(), 0x6000_0020);
    assert_eq!(text.section_data().unwrap().len(), 0x400);
    assert!(sections.section_by_name(".text").is_some());
    assert!(sections.section_by_name(".data").is_none());
    assert_eq!(sections.RVA2FOA(0x1010), 0x410);
    assert_eq!(sections.RVA2FOA(0x13FF), 0x7FF);
    assert_eq!(sections.RVA2FOA(0x1400), 0);
    assert_eq!(sections.RVA2FOA(0x0FFF), 0);
    assert_eq!(pe.rva2foa(0x1200), 0x600);
}

#[test]
fn parses_imports_of_memory_image() {
    let pe = open_memory();
    let imports = pe.imports();
    assert_eq!(imports.len(), 1);
    assert_eq!(imports[0].dll_name(), "KERNEL32.dll");
    assert_eq!(imports[0].descriptor().FirstThunk, 0x1260);
    let entries = imports[0].import_name_table();
    assert_eq!(entries.len(), 2);
    assert!(matches!(&entries[0], ImportEntry::ImportByName(1, n) if n == "ExitProcess"));
    assert!(matches!(&entries[1], ImportEntry::ImportByOrdinal(5)));
}

#[test]
fn parses_export_of_memory_image() {
    let pe = open_memory();
    let export = pe.export().unwrap();
    assert_eq!(export.ordinal_base(), 1);
    assert_eq!(export.name_table().len(), 1);
    assert_eq!(export.name_table()[0].0, "MyFunc");
    assert_eq!(export.name_table()[0].1, 0);
    assert!(matches!(export.function_address_by_name("MyFunc"), Some(ExportEntry::FunctionAddress(0x1010))));
    assert!(export.function_address_by_name("Missing").is_none());
    assert!(matches!(export.function_address_by_ordinal(1), Some(ExportEntry::FunctionAddress(0x1010))));
    assert!(matches!(export.function_address_by_ordinal(2), Some(ExportEntry::FunctionForwarder(s)) if s == "OTHER.Func"));
    assert!(export.function_address_by_ordinal(0).is_none());
    assert!(export.function_address_by_ordinal(3).is_none());
}

#[test]
fn parses_file_aligned_image_through_section_table() {
    let pe = open_file();
    assert_eq!(pe.data_source().url(), "on-disk.exe");
    assert_eq!(pe.sections().sections()[0].section_data().unwrap().len(), 0x400);
    let imports = pe.imports();
    assert_eq!(imports.len(), 1);
    assert_eq!(imports[0].dll_name(), "KERNEL32.dll");
    let entries = imports[0].import_name_table();
    assert!(matches!(&entries[0], ImportEntry::ImportByName(1, n) if n == "ExitProcess"));
    let export = pe.export().unwrap();
    assert!(matches!(export.function_address_by_name("MyFunc"), Some(ExportEntry::FunctionAddress(0x410))));
    assert!(matches!(export.function_address_by_ordinal(2), Some(ExportEntry::FunctionForwarder(s)) if s == "OTHER.Func"));
}

#[test]
fn memory_image_without_import_address_table_binds_addresses() {
    let mut m = memory_image();
    // No lookup table: the entries come from the address table, which an
    // in-memory image holds as bound addresses.
    put32(&mut m, 0x1200, 0);
    put64(&mut m, 0x1260, 0x7FF0_1234);
    let src: Box<dyn DataSource> = Box::new(m);
    let pe = PeFile::open_from_datasource(src).ok().unwrap();
    let entries = pe.imports()[0].import_name_table();
    assert_eq!(entries.len(), 1);
    assert!(matches!(&entries[0], ImportEntry::FunctionAddress(0x7FF0_1234)));
}

#[test]
fn image_without_directories_has_no_imports_or_export() {
    let mut m = memory_image();
    for k in 0..16 {
        put32(&mut m, 0x40 + 24 + 112 + k, 0);
    }
    let src: Box<dyn DataSource> = Box::new(m);
    let pe = PeFile::open_from_datasource(src).ok().unwrap();
    assert!(pe.imports().is_empty());
    assert!(pe.export().is_none());
}

fn open_err(bytes: Vec<u8>) -> ParseError {
    let src: Box<dyn DataSource> = Box::new(bytes);
    match PeFile::open_from_datasource(src) {
        Ok(_) => panic!("parsed"),
        Err(e) => e,
    }
}

#[test]
fn too_small_source_is_rejected() {
    let e = open_err(vec![b'M', b'Z', 0, 0]);
    assert!(matches!(e, ParseError::TooSmall(4)));
    assert_eq!(e.to_string(), "PE data too small: 4 bytes (need at least 64)");
}

#[test]
fn bad_dos_magic_is_rejected() {
    let mut m = memory_image();
    m[0] = b'Z';
    m[1] = b'M';
    let e = open_err(m);
    match &e {
        ParseError::InvalidMagic { expected, found } => {
            assert_eq!(*expected, "MZ");
            assert_eq!(found, "0x4D5A");
        }
        _ => panic!("wrong error"),
    }
    assert_eq!(e.to_string(), "invalid DOS magic: expected \"MZ\", got \"0x4D5A\"");
}

#[test]
fn bad_nt_signature_is_rejected() {
    let mut m = memory_image();
    m[0x40] = b'N';
    m[0x41] = b'E';
    let e = open_err(m);
    match e {
        ParseError::InvalidMagic { expected, found } => {
            assert_eq!(expected, "PE\\0\\0");
            assert_eq!(found, "0x0000454E");
        }
        _ => panic!("wrong error"),
    }
}

#[test]
fn bad_optional_magic_is_rejected() {
    let mut m = memory_image();
    put16(&mut m, 0x40 + 24, 0x107);
    let e = open_err(m);
    match e {
        ParseError::InvalidMagic { expected, found } => {
            assert_eq!(expected, "0x10b or 0x20b or 0x107");
            assert_eq!(found, "0x0107");
        }
        _ => panic!("wrong error"),
    }
}

#[test]
fn nt_headers_past_the_end_are_too_small() {
    let mut m = memory_image();
    put32(&mut m, 60, 0x13F0);
    let e = open_err(m);
    assert!(matches!(e, ParseError::TooSmall(0x1400)));
}

#[test]
fn truncated_section_data_is_an_out_of_bounds_read() {
    let m = memory_image();
    let e = open_err(m[..0x1200].to_vec());
    assert_eq!(e.to_string(), "read out of bounds: offset=4096, length=1024, source_len=4608");
    match e {
        ParseError::DataSource(DataSourceError::OutOfBounds { offset, length, source_len }) => {
            assert_eq!(offset, 0x1000);
            assert_eq!(length, 0x400);
            assert_eq!(source_len, Some(0x1200));
        }
        _ => panic!("wrong error"),
    }
}

#[test]
fn pe32_image_has_base_of_data() {
    let mut b = vec![0u8; 0x200];
    b[0] = b'M';
    b[1] = b'Z';
    put32(&mut b, 60, 0x40);
    b[0x40..0x44].copy_from_slice(b"PE\0\0");
    put16(&mut b, 0x44, 0x014c);
    put16(&mut b, 0x44 + 16, 224);
    let oh = 0x58;
    put16(&mut b, oh, 0x10b);
    put32(&mut b, oh + 16, 0x2000);
    put32(&mut b, oh + 24, 0x3000);
    put32(&mut b, oh + 28, 0x40_0000);
    let src: Box<dyn DataSource> = Box::new(b);
    let pe = PeFile::open_from_datasource(src).ok().unwrap();
    assert!(!pe.is_pe32_plus());
    let oh = pe.nt_headers().optional_header();
    assert_eq!(oh.magic(), 0x10b);
    assert_eq!(oh.base_of_data(), Some(0x3000));
    assert!(matches!(oh.image_base(), ImageBase::U32(0x40_0000)));
    assert_eq!(oh.image_base().to_hex_string(), "0x0000000000400000");
    assert_eq!(pe.nt_headers().total_size(), 248);
    assert!(pe.sections().is_empty());
    assert_eq!(pe.sections_report().rows.len(), 0);
}

#[test]
fn memory_image_reads_back_through_extension() {
    let m = memory_image();
    assert_eq!(m.read_u16(0).unwrap(), 0x5A4D);
    assert_eq!(m.read_ascii(0x1280, 16).unwrap(), "KERNEL32.dll");
    assert_eq!(m.checked_read_u64(0x1248), Some(0x8000_0000_0000_0005));
}

#[test]
fn reports_of_memory_image() {
    let pe = open_memory();
    let dos = pe.dos_header_report();
    assert_eq!(dos.title, "DOS Header");
    assert_eq!(dos.headers, vec!["Field", "Value", "Note"]);
    assert_eq!(dos.rows[0], vec!["e_magic", "0x5A4D", "\"MZ\""]);
    let fh = pe.file_header_report();
    assert_eq!(fh.title, "File Header");
    assert_eq!(fh.rows[0], vec!["Machine", "0x8664", "AMD64"]);
    assert_eq!(fh.rows[6], vec!["Characteristics", "0x0022", "EXECUTABLE_IMAGE | LARGE_ADDRESS_AWARE"]);
    let oh = pe.optional_header_report();
    assert_eq!(oh.title, "Optional Header");
    assert_eq!(oh.rows.len(), 25);
    assert_eq!(oh.rows[0], vec!["Magic", "0x020B", "PE32+"]);
    assert_eq!(oh.rows[1], vec!["LinkerVersion", "14.0", ""]);
    assert_eq!(oh.rows[7], vec!["ImageBase", "0x0000000140000000", ""]);
    assert_eq!(
        oh.rows[18],
        vec!["DllCharacteristics", "0x8160", "HIGH_ENTROPY_VA | DYNAMIC_BASE | NX_COMPAT | TERMINAL_SERVER_AWARE"]
    );
    let secs = pe.sections_report();
    assert_eq!(secs.title, "Sections");
    assert_eq!(secs.headers, vec!["Name", "VirtAddr", "VirtSize", "RawSize", "RawPtr", "Characteristics"]);
    assert_eq!(
        secs.rows,
        vec![vec![".text", "0x00001000", "0x00000400", "0x00000400", "0x00000400", "CNT_CODE | MEM_EXECUTE | MEM_READ"]]
    );
}

#[test]
fn import_listing_of_memory_image() {
    let pe = open_memory();
    let lines = imports_listing(pe.imports());
    assert_eq!(
        lines,
        vec![
            "=== Imports ===".to_string(),
            "  [KERNEL32.dll]  (2 functions)".to_string(),
            "    ExitProcess".to_string(),
            "    (ord 5)".to_string(),
        ]
    );
    assert_eq!(import_heading(&pe.imports()[0]), "[KERNEL32.dll]  (2 functions)");
}

#[test]
fn import_listing_shows_bound_addresses_in_lower_case_hex() {
    let mut m = memory_image();
    put32(&mut m, 0x1200, 0);
    put64(&mut m, 0x1260, 0x7FF0_ABCD);
    let src: Box<dyn DataSource> = Box::new(m);
    let pe = PeFile::open_from_datasource(src).ok().unwrap();
    let entries = pe.imports()[0].import_name_table();
    assert_eq!(import_entry_text(&entries[0]), "<0x000000007ff0abcd>");
    assert_eq!(import_entry_text(&entries[0]), format!("<{:#018x}>", 0x7FF0_ABCDu64));
}

#[test]
fn import_listing_without_imports_says_none() {
    let mut m = memory_image();
    for k in 0..16 {
        put32(&mut m, 0x40 + 24 + 112 + k, 0);
    }
    let src: Box<dyn DataSource> = Box::new(m);
    let pe = PeFile::open_from_datasource(src).ok().unwrap();
    assert_eq!(
        imports_listing(pe.imports()),
        vec!["=== Imports ===".to_string(), "(none)".to_string()]
    );
}

#[test]
fn nt_headers_size_does_not_wrap() {
    let mut m = memory_image();
    put16(&mut m, 0x40 + 4 + 16, 0xFFF0);
    let nt = match NtHeaders::parse(&m, 0x40) {
        Ok(nt) => nt,
        Err(e) => panic!("{}", e.to_string()),
    };
    assert_eq!(nt.total_size(), 24 + 0xFFF0);
}

#[test]
fn current_url_is_that_of_the_shown_image() {
    let mut ctx = AppContext::default();
    ctx.set_current_pe(open_file());
    let shown = ctx.current_main_pe().as_ref().unwrap();
    assert_eq!(shown.data_source().url(), "on-disk.exe");
    assert_eq!(ctx.current_url().as_deref(), Some("on-disk.exe"));
}

#[test]
fn file_source_tells_too_small_apart_from_bad_magic() {
    let short: Box<dyn DataSource> =
        Box::new(FileDataSource::from_contents("s".to_string(), vec![0u8; 10]));
    assert!(matches!(PeFile::open_from_datasource(short).err().unwrap(), ParseError::TooSmall(10)));
    let zeros: Box<dyn DataSource> =
        Box::new(FileDataSource::from_contents("z".to_string(), vec![0u8; 64]));
    match PeFile::open_from_datasource(zeros).err().unwrap() {
        ParseError::InvalidMagic { found, .. } => assert_eq!(found, "0x0000"),
        _ => panic!("wrong error"),
    }
}

#[test]
fn truncated_file_fails_at_its_end() {
    let f = file_image();
    let src: Box<dyn DataSource> =
        Box::new(FileDataSource::from_contents("cut.exe".to_string(), f[..0x600].to_vec()));
    match PeFile::open_from_datasource(src).err().unwrap() {
        ParseError::DataSource(DataSourceError::OutOfBounds { offset, length, source_len }) => {
            assert_eq!(offset, 0x600);
            assert_eq!(length, 0x200);
            assert_eq!(source_len, Some(0x600));
        }
        e => panic!("{}", e.to_string()),
    }
}
