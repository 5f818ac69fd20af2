use pe::app_context::{AppContext, Page};
use pe::data_source::{DataSource, DataSourceError, DataSourceExt};
use pe::pe::ParseError;
use pe::pe_structs_wrapper::align::align_up;
use pe::pe_structs_wrapper::ImageBase;
use pe::selection::ContentSelection;
use pe::text::{dec_string, hex_string};
use pe::PeFile;

#[test]
fn decimal_and_hex_renderings() {
    assert_eq!(dec_string(0), "0");
    assert_eq!(dec_string(1234567890), "1234567890");
    assert_eq!(dec_string(u64::MAX), "18446744073709551615");
    assert_eq!(hex_string(0x5A4D, 4), "0x5A4D");
    assert_eq!(hex_string(0xAB, 8), "0x000000AB");
    assert_eq!(hex_string(u64::MAX, 16), "0xFFFFFFFFFFFFFFFF");
}

#[test]
fn align_up_rounds_to_multiples() {
    assert_eq!(align_up(5, 4), 8);
    assert_eq!(align_up(8, 4), 8);
    assert_eq!(align_up(0, 0x200), 0);
    assert_eq!(align_up(0x201, 0x200), 0x400);
    assert_eq!(align_up(5, 0), 5);
    assert_eq!(align_up(5, 1), 5);
    assert_eq!(align_up(align_up(77, 16), 16), align_up(77, 16));
    assert_eq!(align_up(u64::MAX - 3, 4), u64::MAX - 3);
    assert_eq!(align_up(0xFFFF_FFFF_FFFF_FFE1, 16), 0xFFFF_FFFF_FFFF_FFF0);
}

#[test]
fn image_base_zero_extends() {
    assert_eq!(ImageBase::U32(0xFFFF_FFFF).as_u64(), 0xFFFF_FFFF);
    assert_eq!(ImageBase::U64(0x1_4000_0000).as_u64(), 0x1_4000_0000);
    assert_eq!(ImageBase::U64(0x1_4000_0000).to_hex_string(), "0x0000000140000000");
}

#[test]
fn out_of_bounds_error_describes_the_read() {
    let src: &[u8] = &[1, 2, 3];
    let err = src.read_u32(1).unwrap_err();
    assert!(matches!(err, DataSourceError::OutOfBounds { offset: 1, length: 4, source_len: Some(3) }));
    assert_eq!(err.to_string(), "read out of bounds: offset=1, length=4, source_len=3");
    let unknown = DataSourceError::OutOfBounds { offset: 9, length: 2, source_len: None };
    assert_eq!(unknown.to_string(), "read out of bounds: offset=9, length=2");
}

#[test]
fn io_errors_convert_and_describe() {
    let e: DataSourceError = std::io::Error::new(std::io::ErrorKind::Other, "boom").into();
    assert!(matches!(e, DataSourceError::Io(_)));
    assert_eq!(e.to_string(), "I/O error: boom");
    assert_eq!(e.source().map(|x| x.kind()), Some(std::io::ErrorKind::Other));
    let oob = DataSourceError::OutOfBounds { offset: 1, length: 2, source_len: None };
    assert!(oob.source().is_none());
    let p: ParseError = e.into();
    assert_eq!(p.to_string(), "I/O error: boom");
    assert_eq!(ParseError::Unknown.to_string(), "unknown PE data source error");
}

#[test]
fn slice_sources_know_their_length() {
    let v: Vec<u8> = vec![];
    assert_eq!(DataSource::len(&v), Some(0));
    assert!(v.is_empty());
    let s: &[u8] = &[1, 2];
    assert_eq!(DataSource::len(&s), Some(2));
    assert!(!DataSource::is_empty(&s));
    assert!(!s.is_file_aligned());
    assert_eq!(s.image_base(), 0);
}

#[test]
fn typed_reads() {
    let bytes: Vec<u8> = vec![1, 2, 3, 4, 5, 6, 7, 8, 9];
    assert_eq!(bytes.read_u64(1).unwrap(), 0x0908_0706_0504_0302);
    assert_eq!(bytes.read_bytes(7, 2).unwrap(), vec![8, 9]);
    assert!(bytes.read_bytes(8, 2).is_err());
    assert_eq!(bytes.read_array::<3>(0).unwrap(), [1, 2, 3]);
    assert_eq!(bytes.checked_read_u16(7), Some(0x0908));
    assert_eq!(bytes.checked_read_u32(6), None);
    assert_eq!(bytes.checked_read_u64(2), None);
    assert_eq!(bytes.checked_read_bytes(0, 1), Some(vec![1]));
    let mut buf = [0u8; 3];
    bytes.read_exact(6, &mut buf).unwrap();
    assert_eq!(buf, [7, 8, 9]);
}

#[test]
fn text_reads_stop_at_nul_or_limit() {
    let raw: &[u8] = b"ABCDEF";
    assert_eq!(raw.read_ascii(1, 3).unwrap(), "BCD");
    assert!(raw.read_ascii(4, 3).is_err());
    let utf16: &[u8] = &[0x41, 0x00, 0x42, 0x00];
    assert_eq!(utf16.read_utf16(0, 2).unwrap(), "AB");
    assert!(utf16.read_utf16(0, 3).is_err());
    let lossy: &[u8] = &[0x41, 0xFF, 0x00];
    assert_eq!(lossy.read_ascii(0, 3).unwrap(), "A\u{FFFD}");
}

#[test]
fn pages_have_labels() {
    assert_eq!(Page::default(), Page::DosHeader);
    assert_eq!(Page::DosHeader.label(), "DOS Header");
    assert_eq!(Page::NtHeaders.label(), "NT Headers");
    assert_eq!(Page::Sections.label(), "Sections");
    assert_eq!(Page::Imports.label(), "Imports");
    assert_eq!(Page::Exports.label(), "Exports");
}

fn tiny_pe32() -> Vec<u8> {
    let mut b = vec![0u8; 0x200];
    b[0] = b'M';
    b[1] = b'Z';
    b[60] = 0x40;
    b[0x40..0x44].copy_from_slice(b"PE\0\0");
    b[0x44 + 16] = 224;
    b[0x58] = 0x0b;
    b[0x59] = 0x01;
    b
}

#[test]
fn app_context_follows_the_current_image() {
    let mut ctx = AppContext::default();
    assert!(ctx.current_url().is_none());
    assert!(ctx.current_main_pe().is_none());
    let src: Box<dyn DataSource> = Box::new(tiny_pe32());
    let pe = PeFile::open_from_datasource(src).ok().unwrap();
    ctx.set_current_pe(pe);
    assert_eq!(ctx.current_url().as_deref(), Some(""));
    assert!(ctx.current_main_pe().is_some());
    ctx.clear_current_pe();
    assert!(ctx.current_url().is_none());
    assert!(ctx.current_main_pe().is_none());
}

fn no_selection() -> ContentSelection {
    ContentSelection {
        all: false,
        dos: false,
        nt: false,
        sections: false,
        data_directories: false,
        exports: false,
        imports: false,
        resources: false,
        exceptions: false,
        security: false,
        relocations: false,
        debug: false,
        tls: false,
        load_config: false,
    }
}

#[test]
fn empty_selection_shows_every_implemented_part() {
    let sel = no_selection();
    assert!(!sel.any_selected());
    assert!(sel.wants(sel.dos));
    assert!(sel.wants(sel.imports));
    assert!(sel.unimplemented_requested().is_empty());
}

#[test]
fn explicit_selection_shows_only_what_was_asked() {
    let sel = ContentSelection { sections: true, tls: true, resources: true, ..no_selection() };
    assert!(sel.any_selected());
    assert!(sel.wants(sel.sections));
    assert!(!sel.wants(sel.dos));
    assert_eq!(sel.unimplemented_requested(), vec!["resources", "tls"]);
}

#[test]
fn all_shows_every_part_and_reports_no_unimplemented_one() {
    let sel = ContentSelection { all: true, ..no_selection() };
    assert!(sel.wants(sel.dos));
    assert!(sel.wants(sel.nt));
    assert!(sel.unimplemented_requested().is_empty());
}
