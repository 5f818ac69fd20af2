use pe::data_source::{DataSource, DataSourceError, DataSourceExt, FileDataSource};
use std::path::PathBuf;

#[test]
fn read_u32_from_slice() {
    let data = 0xDEAD_BEEFu32.to_le_bytes();
    let src: &[u8] = &data;
    assert_eq!(src.read_u32(0).unwrap(), 0xDEAD_BEEF);
}

#[test]
fn data_source_out_of_bounds() {
    let src: &[u8] = &[1, 2, 3];
    let err = src.read_u32(0).unwrap_err();
    assert!(matches!(err, DataSourceError::OutOfBounds { .. }));
}

#[test]
fn read_ascii_with_nul() {
    let raw = b"PE\0\0";
    let src: &[u8] = raw;
    assert_eq!(src.read_ascii(0, 4).unwrap(), "PE");
}

#[test]
fn read_utf16_le() {
    let raw: &[u8] = &[0x50, 0x00, 0x45, 0x00, 0x00, 0x00];
    assert_eq!(raw.read_utf16(0, 3).unwrap(), "PE");
}

#[test]
fn vec_u8_impl() {
    let data = vec![0x34, 0x12, 0x00, 0x00];
    assert_eq!(data.read_u16(0).unwrap(), 0x1234);
}

#[test]
fn file_not_found_error() {
    let err = DataSourceError::FileNotFound {
        path: PathBuf::from("foo.exe").display().to_string(),
    };
    assert_eq!(err.to_string(), "file not found: foo.exe");
}

#[test]
fn file_source_reads_its_contents() {
    let ds = FileDataSource::from_contents("test.pe".to_string(), b"MZ\x00\x00\x00\x00\x00\x00".to_vec());
    assert_eq!(ds.len(), Some(8));
    let mut buf = [0u8; 2];
    ds.read_exact(0, &mut buf).unwrap();
    assert_eq!(buf, [b'M', b'Z']);
    assert!(ds.is_file_aligned());
    assert_eq!(ds.image_base(), 0);
    assert_eq!(ds.url(), "test.pe");
}

#[test]
fn file_source_reads_at_an_offset() {
    let ds = FileDataSource::from_contents("t".to_string(), b"ABCDEFGH".to_vec());
    let mut buf = [0u8; 4];
    ds.read_exact(4, &mut buf).unwrap();
    assert_eq!(buf, [b'E', b'F', b'G', b'H']);
}

#[test]
fn file_source_read_past_the_end_is_out_of_bounds() {
    let ds = FileDataSource::from_contents("t".to_string(), b"1234".to_vec());
    let mut buf = [0u8; 8];
    let err = ds.read_exact(0, &mut buf).unwrap_err();
    // The read fills what the file holds, then fails at its end.
    assert!(matches!(
        err,
        DataSourceError::OutOfBounds { offset: 4, length: 4, source_len: Some(4) }
    ));
    assert_eq!(&buf[..4], b"1234");
    let err = ds.read_exact(6, &mut buf).unwrap_err();
    assert!(matches!(
        err,
        DataSourceError::OutOfBounds { offset: 6, length: 8, source_len: Some(4) }
    ));
    let mut empty = [0u8; 0];
    assert!(ds.read_exact(9, &mut empty).is_ok());
}

#[test]
fn buffer_read_past_the_end_names_the_whole_range() {
    let src: &[u8] = b"1234";
    let mut buf = [0u8; 8];
    let err = src.read_exact(2, &mut buf).unwrap_err();
    assert!(matches!(
        err,
        DataSourceError::OutOfBounds { offset: 2, length: 8, source_len: Some(4) }
    ));
    let mut empty = [0u8; 0];
    assert!(src.read_exact(9, &mut empty).is_err());
}

#[test]
fn text_reads_hold_no_nul() {
    let src: &[u8] = b"AB\0CD";
    let s = src.read_ascii(0, 5).unwrap();
    assert_eq!(s, "AB");
    assert!(!s.contains('\0'));
}
