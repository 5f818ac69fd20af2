use pe::pe_structs::{
    IMAGE_DATA_DIRECTORY, IMAGE_DOS_HEADER, IMAGE_FILE_HEADER, IMAGE_LINKER_VERSION,
    IMAGE_OPTIONAL_HEADER32, IMAGE_SECTION_HEADER, IMAGE_VERSION,
};
use pe::pe_structs_wrapper::optional_header::OptionalHeaderInner;
use pe::report::{
    dos_header_fields, file_header_fields, optional_header32_fields, optional_header_fields,
    section_columns, section_row, Field, Report,
};

fn file_header(characteristics: u16, machine: u16) -> IMAGE_FILE_HEADER {
    IMAGE_FILE_HEADER {
        Machine: machine,
        NumberOfSections: 3,
        TimeDateStamp: 0x5F00_0000,
        PointerToSymbolTable: 0,
        NumberOfSymbols: 12,
        SizeOfOptionalHeader: 0xE0,
        Characteristics: characteristics,
    }
}

fn note_of(fields: &[Field], name: &str) -> Option<String> {
    fields.iter().find(|f| f.name == name).unwrap().note.clone()
}

fn value_of(fields: &[Field], name: &str) -> String {
    fields.iter().find(|f| f.name == name).unwrap().value.clone()
}

#[test]
fn file_header_rows_format_values_and_notes() {
    let f = file_header_fields(&file_header(0x0022, 0x8664));
    assert_eq!(f.len(), 7);
    assert_eq!(f[0].name, "Machine");
    assert_eq!(f[0].value, "0x8664");
    assert_eq!(f[0].note.as_deref(), Some("AMD64"));
    assert_eq!(value_of(&f, "NumberOfSections"), "3");
    assert_eq!(value_of(&f, "TimeDateStamp"), "0x5F000000");
    assert_eq!(value_of(&f, "NumberOfSymbols"), "12");
    assert_eq!(value_of(&f, "SizeOfOptionalHeader"), "0x00E0");
    assert_eq!(
        note_of(&f, "Characteristics").as_deref(),
        Some("EXECUTABLE_IMAGE | LARGE_ADDRESS_AWARE")
    );
    assert!(note_of(&f, "TimeDateStamp").is_none());
}

#[test]
fn machine_names() {
    assert_eq!(file_header_fields(&file_header(0, 0x014c))[0].note.as_deref(), Some("I386"));
    assert_eq!(file_header_fields(&file_header(0, 0x0200))[0].note.as_deref(), Some("IA64"));
    assert_eq!(file_header_fields(&file_header(0, 0x1234))[0].note.as_deref(), Some("UNKNOWN"));
}

#[test]
fn flags_without_names_and_leftovers() {
    let none = file_header_fields(&file_header(0, 0x8664));
    assert_eq!(note_of(&none, "Characteristics").as_deref(), Some("(none)"));
    let leftover = file_header_fields(&file_header(0x0042, 0x8664));
    assert_eq!(
        note_of(&leftover, "Characteristics").as_deref(),
        Some("EXECUTABLE_IMAGE | 0x00000040")
    );
    let only_leftover = file_header_fields(&file_header(0x0040, 0x8664));
    assert_eq!(note_of(&only_leftover, "Characteristics").as_deref(), Some("0x00000040"));
}

fn dos_header(magic: u16) -> IMAGE_DOS_HEADER {
    IMAGE_DOS_HEADER {
        e_magic: magic,
        e_cblp: 0x90,
        e_cp: 3,
        e_crlc: 0,
        e_cparhdr: 4,
        e_minalloc: 0,
        e_maxalloc: 0xFFFF,
        e_ss: 0,
        e_sp: 0xB8,
        e_csum: 0,
        e_ip: 0,
        e_cs: 0,
        e_lfarlc: 0x40,
        e_ovno: 0,
        e_res: [0; 4],
        e_oemid: 0,
        e_oeminfo: 0,
        e_res2: [0; 10],
        e_lfanew: 0xF8,
    }
}

#[test]
fn dos_header_rows() {
    let f = dos_header_fields(&dos_header(0x5A4D));
    assert_eq!(f.len(), 17);
    assert_eq!(f[0].value, "0x5A4D");
    assert_eq!(f[0].note.as_deref(), Some("\"MZ\""));
    assert_eq!(value_of(&f, "e_cblp"), "0x0090");
    assert_eq!(value_of(&f, "e_maxalloc"), "0xFFFF");
    assert_eq!(value_of(&f, "e_lfanew"), "0x000000F8");
    assert_eq!(note_of(&f, "e_lfanew").as_deref(), Some("file offset of NT headers"));
    let bad = dos_header_fields(&dos_header(0x4D5A));
    assert_eq!(bad[0].note.as_deref(), Some("invalid"));
}

fn optional_header32() -> IMAGE_OPTIONAL_HEADER32 {
    IMAGE_OPTIONAL_HEADER32 {
        Magic: 0x10b,
        LinkerVersion: IMAGE_LINKER_VERSION { Major: 9, Minor: 12 },
        SizeOfCode: 0x1000,
        SizeOfInitializedData: 0x200,
        SizeOfUninitializedData: 0,
        AddressOfEntryPoint: 0x1234,
        BaseOfCode: 0x1000,
        BaseOfData: 0x2000,
        ImageBase: 0x40_0000,
        SectionAlignment: 0x1000,
        FileAlignment: 0x200,
        OperatingSystemVersion: IMAGE_VERSION { Major: 5, Minor: 1 },
        ImageVersion: IMAGE_VERSION { Major: 0, Minor: 0 },
        SubsystemVersion: IMAGE_VERSION { Major: 10, Minor: 0 },
        Win32VersionValue: 0,
        SizeOfImage: 0x5000,
        SizeOfHeaders: 0x400,
        CheckSum: 0,
        Subsystem: 2,
        DllCharacteristics: 0x0140,
        SizeOfStackReserve: 0x10_0000,
        SizeOfStackCommit: 0x1000,
        SizeOfHeapReserve: 0x10_0000,
        SizeOfHeapCommit: 0x1000,
        LoaderFlags: 0,
        NumberOfRvaAndSizes: 16,
        DataDirectory: [IMAGE_DATA_DIRECTORY { VirtualAddress: 0, Size: 0 }; 16],
    }
}

#[test]
fn optional_header32_rows() {
    let h = optional_header32();
    let f = optional_header32_fields(&h);
    assert_eq!(f.len(), 26);
    assert_eq!(note_of(&f, "Magic").as_deref(), Some("PE32"));
    assert_eq!(value_of(&f, "LinkerVersion"), "9.12");
    assert_eq!(value_of(&f, "BaseOfData"), "0x00002000");
    assert_eq!(value_of(&f, "ImageBase"), "0x00400000");
    assert_eq!(value_of(&f, "OperatingSystemVersion"), "5.1");
    assert_eq!(note_of(&f, "Subsystem").as_deref(), Some("WINDOWS_GUI"));
    assert_eq!(note_of(&f, "DllCharacteristics").as_deref(), Some("DYNAMIC_BASE | NX_COMPAT"));
    assert_eq!(value_of(&f, "NumberOfRvaAndSizes"), "16");
    let g = optional_header_fields(&OptionalHeaderInner::Pe32(h));
    assert_eq!(g.len(), 26);
    assert_eq!(g[8].value, "0x00400000");
}

#[test]
fn subsystem_names() {
    let mut h = optional_header32();
    for (code, name) in [(0u16, "UNKNOWN"), (3, "WINDOWS_CUI"), (10, "EFI_APPLICATION"), (16, "WINDOWS_BOOT_APPLICATION"), (15, "UNKNOWN")] {
        h.Subsystem = code;
        assert_eq!(note_of(&optional_header32_fields(&h), "Subsystem").as_deref(), Some(name));
    }
}

#[test]
fn section_rows_align_with_columns() {
    let mut name = [0u8; 8];
    name[..5].copy_from_slice(b".data");
    let s = IMAGE_SECTION_HEADER {
        Name: name,
        VirtualSize: 0x123,
        VirtualAddress: 0x3000,
        SizeOfRawData: 0x200,
        PointerToRawData: 0x1400,
        PointerToRelocations: 0,
        PointerToLinenumbers: 0,
        NumberOfRelocations: 0,
        NumberOfLinenumbers: 0,
        Characteristics: 0xC000_0040,
    };
    let row = section_row(&s);
    assert_eq!(
        row,
        vec![
            ".data".to_string(),
            "0x00003000".to_string(),
            "0x00000123".to_string(),
            "0x00000200".to_string(),
            "0x00001400".to_string(),
            "CNT_INITIALIZED_DATA | MEM_READ | MEM_WRITE".to_string(),
        ]
    );
    assert_eq!(row.len(), section_columns().len());
    assert_eq!(section_columns()[0], "Name");
}

#[test]
fn section_name_uses_all_eight_bytes_without_nul() {
    let s = IMAGE_SECTION_HEADER {
        Name: *b"ABCDEFGH",
        VirtualSize: 0,
        VirtualAddress: 0,
        SizeOfRawData: 0,
        PointerToRawData: 0,
        PointerToRelocations: 0,
        PointerToLinenumbers: 0,
        NumberOfRelocations: 0,
        NumberOfLinenumbers: 0,
        Characteristics: 0,
    };
    let row = section_row(&s);
    assert_eq!(row[0], "ABCDEFGH");
    assert_eq!(row[5], "(none)");
}

#[test]
fn report_from_fields_has_field_value_note_columns() {
    let fields = vec![
        Field { name: "A", value: "1".to_string(), note: None },
        Field { name: "B", value: "2".to_string(), note: Some("two".to_string()) },
    ];
    let r = Report::from_fields("T", fields);
    assert_eq!(r.title, "T");
    assert_eq!(r.headers, vec!["Field", "Value", "Note"]);
    assert_eq!(r.rows, vec![vec!["A", "1", ""], vec!["B", "2", "two"]]);
}

#[test]
fn report_new_keeps_headers_and_rows() {
    let rows = vec![vec!["x".to_string(), "y".to_string()]];
    let r = Report::new("Title", &["H1", "H2"], rows.clone());
    assert_eq!(r.title, "Title");
    assert_eq!(r.headers, vec!["H1", "H2"]);
    assert_eq!(r.rows, rows);
}
