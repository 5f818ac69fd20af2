//! The on-disk layouts of the PE structures, and their little-endian
//! decoding from raw bytes.
use crate::data_source::{get_u16, get_u32, get_u64, le_u16, le_u32, le_u64};
use vstd::prelude::*;

verus! {

/// `"MZ"`, the DOS header magic.
pub const IMAGE_DOS_SIGNATURE: u16 = 0x5A4D;
/// `"PE\0\0"`, the NT headers signature.
pub const IMAGE_NT_HEADERS_SIGNATURE: u32 = 0x0000_4550;
/// Optional header magic of a PE32 image.
pub const IMAGE_NT_OPTIONAL_HDR32_MAGIC: u16 = 0x10b;
/// Optional header magic of a PE32+ image.
pub const IMAGE_NT_OPTIONAL_HDR64_MAGIC: u16 = 0x20b;
/// Number of entries of the data directory table.
pub const IMAGE_NUMBEROF_DIRECTORY_ENTRIES: usize = 16;
/// Data directory index of the export directory.
pub const IMAGE_DIRECTORY_ENTRY_EXPORT: u16 = 0;
/// Data directory index of the import directory.
pub const IMAGE_DIRECTORY_ENTRY_IMPORT: u16 = 1;
/// Length of a section name.
pub const IMAGE_SIZEOF_SHORT_NAME: usize = 8;

pub const SIZE_OF_DOS_HEADER: u64 = 64;
pub const SIZE_OF_FILE_HEADER: u64 = 20;
pub const SIZE_OF_NT_HEADERS32: u64 = 248;
pub const SIZE_OF_NT_HEADERS64: u64 = 264;
pub const SIZE_OF_SECTION_HEADER: u64 = 40;
pub const SIZE_OF_IMPORT_DESCRIPTOR: u64 = 20;
pub const SIZE_OF_EXPORT_DIRECTORY: u64 = 40;

pub const IMAGE_FILE_MACHINE_I386: u16 = 0x014c;
pub const IMAGE_FILE_MACHINE_IA64: u16 = 0x0200;
pub const IMAGE_FILE_MACHINE_AMD64: u16 = 0x8664;

pub const IMAGE_SUBSYSTEM_UNKNOWN: u16 = 0;
pub const IMAGE_SUBSYSTEM_NATIVE: u16 = 1;
pub const IMAGE_SUBSYSTEM_WINDOWS_GUI: u16 = 2;
pub const IMAGE_SUBSYSTEM_WINDOWS_CUI: u16 = 3;
pub const IMAGE_SUBSYSTEM_OS2_CUI: u16 = 5;
pub const IMAGE_SUBSYSTEM_POSIX_CUI: u16 = 7;
pub const IMAGE_SUBSYSTEM_NATIVE_WINDOWS: u16 = 8;
pub const IMAGE_SUBSYSTEM_WINDOWS_CE_GUI: u16 = 9;
pub const IMAGE_SUBSYSTEM_EFI_APPLICATION: u16 = 10;
pub const IMAGE_SUBSYSTEM_EFI_BOOT_SERVICE_DRIVER: u16 = 11;
pub const IMAGE_SUBSYSTEM_EFI_RUNTIME_DRIVER: u16 = 12;
pub const IMAGE_SUBSYSTEM_EFI_ROM: u16 = 13;
pub const IMAGE_SUBSYSTEM_XBOX: u16 = 14;
pub const IMAGE_SUBSYSTEM_WINDOWS_BOOT_APPLICATION: u16 = 16;

pub const IMAGE_FILE_RELOCS_STRIPPED: u16 = 0x0001;
pub const IMAGE_FILE_EXECUTABLE_IMAGE: u16 = 0x0002;
pub const IMAGE_FILE_LINE_NUMS_STRIPPED: u16 = 0x0004;
pub const IMAGE_FILE_LOCAL_SYMS_STRIPPED: u16 = 0x0008;
pub const IMAGE_FILE_AGGRESIVE_WS_TRIM: u16 = 0x0010;
pub const IMAGE_FILE_LARGE_ADDRESS_AWARE: u16 = 0x0020;
pub const IMAGE_FILE_BYTES_REVERSED_LO: u16 = 0x0080;
pub const IMAGE_FILE_32BIT_MACHINE: u16 = 0x0100;
pub const IMAGE_FILE_DEBUG_STRIPPED: u16 = 0x0200;
pub const IMAGE_FILE_REMOVABLE_RUN_FROM_SWAP: u16 = 0x0400;
pub const IMAGE_FILE_NET_RUN_FROM_SWAP: u16 = 0x0800;
pub const IMAGE_FILE_SYSTEM: u16 = 0x1000;
pub const IMAGE_FILE_DLL: u16 = 0x2000;
pub const IMAGE_FILE_UP_SYSTEM_ONLY: u16 = 0x4000;
pub const IMAGE_FILE_BYTES_REVERSED_HI: u16 = 0x8000;

pub const IMAGE_DLLCHARACTERISTICS_HIGH_ENTROPY_VA: u16 = 0x0020;
pub const IMAGE_DLLCHARACTERISTICS_DYNAMIC_BASE: u16 = 0x0040;
pub const IMAGE_DLLCHARACTERISTICS_FORCE_INTEGRITY: u16 = 0x0080;
pub const IMAGE_DLLCHARACTERISTICS_NX_COMPAT: u16 = 0x0100;
pub const IMAGE_DLLCHARACTERISTICS_NO_ISOLATION: u16 = 0x0200;
pub const IMAGE_DLLCHARACTERISTICS_NO_SEH: u16 = 0x0400;
pub const IMAGE_DLLCHARACTERISTICS_NO_BIND: u16 = 0x0800;
pub const IMAGE_DLLCHARACTERISTICS_APPCONTAINER: u16 = 0x1000;
pub const IMAGE_DLLCHARACTERISTICS_WDM_DRIVER: u16 = 0x2000;
pub const IMAGE_DLLCHARACTERISTICS_GUARD_CF: u16 = 0x4000;
pub const IMAGE_DLLCHARACTERISTICS_TERMINAL_SERVER_AWARE: u16 = 0x8000;

pub const IMAGE_SCN_CNT_CODE: u32 = 0x0000_0020;
pub const IMAGE_SCN_CNT_INITIALIZED_DATA: u32 = 0x0000_0040;
pub const IMAGE_SCN_CNT_UNINITIALIZED_DATA: u32 = 0x0000_0080;
pub const IMAGE_SCN_LNK_INFO: u32 = 0x0000_0200;
pub const IMAGE_SCN_LNK_REMOVE: u32 = 0x0000_0800;
pub const IMAGE_SCN_LNK_COMDAT: u32 = 0x0000_1000;
pub const IMAGE_SCN_GPREL: u32 = 0x0000_8000;
pub const IMAGE_SCN_LNK_NRELOC_OVFL: u32 = 0x0100_0000;
pub const IMAGE_SCN_MEM_DISCARDABLE: u32 = 0x0200_0000;
pub const IMAGE_SCN_MEM_NOT_CACHED: u32 = 0x0400_0000;
pub const IMAGE_SCN_MEM_NOT_PAGED: u32 = 0x0800_0000;
pub const IMAGE_SCN_MEM_SHARED: u32 = 0x1000_0000;
pub const IMAGE_SCN_MEM_EXECUTE: u32 = 0x2000_0000;
pub const IMAGE_SCN_MEM_READ: u32 = 0x4000_0000;
pub const IMAGE_SCN_MEM_WRITE: u32 = 0x8000_0000;

/// One entry of the optional header's data directory table. (8 bytes on disk)
#[allow(non_camel_case_types, non_snake_case)]
#[derive(Clone, Copy, Debug)]
pub struct IMAGE_DATA_DIRECTORY {
    pub VirtualAddress: u32,
    pub Size: u32,
}

/// The `IMAGE_DATA_DIRECTORY` encoded at `b[i..i + 8]`.
pub open spec fn data_directory_at(b: Seq<u8>, i: int) -> IMAGE_DATA_DIRECTORY {
    IMAGE_DATA_DIRECTORY {
        VirtualAddress: le_u32(b, i + 0),
        Size: le_u32(b, i + 4),
    }
}

/// Decodes the `IMAGE_DATA_DIRECTORY` at `b[i..i + 8]`.
pub fn read_data_directory(b: &[u8], i: usize) -> (r: IMAGE_DATA_DIRECTORY)
    requires
        i + 8 <= b@.len(),
    ensures
        r == data_directory_at(b@, i as int),
{
    assert(b@.len() == b.len());
    IMAGE_DATA_DIRECTORY {
        VirtualAddress: get_u32(b, i + 0),
        Size: get_u32(b, i + 4),
    }
}

/// The linker's major and minor version. (2 bytes on disk)
#[allow(non_camel_case_types, non_snake_case)]
#[derive(Clone, Copy, Debug)]
pub struct IMAGE_LINKER_VERSION {
    pub Major: u8,
    pub Minor: u8,
}

/// The `IMAGE_LINKER_VERSION` encoded at `b[i..i + 2]`.
pub open spec fn linker_version_at(b: Seq<u8>, i: int) -> IMAGE_LINKER_VERSION {
    IMAGE_LINKER_VERSION {
        Major: b[i + 0],
        Minor: b[i + 1],
    }
}

/// Decodes the `IMAGE_LINKER_VERSION` at `b[i..i + 2]`.
pub fn read_linker_version(b: &[u8], i: usize) -> (r: IMAGE_LINKER_VERSION)
    requires
        i + 2 <= b@.len(),
    ensures
        r == linker_version_at(b@, i as int),
{
    assert(b@.len() == b.len());
    IMAGE_LINKER_VERSION {
        Major: b[i + 0],
        Minor: b[i + 1],
    }
}

/// A major and minor version pair. (4 bytes on disk)
#[allow(non_camel_case_types, non_snake_case)]
#[derive(Clone, Copy, Debug)]
pub struct IMAGE_VERSION {
    pub Major: u16,
    pub Minor: u16,
}

/// The `IMAGE_VERSION` encoded at `b[i..i + 4]`.
pub open spec fn version_at(b: Seq<u8>, i: int) -> IMAGE_VERSION {
    IMAGE_VERSION {
        Major: le_u16(b, i + 0),
        Minor: le_u16(b, i + 2),
    }
}

/// Decodes the `IMAGE_VERSION` at `b[i..i + 4]`.
pub fn read_version(b: &[u8], i: usize) -> (r: IMAGE_VERSION)
    requires
        i + 4 <= b@.len(),
    ensures
        r == version_at(b@, i as int),
{
    assert(b@.len() == b.len());
    IMAGE_VERSION {
        Major: get_u16(b, i + 0),
        Minor: get_u16(b, i + 2),
    }
}

/// The MS-DOS header at the start of every image. (64 bytes on disk)
#[allow(non_camel_case_types, non_snake_case)]
#[derive(Clone, Copy, Debug)]
pub struct IMAGE_DOS_HEADER {
    pub e_magic: u16,
    pub e_cblp: u16,
    pub e_cp: u16,
    pub e_crlc: u16,
    pub e_cparhdr: u16,
    pub e_minalloc: u16,
    pub e_maxalloc: u16,
    pub e_ss: u16,
    pub e_sp: u16,
    pub e_csum: u16,
    pub e_ip: u16,
    pub e_cs: u16,
    pub e_lfarlc: u16,
    pub e_ovno: u16,
    pub e_res: [u16; 4],
    pub e_oemid: u16,
    pub e_oeminfo: u16,
    pub e_res2: [u16; 10],
    pub e_lfanew: u32,
}

/// The `IMAGE_DOS_HEADER` encoded at `b[i..i + 64]`.
pub open spec fn dos_header_at(b: Seq<u8>, i: int) -> IMAGE_DOS_HEADER {
    IMAGE_DOS_HEADER {
        e_magic: le_u16(b, i + 0),
        e_cblp: le_u16(b, i + 2),
        e_cp: le_u16(b, i + 4),
        e_crlc: le_u16(b, i + 6),
        e_cparhdr: le_u16(b, i + 8),
        e_minalloc: le_u16(b, i + 10),
        e_maxalloc: le_u16(b, i + 12),
        e_ss: le_u16(b, i + 14),
        e_sp: le_u16(b, i + 16),
        e_csum: le_u16(b, i + 18),
        e_ip: le_u16(b, i + 20),
        e_cs: le_u16(b, i + 22),
        e_lfarlc: le_u16(b, i + 24),
        e_ovno: le_u16(b, i + 26),
        e_res: [le_u16(b, i + 28), le_u16(b, i + 30), le_u16(b, i + 32), le_u16(b, i + 34)],
        e_oemid: le_u16(b, i + 36),
        e_oeminfo: le_u16(b, i + 38),
        e_res2: [le_u16(b, i + 40), le_u16(b, i + 42), le_u16(b, i + 44), le_u16(b, i + 46), le_u16(b, i + 48), le_u16(b, i + 50), le_u16(b, i + 52), le_u16(b, i + 54), le_u16(b, i + 56), le_u16(b, i + 58)],
        e_lfanew: le_u32(b, i + 60),
    }
}

/// Decodes the `IMAGE_DOS_HEADER` at `b[i..i + 64]`.
pub fn read_dos_header(b: &[u8], i: usize) -> (r: IMAGE_DOS_HEADER)
    requires
        i + 64 <= b@.len(),
    ensures
        r == dos_header_at(b@, i as int),
{
    assert(b@.len() == b.len());
    IMAGE_DOS_HEADER {
        e_magic: get_u16(b, i + 0),
        e_cblp: get_u16(b, i + 2),
        e_cp: get_u16(b, i + 4),
        e_crlc: get_u16(b, i + 6),
        e_cparhdr: get_u16(b, i + 8),
        e_minalloc: get_u16(b, i + 10),
        e_maxalloc: get_u16(b, i + 12),
        e_ss: get_u16(b, i + 14),
        e_sp: get_u16(b, i + 16),
        e_csum: get_u16(b, i + 18),
        e_ip: get_u16(b, i + 20),
        e_cs: get_u16(b, i + 22),
        e_lfarlc: get_u16(b, i + 24),
        e_ovno: get_u16(b, i + 26),
        e_res: [get_u16(b, i + 28), get_u16(b, i + 30), get_u16(b, i + 32), get_u16(b, i + 34)],
        e_oemid: get_u16(b, i + 36),
        e_oeminfo: get_u16(b, i + 38),
        e_res2: [get_u16(b, i + 40), get_u16(b, i + 42), get_u16(b, i + 44), get_u16(b, i + 46), get_u16(b, i + 48), get_u16(b, i + 50), get_u16(b, i + 52), get_u16(b, i + 54), get_u16(b, i + 56), get_u16(b, i + 58)],
        e_lfanew: get_u32(b, i + 60),
    }
}

/// The COFF file header. (20 bytes on disk)
#[allow(non_camel_case_types, non_snake_case)]
#[derive(Clone, Copy, Debug)]
pub struct IMAGE_FILE_HEADER {
    pub Machine: u16,
    pub NumberOfSections: u16,
    pub TimeDateStamp: u32,
    pub PointerToSymbolTable: u32,
    pub NumberOfSymbols: u32,
    pub SizeOfOptionalHeader: u16,
    pub Characteristics: u16,
}

/// The `IMAGE_FILE_HEADER` encoded at `b[i..i + 20]`.
pub open spec fn file_header_at(b: Seq<u8>, i: int) -> IMAGE_FILE_HEADER {
    IMAGE_FILE_HEADER {
        Machine: le_u16(b, i + 0),
        NumberOfSections: le_u16(b, i + 2),
        TimeDateStamp: le_u32(b, i + 4),
        PointerToSymbolTable: le_u32(b, i + 8),
        NumberOfSymbols: le_u32(b, i + 12),
        SizeOfOptionalHeader: le_u16(b, i + 16),
        Characteristics: le_u16(b, i + 18),
    }
}

/// Decodes the `IMAGE_FILE_HEADER` at `b[i..i + 20]`.
pub fn read_file_header(b: &[u8], i: usize) -> (r: IMAGE_FILE_HEADER)
    requires
        i + 20 <= b@.len(),
    ensures
        r == file_header_at(b@, i as int),
{
    assert(b@.len() == b.len());
    IMAGE_FILE_HEADER {
        Machine: get_u16(b, i + 0),
        NumberOfSections: get_u16(b, i + 2),
        TimeDateStamp: get_u32(b, i + 4),
        PointerToSymbolTable: get_u32(b, i + 8),
        NumberOfSymbols: get_u32(b, i + 12),
        SizeOfOptionalHeader: get_u16(b, i + 16),
        Characteristics: get_u16(b, i + 18),
    }
}

/// The PE32 optional header. (224 bytes on disk)
#[allow(non_camel_case_types, non_snake_case)]
#[derive(Clone, Copy, Debug)]
pub struct IMAGE_OPTIONAL_HEADER32 {
    pub Magic: u16,
    pub LinkerVersion: IMAGE_LINKER_VERSION,
    pub SizeOfCode: u32,
    pub SizeOfInitializedData: u32,
    pub SizeOfUninitializedData: u32,
    pub AddressOfEntryPoint: u32,
    pub BaseOfCode: u32,
    pub BaseOfData: u32,
    pub ImageBase: u32,
    pub SectionAlignment: u32,
    pub FileAlignment: u32,
    pub OperatingSystemVersion: IMAGE_VERSION,
    pub ImageVersion: IMAGE_VERSION,
    pub SubsystemVersion: IMAGE_VERSION,
    pub Win32VersionValue: u32,
    pub SizeOfImage: u32,
    pub SizeOfHeaders: u32,
    pub CheckSum: u32,
    pub Subsystem: u16,
    pub DllCharacteristics: u16,
    pub SizeOfStackReserve: u32,
    pub SizeOfStackCommit: u32,
    pub SizeOfHeapReserve: u32,
    pub SizeOfHeapCommit: u32,
    pub LoaderFlags: u32,
    pub NumberOfRvaAndSizes: u32,
    pub DataDirectory: [IMAGE_DATA_DIRECTORY; 16],
}

/// The `IMAGE_OPTIONAL_HEADER32` encoded at `b[i..i + 224]`.
pub open spec fn optional_header32_at(b: Seq<u8>, i: int) -> IMAGE_OPTIONAL_HEADER32 {
    IMAGE_OPTIONAL_HEADER32 {
        Magic: le_u16(b, i + 0),
        LinkerVersion: linker_version_at(b, i + 2),
        SizeOfCode: le_u32(b, i + 4),
        SizeOfInitializedData: le_u32(b, i + 8),
        SizeOfUninitializedData: le_u32(b, i + 12),
        AddressOfEntryPoint: le_u32(b, i + 16),
        BaseOfCode: le_u32(b, i + 20),
        BaseOfData: le_u32(b, i + 24),
        ImageBase: le_u32(b, i + 28),
        SectionAlignment: le_u32(b, i + 32),
        FileAlignment: le_u32(b, i + 36),
        OperatingSystemVersion: version_at(b, i + 40),
        ImageVersion: version_at(b, i + 44),
        SubsystemVersion: version_at(b, i + 48),
        Win32VersionValue: le_u32(b, i + 52),
        SizeOfImage: le_u32(b, i + 56),
        SizeOfHeaders: le_u32(b, i + 60),
        CheckSum: le_u32(b, i + 64),
        Subsystem: le_u16(b, i + 68),
        DllCharacteristics: le_u16(b, i + 70),
        SizeOfStackReserve: le_u32(b, i + 72),
        SizeOfStackCommit: le_u32(b, i + 76),
        SizeOfHeapReserve: le_u32(b, i + 80),
        SizeOfHeapCommit: le_u32(b, i + 84),
        LoaderFlags: le_u32(b, i + 88),
        NumberOfRvaAndSizes: le_u32(b, i + 92),
        DataDirectory: [data_directory_at(b, i + 96), data_directory_at(b, i + 104), data_directory_at(b, i + 112), data_directory_at(b, i + 120), data_directory_at(b, i + 128), data_directory_at(b, i + 136), data_directory_at(b, i + 144), data_directory_at(b, i + 152), data_directory_at(b, i + 160), data_directory_at(b, i + 168), data_directory_at(b, i + 176), data_directory_at(b, i + 184), data_directory_at(b, i + 192), data_directory_at(b, i + 200), data_directory_at(b, i + 208), data_directory_at(b, i + 216)],
    }
}

/// Decodes the `IMAGE_OPTIONAL_HEADER32` at `b[i..i + 224]`.
pub fn read_optional_header32(b: &[u8], i: usize) -> (r: IMAGE_OPTIONAL_HEADER32)
    requires
        i + 224 <= b@.len(),
    ensures
        r == optional_header32_at(b@, i as int),
{
    assert(b@.len() == b.len());
    IMAGE_OPTIONAL_HEADER32 {
        Magic: get_u16(b, i + 0),
        LinkerVersion: read_linker_version(b, i + 2),
        SizeOfCode: get_u32(b, i + 4),
        SizeOfInitializedData: get_u32(b, i + 8),
        SizeOfUninitializedData: get_u32(b, i + 12),
        AddressOfEntryPoint: get_u32(b, i + 16),
        BaseOfCode: get_u32(b, i + 20),
        BaseOfData: get_u32(b, i + 24),
        ImageBase: get_u32(b, i + 28),
        SectionAlignment: get_u32(b, i + 32),
        FileAlignment: get_u32(b, i + 36),
        OperatingSystemVersion: read_version(b, i + 40),
        ImageVersion: read_version(b, i + 44),
        SubsystemVersion: read_version(b, i + 48),
        Win32VersionValue: get_u32(b, i + 52),
        SizeOfImage: get_u32(b, i + 56),
        SizeOfHeaders: get_u32(b, i + 60),
        CheckSum: get_u32(b, i + 64),
        Subsystem: get_u16(b, i + 68),
        DllCharacteristics: get_u16(b, i + 70),
        SizeOfStackReserve: get_u32(b, i + 72),
        SizeOfStackCommit: get_u32(b, i + 76),
        SizeOfHeapReserve: get_u32(b, i + 80),
        SizeOfHeapCommit: get_u32(b, i + 84),
        LoaderFlags: get_u32(b, i + 88),
        NumberOfRvaAndSizes: get_u32(b, i + 92),
        DataDirectory: [read_data_directory(b, i + 96), read_data_directory(b, i + 104), read_data_directory(b, i + 112), read_data_directory(b, i + 120), read_data_directory(b, i + 128), read_data_directory(b, i + 136), read_data_directory(b, i + 144), read_data_directory(b, i + 152), read_data_directory(b, i + 160), read_data_directory(b, i + 168), read_data_directory(b, i + 176), read_data_directory(b, i + 184), read_data_directory(b, i + 192), read_data_directory(b, i + 200), read_data_directory(b, i + 208), read_data_directory(b, i + 216)],
    }
}

/// The PE32+ optional header. (240 bytes on disk)
#[allow(non_camel_case_types, non_snake_case)]
#[derive(Clone, Copy, Debug)]
pub struct IMAGE_OPTIONAL_HEADER64 {
    pub Magic: u16,
    pub LinkerVersion: IMAGE_LINKER_VERSION,
    pub SizeOfCode: u32,
    pub SizeOfInitializedData: u32,
    pub SizeOfUninitializedData: u32,
    pub AddressOfEntryPoint: u32,
    pub BaseOfCode: u32,
    pub ImageBase: u64,
    pub SectionAlignment: u32,
    pub FileAlignment: u32,
    pub OperatingSystemVersion: IMAGE_VERSION,
    pub ImageVersion: IMAGE_VERSION,
    pub SubsystemVersion: IMAGE_VERSION,
    pub Win32VersionValue: u32,
    pub SizeOfImage: u32,
    pub SizeOfHeaders: u32,
    pub CheckSum: u32,
    pub Subsystem: u16,
    pub DllCharacteristics: u16,
    pub SizeOfStackReserve: u64,
    pub SizeOfStackCommit: u64,
    pub SizeOfHeapReserve: u64,
    pub SizeOfHeapCommit: u64,
    pub LoaderFlags: u32,
    pub NumberOfRvaAndSizes: u32,
    pub DataDirectory: [IMAGE_DATA_DIRECTORY; 16],
}

/// The `IMAGE_OPTIONAL_HEADER64` encoded at `b[i..i + 240]`.
pub open spec fn optional_header64_at(b: Seq<u8>, i: int) -> IMAGE_OPTIONAL_HEADER64 {
    IMAGE_OPTIONAL_HEADER64 {
        Magic: le_u16(b, i + 0),
        LinkerVersion: linker_version_at(b, i + 2),
        SizeOfCode: le_u32(b, i + 4),
        SizeOfInitializedData: le_u32(b, i + 8),
        SizeOfUninitializedData: le_u32(b, i + 12),
        AddressOfEntryPoint: le_u32(b, i + 16),
        BaseOfCode: le_u32(b, i + 20),
        ImageBase: le_u64(b, i + 24),
        SectionAlignment: le_u32(b, i + 32),
        FileAlignment: le_u32(b, i + 36),
        OperatingSystemVersion: version_at(b, i + 40),
        ImageVersion: version_at(b, i + 44),
        SubsystemVersion: version_at(b, i + 48),
        Win32VersionValue: le_u32(b, i + 52),
        SizeOfImage: le_u32(b, i + 56),
        SizeOfHeaders: le_u32(b, i + 60),
        CheckSum: le_u32(b, i + 64),
        Subsystem: le_u16(b, i + 68),
        DllCharacteristics: le_u16(b, i + 70),
        SizeOfStackReserve: le_u64(b, i + 72),
        SizeOfStackCommit: le_u64(b, i + 80),
        SizeOfHeapReserve: le_u64(b, i + 88),
        SizeOfHeapCommit: le_u64(b, i + 96),
        LoaderFlags: le_u32(b, i + 104),
        NumberOfRvaAndSizes: le_u32(b, i + 108),
        DataDirectory: [data_directory_at(b, i + 112), data_directory_at(b, i + 120), data_directory_at(b, i + 128), data_directory_at(b, i + 136), data_directory_at(b, i + 144), data_directory_at(b, i + 152), data_directory_at(b, i + 160), data_directory_at(b, i + 168), data_directory_at(b, i + 176), data_directory_at(b, i + 184), data_directory_at(b, i + 192), data_directory_at(b, i + 200), data_directory_at(b, i + 208), data_directory_at(b, i + 216), data_directory_at(b, i + 224), data_directory_at(b, i + 232)],
    }
}

/// Decodes the `IMAGE_OPTIONAL_HEADER64` at `b[i..i + 240]`.
pub fn read_optional_header64(b: &[u8], i: usize) -> (r: IMAGE_OPTIONAL_HEADER64)
    requires
        i + 240 <= b@.len(),
    ensures
        r == optional_header64_at(b@, i as int),
{
    assert(b@.len() == b.len());
    IMAGE_OPTIONAL_HEADER64 {
        Magic: get_u16(b, i + 0),
        LinkerVersion: read_linker_version(b, i + 2),
        SizeOfCode: get_u32(b, i + 4),
        SizeOfInitializedData: get_u32(b, i + 8),
        SizeOfUninitializedData: get_u32(b, i + 12),
        AddressOfEntryPoint: get_u32(b, i + 16),
        BaseOfCode: get_u32(b, i + 20),
        ImageBase: get_u64(b, i + 24),
        SectionAlignment: get_u32(b, i + 32),
        FileAlignment: get_u32(b, i + 36),
        OperatingSystemVersion: read_version(b, i + 40),
        ImageVersion: read_version(b, i + 44),
        SubsystemVersion: read_version(b, i + 48),
        Win32VersionValue: get_u32(b, i + 52),
        SizeOfImage: get_u32(b, i + 56),
        SizeOfHeaders: get_u32(b, i + 60),
        CheckSum: get_u32(b, i + 64),
        Subsystem: get_u16(b, i + 68),
        DllCharacteristics: get_u16(b, i + 70),
        SizeOfStackReserve: get_u64(b, i + 72),
        SizeOfStackCommit: get_u64(b, i + 80),
        SizeOfHeapReserve: get_u64(b, i + 88),
        SizeOfHeapCommit: get_u64(b, i + 96),
        LoaderFlags: get_u32(b, i + 104),
        NumberOfRvaAndSizes: get_u32(b, i + 108),
        DataDirectory: [read_data_directory(b, i + 112), read_data_directory(b, i + 120), read_data_directory(b, i + 128), read_data_directory(b, i + 136), read_data_directory(b, i + 144), read_data_directory(b, i + 152), read_data_directory(b, i + 160), read_data_directory(b, i + 168), read_data_directory(b, i + 176), read_data_directory(b, i + 184), read_data_directory(b, i + 192), read_data_directory(b, i + 200), read_data_directory(b, i + 208), read_data_directory(b, i + 216), read_data_directory(b, i + 224), read_data_directory(b, i + 232)],
    }
}

/// The PE32 NT headers: signature, file header, optional header. (248 bytes on disk)
#[allow(non_camel_case_types, non_snake_case)]
#[derive(Clone, Copy, Debug)]
pub struct IMAGE_NT_HEADERS32 {
    pub Signature: u32,
    pub FileHeader: IMAGE_FILE_HEADER,
    pub OptionalHeader: IMAGE_OPTIONAL_HEADER32,
}

/// The `IMAGE_NT_HEADERS32` encoded at `b[i..i + 248]`.
pub open spec fn nt_headers32_at(b: Seq<u8>, i: int) -> IMAGE_NT_HEADERS32 {
    IMAGE_NT_HEADERS32 {
        Signature: le_u32(b, i + 0),
        FileHeader: file_header_at(b, i + 4),
        OptionalHeader: optional_header32_at(b, i + 24),
    }
}

/// Decodes the `IMAGE_NT_HEADERS32` at `b[i..i + 248]`.
pub fn read_nt_headers32(b: &[u8], i: usize) -> (r: IMAGE_NT_HEADERS32)
    requires
        i + 248 <= b@.len(),
    ensures
        r == nt_headers32_at(b@, i as int),
{
    assert(b@.len() == b.len());
    IMAGE_NT_HEADERS32 {
        Signature: get_u32(b, i + 0),
        FileHeader: read_file_header(b, i + 4),
        OptionalHeader: read_optional_header32(b, i + 24),
    }
}

/// The PE32+ NT headers: signature, file header, optional header. (264 bytes on disk)
#[allow(non_camel_case_types, non_snake_case)]
#[derive(Clone, Copy, Debug)]
pub struct IMAGE_NT_HEADERS64 {
    pub Signature: u32,
    pub FileHeader: IMAGE_FILE_HEADER,
    pub OptionalHeader: IMAGE_OPTIONAL_HEADER64,
}

/// The `IMAGE_NT_HEADERS64` encoded at `b[i..i + 264]`.
pub open spec fn nt_headers64_at(b: Seq<u8>, i: int) -> IMAGE_NT_HEADERS64 {
    IMAGE_NT_HEADERS64 {
        Signature: le_u32(b, i + 0),
        FileHeader: file_header_at(b, i + 4),
        OptionalHeader: optional_header64_at(b, i + 24),
    }
}

/// Decodes the `IMAGE_NT_HEADERS64` at `b[i..i + 264]`.
pub fn read_nt_headers64(b: &[u8], i: usize) -> (r: IMAGE_NT_HEADERS64)
    requires
        i + 264 <= b@.len(),
    ensures
        r == nt_headers64_at(b@, i as int),
{
    assert(b@.len() == b.len());
    IMAGE_NT_HEADERS64 {
        Signature: get_u32(b, i + 0),
        FileHeader: read_file_header(b, i + 4),
        OptionalHeader: read_optional_header64(b, i + 24),
    }
}

/// One entry of the section table. (40 bytes on disk)
#[allow(non_camel_case_types, non_snake_case)]
#[derive(Clone, Copy, Debug)]
pub struct IMAGE_SECTION_HEADER {
    pub Name: [u8; 8],
    pub VirtualSize: u32,
    pub VirtualAddress: u32,
    pub SizeOfRawData: u32,
    pub PointerToRawData: u32,
    pub PointerToRelocations: u32,
    pub PointerToLinenumbers: u32,
    pub NumberOfRelocations: u16,
    pub NumberOfLinenumbers: u16,
    pub Characteristics: u32,
}

/// The `IMAGE_SECTION_HEADER` encoded at `b[i..i + 40]`.
pub open spec fn section_header_at(b: Seq<u8>, i: int) -> IMAGE_SECTION_HEADER {
    IMAGE_SECTION_HEADER {
        Name: [b[i + 0], b[i + 1], b[i + 2], b[i + 3], b[i + 4], b[i + 5], b[i + 6], b[i + 7]],
        VirtualSize: le_u32(b, i + 8),
        VirtualAddress: le_u32(b, i + 12),
        SizeOfRawData: le_u32(b, i + 16),
        PointerToRawData: le_u32(b, i + 20),
        PointerToRelocations: le_u32(b, i + 24),
        PointerToLinenumbers: le_u32(b, i + 28),
        NumberOfRelocations: le_u16(b, i + 32),
        NumberOfLinenumbers: le_u16(b, i + 34),
        Characteristics: le_u32(b, i + 36),
    }
}

/// Decodes the `IMAGE_SECTION_HEADER` at `b[i..i + 40]`.
pub fn read_section_header(b: &[u8], i: usize) -> (r: IMAGE_SECTION_HEADER)
    requires
        i + 40 <= b@.len(),
    ensures
        r == section_header_at(b@, i as int),
{
    assert(b@.len() == b.len());
    IMAGE_SECTION_HEADER {
        Name: [b[i + 0], b[i + 1], b[i + 2], b[i + 3], b[i + 4], b[i + 5], b[i + 6], b[i + 7]],
        VirtualSize: get_u32(b, i + 8),
        VirtualAddress: get_u32(b, i + 12),
        SizeOfRawData: get_u32(b, i + 16),
        PointerToRawData: get_u32(b, i + 20),
        PointerToRelocations: get_u32(b, i + 24),
        PointerToLinenumbers: get_u32(b, i + 28),
        NumberOfRelocations: get_u16(b, i + 32),
        NumberOfLinenumbers: get_u16(b, i + 34),
        Characteristics: get_u32(b, i + 36),
    }
}

/// One entry of the import directory. (20 bytes on disk)
#[allow(non_camel_case_types, non_snake_case)]
#[derive(Clone, Copy, Debug)]
pub struct IMAGE_IMPORT_DESCRIPTOR {
    pub OriginalFirstThunk: u32,
    pub TimeDateStamp: u32,
    pub ForwarderChain: u32,
    pub Name: u32,
    pub FirstThunk: u32,
}

/// The `IMAGE_IMPORT_DESCRIPTOR` encoded at `b[i..i + 20]`.
pub open spec fn import_descriptor_at(b: Seq<u8>, i: int) -> IMAGE_IMPORT_DESCRIPTOR {
    IMAGE_IMPORT_DESCRIPTOR {
        OriginalFirstThunk: le_u32(b, i + 0),
        TimeDateStamp: le_u32(b, i + 4),
        ForwarderChain: le_u32(b, i + 8),
        Name: le_u32(b, i + 12),
        FirstThunk: le_u32(b, i + 16),
    }
}

/// Decodes the `IMAGE_IMPORT_DESCRIPTOR` at `b[i..i + 20]`.
pub fn read_import_descriptor(b: &[u8], i: usize) -> (r: IMAGE_IMPORT_DESCRIPTOR)
    requires
        i + 20 <= b@.len(),
    ensures
        r == import_descriptor_at(b@, i as int),
{
    assert(b@.len() == b.len());
    IMAGE_IMPORT_DESCRIPTOR {
        OriginalFirstThunk: get_u32(b, i + 0),
        TimeDateStamp: get_u32(b, i + 4),
        ForwarderChain: get_u32(b, i + 8),
        Name: get_u32(b, i + 12),
        FirstThunk: get_u32(b, i + 16),
    }
}

/// The export directory table. (40 bytes on disk)
#[allow(non_camel_case_types, non_snake_case)]
#[derive(Clone, Copy, Debug)]
pub struct IMAGE_EXPORT_DIRECTORY {
    pub Characteristics: u32,
    pub TimeDateStamp: u32,
    pub MajorVersion: u16,
    pub MinorVersion: u16,
    pub Name: u32,
    pub Base: u32,
    pub NumberOfFunctions: u32,
    pub NumberOfNames: u32,
    pub AddressOfFunctions: u32,
    pub AddressOfNames: u32,
    pub AddressOfNameOrdinals: u32,
}

/// The `IMAGE_EXPORT_DIRECTORY` encoded at `b[i..i + 40]`.
pub open spec fn export_directory_at(b: Seq<u8>, i: int) -> IMAGE_EXPORT_DIRECTORY {
    IMAGE_EXPORT_DIRECTORY {
        Characteristics: le_u32(b, i + 0),
        TimeDateStamp: le_u32(b, i + 4),
        MajorVersion: le_u16(b, i + 8),
        MinorVersion: le_u16(b, i + 10),
        Name: le_u32(b, i + 12),
        Base: le_u32(b, i + 16),
        NumberOfFunctions: le_u32(b, i + 20),
        NumberOfNames: le_u32(b, i + 24),
        AddressOfFunctions: le_u32(b, i + 28),
        AddressOfNames: le_u32(b, i + 32),
        AddressOfNameOrdinals: le_u32(b, i + 36),
    }
}

/// Decodes the `IMAGE_EXPORT_DIRECTORY` at `b[i..i + 40]`.
pub fn read_export_directory(b: &[u8], i: usize) -> (r: IMAGE_EXPORT_DIRECTORY)
    requires
        i + 40 <= b@.len(),
    ensures
        r == export_directory_at(b@, i as int),
{
    assert(b@.len() == b.len());
    IMAGE_EXPORT_DIRECTORY {
        Characteristics: get_u32(b, i + 0),
        TimeDateStamp: get_u32(b, i + 4),
        MajorVersion: get_u16(b, i + 8),
        MinorVersion: get_u16(b, i + 10),
        Name: get_u32(b, i + 12),
        Base: get_u32(b, i + 16),
        NumberOfFunctions: get_u32(b, i + 20),
        NumberOfNames: get_u32(b, i + 24),
        AddressOfFunctions: get_u32(b, i + 28),
        AddressOfNames: get_u32(b, i + 32),
        AddressOfNameOrdinals: get_u32(b, i + 36),
    }
}
/// The NT headers, in whichever layout the optional header's magic selects.
#[allow(non_camel_case_types)]
#[derive(Clone, Copy, Debug)]
pub enum IMAGE_NT_HEADERS {
    PE32(IMAGE_NT_HEADERS32),
    PE32P(IMAGE_NT_HEADERS64),
}

impl IMAGE_NT_HEADERS {
    /// The `Signature` field.
    pub open spec fn spec_signature(&self) -> u32 {
        match self {
            IMAGE_NT_HEADERS::PE32(h) => h.Signature,
            IMAGE_NT_HEADERS::PE32P(h) => h.Signature,
        }
    }
}

impl IMAGE_IMPORT_DESCRIPTOR {
    /// The all-zero descriptor that ends the import directory.
    pub open spec fn spec_is_null(&self) -> bool {
        &&& self.OriginalFirstThunk == 0
        &&& self.TimeDateStamp == 0
        &&& self.ForwarderChain == 0
        &&& self.Name == 0
        &&& self.FirstThunk == 0
    }

    /// Whether this is the all-zero descriptor that ends the import directory.
    #[verifier::when_used_as_spec(spec_is_null)]
    pub fn is_null(&self) -> (r: bool)
        ensures
            r == self.spec_is_null(),
    {
        self.OriginalFirstThunk == 0 && self.TimeDateStamp == 0 && self.ForwarderChain == 0
            && self.Name == 0 && self.FirstThunk == 0
    }
}

} // verus!
