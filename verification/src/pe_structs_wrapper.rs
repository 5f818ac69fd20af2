//! Safe wrapper types around the raw `pe_structs` definitions.
//!
//! Each `IMAGE_*` struct in `pe_structs` is exposed here through a small
//! wrapper that validates magic bytes / sizes on parse and presents a
//! uniform API regardless of whether the image is PE32 or PE32+.
pub mod align;
pub mod dos_header;
pub mod export;
pub mod file_header;
pub mod image_base;
pub mod import;
pub mod nt_headers;
pub mod optional_header;
pub mod section;

pub use dos_header::DosHeader;
pub use export::{Export, ExportEntry};
pub use file_header::FileHeader;
pub use image_base::ImageBase;
pub use import::{Import, ImportEntry};
pub use nt_headers::NtHeaders;
pub use optional_header::OptionalHeader;
pub use section::{Section, Sections};
