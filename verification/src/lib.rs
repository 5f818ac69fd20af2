//! Parsing of PE (Portable Executable) images from random-access byte
//! sources, and presentation-agnostic reports of what was parsed.
pub mod app_context;
pub mod data_source;
pub mod listing;
pub mod pe;
pub mod pe_structs;
pub mod pe_structs_wrapper;
pub mod report;
pub mod selection;
pub mod text;

pub use pe::PeFile;
