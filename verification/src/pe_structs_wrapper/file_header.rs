use crate::pe_structs::IMAGE_FILE_HEADER;
use vstd::prelude::*;

verus! {

/// The COFF file header. Layout is identical for PE32 and PE32+.
#[derive(Debug)]
pub struct FileHeader {
    file_header: IMAGE_FILE_HEADER,
}

impl View for FileHeader {
    type V = IMAGE_FILE_HEADER;

    closed spec fn view(&self) -> IMAGE_FILE_HEADER {
        self.file_header
    }
}

impl FileHeader {
    pub(crate) fn new(file_header: IMAGE_FILE_HEADER) -> (r: Self)
        ensures
            r@ == file_header,
    {
        Self { file_header }
    }

    /// The raw header.
    pub fn raw(&self) -> (r: &IMAGE_FILE_HEADER)
        ensures
            *r == self@,
    {
        &self.file_header
    }

    pub fn machine(&self) -> (r: u16)
        ensures
            r == self@.Machine,
    {
        self.file_header.Machine
    }

    pub fn number_of_sections(&self) -> (r: u16)
        ensures
            r == self@.NumberOfSections,
    {
        self.file_header.NumberOfSections
    }

    pub fn time_date_stamp(&self) -> (r: u32)
        ensures
            r == self@.TimeDateStamp,
    {
        self.file_header.TimeDateStamp
    }

    pub fn pointer_to_symbol_table(&self) -> (r: u32)
        ensures
            r == self@.PointerToSymbolTable,
    {
        self.file_header.PointerToSymbolTable
    }

    pub fn number_of_symbols(&self) -> (r: u32)
        ensures
            r == self@.NumberOfSymbols,
    {
        self.file_header.NumberOfSymbols
    }

    pub fn size_of_optional_header(&self) -> (r: u16)
        ensures
            r == self@.SizeOfOptionalHeader,
    {
        self.file_header.SizeOfOptionalHeader
    }

    pub fn characteristics(&self) -> (r: u16)
        ensures
            r == self@.Characteristics,
    {
        self.file_header.Characteristics
    }
}

} // verus!
