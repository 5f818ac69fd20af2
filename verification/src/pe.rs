//! The parsed PE image, and the errors of parsing one.
use crate::data_source::{
    len_fits, len_or_zero, modelled, spec_read, DataSource, DataSourceError, DataSourceExt, ReadModel, SourceBytes,
};
use crate::pe_structs::{
    export_directory_at, import_descriptor_at, read_export_directory, read_import_descriptor,
    IMAGE_DIRECTORY_ENTRY_EXPORT, IMAGE_DIRECTORY_ENTRY_IMPORT, IMAGE_DOS_HEADER,
    IMAGE_DOS_SIGNATURE, IMAGE_NT_HEADERS_SIGNATURE, IMAGE_NT_OPTIONAL_HDR32_MAGIC,
    IMAGE_NT_OPTIONAL_HDR64_MAGIC,
};
use crate::pe_structs_wrapper::dos_header::{lemma_parsed_dos_header_has_mz, spec_parse_dos_header};
use crate::pe_structs_wrapper::export::{spec_parse_export, ExportView};
use crate::pe_structs_wrapper::import::{spec_parse_import, ImportView};
use crate::pe_structs_wrapper::nt_headers::{
    lemma_parsed_nt_headers_are_valid, spec_parse_nt_headers, NtHeadersView,
};
use crate::pe_structs_wrapper::section::{
    lemma_parsed_sections_count, spec_auto_rva, spec_parse_sections, spec_rva_to_foa, SectionView,
};
use crate::pe_structs_wrapper::section::auto_rva;
use crate::pe_structs_wrapper::{DosHeader, Export, Import, NtHeaders, Sections};
use crate::pe_structs_wrapper::Section;
use crate::report::{
    dos_header_fields, fields_report, file_header_fields, optional_header_fields, rows_aligned,
    rows_view, section_columns, section_columns_text, section_row, spec_dos_header_fields,
    spec_file_header_fields, spec_optional_header_fields, spec_section_row, Report, ReportView,
};
use crate::text::push_dec;
use vstd::prelude::*;

verus! {

/// A parsed PE image, with the source it was parsed from.
#[derive(Debug)]
pub struct PeFile<D: DataSource + ?Sized = dyn DataSource> {
    data_source: Box<D>,
    dos_header: DosHeader,
    nt_headers: NtHeaders,
    sections: Sections,
    imports: Vec<Import>,
    export: Option<Export>,
    url: String,
}

/// The parsed parts of a PE image, taken by their views.
pub struct PeView {
    pub dos_header: IMAGE_DOS_HEADER,
    pub nt_headers: NtHeadersView,
    pub sections: Seq<SectionView>,
    pub imports: Seq<ImportView>,
    pub export: Option<ExportView>,
    pub url: Seq<char>,
}

impl<D: DataSource + ?Sized> View for PeFile<D> {
    type V = PeView;

    closed spec fn view(&self) -> PeView {
        PeView {
            dos_header: self.dos_header@,
            nt_headers: self.nt_headers@,
            sections: self.sections@,
            imports: self.imports@.map_values(|i: Import| i@),
            export: match &self.export {
                Some(e) => Some(e@),
                None => None,
            },
            url: self.url@,
        }
    }
}

/// The import descriptors from file offset `off` on, after `acc`: each
/// 20-byte descriptor up to the all-zero one is parsed into its imports.
pub open spec fn spec_import_descriptors(
    c: SourceBytes,
    fa: bool,
    secs: Seq<SectionView>,
    wide: bool,
    off: u32,
    acc: Seq<ImportView>,
) -> Result<Seq<ImportView>, ParseFailure>
    decreases c.bytes.len() - off,
{
    match spec_read(c, off as u64, 20) {
        Err(e) => Err(ParseFailure::DataSource(e)),
        Ok(b) => if off + 20 > u32::MAX {
            Err(ParseFailure::Unknown)
        } else {
            let d = import_descriptor_at(b, 0);
            if d.spec_is_null() {
                Ok(acc)
            } else {
                match spec_parse_import(c, fa, secs, d, wide) {
                    Err(e) => Err(e),
                    Ok(imp) => spec_import_descriptors(
                        c,
                        fa,
                        secs,
                        wide,
                        (off + 20) as u32,
                        acc.push(imp),
                    ),
                }
            }
        },
    }
}

/// The import directory of an image: none when the directory's RVA
/// translates to offset 0.
pub open spec fn spec_imports(
    c: SourceBytes,
    fa: bool,
    secs: Seq<SectionView>,
    nt: NtHeadersView,
) -> Result<Seq<ImportView>, ParseFailure> {
    let off = spec_auto_rva(
        fa,
        secs,
        nt.optional_header.spec_data_directory(IMAGE_DIRECTORY_ENTRY_IMPORT as int).VirtualAddress,
    );
    if off > 0 {
        spec_import_descriptors(c, fa, secs, nt.optional_header is Pe32Plus, off, Seq::empty())
    } else {
        Ok(Seq::empty())
    }
}

/// The export directory of an image: none when the directory's RVA
/// translates to offset 0.
pub open spec fn spec_export(
    c: SourceBytes,
    fa: bool,
    base: u64,
    secs: Seq<SectionView>,
    nt: NtHeadersView,
) -> Result<Option<ExportView>, ParseFailure> {
    let dd = nt.optional_header.spec_data_directory(IMAGE_DIRECTORY_ENTRY_EXPORT as int);
    let off = spec_auto_rva(fa, secs, dd.VirtualAddress);
    if off > 0 {
        match spec_read(c, off as u64, 40) {
            Err(e) => Err(ParseFailure::DataSource(e)),
            Ok(b) => match spec_parse_export(
                c,
                fa,
                base,
                secs,
                export_directory_at(b, 0),
                (dd.VirtualAddress, dd.Size),
            ) {
                Err(e) => Err(e),
                Ok(x) => Ok(Some(x)),
            },
        }
    } else {
        Ok(None)
    }
}

/// What parsing a PE image from a source holding `c` and reporting the
/// length `len` gives: the DOS header; the NT headers at `e_lfanew`; the
/// section table right after them, with the file or section alignment as
/// the source is file-aligned or not; then the import and export
/// directories.
pub open spec fn spec_open(c: SourceBytes, len: Option<u64>, fa: bool, base: u64, url: Seq<char>) -> Result<
    PeView,
    ParseFailure,
> {
    match spec_parse_dos_header(c, len) {
        Err(e) => Err(e),
        Ok(dos) => {
            let nt_start = dos.e_lfanew as u64;
            match spec_parse_nt_headers(c, len, nt_start) {
                Err(e) => Err(e),
                Ok(nt) => {
                    let alignment = if fa {
                        nt.optional_header.spec_file_alignment()
                    } else {
                        nt.optional_header.spec_section_alignment()
                    };
                    match spec_parse_sections(
                        c,
                        len,
                        fa,
                        (nt_start + nt.size) as u64,
                        nt.file_header.NumberOfSections as nat,
                        alignment as nat,
                    ) {
                        Err(e) => Err(e),
                        Ok(secs) => match spec_imports(c, fa, secs, nt) {
                            Err(e) => Err(e),
                            Ok(imports) => match spec_export(c, fa, base, secs, nt) {
                                Err(e) => Err(e),
                                Ok(export) => Ok(
                                    PeView {
                                        dos_header: dos,
                                        nt_headers: nt,
                                        sections: secs,
                                        imports,
                                        export,
                                        url,
                                    },
                                ),
                            },
                        },
                    }
                },
            }
        },
    }
}

/// The imports of the image: the descriptors of its import directory up
/// to the all-zero one, each parsed into its imported functions.
#[verifier::rlimit(60)]
fn parse_import_directory<T: DataSource + ?Sized>(
    data_source: &T,
    sections: &Sections,
    nt_headers: &NtHeaders,
) -> (r: Result<Vec<Import>, ParseError>)
    ensures
        parse_agrees(
            match r {
                Ok(v) => Ok(v@.map_values(|i: Import| i@)),
                Err(e) => Err(e@),
            },
            spec_imports(data_source.content(), data_source.file_aligned(), sections@, nt_headers@),
            data_source.read_model(),
        ),
{
    let ghost c = data_source.content();
    let ghost fa = data_source.file_aligned();
    let is_pe32_plus = nt_headers.optional_header().is_pe32_plus();
    // Offset of the import table, by the source's alignment.
    let mut input_table_offset = auto_rva(
        data_source,
        sections,
        nt_headers.optional_header().data_directory(IMAGE_DIRECTORY_ENTRY_IMPORT).VirtualAddress,
    );
    // Without an import table the directory's RVA is 0: parsing on would
    // read the DOS header as an import descriptor.
    let mut imports: Vec<Import> = Vec::new();
    if input_table_offset > 0 {
        let ghost goal = spec_import_descriptors(
            c,
            fa,
            sections@,
            is_pe32_plus,
            input_table_offset,
            Seq::empty(),
        );
        assert(imports@.map_values(|i: Import| i@) =~= Seq::<ImportView>::empty());
        loop
            invariant_except_break
                c == data_source.content(),
                fa == data_source.file_aligned(),
                modelled(data_source.read_model()) ==> goal == spec_imports(c, fa, sections@, nt_headers@),
                modelled(data_source.read_model()) ==> goal == spec_import_descriptors(
                    c,
                    fa,
                    sections@,
                    is_pe32_plus,
                    input_table_offset,
                    imports@.map_values(|i: Import| i@),
                ),
            ensures
                modelled(data_source.read_model()) ==> goal == Ok::<Seq<ImportView>, ParseFailure>(
                    imports@.map_values(|i: Import| i@),
                ),
            decreases u32::MAX - input_table_offset,
        {
            let raw = match data_source.read_bytes(input_table_offset as u64, 20) {
                Ok(b) => b,
                Err(e) => return Err(ParseError::DataSource(e)),
            };
            let import_desc = read_import_descriptor(raw.as_slice(), 0);
            input_table_offset = match input_table_offset.checked_add(20) {
                Some(n) => n,
                None => return Err(ParseError::Unknown),
            };
            if import_desc.is_null() {
                break ;
            }
            let import = match Import::parse(data_source, sections, import_desc, is_pe32_plus) {
                Ok(v) => v,
                Err(e) => return Err(e),
            };
            let ghost before = imports@.map_values(|i: Import| i@);
            let ghost iv = import@;
            imports.push(import);
            assert(imports@.map_values(|i: Import| i@) =~= before.push(iv));
        }
    } else {
        assert(imports@.map_values(|i: Import| i@) =~= Seq::<ImportView>::empty());
    }
    Ok(imports)
}

/// The export directory of the image, when it has one.
fn parse_export_directory<T: DataSource + ?Sized>(
    data_source: &T,
    sections: &Sections,
    nt_headers: &NtHeaders,
) -> (r: Result<Option<Export>, ParseError>)
    ensures
        parse_agrees(
            match r {
                Ok(Some(x)) => Ok(Some(x@)),
                Ok(None) => Ok(None),
                Err(e) => Err(e@),
            },
            spec_export(
                data_source.content(),
                data_source.file_aligned(),
                data_source.base_address(),
                sections@,
                nt_headers@,
            ),
            data_source.read_model(),
        ),
{
    // Offset of the export table, by the source's alignment.
    let export_data_dir = nt_headers.optional_header().data_directory(IMAGE_DIRECTORY_ENTRY_EXPORT);
    let export_table_offset = auto_rva(data_source, sections, export_data_dir.VirtualAddress);
    if export_table_offset > 0 {
        let raw = match data_source.read_bytes(export_table_offset as u64, 40) {
            Ok(b) => b,
            Err(e) => return Err(ParseError::DataSource(e)),
        };
        let export_desc = read_export_directory(raw.as_slice(), 0);
        let export_dir_range = (export_data_dir.VirtualAddress, export_data_dir.Size);
        match Export::parse(data_source, export_desc, export_dir_range, sections) {
            Ok(x) => Ok(Some(x)),
            Err(e) => Err(e),
        }
    } else {
        Ok(None)
    }
}

impl<D: DataSource + ?Sized> PeFile<D> {
    /// The URL kept with the image is what its source answers to `url`.
    #[verifier::type_invariant]
    spec fn url_is_source_location(self) -> bool {
        modelled(self.data_source.read_model()) ==> self.url@ == self.data_source.location()
    }
}

impl<D: DataSource + ?Sized> PeFile<D> {
    /// The source the image was parsed from.
    pub closed spec fn source(&self) -> &D {
        &*self.data_source
    }

    /// Parse a PE image from `data_source`: the DOS header, the NT
    /// headers, the section table, and the import and export directories.
    #[verifier::rlimit(60)]
    pub fn open_from_datasource(data_source: Box<D>) -> (r: Result<Self, ParseError>)
        ensures
            parse_agrees(
                res_view(r),
                spec_open(
                    data_source.content(),
                    data_source.known_len(),
                    data_source.file_aligned(),
                    data_source.base_address(),
                    data_source.location(),
                ),
                data_source.read_model(),
            ),
            r matches Ok(pe) ==> pe.source() == &*data_source,
            modelled(data_source.read_model()) && len_or_zero(data_source.known_len()) < 64 ==> (r
                matches Err(ParseError::TooSmall(l)) && l == len_or_zero(data_source.known_len())),
    {
        let ghost c = data_source.content();
        let ghost fa = data_source.file_aligned();
        let dos_header = match DosHeader::parse(&*data_source) {
            Ok(v) => v,
            Err(e) => return Err(e),
        };
        let nt_start = dos_header.e_lfanew() as u64;
        let nt_headers = match NtHeaders::parse(&*data_source, nt_start) {
            Ok(v) => v,
            Err(e) => return Err(e),
        };
        let section_offset = nt_start + nt_headers.total_size();
        let count = nt_headers.file_header().number_of_sections() as usize;
        let is_file_aligned = data_source.is_file_aligned();
        let section_alignment = if is_file_aligned {
            nt_headers.optional_header().file_alignment()
        } else {
            nt_headers.optional_header().section_alignment()
        } as usize;
        let sections = match Sections::parse(&*data_source, section_offset, count, section_alignment) {
            Ok(v) => v,
            Err(e) => return Err(e),
        };
        let imports = match parse_import_directory(&*data_source, &sections, &nt_headers) {
            Ok(v) => v,
            Err(e) => return Err(e),
        };
        let export = match parse_export_directory(&*data_source, &sections, &nt_headers) {
            Ok(v) => v,
            Err(e) => return Err(e),
        };
        let url = data_source.url();
        Ok(
            Self {
                data_source,
                dos_header,
                nt_headers,
                sections,
                imports,
                export,
                url,
            },
        )
    }

    pub fn data_source(&self) -> (r: &D)
        ensures
            r == self.source(),
            modelled(r.read_model()) ==> r.location() == self@.url,
    {
        proof {
            use_type_invariant(self);
        }
        &*self.data_source
    }

    pub fn dos_header(&self) -> (r: &DosHeader)
        ensures
            r@ == self@.dos_header,
    {
        &self.dos_header
    }

    pub fn nt_headers(&self) -> (r: &NtHeaders)
        ensures
            r@ == self@.nt_headers,
    {
        &self.nt_headers
    }

    pub fn sections(&self) -> (r: &Sections)
        ensures
            r@ == self@.sections,
    {
        &self.sections
    }

    pub fn imports(&self) -> (r: &Vec<Import>)
        ensures
            r@.map_values(|i: Import| i@) == self@.imports,
    {
        &self.imports
    }

    pub fn export(&self) -> (r: Option<&Export>)
        ensures
            match r {
                Some(e) => self@.export == Some(e@),
                None => self@.export is None,
            },
    {
        match &self.export {
            Some(e) => Some(e),
            None => None,
        }
    }

    // -- Reports ------------------------------------------------------------
    // The parsed structures as presentation-agnostic `Report`s (title +
    // headers + rows), so a frontend can print them uniformly.

    /// Report for the DOS header.
    pub fn dos_header_report(&self) -> (r: Report)
        ensures
            r@ == fields_report("DOS Header"@, spec_dos_header_fields(self@.dos_header)),
            rows_aligned(r@),
    {
        Report::from_fields("DOS Header", dos_header_fields(self.dos_header.raw()))
    }

    /// Report for the COFF file header.
    pub fn file_header_report(&self) -> (r: Report)
        ensures
            r@ == fields_report("File Header"@, spec_file_header_fields(self@.nt_headers.file_header)),
            rows_aligned(r@),
    {
        Report::from_fields("File Header", file_header_fields(self.nt_headers.file_header().raw()))
    }

    /// Report for the optional header (PE32 or PE32+).
    pub fn optional_header_report(&self) -> (r: Report)
        ensures
            r@ == fields_report(
                "Optional Header"@,
                spec_optional_header_fields(self@.nt_headers.optional_header),
            ),
            rows_aligned(r@),
    {
        Report::from_fields(
            "Optional Header",
            optional_header_fields(self.nt_headers.optional_header().raw()),
        )
    }

    /// Report for the section table: one row per section.
    pub fn sections_report(&self) -> (r: Report)
        ensures
            r@ == (ReportView {
                title: "Sections"@,
                headers: section_columns_text(),
                rows: self@.sections.map_values(|s: SectionView| spec_section_row(s.header)),
            }),
            rows_aligned(r@),
    {
        let secs = self.sections.sections();
        let ghost want = self@.sections.map_values(|s: SectionView| spec_section_row(s.header));
        let mut rows: Vec<Vec<String>> = Vec::new();
        let mut i: usize = 0;
        while i < secs.len()
            invariant
                i <= secs@.len(),
                secs@.map_values(|s: Section| s@) == self@.sections,
                want == self@.sections.map_values(|s: SectionView| spec_section_row(s.header)),
                rows_view(rows@) == want.subrange(0, i as int),
            decreases secs.len() - i,
        {
            let row = section_row(secs[i].raw());
            let ghost before = rows_view(rows@);
            rows.push(row);
            assert(self@.sections[i as int] == secs@[i as int]@);
            i = i + 1;
            assert(rows_view(rows@) =~= want.subrange(0, i as int)) by {
                assert(rows_view(rows@) =~= before.push(want[i - 1]));
            }
        }
        assert(want.subrange(0, secs@.len() as int) =~= want);
        let columns = section_columns();
        let r = Report::new("Sections", columns.as_slice(), rows);
        assert forall|k: int| 0 <= k < r@.rows.len() implies #[trigger] r@.rows[k].len()
            == r@.headers.len() by {
            assert(r@.rows[k] == spec_section_row(self@.sections[k].header));
        }
        r
    }

    /// The entry point's RVA (`AddressOfEntryPoint`). Callers that want a
    /// runtime virtual address add the image base to it.
    pub fn address_of_entry_point(&self) -> (r: u32)
        ensures
            r == self@.nt_headers.optional_header.spec_address_of_entry_point(),
    {
        self.nt_headers.optional_header().address_of_entry_point()
    }

    /// True if the image is PE32+ (64-bit).
    pub fn is_pe32_plus(&self) -> (r: bool)
        ensures
            r == (self@.nt_headers.optional_header is Pe32Plus),
    {
        self.nt_headers.optional_header().is_pe32_plus()
    }

    /// The file offset of `rva` through the section table.
    pub fn rva2foa(&self, rva: u32) -> (r: u32)
        ensures
            r == spec_rva_to_foa(self@.sections, rva),
    {
        self.sections.RVA2FOA(rva)
    }
}

/// An image that parses starts with `"MZ"`, carries the `PE\0\0`
/// signature at `e_lfanew`, has an optional header of the layout its magic
/// names, and has as many sections as its file header declares.
pub proof fn lemma_opened_image_is_valid(
    c: SourceBytes,
    len: Option<u64>,
    fa: bool,
    base: u64,
    url: Seq<char>,
)
    requires
        len_fits(c, len),
        spec_open(c, len, fa, base, url) is Ok,
    ensures
        ({
            let v = spec_open(c, len, fa, base, url)->Ok_0;
            &&& v.dos_header.e_magic == IMAGE_DOS_SIGNATURE
            &&& v.nt_headers.headers.spec_signature() == IMAGE_NT_HEADERS_SIGNATURE
            &&& v.nt_headers.optional_header is Pe32 ==> v.nt_headers.optional_header.spec_magic()
                == IMAGE_NT_OPTIONAL_HDR32_MAGIC
            &&& v.nt_headers.optional_header is Pe32Plus
                ==> v.nt_headers.optional_header.spec_magic() == IMAGE_NT_OPTIONAL_HDR64_MAGIC
            &&& v.sections.len() == v.nt_headers.file_header.NumberOfSections
            &&& v.url == url
        }),
{
    let dos = spec_parse_dos_header(c, len)->Ok_0;
    lemma_parsed_dos_header_has_mz(c, len);
    let nt_start = dos.e_lfanew as u64;
    lemma_parsed_nt_headers_are_valid(c, len, nt_start);
    let nt = spec_parse_nt_headers(c, len, nt_start)->Ok_0;
    let alignment = if fa {
        nt.optional_header.spec_file_alignment()
    } else {
        nt.optional_header.spec_section_alignment()
    };
    lemma_parsed_sections_count(
        c,
        len,
        fa,
        (nt_start + nt.size) as u64,
        nt.file_header.NumberOfSections as nat,
        alignment as nat,
    );
}

/// Errors that can occur when parsing a PE image.
#[derive(Debug)]
pub enum ParseError {
    /// The data source is too small to contain a valid PE header.
    TooSmall(u64),
    /// A magic number was not found where it was expected.
    InvalidMagic { expected: &'static str, found: String },
    /// An underlying data-source error.
    DataSource(DataSourceError),
    /// An offset or address left the range of its integer type.
    Unknown,
}

/// A [`ParseError`] with its text taken as a sequence of characters.
pub enum ParseFailure {
    TooSmall(u64),
    InvalidMagic { expected: Seq<char>, found: Seq<char> },
    DataSource(DataSourceError),
    Unknown,
}

impl View for ParseError {
    type V = ParseFailure;

    open spec fn view(&self) -> ParseFailure {
        match self {
            ParseError::TooSmall(l) => ParseFailure::TooSmall(*l),
            ParseError::InvalidMagic { expected, found } => ParseFailure::InvalidMagic {
                expected: expected@,
                found: found@,
            },
            ParseError::DataSource(e) => ParseFailure::DataSource(*e),
            ParseError::Unknown => ParseFailure::Unknown,
        }
    }
}

/// A parse outcome `r` set against the model's `e`, as far as the model
/// `m` describes the source: the same, except that from a source whose
/// reads may fail, a failed read can end the parse instead.
pub open spec fn parse_agrees<T>(r: Result<T, ParseFailure>, e: Result<T, ParseFailure>, m: ReadModel) -> bool {
    match m {
        ReadModel::Unmodelled => true,
        ReadModel::Fallible => r == e || r matches Err(ParseFailure::DataSource(_)),
        ReadModel::Exact => r == e,
    }
}

/// A parse outcome, taken by its views.
pub open spec fn res_view<T: View>(r: Result<T, ParseError>) -> Result<T::V, ParseFailure> {
    match r {
        Ok(v) => Ok(v@),
        Err(e) => Err(e@),
    }
}

/// A read outcome, its failure taken as a parse failure.
pub open spec fn read_failure<T>(r: Result<T, DataSourceError>) -> Result<T, ParseFailure> {
    match r {
        Ok(v) => Ok(v),
        Err(e) => Err(ParseFailure::DataSource(e)),
    }
}

impl ParseError {
    /// The human-readable message of the error.
    pub fn to_string(&self) -> (r: String)
        ensures
            (match self {
                ParseError::TooSmall(len) => r@ == "PE data too small: "@ + crate::text::dec_digits(
                    *len as nat,
                ) + " bytes (need at least 64)"@,
                ParseError::InvalidMagic { expected, found } => r@ == "invalid DOS magic: expected \""@
                    + expected@ + "\", got \""@ + found@ + "\""@,
                ParseError::Unknown => r@ == "unknown PE data source error"@,
                ParseError::DataSource(e) => crate::data_source::is_message_of(*e, r@),
            }),
    {
        match self {
            ParseError::TooSmall(len) => {
                let mut s = String::from_str("PE data too small: ");
                push_dec(&mut s, *len);
                s.append(" bytes (need at least 64)");
                s
            },
            ParseError::InvalidMagic { expected, found } => {
                let mut s = String::from_str("invalid DOS magic: expected \"");
                s.append(expected);
                s.append("\", got \"");
                s.append(found.as_str());
                s.append("\"");
                s
            },
            ParseError::Unknown => String::from_str("unknown PE data source error"),
            ParseError::DataSource(e) => e.to_string(),
        }
    }
}

impl From<DataSourceError> for ParseError {
    fn from(e: DataSourceError) -> Self {
        ParseError::DataSource(e)
    }
}

impl vstd::std_specs::convert::FromSpecImpl<DataSourceError> for ParseError {
    open spec fn obeys_from_spec() -> bool {
        true
    }

    open spec fn from_spec(e: DataSourceError) -> Self {
        ParseError::DataSource(e)
    }
}

} // verus!
