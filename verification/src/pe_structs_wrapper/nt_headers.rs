use super::file_header::FileHeader;
use super::optional_header::{OptionalHeader, OptionalHeaderInner};
use crate::data_source::{
    le_u16, le_u32, modelled, len_fits, len_or_zero, spec_read, DataSource, DataSourceExt, SourceBytes,
};
use crate::pe::{parse_agrees, res_view, ParseError, ParseFailure};
use crate::pe_structs::{
    file_header_at, nt_headers32_at, nt_headers64_at, read_file_header, read_nt_headers32,
    read_nt_headers64, IMAGE_FILE_HEADER, IMAGE_NT_HEADERS, IMAGE_NT_HEADERS_SIGNATURE,
    IMAGE_NT_OPTIONAL_HDR32_MAGIC, IMAGE_NT_OPTIONAL_HDR64_MAGIC,
};
use crate::text::{hex_prefixed, hex_string};
use vstd::prelude::*;

verus! {

/// A parsed NT headers block (signature + COFF file header + optional
/// header), with PE32 vs PE32+ dispatch kept entirely inside this type.
#[derive(Debug)]
pub struct NtHeaders {
    nt_headers: IMAGE_NT_HEADERS,
    /// `4 + 20 + FileHeader.SizeOfOptionalHeader`: the number of bytes
    /// the NT-headers block occupies on disk.
    nt_headers_size: u32,
    file_header: FileHeader,
    optional_header: OptionalHeader,
}

/// The parts of [`NtHeaders`], taken by their views.
pub struct NtHeadersView {
    pub headers: IMAGE_NT_HEADERS,
    pub size: u32,
    pub file_header: IMAGE_FILE_HEADER,
    pub optional_header: OptionalHeaderInner,
}

impl View for NtHeaders {
    type V = NtHeadersView;

    closed spec fn view(&self) -> NtHeadersView {
        NtHeadersView {
            headers: self.nt_headers,
            size: self.nt_headers_size,
            file_header: self.file_header@,
            optional_header: self.optional_header@,
        }
    }
}

impl NtHeaders {
    /// The recorded size is that of the signature, the file header and the
    /// optional header the file header declares.
    #[verifier::type_invariant]
    spec fn size_matches_file_header(self) -> bool {
        self.nt_headers_size == 24 + self.file_header@.SizeOfOptionalHeader
    }
}

/// The on-disk size of the NT headers whose file header is `fh`.
pub open spec fn nt_headers_size_of(fh: IMAGE_FILE_HEADER) -> u32 {
    (24 + fh.SizeOfOptionalHeader) as u32
}

/// What parsing the NT headers at `offset` of a source holding `c` and
/// reporting the length `len` gives: the signature, file header and
/// optional header magic must lie within the reported length,
/// the signature must be `PE\0\0`, the magic must be PE32 or PE32+, and the
/// whole NT headers of that layout must be in range.
#[verifier::opaque]
pub open spec fn spec_parse_nt_headers(c: SourceBytes, len: Option<u64>, offset: u64) -> Result<
    NtHeadersView,
    ParseFailure,
> {
    if len_or_zero(len) < offset + 24 {
        Err(ParseFailure::TooSmall(len_or_zero(len)))
    } else {
        let signature = le_u32(c.bytes.subrange(offset as int, offset + 4), 0);
        let fh = file_header_at(c.bytes.subrange(offset + 4, offset + 24), 0);
        if signature != IMAGE_NT_HEADERS_SIGNATURE {
            Err(
                ParseFailure::InvalidMagic {
                    expected: "PE\\0\\0"@,
                    found: hex_prefixed(signature as nat, 8),
                },
            )
        } else {
            match spec_read(c, (offset + 24) as u64, 2) {
                Err(e) => Err(ParseFailure::DataSource(e)),
                Ok(m) => {
                    let magic = le_u16(m, 0);
                    if magic == IMAGE_NT_OPTIONAL_HDR32_MAGIC {
                        match spec_read(c, offset, 248) {
                            Err(e) => Err(ParseFailure::DataSource(e)),
                            Ok(b) => {
                                let h = nt_headers32_at(b, 0);
                                Ok(
                                    NtHeadersView {
                                        headers: IMAGE_NT_HEADERS::PE32(h),
                                        size: nt_headers_size_of(fh),
                                        file_header: fh,
                                        optional_header: OptionalHeaderInner::Pe32(
                                            h.OptionalHeader,
                                        ),
                                    },
                                )
                            },
                        }
                    } else if magic == IMAGE_NT_OPTIONAL_HDR64_MAGIC {
                        match spec_read(c, offset, 264) {
                            Err(e) => Err(ParseFailure::DataSource(e)),
                            Ok(b) => {
                                let h = nt_headers64_at(b, 0);
                                Ok(
                                    NtHeadersView {
                                        headers: IMAGE_NT_HEADERS::PE32P(h),
                                        size: nt_headers_size_of(fh),
                                        file_header: fh,
                                        optional_header: OptionalHeaderInner::Pe32Plus(
                                            h.OptionalHeader,
                                        ),
                                    },
                                )
                            },
                        }
                    } else {
                        Err(
                            ParseFailure::InvalidMagic {
                                expected: "0x10b or 0x20b or 0x107"@,
                                found: hex_prefixed(magic as nat, 4),
                            },
                        )
                    }
                },
            }
        }
    }
}

impl NtHeaders {
    /// Parse the NT-headers block starting at `offset`. Validates the
    /// `PE\0\0` signature and the optional-header magic, then dispatches
    /// to PE32 or PE32+.
    pub fn parse<T: DataSource + ?Sized>(source: &T, offset: u64) -> (r: Result<Self, ParseError>)
        ensures
            parse_agrees(
                res_view(r),
                spec_parse_nt_headers(source.content(), source.known_len(), offset),
                source.read_model(),
            ),
            modelled(source.read_model()) && len_or_zero(source.known_len()) < offset + 24 ==> r
                == Err::<Self, ParseError>(ParseError::TooSmall(len_or_zero(source.known_len()))),
    {
        reveal(spec_parse_nt_headers);
        let len = match source.len() {
            Some(l) => l,
            None => 0,
        };
        if len < 24 || offset > len - 24 {
            return Err(ParseError::TooSmall(len));
        }
        // Signature ---------------------------------------------------------
        let signature = match source.read_u32(offset) {
            Ok(v) => v,
            Err(e) => return Err(ParseError::DataSource(e)),
        };
        if signature != IMAGE_NT_HEADERS_SIGNATURE {
            return Err(
                ParseError::InvalidMagic {
                    expected: "PE\\0\\0",
                    found: hex_string(signature as u64, 8),
                },
            );
        }
        // File header -------------------------------------------------------
        let fh_raw = match source.read_bytes(offset + 4, 20) {
            Ok(b) => b,
            Err(e) => return Err(ParseError::DataSource(e)),
        };
        let file_header = read_file_header(fh_raw.as_slice(), 0);
        // Optional header magic dispatch -----------------------------------
        let opt_magic = match source.read_u16(offset + 24) {
            Ok(v) => v,
            Err(e) => return Err(ParseError::DataSource(e)),
        };
        let nt_headers_size = 24 + file_header.SizeOfOptionalHeader as u32;
        if opt_magic == IMAGE_NT_OPTIONAL_HDR32_MAGIC {
            let raw = match source.read_bytes(offset, 248) {
                Ok(b) => b,
                Err(e) => return Err(ParseError::DataSource(e)),
            };
            let h32 = read_nt_headers32(raw.as_slice(), 0);
            Ok(
                NtHeaders {
                    nt_headers: IMAGE_NT_HEADERS::PE32(h32),
                    nt_headers_size,
                    file_header: FileHeader::new(file_header),
                    optional_header: OptionalHeader::pe32(h32.OptionalHeader),
                },
            )
        } else if opt_magic == IMAGE_NT_OPTIONAL_HDR64_MAGIC {
            let raw = match source.read_bytes(offset, 264) {
                Ok(b) => b,
                Err(e) => return Err(ParseError::DataSource(e)),
            };
            let h64 = read_nt_headers64(raw.as_slice(), 0);
            Ok(
                NtHeaders {
                    nt_headers: IMAGE_NT_HEADERS::PE32P(h64),
                    nt_headers_size,
                    file_header: FileHeader::new(file_header),
                    optional_header: OptionalHeader::pe32_plus(h64.OptionalHeader),
                },
            )
        } else {
            Err(
                ParseError::InvalidMagic {
                    expected: "0x10b or 0x20b or 0x107",
                    found: hex_string(opt_magic as u64, 4),
                },
            )
        }
    }

    /// NT signature (always `0x00004550` after a successful parse).
    pub fn signature(&self) -> (r: u32)
        ensures
            r == self@.headers.spec_signature(),
    {
        match &self.nt_headers {
            IMAGE_NT_HEADERS::PE32(h) => h.Signature,
            IMAGE_NT_HEADERS::PE32P(h) => h.Signature,
        }
    }

    /// Total size in bytes of the NT-headers block (signature + file
    /// header + optional header). Used to compute the offset of the
    /// first section header.
    pub fn total_size(&self) -> (r: u64)
        ensures
            r == self@.size,
            r == 24 + self@.file_header.SizeOfOptionalHeader,
    {
        proof {
            use_type_invariant(self);
        }
        self.nt_headers_size as u64
    }

    pub fn file_header(&self) -> (r: &FileHeader)
        ensures
            r@ == self@.file_header,
    {
        &self.file_header
    }

    pub fn optional_header(&self) -> (r: &OptionalHeader)
        ensures
            r@ == self@.optional_header,
    {
        &self.optional_header
    }
}

/// NT headers that parse carry the `PE\0\0` signature, an optional header
/// of the layout that its magic names, and a file header that is the one
/// inside the headers.
pub proof fn lemma_parsed_nt_headers_are_valid(c: SourceBytes, len: Option<u64>, offset: u64)
    requires
        len_fits(c, len),
        spec_parse_nt_headers(c, len, offset) is Ok,
    ensures
        ({
            let v = spec_parse_nt_headers(c, len, offset)->Ok_0;
            &&& v.headers.spec_signature() == IMAGE_NT_HEADERS_SIGNATURE
            &&& v.optional_header is Pe32 ==> v.optional_header.spec_magic()
                == IMAGE_NT_OPTIONAL_HDR32_MAGIC
            &&& v.optional_header is Pe32Plus ==> v.optional_header.spec_magic()
                == IMAGE_NT_OPTIONAL_HDR64_MAGIC
            &&& v.headers is PE32 <==> v.optional_header is Pe32
            &&& v.size == nt_headers_size_of(v.file_header)
        }),
{
    reveal(spec_parse_nt_headers);
    let m = c.bytes.subrange(offset + 24, offset + 26);
    let s4 = c.bytes.subrange(offset as int, offset + 4);
    assert(le_u16(m, 0) == le_u16(c.bytes, offset + 24));
    assert(le_u32(s4, 0) == le_u32(c.bytes, offset as int));
    if c.bytes.len() >= offset + 248 {
        let b = c.bytes.subrange(offset as int, offset + 248);
        assert(le_u16(b, 24) == le_u16(c.bytes, offset + 24));
        assert(le_u32(b, 0) == le_u32(c.bytes, offset as int));
        assert(nt_headers32_at(b, 0).OptionalHeader.Magic == le_u16(b, 24));
        assert(nt_headers32_at(b, 0).Signature == le_u32(b, 0));
    }
    if c.bytes.len() >= offset + 264 {
        let b = c.bytes.subrange(offset as int, offset + 264);
        assert(le_u16(b, 24) == le_u16(c.bytes, offset + 24));
        assert(le_u32(b, 0) == le_u32(c.bytes, offset as int));
        assert(nt_headers64_at(b, 0).OptionalHeader.Magic == le_u16(b, 24));
        assert(nt_headers64_at(b, 0).Signature == le_u32(b, 0));
    }
}

} // verus!
