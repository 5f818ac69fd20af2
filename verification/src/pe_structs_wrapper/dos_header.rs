use crate::data_source::{modelled, len_fits, len_or_zero, spec_read, DataSource, DataSourceExt, SourceBytes};
use crate::pe::{parse_agrees, read_failure, res_view, ParseError, ParseFailure};
use crate::pe_structs::{dos_header_at, read_dos_header, IMAGE_DOS_HEADER, IMAGE_DOS_SIGNATURE};
use crate::text::{hex_prefixed, hex_string};
use vstd::prelude::*;

verus! {

/// A parsed DOS header. The underlying [`IMAGE_DOS_HEADER`] is
/// encapsulated: callers obtain its fields through the accessor methods.
#[derive(Debug)]
pub struct DosHeader {
    dos_header: IMAGE_DOS_HEADER,
}

impl View for DosHeader {
    type V = IMAGE_DOS_HEADER;

    closed spec fn view(&self) -> IMAGE_DOS_HEADER {
        self.dos_header
    }
}

/// What parsing a DOS header from a source holding `c` and reporting the
/// length `len` gives: the reported length (0 when none is reported) must
/// be at least 64, and the header must start with `"MZ"`.
#[verifier::opaque]
pub open spec fn spec_parse_dos_header(c: SourceBytes, len: Option<u64>) -> Result<IMAGE_DOS_HEADER, ParseFailure> {
    if len_or_zero(len) < 64 {
        Err(ParseFailure::TooSmall(len_or_zero(len)))
    } else {
        let h = dos_header_at(c.bytes, 0);
        if h.e_magic != IMAGE_DOS_SIGNATURE {
            Err(
                ParseFailure::InvalidMagic {
                    expected: "MZ"@,
                    found: hex_prefixed(h.e_magic as nat, 4),
                },
            )
        } else {
            Ok(h)
        }
    }
}

impl DosHeader {
    /// Parse a DOS header from the start of `source`.
    pub fn parse<T: DataSource + ?Sized>(source: &T) -> (r: Result<Self, ParseError>)
        ensures
            parse_agrees(
                res_view(r),
                spec_parse_dos_header(source.content(), source.known_len()),
                source.read_model(),
            ),
            modelled(source.read_model()) && len_or_zero(source.known_len()) < 64 ==> r == Err::<
                Self,
                ParseError,
            >(ParseError::TooSmall(len_or_zero(source.known_len()))),
    {
        reveal(spec_parse_dos_header);
        let len = match source.len() {
            Some(l) => l,
            None => 0,
        };
        if len < 64 {
            return Err(ParseError::TooSmall(len));
        }
        let raw = match source.read_bytes(0, 64) {
            Ok(b) => b,
            Err(e) => return Err(ParseError::DataSource(e)),
        };
        let h = read_dos_header(raw.as_slice(), 0);
        if h.e_magic != IMAGE_DOS_SIGNATURE {
            return Err(
                ParseError::InvalidMagic { expected: "MZ", found: hex_string(h.e_magic as u64, 4) },
            );
        }
        Ok(DosHeader { dos_header: h })
    }

    /// The raw header.
    pub fn raw(&self) -> (r: &IMAGE_DOS_HEADER)
        ensures
            *r == self@,
    {
        &self.dos_header
    }

    /// The file offset of the NT headers (`e_lfanew`).
    pub fn e_lfanew(&self) -> (r: u32)
        ensures
            r == self@.e_lfanew,
    {
        self.dos_header.e_lfanew
    }

    /// The DOS magic bytes (`e_magic`), expected to be `0x5A4D` ("MZ").
    pub fn magic(&self) -> (r: u16)
        ensures
            r == self@.e_magic,
    {
        self.dos_header.e_magic
    }

    pub fn e_cblp(&self) -> (r: u16)
        ensures
            r == self@.e_cblp,
    {
        self.dos_header.e_cblp
    }

    pub fn e_cp(&self) -> (r: u16)
        ensures
            r == self@.e_cp,
    {
        self.dos_header.e_cp
    }

    pub fn e_crlc(&self) -> (r: u16)
        ensures
            r == self@.e_crlc,
    {
        self.dos_header.e_crlc
    }

    pub fn e_cparhdr(&self) -> (r: u16)
        ensures
            r == self@.e_cparhdr,
    {
        self.dos_header.e_cparhdr
    }

    pub fn e_minalloc(&self) -> (r: u16)
        ensures
            r == self@.e_minalloc,
    {
        self.dos_header.e_minalloc
    }

    pub fn e_maxalloc(&self) -> (r: u16)
        ensures
            r == self@.e_maxalloc,
    {
        self.dos_header.e_maxalloc
    }

    pub fn e_ss(&self) -> (r: u16)
        ensures
            r == self@.e_ss,
    {
        self.dos_header.e_ss
    }

    pub fn e_sp(&self) -> (r: u16)
        ensures
            r == self@.e_sp,
    {
        self.dos_header.e_sp
    }

    pub fn e_csum(&self) -> (r: u16)
        ensures
            r == self@.e_csum,
    {
        self.dos_header.e_csum
    }

    pub fn e_ip(&self) -> (r: u16)
        ensures
            r == self@.e_ip,
    {
        self.dos_header.e_ip
    }

    pub fn e_cs(&self) -> (r: u16)
        ensures
            r == self@.e_cs,
    {
        self.dos_header.e_cs
    }

    pub fn e_lfarlc(&self) -> (r: u16)
        ensures
            r == self@.e_lfarlc,
    {
        self.dos_header.e_lfarlc
    }

    pub fn e_ovno(&self) -> (r: u16)
        ensures
            r == self@.e_ovno,
    {
        self.dos_header.e_ovno
    }

    pub fn e_oemid(&self) -> (r: u16)
        ensures
            r == self@.e_oemid,
    {
        self.dos_header.e_oemid
    }

    pub fn e_oeminfo(&self) -> (r: u16)
        ensures
            r == self@.e_oeminfo,
    {
        self.dos_header.e_oeminfo
    }
}

} // verus!

verus! {

/// A DOS header that parses starts with `"MZ"`, and the source holds at
/// least the 64 bytes of the header.
pub proof fn lemma_parsed_dos_header_has_mz(c: SourceBytes, len: Option<u64>)
    requires
        len_fits(c, len),
        spec_parse_dos_header(c, len) is Ok,
    ensures
        spec_parse_dos_header(c, len)->Ok_0.e_magic == IMAGE_DOS_SIGNATURE,
        c.bytes.len() >= 64,
{
    reveal(spec_parse_dos_header);
}

} // verus!
