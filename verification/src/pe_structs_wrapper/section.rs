use super::align::{align_up, lemma_align_up_at_most, spec_align_up};
use crate::data_source::{modelled, len_or_zero, nul_trimmed, spec_read, DataSource, DataSourceExt, SourceBytes};
use crate::pe::{parse_agrees, ParseError, ParseFailure};
use crate::pe_structs::{read_section_header, section_header_at, IMAGE_SECTION_HEADER};
use crate::text::{no_nul_char, utf8_lossy};
use vstd::prelude::*;

verus! {

/// The table of section headers, with each section's data.
#[derive(Debug)]
pub struct Sections {
    sections: Vec<Section>,
}

/// A parsed section header.
#[derive(Debug)]
pub struct Section {
    section_header: IMAGE_SECTION_HEADER,
    section_data: Option<Vec<u8>>,
}

/// A section taken as its header and the bytes of its data.
pub struct SectionView {
    pub header: IMAGE_SECTION_HEADER,
    pub data: Option<Seq<u8>>,
}

impl View for Section {
    type V = SectionView;

    closed spec fn view(&self) -> SectionView {
        SectionView {
            header: self.section_header,
            data: match &self.section_data {
                Some(d) => Some(d@),
                None => None,
            },
        }
    }
}

impl View for Sections {
    type V = Seq<SectionView>;

    closed spec fn view(&self) -> Seq<SectionView> {
        self.sections@.map_values(|s: Section| s@)
    }
}

/// A section's outcome, taken by its view.
pub open spec fn section_res_view(r: Result<(Section, usize), ParseError>) -> Result<
    (SectionView, usize),
    ParseFailure,
> {
    match r {
        Ok((s, n)) => Ok((s@, n)),
        Err(e) => Err(e@),
    }
}

/// What parsing the section header at `offset` of a source holding `c`
/// and reporting the length `len` gives: a reported length must hold the
/// 40-byte header (an unreported one is not checked). The section's data is read from `PointerToRawData` with
/// `SizeOfRawData` bytes when the source is file-aligned, and from
/// `VirtualAddress` with `VirtualSize` bytes otherwise; either size is
/// rounded up to `alignment`.
pub open spec fn spec_parse_section(
    c: SourceBytes,
    len: Option<u64>,
    file_aligned: bool,
    offset: u64,
    alignment: nat,
) -> Result<SectionView, ParseFailure> {
    if len matches Some(l) && l < offset + 40 {
        Err(ParseFailure::TooSmall(len_or_zero(len)))
    } else {
        match spec_read(c, offset, 40) {
            Err(e) => Err(ParseFailure::DataSource(e)),
            Ok(b) => spec_section_with_header(c, file_aligned, section_header_at(b, 0), alignment),
        }
    }
}

/// The section whose header is `h`, with its data read from `c`.
pub open spec fn spec_section_with_header(
    c: SourceBytes,
    file_aligned: bool,
    h: IMAGE_SECTION_HEADER,
    alignment: nat,
) -> Result<SectionView, ParseFailure> {
    {
        let start = if file_aligned {
            h.PointerToRawData
        } else {
            h.VirtualAddress
        };
        let size = spec_align_up(
            (if file_aligned {
                h.SizeOfRawData
            } else {
                h.VirtualSize
            }) as int,
            alignment as int,
        );
        if size > usize::MAX {
            Err(ParseFailure::Unknown)
        } else {
            match spec_read(c, start as u64, size as nat) {
                Err(e) => Err(ParseFailure::DataSource(e)),
                Ok(d) => Ok(SectionView { header: h, data: Some(d) }),
            }
        }
    }
}

/// What parsing `count` section headers from `offset` on gives, after the
/// sections `acc` already parsed.
pub open spec fn spec_parse_sections_from(
    c: SourceBytes,
    len: Option<u64>,
    file_aligned: bool,
    offset: u64,
    count: nat,
    alignment: nat,
    acc: Seq<SectionView>,
) -> Result<Seq<SectionView>, ParseFailure>
    decreases count,
{
    if count == 0 {
        Ok(acc)
    } else {
        match spec_parse_section(c, len, file_aligned, offset, alignment) {
            Err(e) => Err(e),
            Ok(s) => if offset + 40 > u64::MAX {
                Err(ParseFailure::Unknown)
            } else {
                spec_parse_sections_from(
                    c,
                    len,
                    file_aligned,
                    (offset + 40) as u64,
                    (count - 1) as nat,
                    alignment,
                    acc.push(s),
                )
            },
        }
    }
}

/// What parsing a section table of `count` headers at `offset` gives.
pub open spec fn spec_parse_sections(
    c: SourceBytes,
    len: Option<u64>,
    file_aligned: bool,
    offset: u64,
    count: nat,
    alignment: nat,
) -> Result<Seq<SectionView>, ParseFailure> {
    spec_parse_sections_from(c, len, file_aligned, offset, count, alignment, Seq::empty())
}

/// Whether `s` has data in the file and its virtual range holds `rva`.
pub open spec fn section_holds(s: SectionView, rva: u32) -> bool {
    &&& s.header.SizeOfRawData != 0
    &&& s.header.VirtualAddress <= rva
    &&& rva < s.header.VirtualAddress + s.header.VirtualSize
}

/// The file offset of `rva` within `s`, saturated at `u32::MAX`.
pub open spec fn offset_in_section(s: SectionView, rva: u32) -> u32 {
    let foa = s.header.PointerToRawData + (rva - s.header.VirtualAddress);
    if foa > u32::MAX {
        u32::MAX
    } else {
        foa as u32
    }
}

/// The file offset of `rva`: its offset within the first section that
/// holds it, or `0` when no section does.
pub open spec fn spec_rva_to_foa(secs: Seq<SectionView>, rva: u32) -> u32
    decreases secs.len(),
{
    if secs.len() == 0 {
        0
    } else if section_holds(secs[0], rva) {
        offset_in_section(secs[0], rva)
    } else {
        spec_rva_to_foa(secs.drop_first(), rva)
    }
}

/// An RVA made an offset into the source: through the section table when
/// the source is file-aligned, unchanged otherwise.
pub open spec fn spec_auto_rva(file_aligned: bool, secs: Seq<SectionView>, rva: u32) -> u32 {
    if file_aligned {
        spec_rva_to_foa(secs, rva)
    } else {
        rva
    }
}

/// An RVA made an offset into `source`: through the section table when
/// the source is file-aligned, unchanged otherwise.
pub fn auto_rva<T: DataSource + ?Sized>(source: &T, sections: &Sections, rva: u32) -> (r: u32)
    ensures
        modelled(source.read_model()) ==> r == spec_auto_rva(source.file_aligned(), sections@, rva),
{
    if source.is_file_aligned() {
        sections.RVA2FOA(rva)
    } else {
        rva
    }
}

/// The index of the first section in `secs` whose name is `name`.
pub open spec fn first_named(secs: Seq<SectionView>, name: Seq<char>) -> Option<int>
    decreases secs.len(),
{
    if secs.len() == 0 {
        None
    } else if section_name_of(secs[0].header) == name {
        Some(0)
    } else {
        match first_named(secs.drop_first(), name) {
            Some(i) => Some(i + 1),
            None => None,
        }
    }
}

/// The text of a section name: its 8 bytes up to the first `NUL`.
pub open spec fn section_name_of(h: IMAGE_SECTION_HEADER) -> Seq<char> {
    utf8_lossy(nul_trimmed(h.Name@))
}

/// The section that translates an RVA is the first that holds it.
pub proof fn lemma_rva_to_foa_first_holder(secs: Seq<SectionView>, k: int, rva: u32)
    requires
        0 <= k < secs.len(),
        section_holds(secs[k], rva),
        forall|j: int| 0 <= j < k ==> !section_holds(#[trigger] secs[j], rva),
    ensures
        spec_rva_to_foa(secs, rva) == offset_in_section(secs[k], rva),
    decreases k,
{
    if k > 0 {
        assert(!section_holds(secs[0], rva));
        let rest = secs.drop_first();
        assert forall|j: int| 0 <= j < k - 1 implies !section_holds(#[trigger] rest[j], rva) by {
            assert(rest[j] == secs[j + 1]);
        }
        lemma_rva_to_foa_first_holder(rest, k - 1, rva);
    }
}

/// An RVA that no section holds translates to 0.
pub proof fn lemma_rva_to_foa_unheld(secs: Seq<SectionView>, rva: u32)
    requires
        forall|j: int| 0 <= j < secs.len() ==> !section_holds(#[trigger] secs[j], rva),
    ensures
        spec_rva_to_foa(secs, rva) == 0,
    decreases secs.len(),
{
    if secs.len() > 0 {
        assert(!section_holds(secs[0], rva));
        let rest = secs.drop_first();
        assert forall|j: int| 0 <= j < rest.len() implies !section_holds(#[trigger] rest[j], rva) by {
            assert(rest[j] == secs[j + 1]);
        }
        lemma_rva_to_foa_unheld(rest, rva);
    }
}

/// Translating an RVA: when the first section that has data in the file
/// (`SizeOfRawData != 0`) and whose virtual range
/// `[VirtualAddress, VirtualAddress + VirtualSize)` contains the RVA is
/// `secs[k]`, the file offset is that section's `PointerToRawData` plus the
/// RVA's distance from its `VirtualAddress`, saturated at `u32::MAX`.
pub proof fn lemma_rva_to_foa_adds_section_offset(secs: Seq<SectionView>, k: int, rva: u32)
    requires
        0 <= k < secs.len(),
        secs[k].header.SizeOfRawData != 0,
        secs[k].header.VirtualAddress <= rva,
        rva < secs[k].header.VirtualAddress + secs[k].header.VirtualSize,
        forall|j: int|
            0 <= j < k ==> !(#[trigger] secs[j].header.SizeOfRawData != 0
                && secs[j].header.VirtualAddress <= rva && rva < secs[j].header.VirtualAddress
                + secs[j].header.VirtualSize),
    ensures
        spec_rva_to_foa(secs, rva) == if secs[k].header.PointerToRawData + (rva
            - secs[k].header.VirtualAddress) > u32::MAX {
            u32::MAX as int
        } else {
            secs[k].header.PointerToRawData + (rva - secs[k].header.VirtualAddress)
        },
{
    assert forall|j: int| 0 <= j < k implies !section_holds(#[trigger] secs[j], rva) by {
        assert(!(secs[j].header.SizeOfRawData != 0 && secs[j].header.VirtualAddress <= rva && rva
            < secs[j].header.VirtualAddress + secs[j].header.VirtualSize));
    }
    lemma_rva_to_foa_first_holder(secs, k, rva);
}

/// An RVA that no section with data in the file holds in its virtual range
/// translates to 0.
pub proof fn lemma_rva_to_foa_zero_when_unheld(secs: Seq<SectionView>, rva: u32)
    requires
        forall|j: int|
            0 <= j < secs.len() ==> !(#[trigger] secs[j].header.SizeOfRawData != 0
                && secs[j].header.VirtualAddress <= rva && rva < secs[j].header.VirtualAddress
                + secs[j].header.VirtualSize),
    ensures
        spec_rva_to_foa(secs, rva) == 0,
{
    assert forall|j: int| 0 <= j < secs.len() implies !section_holds(#[trigger] secs[j], rva) by {
        assert(!(secs[j].header.SizeOfRawData != 0 && secs[j].header.VirtualAddress <= rva && rva
            < secs[j].header.VirtualAddress + secs[j].header.VirtualSize));
    }
    lemma_rva_to_foa_unheld(secs, rva);
}

/// A parsed section's data: from a file-aligned source, the
/// `SizeOfRawData` bytes at `PointerToRawData`, rounded up to the
/// alignment; from an in-memory image, the `VirtualSize` bytes at
/// `VirtualAddress`, rounded up likewise. Its header is the 40 bytes at
/// `offset`.
pub proof fn lemma_parsed_section_data(
    c: SourceBytes,
    len: Option<u64>,
    fa: bool,
    offset: u64,
    alignment: nat,
)
    requires
        spec_parse_section(c, len, fa, offset, alignment) is Ok,
    ensures
        ({
            let s = spec_parse_section(c, len, fa, offset, alignment)->Ok_0;
            let start: int = if fa {
                s.header.PointerToRawData as int
            } else {
                s.header.VirtualAddress as int
            };
            let size = spec_align_up(
                if fa {
                    s.header.SizeOfRawData as int
                } else {
                    s.header.VirtualSize as int
                },
                alignment as int,
            );
            &&& s.header == section_header_at(c.bytes.subrange(offset as int, offset + 40), 0)
            &&& s.data matches Some(d)
            &&& d.len() == size
            &&& forall|j: int| 0 <= j < size ==> #[trigger] d[j] == c.bytes[start + j]
        }),
{
    let b = spec_read(c, offset, 40)->Ok_0;
    assert(b == c.bytes.subrange(offset as int, offset + 40)) by {
        if !(offset + 40 <= c.bytes.len()) {
            assert(false);
        }
    }
}

/// The sections parsed from `offset` on, after `acc`: entry `j` has the
/// `j`-th of the 40-byte headers from `offset` on.
#[verifier::rlimit(40)]
proof fn lemma_sections_from_step(
    c: SourceBytes,
    len: Option<u64>,
    fa: bool,
    offset: u64,
    count: nat,
    alignment: nat,
    acc: Seq<SectionView>,
)
    requires
        spec_parse_sections_from(c, len, fa, offset, count, alignment, acc) is Ok,
    ensures
        ({
            let r = spec_parse_sections_from(c, len, fa, offset, count, alignment, acc)->Ok_0;
            &&& r.len() == acc.len() + count
            &&& forall|m: int| 0 <= m < acc.len() ==> r[m] == acc[m]
            &&& forall|j: int|
                0 <= j < count ==> (#[trigger] r[acc.len() + j]).header == section_header_at(
                    c.bytes.subrange(offset + 40 * j, offset + 40 * j + 40),
                    0,
                )
        }),
    decreases count,
{
    if count > 0 {
        let s = spec_parse_section(c, len, fa, offset, alignment)->Ok_0;
        lemma_parsed_section_data(c, len, fa, offset, alignment);
        let next = (offset + 40) as u64;
        lemma_sections_from_step(c, len, fa, next, (count - 1) as nat, alignment, acc.push(s));
        let r = spec_parse_sections_from(c, len, fa, offset, count, alignment, acc)->Ok_0;
        assert(r == spec_parse_sections_from(
            c,
            len,
            fa,
            next,
            (count - 1) as nat,
            alignment,
            acc.push(s),
        )->Ok_0);
        assert(r[acc.len() as int] == s);
        assert forall|j: int| 0 < j < count implies (#[trigger] r[acc.len() + j]).header
            == section_header_at(c.bytes.subrange(offset + 40 * j, offset + 40 * j + 40), 0) by {
            assert(r[acc.len() + j] == r[acc.push(s).len() + (j - 1)]);
            assert(next + 40 * (j - 1) == offset + 40 * j);
        }
    }
}

/// A parsed section table of `count` sections holds them in order, section
/// `k` having the `k`-th of the consecutive 40-byte headers from `offset`
/// on.
pub proof fn lemma_parsed_sections_consecutive(
    c: SourceBytes,
    len: Option<u64>,
    fa: bool,
    offset: u64,
    count: nat,
    alignment: nat,
)
    requires
        spec_parse_sections(c, len, fa, offset, count, alignment) is Ok,
    ensures
        ({
            let r = spec_parse_sections(c, len, fa, offset, count, alignment)->Ok_0;
            &&& r.len() == count
            &&& forall|k: int|
                0 <= k < count ==> (#[trigger] r[k]).header == section_header_at(
                    c.bytes.subrange(offset + 40 * k, offset + 40 * k + 40),
                    0,
                )
        }),
{
    lemma_sections_from_step(c, len, fa, offset, count, alignment, Seq::empty());
    let r = spec_parse_sections(c, len, fa, offset, count, alignment)->Ok_0;
    assert forall|k: int| 0 <= k < count implies (#[trigger] r[k]).header == section_header_at(
        c.bytes.subrange(offset + 40 * k, offset + 40 * k + 40),
        0,
    ) by {
        assert(r[k] == r[Seq::<SectionView>::empty().len() + k]);
    }
}

proof fn lemma_sections_from_count(
    c: SourceBytes,
    len: Option<u64>,
    fa: bool,
    offset: u64,
    count: nat,
    alignment: nat,
    acc: Seq<SectionView>,
)
    requires
        spec_parse_sections_from(c, len, fa, offset, count, alignment, acc) is Ok,
    ensures
        spec_parse_sections_from(c, len, fa, offset, count, alignment, acc)->Ok_0.len() == acc.len()
            + count,
    decreases count,
{
    if count > 0 {
        let s = spec_parse_section(c, len, fa, offset, alignment)->Ok_0;
        lemma_sections_from_count(
            c,
            len,
            fa,
            (offset + 40) as u64,
            (count - 1) as nat,
            alignment,
            acc.push(s),
        );
    }
}

/// A section table that parses has as many sections as were asked for.
pub proof fn lemma_parsed_sections_count(
    c: SourceBytes,
    len: Option<u64>,
    fa: bool,
    offset: u64,
    count: nat,
    alignment: nat,
)
    requires
        spec_parse_sections(c, len, fa, offset, count, alignment) is Ok,
    ensures
        spec_parse_sections(c, len, fa, offset, count, alignment)->Ok_0.len() == count,
{
    lemma_sections_from_count(c, len, fa, offset, count, alignment, Seq::empty());
}

impl Sections {
    /// Parse `count` consecutive section headers starting at `offset`,
    /// with each section's data.
    pub fn parse<T: DataSource + ?Sized>(
        data_source: &T,
        offset: u64,
        count: usize,
        alignment: usize,
    ) -> (r: Result<Self, ParseError>)
        ensures
            parse_agrees(
                match r {
                    Ok(s) => Ok(s@),
                    Err(e) => Err(e@),
                },
                spec_parse_sections(
                    data_source.content(),
                    data_source.known_len(),
                    data_source.file_aligned(),
                    offset,
                    count as nat,
                    alignment as nat,
                ),
                data_source.read_model(),
            ),
    {
        let ghost c = data_source.content();
        let ghost fa = data_source.file_aligned();
        let ghost len = data_source.known_len();
        let ghost goal = spec_parse_sections(c, len, fa, offset, count as nat, alignment as nat);
        let mut section_offset = offset;
        let mut sections: Vec<Section> = Vec::new();
        let mut i: usize = 0;
        assert(sections@.map_values(|s: Section| s@) =~= Seq::<SectionView>::empty());
        while i < count
            invariant
                i <= count,
                c == data_source.content(),
                fa == data_source.file_aligned(),
                len == data_source.known_len(),
                goal == spec_parse_sections(c, len, fa, offset, count as nat, alignment as nat),
                modelled(data_source.read_model()) ==> goal == spec_parse_sections_from(
                    c,
                    len,
                    fa,
                    section_offset,
                    (count - i) as nat,
                    alignment as nat,
                    sections@.map_values(|s: Section| s@),
                ),
            decreases count - i,
        {
            let (section, bytes_read) = match Section::parse(data_source, section_offset, alignment) {
                Ok(p) => p,
                Err(e) => {
                    return Err(e);
                },
            };
            let next = match section_offset.checked_add(bytes_read as u64) {
                Some(n) => n,
                None => {
                    return Err(ParseError::Unknown);
                },
            };
            let ghost before = sections@.map_values(|s: Section| s@);
            sections.push(section);
            assert(sections@.map_values(|s: Section| s@) =~= before.push(section@));
            section_offset = next;
            i = i + 1;
        }
        Ok(Sections { sections })
    }

    /// The file offset (FOA) of a relative virtual address: the RVA's
    /// offset within the first section with data in the file whose
    /// virtual range holds it, added to that section's `PointerToRawData`
    /// (saturating); `0` when no section holds it.
    #[allow(non_snake_case)]
    pub fn RVA2FOA(&self, rva: u32) -> (r: u32)
        ensures
            r == spec_rva_to_foa(self@, rva),
    {
        let n = self.sections.len();
        let ghost all = self@;
        let mut i: usize = 0;
        assert(all.subrange(0, n as int) =~= all);
        while i < n
            invariant
                n == self.sections@.len(),
                all == self@,
                all.len() == n,
                i <= n,
                spec_rva_to_foa(all, rva) == spec_rva_to_foa(all.subrange(i as int, n as int), rva),
            decreases n - i,
        {
            let s = &self.sections[i];
            assert(s@ == all[i as int]);
            assert(all.subrange(i as int, n as int).drop_first() =~= all.subrange(i + 1, n as int));
            // A section without data in the file (such as BSS) holds nothing.
            if s.raw_size() != 0 {
                let va = s.virtual_address() as u64;
                let vs = s.virtual_size() as u64;
                let rva64 = rva as u64;
                if rva64 >= va && rva64 < va + vs {
                    let section_offset = (rva64 - va) as u32;
                    return s.raw_offset().saturating_add(section_offset);
                }
            }
            i = i + 1;
        }
        0
    }

    pub fn sections(&self) -> (r: &Vec<Section>)
        ensures
            r@.map_values(|s: Section| s@) == self@,
    {
        &self.sections
    }

    /// The first section whose name is `name`.
    pub fn section_by_name(&self, name: &str) -> (r: Option<&Section>)
        ensures
            match first_named(self@, name@) {
                Some(i) => r matches Some(s) && s@ == self@[i],
                None => r is None,
            },
    {
        let wanted = String::from_str(name);
        let n = self.sections.len();
        let ghost all = self@;
        let mut i: usize = 0;
        assert(all.subrange(0, n as int) =~= all);
        while i < n
            invariant
                n == self.sections@.len(),
                all == self@,
                all.len() == n,
                i <= n,
                wanted@ == name@,
                match first_named(all, name@) {
                    Some(k) => match first_named(all.subrange(i as int, n as int), name@) {
                        Some(j) => k == j + i,
                        None => false,
                    },
                    None => first_named(all.subrange(i as int, n as int), name@) is None,
                },
            decreases n - i,
        {
            let s = &self.sections[i];
            assert(s@ == all[i as int]);
            assert(all.subrange(i as int, n as int).drop_first() =~= all.subrange(i + 1, n as int));
            if s.name() == wanted {
                return Some(s);
            }
            i = i + 1;
        }
        None
    }

    pub fn len(&self) -> (r: usize)
        ensures
            r == self@.len(),
    {
        self.sections.len()
    }

    pub fn is_empty(&self) -> (r: bool)
        ensures
            r == (self@.len() == 0),
    {
        self.sections.len() == 0
    }
}

impl Section {
    /// Read one `IMAGE_SECTION_HEADER` at `offset` and the section's data.
    /// Returns the section plus the number of bytes consumed (always 40,
    /// the size of a section header).
    ///
    /// `alignment` comes from the optional header and rounds the size of
    /// the section's data up. The source's `is_file_aligned` picks which
    /// data is read: the file-aligned `SizeOfRawData` bytes at
    /// `PointerToRawData`, or the in-memory `VirtualSize` bytes at
    /// `VirtualAddress` (taken as a direct byte offset).
    pub fn parse<T: DataSource + ?Sized>(data_source: &T, offset: u64, alignment: usize) -> (r:
        Result<(Self, usize), ParseError>)
        ensures
            parse_agrees(
                section_res_view(r),
                match spec_parse_section(
                    data_source.content(),
                    data_source.known_len(),
                    data_source.file_aligned(),
                    offset,
                    alignment as nat,
                ) {
                    Ok(s) => Ok((s, 40usize)),
                    Err(e) => Err(e),
                },
                data_source.read_model(),
            ),
            r matches Ok((_, n)) ==> n == 40,
            ({
                &&& modelled(data_source.read_model())
                &&& data_source.known_len() is Some
                &&& data_source.known_len()->0 < offset + 40
            }) ==> r == Err::<(Self, usize), ParseError>(
                ParseError::TooSmall(data_source.known_len()->0),
            ),
    {
        // A source whose length is unknown is not rejected here: the read
        // itself fails when it leaves the source.
        match data_source.len() {
            Some(len) => {
                if len < 40 || offset > len - 40 {
                    return Err(ParseError::TooSmall(len));
                }
            },
            None => {},
        }
        let raw = match data_source.read_bytes(offset, 40) {
            Ok(b) => b,
            Err(e) => return Err(ParseError::DataSource(e)),
        };
        let section_header = read_section_header(raw.as_slice(), 0);
        let file_aligned = data_source.is_file_aligned();
        let section_offset = if file_aligned {
            section_header.PointerToRawData as u64
        } else {
            section_header.VirtualAddress as u64
        };
        let size = if file_aligned {
            section_header.SizeOfRawData as u64
        } else {
            section_header.VirtualSize as u64
        };
        let align = alignment as u64;
        proof {
            lemma_align_up_at_most(size as nat, align as nat);
        }
        let section_size = align_up(size, align);
        if section_size > usize::MAX as u64 {
            return Err(ParseError::Unknown);
        }
        let raw_section_data = match data_source.read_bytes(section_offset, section_size as usize) {
            Ok(d) => d,
            Err(e) => return Err(ParseError::DataSource(e)),
        };
        Ok((Section { section_header, section_data: Some(raw_section_data) }, 40))
    }

    /// The raw section header.
    pub fn raw(&self) -> (r: &IMAGE_SECTION_HEADER)
        ensures
            *r == self@.header,
    {
        &self.section_header
    }

    /// 8-byte ASCII name, NUL-trimmed: the bytes before the first `NUL`
    /// (all eight when there is none), decoded; it holds no `NUL`.
    pub fn name(&self) -> (r: String)
        ensures
            r@ == section_name_of(self@.header),
            no_nul_char(r@),
    {
        crate::report::section_name(&self.section_header.Name)
    }

    pub fn section_data(&self) -> (r: Option<&Vec<u8>>)
        ensures
            match r {
                Some(d) => self@.data == Some(d@),
                None => self@.data is None,
            },
    {
        match &self.section_data {
            Some(d) => Some(d),
            None => None,
        }
    }

    pub fn virtual_address(&self) -> (r: u32)
        ensures
            r == self@.header.VirtualAddress,
    {
        self.section_header.VirtualAddress
    }

    pub fn virtual_size(&self) -> (r: u32)
        ensures
            r == self@.header.VirtualSize,
    {
        self.section_header.VirtualSize
    }

    pub fn raw_size(&self) -> (r: u32)
        ensures
            r == self@.header.SizeOfRawData,
    {
        self.section_header.SizeOfRawData
    }

    pub fn raw_offset(&self) -> (r: u32)
        ensures
            r == self@.header.PointerToRawData,
    {
        self.section_header.PointerToRawData
    }

    pub fn pointer_to_relocations(&self) -> (r: u32)
        ensures
            r == self@.header.PointerToRelocations,
    {
        self.section_header.PointerToRelocations
    }

    pub fn pointer_to_linenumbers(&self) -> (r: u32)
        ensures
            r == self@.header.PointerToLinenumbers,
    {
        self.section_header.PointerToLinenumbers
    }

    pub fn number_of_relocations(&self) -> (r: u16)
        ensures
            r == self@.header.NumberOfRelocations,
    {
        self.section_header.NumberOfRelocations
    }

    pub fn number_of_linenumbers(&self) -> (r: u16)
        ensures
            r == self@.header.NumberOfLinenumbers,
    {
        self.section_header.NumberOfLinenumbers
    }

    pub fn characteristics(&self) -> (r: u32)
        ensures
            r == self@.header.Characteristics,
    {
        self.section_header.Characteristics
    }
}

} // verus!
