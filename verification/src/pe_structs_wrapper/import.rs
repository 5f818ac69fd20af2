use super::section::{auto_rva, spec_auto_rva, SectionView, Sections};
use crate::data_source::{
    modelled,
    ascii_text, le_u16, le_u32, le_u64, spec_read, DataSource, DataSourceExt, SourceBytes};
use crate::pe::{parse_agrees, ParseError, ParseFailure};
use crate::pe_structs::IMAGE_IMPORT_DESCRIPTOR;
use vstd::prelude::*;

verus! {

/// One imported function.
#[derive(Debug)]
pub enum ImportEntry {
    /// Imported by ordinal (the low 16 bits of the thunk).
    ImportByOrdinal(u64),
    /// Imported by name: the hint, then the name.
    ImportByName(u16, String),
    /// A bound address, as an in-memory image's import address table
    /// holds it once the loader has resolved the import.
    FunctionAddress(u64),
}

/// An [`ImportEntry`] with its text taken as characters.
pub enum ImportEntryView {
    ImportByOrdinal(u64),
    ImportByName(u16, Seq<char>),
    FunctionAddress(u64),
}

impl View for ImportEntry {
    type V = ImportEntryView;

    open spec fn view(&self) -> ImportEntryView {
        match self {
            ImportEntry::ImportByOrdinal(o) => ImportEntryView::ImportByOrdinal(*o),
            ImportEntry::ImportByName(h, n) => ImportEntryView::ImportByName(*h, n@),
            ImportEntry::FunctionAddress(a) => ImportEntryView::FunctionAddress(*a),
        }
    }
}

/// The functions imported from one DLL.
#[derive(Debug)]
pub struct Import {
    dll_name: String,
    entry_import: IMAGE_IMPORT_DESCRIPTOR,
    import_entrys: Vec<ImportEntry>,
}

/// An [`Import`] taken by the views of its parts.
pub struct ImportView {
    pub dll_name: Seq<char>,
    pub descriptor: IMAGE_IMPORT_DESCRIPTOR,
    pub entries: Seq<ImportEntryView>,
}

impl View for Import {
    type V = ImportView;

    closed spec fn view(&self) -> ImportView {
        ImportView {
            dll_name: self.dll_name@,
            descriptor: self.entry_import,
            entries: self.import_entrys@.map_values(|e: ImportEntry| e@),
        }
    }
}

/// Whether a thunk imports by ordinal: its top bit is set.
pub open spec fn thunk_is_ordinal(v: u64, wide: bool) -> bool {
    if wide {
        v >= 0x8000_0000_0000_0000
    } else {
        v >= 0x8000_0000
    }
}

/// The entry a non-zero thunk `v` stands for. An ordinal thunk gives its
/// low 16 bits; a thunk of an in-memory image's address table (read for
/// want of a lookup table) is a bound address; any other thunk is the RVA
/// (its low 31 bits) of a hint (2 bytes) followed by a name (read as at
/// most 256 bytes).
pub open spec fn spec_thunk_entry(
    c: SourceBytes,
    fa: bool,
    secs: Seq<SectionView>,
    wide: bool,
    use_iat: bool,
    v: u64,
) -> Result<ImportEntryView, ParseFailure> {
    if thunk_is_ordinal(v, wide) {
        Ok(ImportEntryView::ImportByOrdinal(v % 0x10000))
    } else if use_iat && !fa {
        Ok(ImportEntryView::FunctionAddress(v))
    } else {
        let hn = spec_auto_rva(fa, secs, (v % 0x8000_0000) as u32) as u64;
        match spec_read(c, hn, 2) {
            Err(e) => Err(ParseFailure::DataSource(e)),
            Ok(hb) => match spec_read(c, (hn + 2) as u64, 256) {
                Err(e) => Err(ParseFailure::DataSource(e)),
                Ok(nb) => Ok(ImportEntryView::ImportByName(le_u16(hb, 0), ascii_text(nb))),
            },
        }
    }
}

/// The thunk value in the bytes `b` of one thunk.
pub open spec fn thunk_value(b: Seq<u8>, wide: bool) -> u64 {
    if wide {
        le_u64(b, 0)
    } else {
        le_u32(b, 0) as u64
    }
}

/// The entries of the thunk table from `off` on, after `acc`: thunks of 8
/// bytes (PE32+) or 4 bytes (PE32), up to the first zero thunk.
pub open spec fn spec_thunks(
    c: SourceBytes,
    fa: bool,
    secs: Seq<SectionView>,
    wide: bool,
    use_iat: bool,
    off: u64,
    acc: Seq<ImportEntryView>,
) -> Result<Seq<ImportEntryView>, ParseFailure>
    decreases c.bytes.len() - off,
{
    let w: nat = if wide {
        8
    } else {
        4
    };
    match spec_read(c, off, w) {
        Err(e) => Err(ParseFailure::DataSource(e)),
        Ok(b) => {
            let v = thunk_value(b, wide);
            if v == 0 {
                Ok(acc)
            } else {
                match spec_thunk_entry(c, fa, secs, wide, use_iat, v) {
                    Err(e) => Err(e),
                    Ok(en) => if off + w > u64::MAX {
                        Err(ParseFailure::Unknown)
                    } else {
                        spec_thunks(c, fa, secs, wide, use_iat, (off + w) as u64, acc.push(en))
                    },
                }
            }
        },
    }
}

/// The thunk at `at` read as a number: 8 bytes for PE32+, 4 for PE32.
pub open spec fn thunk_at(c: SourceBytes, wide: bool, at: int) -> int {
    if wide {
        le_u64(c.bytes, at) as int
    } else {
        le_u32(c.bytes, at) as int
    }
}

/// The bit that marks an import by ordinal: bit 63 of a PE32+ thunk, bit
/// 31 of a PE32 thunk.
pub open spec fn ordinal_flag(wide: bool) -> int {
    if wide {
        0x8000_0000_0000_0000
    } else {
        0x8000_0000
    }
}

/// A thunk read from the source is the number its bytes encode.
proof fn lemma_thunk_read(c: SourceBytes, wide: bool, off: u64)
    requires
        spec_read(c, off, if wide { 8nat } else { 4nat }) is Ok,
    ensures
        thunk_value(spec_read(c, off, if wide { 8nat } else { 4nat })->Ok_0, wide) as int
            == thunk_at(c, wide, off as int),
{
    let w: nat = if wide {
        8
    } else {
        4
    };
    let b = spec_read(c, off, w)->Ok_0;
    assert(b == c.bytes.subrange(off as int, off + w));
    if wide {
        assert(le_u64(b, 0) == le_u64(c.bytes, off as int));
    } else {
        assert(le_u32(b, 0) == le_u32(c.bytes, off as int));
    }
}

/// A non-zero thunk with the ordinal flag set is an import by ordinal of
/// its low 16 bits; one without it is not an import by ordinal.
proof fn lemma_thunk_entry_kind(
    c: SourceBytes,
    fa: bool,
    secs: Seq<SectionView>,
    wide: bool,
    use_iat: bool,
    v: u64,
)
    requires
        spec_thunk_entry(c, fa, secs, wide, use_iat, v) is Ok,
    ensures
        ({
            let en = spec_thunk_entry(c, fa, secs, wide, use_iat, v)->Ok_0;
            &&& v >= ordinal_flag(wide) ==> en == ImportEntryView::ImportByOrdinal(v % 0x10000)
            &&& v < ordinal_flag(wide) ==> !(en is ImportByOrdinal)
            &&& v < ordinal_flag(wide) && use_iat && !fa ==> en == ImportEntryView::FunctionAddress(v as u64)
            &&& v < ordinal_flag(wide) && !(use_iat && !fa) ==> {
                let hn = spec_auto_rva(fa, secs, (v % 0x8000_0000) as u32);
                en == ImportEntryView::ImportByName(
                    le_u16(c.bytes, hn as int),
                    ascii_text(c.bytes.subrange(hn + 2, hn + 258)),
                )
            }
        }),
{
    if v < ordinal_flag(wide) && !(use_iat && !fa) {
        let hn = spec_auto_rva(fa, secs, (v % 0x8000_0000) as u32) as u64;
        let hb = spec_read(c, hn, 2)->Ok_0;
        let nb = spec_read(c, (hn + 2) as u64, 256)->Ok_0;
        assert(hb == c.bytes.subrange(hn as int, hn + 2));
        assert(nb == c.bytes.subrange(hn + 2, hn + 258));
        assert(le_u16(hb, 0) == le_u16(c.bytes, hn as int));
    }
}

/// `w * n` steps of `w` from `off` are one step, then `n - 1` more.
proof fn lemma_one_more_step(off: int, w: int, n: int)
    ensures
        off + w * n == (off + w) + w * (n - 1),
{
    assert(w * n == w + w * (n - 1)) by (nonlinear_arith);
}

/// The entries parsed from the thunks at `off` on, after `acc`: entry `j`
/// comes from the non-zero `j`-th thunk; one with the ordinal flag set is
/// an import by ordinal of the thunk's low 16 bits, any other is not; and
/// the thunk after the last entry is zero.
#[verifier::rlimit(40)]
proof fn lemma_thunks_from(
    c: SourceBytes,
    fa: bool,
    secs: Seq<SectionView>,
    wide: bool,
    use_iat: bool,
    off: u64,
    acc: Seq<ImportEntryView>,
)
    requires
        spec_thunks(c, fa, secs, wide, use_iat, off, acc) is Ok,
    ensures
        ({
            let r = spec_thunks(c, fa, secs, wide, use_iat, off, acc)->Ok_0;
            let w: int = if wide {
                8
            } else {
                4
            };
            &&& r.len() >= acc.len()
            &&& forall|i: int| 0 <= i < acc.len() ==> r[i] == acc[i]
            &&& thunk_at(c, wide, off + w * (r.len() - acc.len())) == 0
            &&& forall|j: int|
                0 <= j < r.len() - acc.len() ==> {
                    let v = thunk_at(c, wide, off + w * j);
                    &&& v != 0
                    &&& v >= ordinal_flag(wide) ==> #[trigger] r[acc.len() + j]
                        == ImportEntryView::ImportByOrdinal((v % 0x10000) as u64)
                    &&& v < ordinal_flag(wide) ==> !(r[acc.len() + j] is ImportByOrdinal)
                    &&& v < ordinal_flag(wide) && use_iat && !fa ==> r[acc.len() + j] == ImportEntryView::FunctionAddress(v as u64)
                    &&& v < ordinal_flag(wide) && !(use_iat && !fa) ==> {
                        let hn = spec_auto_rva(fa, secs, (v % 0x8000_0000) as u32);
                        r[acc.len() + j] == ImportEntryView::ImportByName(
                            le_u16(c.bytes, hn as int),
                            ascii_text(c.bytes.subrange(hn + 2, hn + 258)),
                        )
                    }
                }
        }),
    decreases c.bytes.len() - off,
{
    let w: nat = if wide {
        8
    } else {
        4
    };
    let wi: int = w as int;
    lemma_thunk_read(c, wide, off);
    let v = thunk_value(spec_read(c, off, w)->Ok_0, wide);
    let r = spec_thunks(c, fa, secs, wide, use_iat, off, acc)->Ok_0;
    if v == 0 {
        assert(r == acc);
        assert(off + wi * 0 == off);
    } else {
        let en = spec_thunk_entry(c, fa, secs, wide, use_iat, v)->Ok_0;
        lemma_thunk_entry_kind(c, fa, secs, wide, use_iat, v);
        let next = (off + w) as u64;
        lemma_thunks_from(c, fa, secs, wide, use_iat, next, acc.push(en));
        assert(r == spec_thunks(c, fa, secs, wide, use_iat, next, acc.push(en))->Ok_0);
        let n = r.len() - acc.len();
        lemma_one_more_step(off as int, wi, n);
        assert(r[acc.len() as int] == en);
        assert(off + wi * 0 == off);
        assert forall|j: int| 0 <= j < r.len() - acc.len() implies {
            let v = thunk_at(c, wide, off + wi * j);
            &&& v != 0
            &&& v >= ordinal_flag(wide) ==> #[trigger] r[acc.len() + j]
                == ImportEntryView::ImportByOrdinal((v % 0x10000) as u64)
            &&& v < ordinal_flag(wide) ==> !(r[acc.len() + j] is ImportByOrdinal)
            &&& v < ordinal_flag(wide) && use_iat && !fa ==> r[acc.len() + j] == ImportEntryView::FunctionAddress(v as u64)
            &&& v < ordinal_flag(wide) && !(use_iat && !fa) ==> {
                let hn = spec_auto_rva(fa, secs, (v % 0x8000_0000) as u32);
                r[acc.len() + j] == ImportEntryView::ImportByName(
                    le_u16(c.bytes, hn as int),
                    ascii_text(c.bytes.subrange(hn + 2, hn + 258)),
                )
            }
        } by {
            if j > 0 {
                lemma_one_more_step(off as int, wi, j);
                assert(r[acc.len() + j] == r[acc.push(en).len() + (j - 1)]);
            }
        }
    }
}

/// The entries of the imports that a parsed descriptor `d` describes: entry
/// `k` comes from the non-zero `k`-th thunk of its lookup table
/// (`OriginalFirstThunk`), or of its address table (`FirstThunk`) when it
/// has no lookup table, thunks being 8 bytes for PE32+ and 4 for PE32. A
/// thunk with its top bit (bit 63 for PE32+, bit 31 for PE32) set is an
/// import by ordinal of its low 16 bits. Any other is, for an in-memory
/// image read through its address table, the bound address it holds, and
/// otherwise the import by name whose hint (2 bytes) and name (read as at
/// most 256 bytes) lie at the translated RVA of its low 31 bits. The thunk
/// after the last entry is zero.
pub proof fn lemma_import_entries(
    c: SourceBytes,
    fa: bool,
    secs: Seq<SectionView>,
    d: IMAGE_IMPORT_DESCRIPTOR,
    wide: bool,
)
    requires
        spec_parse_import(c, fa, secs, d, wide) is Ok,
    ensures
        ({
            let x = spec_parse_import(c, fa, secs, d, wide)->Ok_0;
            let table = spec_auto_rva(
                fa,
                secs,
                if d.OriginalFirstThunk == 0 {
                    d.FirstThunk
                } else {
                    d.OriginalFirstThunk
                },
            ) as int;
            let w: int = if wide {
                8
            } else {
                4
            };
            let top: int = if wide {
                0x8000_0000_0000_0000
            } else {
                0x8000_0000
            };
            &&& thunk_at(c, wide, table + w * x.entries.len()) == 0
            &&& forall|k: int|
                0 <= k < x.entries.len() ==> {
                    let v = thunk_at(c, wide, table + w * k);
                    &&& v != 0
                    &&& v >= top ==> #[trigger] x.entries[k]
                        == ImportEntryView::ImportByOrdinal((v % 0x10000) as u64)
                    &&& v < top ==> !(x.entries[k] is ImportByOrdinal)
                    &&& v < top && d.OriginalFirstThunk == 0 && !fa ==> x.entries[k] == ImportEntryView::FunctionAddress(v as u64)
                    &&& v < top && !(d.OriginalFirstThunk == 0 && !fa) ==> {
                        let hn = spec_auto_rva(fa, secs, (v % 0x8000_0000) as u32);
                        x.entries[k] == ImportEntryView::ImportByName(
                            le_u16(c.bytes, hn as int),
                            ascii_text(c.bytes.subrange(hn + 2, hn + 258)),
                        )
                    }
                }
        }),
{
    reveal(spec_parse_import);
    let thunk = if d.OriginalFirstThunk == 0 {
        d.FirstThunk
    } else {
        d.OriginalFirstThunk
    };
    let table = spec_auto_rva(fa, secs, thunk) as u64;
    let use_iat = d.OriginalFirstThunk == 0;
    lemma_thunks_from(c, fa, secs, wide, use_iat, table, Seq::empty());
    let x = spec_parse_import(c, fa, secs, d, wide)->Ok_0;
    let r = spec_thunks(c, fa, secs, wide, use_iat, table, Seq::empty())->Ok_0;
    assert(x.entries == r);
    let w: int = if wide {
        8
    } else {
        4
    };
    let top: int = if wide {
        0x8000_0000_0000_0000
    } else {
        0x8000_0000
    };
    assert(top == ordinal_flag(wide));
    assert forall|k: int| 0 <= k < x.entries.len() implies {
        let v = thunk_at(c, wide, table + w * k);
        &&& v != 0
        &&& v >= top ==> #[trigger] x.entries[k] == ImportEntryView::ImportByOrdinal(
            (v % 0x10000) as u64,
        )
        &&& v < top ==> !(x.entries[k] is ImportByOrdinal)
        &&& v < top && d.OriginalFirstThunk == 0 && !fa ==> x.entries[k] == ImportEntryView::FunctionAddress(v as u64)
        &&& v < top && !(d.OriginalFirstThunk == 0 && !fa) ==> {
            let hn = spec_auto_rva(fa, secs, (v % 0x8000_0000) as u32);
            x.entries[k] == ImportEntryView::ImportByName(
                le_u16(c.bytes, hn as int),
                ascii_text(c.bytes.subrange(hn + 2, hn + 258)),
            )
        }
    } by {
        assert(x.entries[k] == r[Seq::<ImportEntryView>::empty().len() + k]);
    }
}

/// What parsing the imports that descriptor `d` describes gives: the DLL
/// name (read as at most 256 bytes at the translated `Name`), and the
/// entries of the import lookup table (`OriginalFirstThunk`), or of the
/// import address table (`FirstThunk`) when there is no lookup table.
#[verifier::opaque]
pub open spec fn spec_parse_import(
    c: SourceBytes,
    fa: bool,
    secs: Seq<SectionView>,
    d: IMAGE_IMPORT_DESCRIPTOR,
    wide: bool,
) -> Result<ImportView, ParseFailure> {
    match spec_read(c, spec_auto_rva(fa, secs, d.Name) as u64, 256) {
        Err(e) => Err(ParseFailure::DataSource(e)),
        Ok(nb) => {
            let use_iat = d.OriginalFirstThunk == 0;
            let thunk = if use_iat {
                d.FirstThunk
            } else {
                d.OriginalFirstThunk
            };
            match spec_thunks(
                c,
                fa,
                secs,
                wide,
                use_iat,
                spec_auto_rva(fa, secs, thunk) as u64,
                Seq::empty(),
            ) {
                Err(e) => Err(e),
                Ok(entries) => Ok(ImportView { dll_name: ascii_text(nb), descriptor: d, entries }),
            }
        },
    }
}

impl Import {
    /// Parse the DLL name and the imported functions that the descriptor
    /// `import_desc` describes; `is_pe32_plus` selects 8-byte thunks.
    pub(crate) fn parse<T: DataSource + ?Sized>(
        data_source: &T,
        sections: &Sections,
        import_desc: IMAGE_IMPORT_DESCRIPTOR,
        is_pe32_plus: bool,
    ) -> (r: Result<Self, ParseError>)
        ensures
            parse_agrees(
                match r {
                    Ok(x) => Ok(x@),
                    Err(e) => Err(e@),
                },
                spec_parse_import(
                    data_source.content(),
                    data_source.file_aligned(),
                    sections@,
                    import_desc,
                    is_pe32_plus,
                ),
                data_source.read_model(),
            ),
    {
        reveal(spec_parse_import);
        let ghost c = data_source.content();
        let ghost fa = data_source.file_aligned();
        let ghost secs = sections@;
        let name_offset = auto_rva(data_source, sections, import_desc.Name);
        let dll_name = match data_source.read_ascii(name_offset as u64, 256) {
            Ok(s) => s,
            Err(e) => return Err(ParseError::DataSource(e)),
        };
        let use_iat = import_desc.OriginalFirstThunk == 0;
        let thunk = if use_iat {
            import_desc.FirstThunk
        } else {
            import_desc.OriginalFirstThunk
        };
        let mut off: u64 = auto_rva(data_source, sections, thunk) as u64;
        let width: u64 = if is_pe32_plus {
            8
        } else {
            4
        };
        let ghost goal = spec_thunks(c, fa, secs, is_pe32_plus, use_iat, off, Seq::empty());
        let ghost whole = spec_parse_import(c, fa, secs, import_desc, is_pe32_plus);
        let mut entries: Vec<ImportEntry> = Vec::new();
        assert(entries@.map_values(|e: ImportEntry| e@) =~= Seq::<ImportEntryView>::empty());
        loop
            invariant
                c == data_source.content(),
                fa == data_source.file_aligned(),
                secs == sections@,
                width == (if is_pe32_plus {
                    8u64
                } else {
                    4u64
                }),
                use_iat == (import_desc.OriginalFirstThunk == 0),
                whole == spec_parse_import(c, fa, secs, import_desc, is_pe32_plus),
                modelled(data_source.read_model()) ==> whole == (match goal {
                    Err(e) => Err(e),
                    Ok(es) => Ok(
                        ImportView { dll_name: dll_name@, descriptor: import_desc, entries: es },
                    ),
                }),
                modelled(data_source.read_model()) ==> goal == spec_thunks(
                    c,
                    fa,
                    secs,
                    is_pe32_plus,
                    use_iat,
                    off,
                    entries@.map_values(|e: ImportEntry| e@),
                ),
            ensures
                modelled(data_source.read_model()) ==> whole == Ok::<ImportView, ParseFailure>(
                    ImportView {
                        dll_name: dll_name@,
                        descriptor: import_desc,
                        entries: entries@.map_values(|e: ImportEntry| e@),
                    },
                ),
            decreases u64::MAX - off,
        {
            let v: u64 = if is_pe32_plus {
                match data_source.read_u64(off) {
                    Ok(x) => x,
                    Err(e) => return Err(ParseError::DataSource(e)),
                }
            } else {
                match data_source.read_u32(off) {
                    Ok(x) => x as u64,
                    Err(e) => return Err(ParseError::DataSource(e)),
                }
            };
            if v == 0 {
                break ;
            }
            let is_ordinal = if is_pe32_plus {
                v >= 0x8000_0000_0000_0000
            } else {
                v >= 0x8000_0000
            };
            let entry = if is_ordinal {
                ImportEntry::ImportByOrdinal(v % 0x10000)
            } else if use_iat && !data_source.is_file_aligned() {
                ImportEntry::FunctionAddress(v)
            } else {
                let hint_name = auto_rva(data_source, sections, (v % 0x8000_0000) as u32) as u64;
                let hint = match data_source.read_u16(hint_name) {
                    Ok(h) => h,
                    Err(e) => return Err(ParseError::DataSource(e)),
                };
                let name = match data_source.read_ascii(hint_name + 2, 256) {
                    Ok(s) => s,
                    Err(e) => return Err(ParseError::DataSource(e)),
                };
                ImportEntry::ImportByName(hint, name)
            };
            let next = match off.checked_add(width) {
                Some(n) => n,
                None => return Err(ParseError::Unknown),
            };
            let ghost before = entries@.map_values(|e: ImportEntry| e@);
            let ghost ev = entry@;
            entries.push(entry);
            assert(entries@.map_values(|e: ImportEntry| e@) =~= before.push(ev));
            off = next;
        }
        Ok(Import { dll_name, entry_import: import_desc, import_entrys: entries })
    }

    /// The name of the DLL the functions are imported from.
    pub fn dll_name(&self) -> (r: &str)
        ensures
            r@ == self@.dll_name,
    {
        self.dll_name.as_str()
    }

    /// The raw import descriptor.
    pub fn descriptor(&self) -> (r: IMAGE_IMPORT_DESCRIPTOR)
        ensures
            r == self@.descriptor,
    {
        self.entry_import
    }

    /// The imported functions, in table order.
    pub fn import_name_table(&self) -> (r: &Vec<ImportEntry>)
        ensures
            r@.map_values(|e: ImportEntry| e@) == self@.entries,
    {
        &self.import_entrys
    }
}

} // verus!
