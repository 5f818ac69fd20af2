use super::section::{auto_rva, spec_auto_rva, SectionView, Sections};
use crate::data_source::{
    modelled,
    ascii_text, le_u16, le_u32, spec_read, DataSource, DataSourceExt, SourceBytes};
use crate::pe::{parse_agrees, ParseError, ParseFailure};
use crate::pe_structs::IMAGE_EXPORT_DIRECTORY;
use vstd::prelude::*;

verus! {

/// Where an exported function leads.
#[derive(Debug, Clone)]
pub enum ExportEntry {
    /// The function's address (file offset for a file-aligned source,
    /// virtual address otherwise).
    FunctionAddress(u64),
    /// A `"dll_name.function_name"` forwarder: the loader redirects the
    /// call to another DLL.
    FunctionForwarder(String),
}

/// An [`ExportEntry`] with its text taken as characters.
pub enum ExportEntryView {
    FunctionAddress(u64),
    FunctionForwarder(Seq<char>),
}

impl View for ExportEntry {
    type V = ExportEntryView;

    open spec fn view(&self) -> ExportEntryView {
        match self {
            ExportEntry::FunctionAddress(a) => ExportEntryView::FunctionAddress(*a),
            ExportEntry::FunctionForwarder(s) => ExportEntryView::FunctionForwarder(s@),
        }
    }
}

impl ExportEntry {
    /// A copy of the entry.
    pub fn duplicate(&self) -> (r: ExportEntry)
        ensures
            r@ == self@,
    {
        match self {
            ExportEntry::FunctionAddress(a) => ExportEntry::FunctionAddress(*a),
            ExportEntry::FunctionForwarder(s) => ExportEntry::FunctionForwarder(s.clone()),
        }
    }
}

/// The parsed export directory.
#[derive(Debug)]
pub struct Export {
    name_table: Vec<(String, u16)>,
    function_addr_table: Vec<ExportEntry>,
    ordinal_base: u16,
}

/// An [`Export`] taken by the views of its tables.
pub struct ExportView {
    pub names: Seq<(Seq<char>, u16)>,
    pub functions: Seq<ExportEntryView>,
    pub ordinal_base: u16,
}

pub open spec fn name_view(p: (String, u16)) -> (Seq<char>, u16) {
    (p.0@, p.1)
}

impl View for Export {
    type V = ExportView;

    closed spec fn view(&self) -> ExportView {
        ExportView {
            names: self.name_table@.map_values(|p: (String, u16)| name_view(p)),
            functions: self.function_addr_table@.map_values(|e: ExportEntry| e@),
            ordinal_base: self.ordinal_base,
        }
    }
}

/// The name table: `count` more entries read from the name-pointer table
/// at `names_off` and the ordinal table at `ords_off`, after `acc`. Each
/// entry is the name (read as at most 256 bytes at its translated RVA)
/// and its ordinal.
pub open spec fn spec_export_names(
    c: SourceBytes,
    fa: bool,
    secs: Seq<SectionView>,
    count: nat,
    names_off: u32,
    ords_off: u32,
    acc: Seq<(Seq<char>, u16)>,
) -> Result<Seq<(Seq<char>, u16)>, ParseFailure>
    decreases count,
{
    if count == 0 {
        Ok(acc)
    } else {
        match spec_read(c, names_off as u64, 4) {
            Err(e) => Err(ParseFailure::DataSource(e)),
            Ok(nb) => if names_off + 4 > u32::MAX {
                Err(ParseFailure::Unknown)
            } else {
                match spec_read(c, ords_off as u64, 2) {
                    Err(e) => Err(ParseFailure::DataSource(e)),
                    Ok(ob) => if ords_off + 2 > u32::MAX {
                        Err(ParseFailure::Unknown)
                    } else {
                        match spec_read(c, spec_auto_rva(fa, secs, le_u32(nb, 0)) as u64, 256) {
                            Err(e) => Err(ParseFailure::DataSource(e)),
                            Ok(name) => spec_export_names(
                                c,
                                fa,
                                secs,
                                (count - 1) as nat,
                                (names_off + 4) as u32,
                                (ords_off + 2) as u32,
                                acc.push((ascii_text(name), le_u16(ob, 0))),
                            ),
                        }
                    },
                }
            },
        }
    }
}

/// Whether `rva` lies within the export directory's own range.
pub open spec fn in_export_range(rva: u32, range: (u32, u32)) -> bool {
    range.0 <= rva && rva < range.0 + range.1
}

/// The function table from entry `i` on, after `acc`. An entry whose RVA
/// lies in the export directory's range is a forwarder string (read as at
/// most 256 bytes); any other is an address: the translated RVA for a
/// file-aligned source, the image base plus the RVA otherwise.
pub open spec fn spec_export_functions(
    c: SourceBytes,
    fa: bool,
    base: u64,
    secs: Seq<SectionView>,
    range: (u32, u32),
    func_off: u32,
    i: nat,
    count: nat,
    acc: Seq<ExportEntryView>,
) -> Result<Seq<ExportEntryView>, ParseFailure>
    decreases count - i,
{
    if i >= count {
        Ok(acc)
    } else if func_off + 4 * i > u32::MAX {
        Err(ParseFailure::Unknown)
    } else {
        match spec_read(c, (func_off + 4 * i) as u64, 4) {
            Err(e) => Err(ParseFailure::DataSource(e)),
            Ok(fb) => {
                let rva = le_u32(fb, 0);
                if in_export_range(rva, range) {
                    match spec_read(c, spec_auto_rva(fa, secs, rva) as u64, 256) {
                        Err(e) => Err(ParseFailure::DataSource(e)),
                        Ok(text) => spec_export_functions(
                            c,
                            fa,
                            base,
                            secs,
                            range,
                            func_off,
                            i + 1,
                            count,
                            acc.push(ExportEntryView::FunctionForwarder(ascii_text(text))),
                        ),
                    }
                } else if fa {
                    spec_export_functions(
                        c,
                        fa,
                        base,
                        secs,
                        range,
                        func_off,
                        i + 1,
                        count,
                        acc.push(
                            ExportEntryView::FunctionAddress(
                                spec_auto_rva(fa, secs, rva) as u64,
                            ),
                        ),
                    )
                } else if base + rva > u64::MAX {
                    Err(ParseFailure::Unknown)
                } else {
                    spec_export_functions(
                        c,
                        fa,
                        base,
                        secs,
                        range,
                        func_off,
                        i + 1,
                        count,
                        acc.push(ExportEntryView::FunctionAddress((base + rva) as u64)),
                    )
                }
            },
        }
    }
}

/// What parsing the export directory `d` gives: its name table, then its
/// function table, and `Base` truncated to 16 bits as the ordinal base.
#[verifier::opaque]
pub open spec fn spec_parse_export(
    c: SourceBytes,
    fa: bool,
    base: u64,
    secs: Seq<SectionView>,
    d: IMAGE_EXPORT_DIRECTORY,
    range: (u32, u32),
) -> Result<ExportView, ParseFailure> {
    match spec_export_names(
        c,
        fa,
        secs,
        d.NumberOfNames as nat,
        spec_auto_rva(fa, secs, d.AddressOfNames),
        spec_auto_rva(fa, secs, d.AddressOfNameOrdinals),
        Seq::empty(),
    ) {
        Err(e) => Err(e),
        Ok(names) => match spec_export_functions(
            c,
            fa,
            base,
            secs,
            range,
            spec_auto_rva(fa, secs, d.AddressOfFunctions),
            0,
            d.NumberOfFunctions as nat,
            Seq::empty(),
        ) {
            Err(e) => Err(e),
            Ok(functions) => Ok(ExportView { names, functions, ordinal_base: d.Base as u16 }),
        },
    }
}

/// The name table read from `count` name pointers at `names_off` and as
/// many ordinals at `ords_off`: entry `j` pairs the name that the `j`-th
/// 4-byte pointer leads to with the `j`-th 2-byte ordinal.
proof fn lemma_export_names_from(
    c: SourceBytes,
    fa: bool,
    secs: Seq<SectionView>,
    count: nat,
    names_off: u32,
    ords_off: u32,
    acc: Seq<(Seq<char>, u16)>,
)
    requires
        spec_export_names(c, fa, secs, count, names_off, ords_off, acc) is Ok,
    ensures
        ({
            let r = spec_export_names(c, fa, secs, count, names_off, ords_off, acc)->Ok_0;
            &&& r.len() == acc.len() + count
            &&& forall|i: int| 0 <= i < acc.len() ==> r[i] == acc[i]
            &&& forall|j: int|
                0 <= j < count ==> {
                    let name_at = spec_auto_rva(fa, secs, le_u32(c.bytes, names_off + 4 * j));
                    &&& (#[trigger] r[acc.len() + j]).1 == le_u16(c.bytes, ords_off + 2 * j)
                    &&& r[acc.len() + j].0 == ascii_text(
                        c.bytes.subrange(name_at as int, name_at + 256),
                    )
                }
        }),
    decreases count,
{
    if count > 0 {
        let nb = spec_read(c, names_off as u64, 4)->Ok_0;
        let ob = spec_read(c, ords_off as u64, 2)->Ok_0;
        let name_at = spec_auto_rva(fa, secs, le_u32(nb, 0));
        let name = spec_read(c, name_at as u64, 256)->Ok_0;
        assert(nb == c.bytes.subrange(names_off as int, names_off + 4));
        assert(ob == c.bytes.subrange(ords_off as int, ords_off + 2));
        assert(name == c.bytes.subrange(name_at as int, name_at + 256));
        assert(le_u32(nb, 0) == le_u32(c.bytes, names_off as int));
        assert(le_u16(ob, 0) == le_u16(c.bytes, ords_off as int));
        let x = (ascii_text(name), le_u16(ob, 0));
        lemma_export_names_from(
            c,
            fa,
            secs,
            (count - 1) as nat,
            (names_off + 4) as u32,
            (ords_off + 2) as u32,
            acc.push(x),
        );
        let r = spec_export_names(c, fa, secs, count, names_off, ords_off, acc)->Ok_0;
        assert forall|j: int| 0 < j < count implies {
            let name_at = spec_auto_rva(fa, secs, le_u32(c.bytes, names_off + 4 * j));
            &&& (#[trigger] r[acc.len() + j]).1 == le_u16(c.bytes, ords_off + 2 * j)
            &&& r[acc.len() + j].0 == ascii_text(c.bytes.subrange(name_at as int, name_at + 256))
        } by {
            assert(acc.push(x).len() + (j - 1) == acc.len() + j);
            assert(names_off + 4 + 4 * (j - 1) == names_off + 4 * j);
            assert(ords_off + 2 + 2 * (j - 1) == ords_off + 2 * j);
        }
    }
}

/// The name table of a parsed export directory `d` has one entry per name
/// (`NumberOfNames`), in order: entry `k` pairs the name that the `k`-th
/// 4-byte entry of the name-pointer table leads to with the `k`-th 2-byte
/// entry of the ordinal table, both tables at their translated RVAs.
pub proof fn lemma_export_name_table(
    c: SourceBytes,
    fa: bool,
    base: u64,
    secs: Seq<SectionView>,
    d: IMAGE_EXPORT_DIRECTORY,
    range: (u32, u32),
)
    requires
        spec_parse_export(c, fa, base, secs, d, range) is Ok,
    ensures
        ({
            let x = spec_parse_export(c, fa, base, secs, d, range)->Ok_0;
            let names_at = spec_auto_rva(fa, secs, d.AddressOfNames);
            let ords_at = spec_auto_rva(fa, secs, d.AddressOfNameOrdinals);
            &&& x.names.len() == d.NumberOfNames
            &&& forall|k: int|
                0 <= k < d.NumberOfNames ==> {
                    let name_at = spec_auto_rva(fa, secs, le_u32(c.bytes, names_at + 4 * k));
                    &&& (#[trigger] x.names[k]).1 == le_u16(c.bytes, ords_at + 2 * k)
                    &&& x.names[k].0 == ascii_text(c.bytes.subrange(name_at as int, name_at + 256))
                }
        }),
{
    reveal(spec_parse_export);
    let names_at = spec_auto_rva(fa, secs, d.AddressOfNames);
    let ords_at = spec_auto_rva(fa, secs, d.AddressOfNameOrdinals);
    lemma_export_names_from(c, fa, secs, d.NumberOfNames as nat, names_at, ords_at, Seq::empty());
    let x = spec_parse_export(c, fa, base, secs, d, range)->Ok_0;
    assert forall|k: int| 0 <= k < d.NumberOfNames implies {
        let name_at = spec_auto_rva(fa, secs, le_u32(c.bytes, names_at + 4 * k));
        &&& (#[trigger] x.names[k]).1 == le_u16(c.bytes, ords_at + 2 * k)
        &&& x.names[k].0 == ascii_text(c.bytes.subrange(name_at as int, name_at + 256))
    } by {
        assert(Seq::<(Seq<char>, u16)>::empty().len() + k == k);
    }
}

/// The function table read from entry `i` on: entry `j` comes from the
/// `j`-th 4-byte RVA at `func_off`; an RVA inside the export directory's
/// own range leads to a forwarder string, any other is the function's
/// address: the translated RVA for a file-aligned source, the image base
/// plus the RVA otherwise.
proof fn lemma_export_functions_from(
    c: SourceBytes,
    fa: bool,
    base: u64,
    secs: Seq<SectionView>,
    range: (u32, u32),
    func_off: u32,
    i: nat,
    count: nat,
    acc: Seq<ExportEntryView>,
)
    requires
        i <= count,
        spec_export_functions(c, fa, base, secs, range, func_off, i, count, acc) is Ok,
    ensures
        ({
            let r = spec_export_functions(c, fa, base, secs, range, func_off, i, count, acc)->Ok_0;
            &&& r.len() == acc.len() + (count - i)
            &&& forall|m: int| 0 <= m < acc.len() ==> r[m] == acc[m]
            &&& forall|j: int|
                i <= j < count ==> {
                    let rva = le_u32(c.bytes, func_off + 4 * j);
                    let at = spec_auto_rva(fa, secs, rva);
                    let e = #[trigger] r[acc.len() + (j - i)];
                    &&& range.0 <= rva < range.0 + range.1 ==> e
                        == ExportEntryView::FunctionForwarder(
                        ascii_text(c.bytes.subrange(at as int, at + 256)),
                    )
                    &&& !(range.0 <= rva < range.0 + range.1) && fa ==> e
                        == ExportEntryView::FunctionAddress(at as u64)
                    &&& !(range.0 <= rva < range.0 + range.1) && !fa ==> e
                        == ExportEntryView::FunctionAddress((base + rva) as u64)
                }
        }),
    decreases count - i,
{
    if i < count {
        let fb = spec_read(c, (func_off + 4 * i) as u64, 4)->Ok_0;
        assert(fb == c.bytes.subrange(func_off + 4 * i, func_off + 4 * i + 4));
        let rva = le_u32(fb, 0);
        assert(rva == le_u32(c.bytes, func_off + 4 * i));
        let at = spec_auto_rva(fa, secs, rva);
        let e = if in_export_range(rva, range) {
            let text = spec_read(c, at as u64, 256)->Ok_0;
            assert(text == c.bytes.subrange(at as int, at + 256));
            ExportEntryView::FunctionForwarder(ascii_text(text))
        } else if fa {
            ExportEntryView::FunctionAddress(at as u64)
        } else {
            ExportEntryView::FunctionAddress((base + rva) as u64)
        };
        lemma_export_functions_from(c, fa, base, secs, range, func_off, i + 1, count, acc.push(e));
        let r = spec_export_functions(c, fa, base, secs, range, func_off, i, count, acc)->Ok_0;
        assert(r == spec_export_functions(
            c,
            fa,
            base,
            secs,
            range,
            func_off,
            i + 1,
            count,
            acc.push(e),
        )->Ok_0);
        assert(r[acc.len() as int] == e);
        assert forall|j: int| i < j < count implies #[trigger] r[acc.len() + (j - i)] == r[acc.push(
            e,
        ).len() + (j - (i + 1))] by {}
    }
}

/// The function table of a parsed export directory `d` has one entry per
/// function (`NumberOfFunctions`): entry `k` comes from the `k`-th 4-byte
/// RVA of the table at the translated `AddressOfFunctions`. An RVA inside
/// the export directory's own range (`range`: its RVA and size) is a
/// forwarder, named by the text at that RVA; any other is the function's
/// address: the translated RVA for a file-aligned source, the image base
/// plus the RVA for an in-memory image. The ordinal base is `Base`.
pub proof fn lemma_export_function_table(
    c: SourceBytes,
    fa: bool,
    base: u64,
    secs: Seq<SectionView>,
    d: IMAGE_EXPORT_DIRECTORY,
    range: (u32, u32),
)
    requires
        spec_parse_export(c, fa, base, secs, d, range) is Ok,
    ensures
        ({
            let x = spec_parse_export(c, fa, base, secs, d, range)->Ok_0;
            let funcs_at = spec_auto_rva(fa, secs, d.AddressOfFunctions);
            &&& x.ordinal_base == d.Base as u16
            &&& x.functions.len() == d.NumberOfFunctions
            &&& forall|k: int|
                0 <= k < d.NumberOfFunctions ==> {
                    let rva = le_u32(c.bytes, funcs_at + 4 * k);
                    let at = spec_auto_rva(fa, secs, rva);
                    let e = #[trigger] x.functions[k];
                    &&& range.0 <= rva < range.0 + range.1 ==> e
                        == ExportEntryView::FunctionForwarder(
                        ascii_text(c.bytes.subrange(at as int, at + 256)),
                    )
                    &&& !(range.0 <= rva < range.0 + range.1) && fa ==> e
                        == ExportEntryView::FunctionAddress(at as u64)
                    &&& !(range.0 <= rva < range.0 + range.1) && !fa ==> e
                        == ExportEntryView::FunctionAddress((base + rva) as u64)
                }
        }),
{
    reveal(spec_parse_export);
    let funcs_at = spec_auto_rva(fa, secs, d.AddressOfFunctions);
    lemma_export_functions_from(
        c,
        fa,
        base,
        secs,
        range,
        funcs_at,
        0,
        d.NumberOfFunctions as nat,
        Seq::empty(),
    );
    let x = spec_parse_export(c, fa, base, secs, d, range)->Ok_0;
    assert forall|k: int| 0 <= k < d.NumberOfFunctions implies #[trigger] x.functions[k]
        == x.functions[Seq::<ExportEntryView>::empty().len() + (k - 0)] by {}
}

/// The index of the first entry of `names` called `name`.
pub open spec fn first_export_named(names: Seq<(Seq<char>, u16)>, name: Seq<char>) -> Option<int>
    decreases names.len(),
{
    if names.len() == 0 {
        None
    } else if names[0].0 == name {
        Some(0)
    } else {
        match first_export_named(names.drop_first(), name) {
            Some(i) => Some(i + 1),
            None => None,
        }
    }
}

/// The entry of `functions` at `i`, if there is one.
pub open spec fn entry_at(functions: Seq<ExportEntryView>, i: int) -> Option<ExportEntryView> {
    if 0 <= i < functions.len() {
        Some(functions[i])
    } else {
        None
    }
}

pub open spec fn entry_view(e: Option<ExportEntry>) -> Option<ExportEntryView> {
    match e {
        Some(x) => Some(x@),
        None => None,
    }
}

impl Export {
    /// Parse the export tables that the export directory `export_desc`
    /// points at. `export_dir_range` is the directory's `(RVA, size)`;
    /// RVAs are translated through `sections` for a file-aligned source.
    pub(crate) fn parse<T: DataSource + ?Sized>(
        data_source: &T,
        export_desc: IMAGE_EXPORT_DIRECTORY,
        export_dir_range: (u32, u32),
        sections: &Sections,
    ) -> (r: Result<Self, ParseError>)
        ensures
            parse_agrees(
                match r {
                    Ok(x) => Ok(x@),
                    Err(e) => Err(e@),
                },
                spec_parse_export(
                    data_source.content(),
                    data_source.file_aligned(),
                    data_source.base_address(),
                    sections@,
                    export_desc,
                    export_dir_range,
                ),
                data_source.read_model(),
            ),
    {
        reveal(spec_parse_export);
        let ghost c = data_source.content();
        let ghost fa = data_source.file_aligned();
        let ghost secs = sections@;
        let num_of_name = export_desc.NumberOfNames;
        let mut names_offset = auto_rva(data_source, sections, export_desc.AddressOfNames);
        let mut ordinals_offset = auto_rva(data_source, sections, export_desc.AddressOfNameOrdinals);
        let ordinal_base = #[verifier::truncate] (export_desc.Base as u16);
        let ghost names_goal = spec_export_names(
            c,
            fa,
            secs,
            num_of_name as nat,
            names_offset,
            ordinals_offset,
            Seq::empty(),
        );
        let ghost whole = spec_parse_export(
            c,
            fa,
            data_source.base_address(),
            secs,
            export_desc,
            export_dir_range,
        );
        let ghost funcs_goal0 = spec_export_functions(
            c,
            fa,
            data_source.base_address(),
            secs,
            export_dir_range,
            spec_auto_rva(fa, secs, export_desc.AddressOfFunctions),
            0,
            export_desc.NumberOfFunctions as nat,
            Seq::empty(),
        );
        let mut name_table: Vec<(String, u16)> = Vec::new();
        let mut k: u32 = 0;
        assert(name_table@.map_values(|p: (String, u16)| name_view(p)) =~= Seq::<
            (Seq<char>, u16),
        >::empty());
        while k < num_of_name
            invariant
                k <= num_of_name,
                c == data_source.content(),
                fa == data_source.file_aligned(),
                secs == sections@,
                whole == spec_parse_export(
                    c,
                    fa,
                    data_source.base_address(),
                    secs,
                    export_desc,
                    export_dir_range,
                ),
                num_of_name == export_desc.NumberOfNames,
                ordinal_base == (#[verifier::truncate] (export_desc.Base as u16)),
                modelled(data_source.read_model()) ==> whole == (match names_goal {
                    Err(e) => Err(e),
                    Ok(names) => match funcs_goal0 {
                        Err(e) => Err(e),
                        Ok(functions) => Ok(ExportView { names, functions, ordinal_base }),
                    },
                }),
                funcs_goal0 == spec_export_functions(
                    c,
                    fa,
                    data_source.base_address(),
                    secs,
                    export_dir_range,
                    spec_auto_rva(fa, secs, export_desc.AddressOfFunctions),
                    0,
                    export_desc.NumberOfFunctions as nat,
                    Seq::empty(),
                ),
                modelled(data_source.read_model()) ==> names_goal == spec_export_names(
                    c,
                    fa,
                    secs,
                    (num_of_name - k) as nat,
                    names_offset,
                    ordinals_offset,
                    name_table@.map_values(|p: (String, u16)| name_view(p)),
                ),
            decreases num_of_name - k,
        {
            let name_rva = match data_source.read_u32(names_offset as u64) {
                Ok(v) => v,
                Err(e) => return Err(ParseError::DataSource(e)),
            };
            names_offset = match names_offset.checked_add(4) {
                Some(n) => n,
                None => return Err(ParseError::Unknown),
            };
            let ordinal = match data_source.read_u16(ordinals_offset as u64) {
                Ok(v) => v,
                Err(e) => return Err(ParseError::DataSource(e)),
            };
            ordinals_offset = match ordinals_offset.checked_add(2) {
                Some(n) => n,
                None => return Err(ParseError::Unknown),
            };
            let name_offset = auto_rva(data_source, sections, name_rva);
            let name = match data_source.read_ascii(name_offset as u64, 256) {
                Ok(s) => s,
                Err(e) => return Err(ParseError::DataSource(e)),
            };
            let ghost before = name_table@.map_values(|p: (String, u16)| name_view(p));
            let ghost entry = (name@, ordinal);
            name_table.push((name, ordinal));
            assert(name_table@.map_values(|p: (String, u16)| name_view(p)) =~= before.push(entry));
            k = k + 1;
        }
        let num_of_functions = export_desc.NumberOfFunctions;
        let function_offset = auto_rva(data_source, sections, export_desc.AddressOfFunctions);
        let ghost funcs_goal = spec_export_functions(
            c,
            fa,
            data_source.base_address(),
            secs,
            export_dir_range,
            function_offset,
            0,
            num_of_functions as nat,
            Seq::empty(),
        );
        let mut function_addr_table: Vec<ExportEntry> = Vec::new();
        let mut i: u32 = 0;
        assert(function_addr_table@.map_values(|e: ExportEntry| e@) =~= Seq::<
            ExportEntryView,
        >::empty());
        while i < num_of_functions
            invariant
                i <= num_of_functions,
                c == data_source.content(),
                fa == data_source.file_aligned(),
                secs == sections@,
                ordinal_base == (#[verifier::truncate] (export_desc.Base as u16)),
                whole == spec_parse_export(
                    c,
                    fa,
                    data_source.base_address(),
                    secs,
                    export_desc,
                    export_dir_range,
                ),
                modelled(data_source.read_model()) ==> whole == (match funcs_goal {
                    Err(e) => Err(e),
                    Ok(functions) => Ok(
                        ExportView {
                            names: name_table@.map_values(|p: (String, u16)| name_view(p)),
                            functions,
                            ordinal_base,
                        },
                    ),
                }),
                modelled(data_source.read_model()) ==> funcs_goal == spec_export_functions(
                    c,
                    fa,
                    data_source.base_address(),
                    secs,
                    export_dir_range,
                    function_offset,
                    i as nat,
                    num_of_functions as nat,
                    function_addr_table@.map_values(|e: ExportEntry| e@),
                ),
            decreases num_of_functions - i,
        {
            if function_offset as u64 + 4 * (i as u64) > u32::MAX as u64 {
                return Err(ParseError::Unknown);
            }
            let entry_offset = function_offset + 4 * i;
            let function_rva = match data_source.read_u32(entry_offset as u64) {
                Ok(v) => v,
                Err(e) => return Err(ParseError::DataSource(e)),
            };
            let entry = if function_rva >= export_dir_range.0 && (function_rva as u64) < (
            export_dir_range.0 as u64) + (export_dir_range.1 as u64) {
                let forwarder_offset = auto_rva(data_source, sections, function_rva) as u64;
                let forwarder = match data_source.read_ascii(forwarder_offset, 256) {
                    Ok(s) => s,
                    Err(e) => return Err(ParseError::DataSource(e)),
                };
                ExportEntry::FunctionForwarder(forwarder)
            } else if data_source.is_file_aligned() {
                ExportEntry::FunctionAddress(auto_rva(data_source, sections, function_rva) as u64)
            } else {
                let base = data_source.image_base();
                match base.checked_add(function_rva as u64) {
                    Some(a) => ExportEntry::FunctionAddress(a),
                    None => return Err(ParseError::Unknown),
                }
            };
            let ghost before = function_addr_table@.map_values(|e: ExportEntry| e@);
            let ghost ev = entry@;
            function_addr_table.push(entry);
            assert(function_addr_table@.map_values(|e: ExportEntry| e@) =~= before.push(ev));
            i = i + 1;
        }
        Ok(Export { name_table, function_addr_table, ordinal_base })
    }

    /// The entry of the function whose name is `function_name`: the
    /// function table's entry at the index of the first such name.
    pub fn function_address_by_name(&self, function_name: &str) -> (r: Option<ExportEntry>)
        ensures
            entry_view(r) == match first_export_named(self@.names, function_name@) {
                Some(i) => entry_at(self@.functions, i),
                None => None,
            },
    {
        let wanted = String::from_str(function_name);
        let n = self.name_table.len();
        let ghost names = self@.names;
        let mut i: usize = 0;
        assert(names.subrange(0, n as int) =~= names);
        while i < n
            invariant
                n == self.name_table@.len(),
                names == self@.names,
                names.len() == n,
                i <= n,
                wanted@ == function_name@,
                match first_export_named(names, function_name@) {
                    Some(k) => match first_export_named(names.subrange(i as int, n as int), function_name@) {
                        Some(j) => k == j + i,
                        None => false,
                    },
                    None => first_export_named(names.subrange(i as int, n as int), function_name@) is None,
                },
            decreases n - i,
        {
            assert(names[i as int] == name_view(self.name_table@[i as int]));
            assert(names.subrange(i as int, n as int).drop_first() =~= names.subrange(i + 1, n as int));
            if self.name_table[i].0 == wanted {
                if i < self.function_addr_table.len() {
                    return Some(self.function_addr_table[i].duplicate());
                } else {
                    return None;
                }
            }
            i = i + 1;
        }
        None
    }

    /// Every exported function as `(name, ordinal)`.
    pub fn name_table(&self) -> (r: &[(String, u16)])
        ensures
            r@.map_values(|p: (String, u16)| name_view(p)) == self@.names,
    {
        self.name_table.as_slice()
    }

    /// Ordinal base declared in the export directory (`Base` field).
    pub fn ordinal_base(&self) -> (r: u16)
        ensures
            r == self@.ordinal_base,
    {
        self.ordinal_base
    }

    /// The entry of the function with ordinal `function_ordinal`: the
    /// function table's entry at `function_ordinal - ordinal_base`; `None`
    /// below the base or past the table.
    pub fn function_address_by_ordinal(&self, function_ordinal: u16) -> (r: Option<ExportEntry>)
        ensures
            entry_view(r) == if function_ordinal < self@.ordinal_base {
                None
            } else {
                entry_at(self@.functions, function_ordinal - self@.ordinal_base)
            },
    {
        if function_ordinal < self.ordinal_base {
            return None;
        }
        let index = (function_ordinal - self.ordinal_base) as usize;
        if index < self.function_addr_table.len() {
            Some(self.function_addr_table[index].duplicate())
        } else {
            None
        }
    }
}

} // verus!
