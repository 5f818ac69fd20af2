//! Presentation-agnostic report data for a parsed PE image.
//!
//! The library turns raw PE structures into simple, already-formatted rows
//! ([`Field`] for key/value views, `Vec<String>` for multi-column tables).
//! A frontend renders these rows however it likes (a table, JSON, plain
//! text, ...).
use crate::data_source::nul_trimmed;
use crate::pe_structs::{
    IMAGE_DLLCHARACTERISTICS_APPCONTAINER, IMAGE_DLLCHARACTERISTICS_DYNAMIC_BASE,
    IMAGE_DLLCHARACTERISTICS_FORCE_INTEGRITY, IMAGE_DLLCHARACTERISTICS_GUARD_CF,
    IMAGE_DLLCHARACTERISTICS_HIGH_ENTROPY_VA, IMAGE_DLLCHARACTERISTICS_NO_BIND,
    IMAGE_DLLCHARACTERISTICS_NO_ISOLATION, IMAGE_DLLCHARACTERISTICS_NO_SEH,
    IMAGE_DLLCHARACTERISTICS_NX_COMPAT, IMAGE_DLLCHARACTERISTICS_TERMINAL_SERVER_AWARE,
    IMAGE_DLLCHARACTERISTICS_WDM_DRIVER, IMAGE_DOS_HEADER, IMAGE_DOS_SIGNATURE,
    IMAGE_FILE_32BIT_MACHINE, IMAGE_FILE_AGGRESIVE_WS_TRIM, IMAGE_FILE_BYTES_REVERSED_HI,
    IMAGE_FILE_BYTES_REVERSED_LO, IMAGE_FILE_DEBUG_STRIPPED, IMAGE_FILE_DLL,
    IMAGE_FILE_EXECUTABLE_IMAGE, IMAGE_FILE_HEADER, IMAGE_FILE_LARGE_ADDRESS_AWARE,
    IMAGE_FILE_LINE_NUMS_STRIPPED, IMAGE_FILE_LOCAL_SYMS_STRIPPED, IMAGE_FILE_MACHINE_AMD64,
    IMAGE_FILE_MACHINE_I386, IMAGE_FILE_MACHINE_IA64, IMAGE_FILE_NET_RUN_FROM_SWAP,
    IMAGE_FILE_RELOCS_STRIPPED, IMAGE_FILE_REMOVABLE_RUN_FROM_SWAP, IMAGE_FILE_SYSTEM,
    IMAGE_FILE_UP_SYSTEM_ONLY, IMAGE_OPTIONAL_HEADER32, IMAGE_OPTIONAL_HEADER64,
    IMAGE_SCN_CNT_CODE, IMAGE_SCN_CNT_INITIALIZED_DATA, IMAGE_SCN_CNT_UNINITIALIZED_DATA,
    IMAGE_SCN_GPREL, IMAGE_SCN_LNK_COMDAT, IMAGE_SCN_LNK_INFO, IMAGE_SCN_LNK_NRELOC_OVFL,
    IMAGE_SCN_LNK_REMOVE, IMAGE_SCN_MEM_DISCARDABLE, IMAGE_SCN_MEM_EXECUTE,
    IMAGE_SCN_MEM_NOT_CACHED, IMAGE_SCN_MEM_NOT_PAGED, IMAGE_SCN_MEM_READ,
    IMAGE_SCN_MEM_SHARED, IMAGE_SCN_MEM_WRITE, IMAGE_SECTION_HEADER,
    IMAGE_SUBSYSTEM_EFI_APPLICATION, IMAGE_SUBSYSTEM_EFI_BOOT_SERVICE_DRIVER,
    IMAGE_SUBSYSTEM_EFI_ROM, IMAGE_SUBSYSTEM_EFI_RUNTIME_DRIVER, IMAGE_SUBSYSTEM_NATIVE,
    IMAGE_SUBSYSTEM_NATIVE_WINDOWS, IMAGE_SUBSYSTEM_OS2_CUI, IMAGE_SUBSYSTEM_POSIX_CUI,
    IMAGE_SUBSYSTEM_UNKNOWN, IMAGE_SUBSYSTEM_WINDOWS_BOOT_APPLICATION,
    IMAGE_SUBSYSTEM_WINDOWS_CE_GUI, IMAGE_SUBSYSTEM_WINDOWS_CUI, IMAGE_SUBSYSTEM_WINDOWS_GUI,
    IMAGE_SUBSYSTEM_XBOX,
};
use crate::pe_structs_wrapper::optional_header::OptionalHeaderInner;
use crate::pe_structs_wrapper::section::section_name_of;
use crate::text::{
    dec_digits, dec_string, hex_prefixed, hex_string, push_dec, string_from_utf8_lossy,
};
use vstd::prelude::*;

verus! {

/// A single labelled row in a key/value view.
#[derive(Clone, Debug)]
pub struct Field {
    /// Field name, e.g. `"Machine"`.
    pub name: &'static str,
    /// Primary value, already formatted (hex / decimal / string).
    pub value: String,
    /// Optional human-readable interpretation: an enum name, a decoded
    /// flag list, an ASCII rendering, etc. `None` when there is nothing
    /// extra to say.
    pub note: Option<String>,
}

/// A [`Field`] with its text taken as characters.
pub struct FieldView {
    pub name: Seq<char>,
    pub value: Seq<char>,
    pub note: Option<Seq<char>>,
}

impl View for Field {
    type V = FieldView;

    open spec fn view(&self) -> FieldView {
        FieldView {
            name: self.name@,
            value: self.value@,
            note: match &self.note {
                Some(n) => Some(n@),
                None => None,
            },
        }
    }
}

pub open spec fn fields_view(fields: Seq<Field>) -> Seq<FieldView> {
    fields.map_values(|f: Field| f@)
}

impl Field {
    fn new(name: &'static str, value: String, note: Option<String>) -> (r: Self)
        ensures
            r.name == name,
            r.value == value,
            r.note == note,
    {
        Self { name, value, note }
    }

    /// A field with just a value and no interpretation.
    fn plain(name: &'static str, value: String) -> (r: Self)
        ensures
            r.name == name,
            r.value == value,
            r.note is None,
    {
        Self::new(name, value, None)
    }
}

/// A renderable table: a title, column headers, and rows of already-formatted
/// cells. A frontend can print any `Report` uniformly without knowing which
/// part of the PE it describes.
#[derive(Clone, Debug)]
pub struct Report {
    /// Section heading, e.g. `"DOS Header"`.
    pub title: String,
    /// Column headers.
    pub headers: Vec<String>,
    /// Rows of cells, each aligned with [`headers`](Self::headers).
    pub rows: Vec<Vec<String>>,
}

/// A [`Report`] with its text taken as characters.
pub struct ReportView {
    pub title: Seq<char>,
    pub headers: Seq<Seq<char>>,
    pub rows: Seq<Seq<Seq<char>>>,
}

pub open spec fn strings_view(v: Seq<String>) -> Seq<Seq<char>> {
    v.map_values(|s: String| s@)
}

pub open spec fn strs_view(v: Seq<&str>) -> Seq<Seq<char>> {
    v.map_values(|s: &str| s@)
}

pub open spec fn rows_view(rows: Seq<Vec<String>>) -> Seq<Seq<Seq<char>>> {
    rows.map_values(|row: Vec<String>| strings_view(row@))
}

impl View for Report {
    type V = ReportView;

    open spec fn view(&self) -> ReportView {
        ReportView {
            title: self.title@,
            headers: strings_view(self.headers@),
            rows: rows_view(self.rows@),
        }
    }
}

/// The row a field becomes: its name, value and note (empty when absent).
pub open spec fn field_row(f: FieldView) -> Seq<Seq<char>> {
    seq![
        f.name,
        f.value,
        match f.note {
            Some(n) => n,
            None => Seq::empty(),
        },
    ]
}

/// The key/value report of `fields` under `title`.
pub open spec fn fields_report(title: Seq<char>, fields: Seq<FieldView>) -> ReportView {
    ReportView {
        title,
        headers: seq!["Field"@, "Value"@, "Note"@],
        rows: fields.map_values(|f: FieldView| field_row(f)),
    }
}

/// Every row of `r` has as many cells as `r` has headers.
pub open spec fn rows_aligned(r: ReportView) -> bool {
    forall|i: int| 0 <= i < r.rows.len() ==> #[trigger] r.rows[i].len() == r.headers.len()
}

impl Report {
    /// Build a report from an explicit header row and pre-formatted rows.
    pub fn new(title: &str, headers: &[&str], rows: Vec<Vec<String>>) -> (r: Self)
        ensures
            r@ == (ReportView { title: title@, headers: strs_view(headers@), rows: rows_view(rows@) }),
    {
        let mut hs: Vec<String> = Vec::new();
        let mut i: usize = 0;
        while i < headers.len()
            invariant
                i <= headers@.len(),
                strings_view(hs@) == strs_view(headers@.subrange(0, i as int)),
            decreases headers.len() - i,
        {
            let h = String::from_str(headers[i]);
            let ghost before = strings_view(hs@);
            hs.push(h);
            assert(strings_view(hs@) =~= before.push(headers@[i as int]@));
            i = i + 1;
            assert(strings_view(hs@) =~= strs_view(headers@.subrange(0, i as int)));
        }
        assert(headers@.subrange(0, headers@.len() as int) =~= headers@);
        Self { title: String::from_str(title), headers: hs, rows }
    }

    /// Build a key/value report from [`Field`]s, using the standard
    /// `Field / Value / Note` columns.
    pub fn from_fields(title: &str, fields: Vec<Field>) -> (r: Self)
        ensures
            r@ == fields_report(title@, fields_view(fields@)),
            rows_aligned(r@),
    {
        let mut rows: Vec<Vec<String>> = Vec::new();
        let mut i: usize = 0;
        let ghost want = fields_view(fields@).map_values(|f: FieldView| field_row(f));
        while i < fields.len()
            invariant
                i <= fields@.len(),
                want == fields_view(fields@).map_values(|f: FieldView| field_row(f)),
                rows_view(rows@) == want.subrange(0, i as int),
            decreases fields.len() - i,
        {
            let f = &fields[i];
            let note = match &f.note {
                Some(n) => n.clone(),
                None => String::new(),
            };
            let row = vec![String::from_str(f.name), f.value.clone(), note];
            assert(fields_view(fields@)[i as int] == f@);
            assert(strings_view(row@) =~= field_row(f@));
            let ghost before = rows_view(rows@);
            rows.push(row);
            i = i + 1;
            assert(rows_view(rows@) =~= want.subrange(0, i as int)) by {
                assert(rows_view(rows@) =~= before.push(field_row(fields_view(fields@)[i - 1])));
            }
        }
        assert(want.subrange(0, fields@.len() as int) =~= want);
        let headers = vec![String::from_str("Field"), String::from_str("Value"), String::from_str("Note")];
        let r = Self { title: String::from_str(title), headers, rows };
        assert(r@.headers =~= seq!["Field"@, "Value"@, "Note"@]);
        r
    }
}

// ---------------------------------------------------------------------------
// Value formatting helpers
// ---------------------------------------------------------------------------

fn hex16(v: u16) -> (r: String)
    ensures
        r@ == hex_prefixed(v as nat, 4),
{
    hex_string(v as u64, 4)
}

fn hex32(v: u32) -> (r: String)
    ensures
        r@ == hex_prefixed(v as nat, 8),
{
    hex_string(v as u64, 8)
}

fn hex64(v: u64) -> (r: String)
    ensures
        r@ == hex_prefixed(v as nat, 16),
{
    hex_string(v, 16)
}

/// A version rendered as `major.minor`.
pub open spec fn version_text(major: nat, minor: nat) -> Seq<char> {
    dec_digits(major) + "."@ + dec_digits(minor)
}

fn version_string(major: u64, minor: u64) -> (r: String)
    ensures
        r@ == version_text(major as nat, minor as nat),
{
    let mut s = dec_string(major);
    s.append(".");
    push_dec(&mut s, minor);
    s
}

/// A flag table taken as bits and the characters of their names.
pub open spec fn table_view(t: Seq<(u32, &str)>) -> Seq<(u32, Seq<char>)> {
    t.map_values(|p: (u32, &str)| (p.0, p.1@))
}

/// Whether the entry of bit `bit` is set in `value`.
pub open spec fn flag_set(value: u32, bit: u32) -> bool {
    bit != 0 && value & bit == bit
}

/// The names of the entries of `t` whose bit is set in `value`, in table order.
pub open spec fn set_flag_names(value: u32, t: Seq<(u32, Seq<char>)>) -> Seq<Seq<char>>
    decreases t.len(),
{
    if t.len() == 0 {
        Seq::empty()
    } else {
        let rest = set_flag_names(value, t.drop_last());
        if flag_set(value, t.last().0) {
            rest.push(t.last().1)
        } else {
            rest
        }
    }
}

/// The bits of `value` that no entry of `t` names.
pub open spec fn unnamed_bits(value: u32, t: Seq<(u32, Seq<char>)>) -> u32
    decreases t.len(),
{
    if t.len() == 0 {
        value
    } else {
        let rest = unnamed_bits(value, t.drop_last());
        if flag_set(value, t.last().0) {
            rest & !t.last().0
        } else {
            rest
        }
    }
}

/// `parts` joined with `sep` between each two.
pub open spec fn join(parts: Seq<Seq<char>>, sep: Seq<char>) -> Seq<char>
    decreases parts.len(),
{
    if parts.len() == 0 {
        Seq::empty()
    } else if parts.len() == 1 {
        parts[0]
    } else {
        join(parts.drop_last(), sep) + sep + parts.last()
    }
}

/// A bitmask decoded into `A | B | C` by a table of `(bit, name)` pairs,
/// with any leftover bits appended as a hex remainder; `(none)` when no
/// bit is set.
pub open spec fn spec_decode_flags(value: u32, t: Seq<(u32, Seq<char>)>) -> Seq<char> {
    let names = set_flag_names(value, t);
    let rest = unnamed_bits(value, t);
    if rest != 0 {
        if names.len() == 0 {
            hex_prefixed(rest as nat, 8)
        } else {
            join(names, " | "@) + " | "@ + hex_prefixed(rest as nat, 8)
        }
    } else if names.len() == 0 {
        "(none)"@
    } else {
        join(names, " | "@)
    }
}

proof fn lemma_no_flag_set(t: Seq<(u32, Seq<char>)>)
    ensures
        set_flag_names(0, t).len() == 0,
        unnamed_bits(0, t) == 0,
    decreases t.len(),
{
    if t.len() > 0 {
        lemma_no_flag_set(t.drop_last());
        let bit = t.last().0;
        assert(bit != 0 ==> 0u32 & bit != bit) by (bit_vector);
    }
}

/// A bitmask with no bit set decodes to `(none)`, whatever the table.
pub proof fn lemma_decode_no_flags(t: Seq<(u32, Seq<char>)>)
    ensures
        spec_decode_flags(0, t) == "(none)"@,
{
    lemma_no_flag_set(t);
}

fn join_names(names: &Vec<&'static str>) -> (r: String)
    ensures
        r@ == join(strs_view(names@), " | "@),
{
    let ghost parts = strs_view(names@);
    if names.len() == 0 {
        return String::new();
    }
    let mut s = String::from_str(names[0]);
    let mut k: usize = 1;
    assert(parts.subrange(0, 1).drop_last() =~= Seq::<Seq<char>>::empty());
    while k < names.len()
        invariant
            1 <= k <= names@.len(),
            parts == strs_view(names@),
            s@ == join(parts.subrange(0, k as int), " | "@),
        decreases names.len() - k,
    {
        s.append(" | ");
        s.append(names[k]);
        k = k + 1;
        assert(parts.subrange(0, k as int).drop_last() =~= parts.subrange(0, k - 1));
    }
    assert(parts.subrange(0, names@.len() as int) =~= parts);
    s
}

/// Decode a bitmask into a `A | B | C` string using a table of
/// `(bit, name)` pairs. Any leftover bits are appended as a hex remainder.
fn decode_flags(value: u32, table: &[(u32, &'static str)]) -> (r: String)
    ensures
        r@ == spec_decode_flags(value, table_view(table@)),
{
    let ghost t = table_view(table@);
    let mut names: Vec<&'static str> = Vec::new();
    let mut remaining = value;
    let mut i: usize = 0;
    while i < table.len()
        invariant
            i <= table@.len(),
            t == table_view(table@),
            strs_view(names@) == set_flag_names(value, t.subrange(0, i as int)),
            remaining == unnamed_bits(value, t.subrange(0, i as int)),
        decreases table.len() - i,
    {
        let (bit, name) = table[i];
        assert(t.subrange(0, i + 1).drop_last() =~= t.subrange(0, i as int));
        if bit != 0 && value & bit == bit {
            let ghost before = strs_view(names@);
            names.push(name);
            assert(strs_view(names@) =~= before.push(name@));
            remaining = remaining & !bit;
        }
        i = i + 1;
    }
    assert(t.subrange(0, table@.len() as int) =~= t);
    if remaining != 0 {
        if names.len() == 0 {
            hex32(remaining)
        } else {
            let mut s = join_names(&names);
            s.append(" | ");
            let h = hex32(remaining);
            s.append(h.as_str());
            s
        }
    } else if names.len() == 0 {
        String::from_str("(none)")
    } else {
        join_names(&names)
    }
}

/// The name of a machine type.
pub open spec fn spec_machine_name(machine: u16) -> Seq<char> {
    if machine == IMAGE_FILE_MACHINE_I386 {
        "I386"@
    } else if machine == IMAGE_FILE_MACHINE_IA64 {
        "IA64"@
    } else if machine == IMAGE_FILE_MACHINE_AMD64 {
        "AMD64"@
    } else {
        "UNKNOWN"@
    }
}

fn machine_name(machine: u16) -> (r: &'static str)
    ensures
        r@ == spec_machine_name(machine),
{
    if machine == IMAGE_FILE_MACHINE_I386 {
        "I386"
    } else if machine == IMAGE_FILE_MACHINE_IA64 {
        "IA64"
    } else if machine == IMAGE_FILE_MACHINE_AMD64 {
        "AMD64"
    } else {
        "UNKNOWN"
    }
}

/// The name of a subsystem.
pub open spec fn spec_subsystem_name(subsystem: u16) -> Seq<char> {
    if subsystem == IMAGE_SUBSYSTEM_UNKNOWN {
        "UNKNOWN"@
    } else if subsystem == IMAGE_SUBSYSTEM_NATIVE {
        "NATIVE"@
    } else if subsystem == IMAGE_SUBSYSTEM_WINDOWS_GUI {
        "WINDOWS_GUI"@
    } else if subsystem == IMAGE_SUBSYSTEM_WINDOWS_CUI {
        "WINDOWS_CUI"@
    } else if subsystem == IMAGE_SUBSYSTEM_OS2_CUI {
        "OS2_CUI"@
    } else if subsystem == IMAGE_SUBSYSTEM_POSIX_CUI {
        "POSIX_CUI"@
    } else if subsystem == IMAGE_SUBSYSTEM_NATIVE_WINDOWS {
        "NATIVE_WINDOWS"@
    } else if subsystem == IMAGE_SUBSYSTEM_WINDOWS_CE_GUI {
        "WINDOWS_CE_GUI"@
    } else if subsystem == IMAGE_SUBSYSTEM_EFI_APPLICATION {
        "EFI_APPLICATION"@
    } else if subsystem == IMAGE_SUBSYSTEM_EFI_BOOT_SERVICE_DRIVER {
        "EFI_BOOT_SERVICE_DRIVER"@
    } else if subsystem == IMAGE_SUBSYSTEM_EFI_RUNTIME_DRIVER {
        "EFI_RUNTIME_DRIVER"@
    } else if subsystem == IMAGE_SUBSYSTEM_EFI_ROM {
        "EFI_ROM"@
    } else if subsystem == IMAGE_SUBSYSTEM_XBOX {
        "XBOX"@
    } else if subsystem == IMAGE_SUBSYSTEM_WINDOWS_BOOT_APPLICATION {
        "WINDOWS_BOOT_APPLICATION"@
    } else {
        "UNKNOWN"@
    }
}

fn subsystem_name(subsystem: u16) -> (r: &'static str)
    ensures
        r@ == spec_subsystem_name(subsystem),
{
    if subsystem == IMAGE_SUBSYSTEM_UNKNOWN {
        "UNKNOWN"
    } else if subsystem == IMAGE_SUBSYSTEM_NATIVE {
        "NATIVE"
    } else if subsystem == IMAGE_SUBSYSTEM_WINDOWS_GUI {
        "WINDOWS_GUI"
    } else if subsystem == IMAGE_SUBSYSTEM_WINDOWS_CUI {
        "WINDOWS_CUI"
    } else if subsystem == IMAGE_SUBSYSTEM_OS2_CUI {
        "OS2_CUI"
    } else if subsystem == IMAGE_SUBSYSTEM_POSIX_CUI {
        "POSIX_CUI"
    } else if subsystem == IMAGE_SUBSYSTEM_NATIVE_WINDOWS {
        "NATIVE_WINDOWS"
    } else if subsystem == IMAGE_SUBSYSTEM_WINDOWS_CE_GUI {
        "WINDOWS_CE_GUI"
    } else if subsystem == IMAGE_SUBSYSTEM_EFI_APPLICATION {
        "EFI_APPLICATION"
    } else if subsystem == IMAGE_SUBSYSTEM_EFI_BOOT_SERVICE_DRIVER {
        "EFI_BOOT_SERVICE_DRIVER"
    } else if subsystem == IMAGE_SUBSYSTEM_EFI_RUNTIME_DRIVER {
        "EFI_RUNTIME_DRIVER"
    } else if subsystem == IMAGE_SUBSYSTEM_EFI_ROM {
        "EFI_ROM"
    } else if subsystem == IMAGE_SUBSYSTEM_XBOX {
        "XBOX"
    } else if subsystem == IMAGE_SUBSYSTEM_WINDOWS_BOOT_APPLICATION {
        "WINDOWS_BOOT_APPLICATION"
    } else {
        "UNKNOWN"
    }
}
/// `IMAGE_FILE_*` characteristics of the COFF file header.
pub open spec fn file_characteristics_table() -> Seq<(u32, Seq<char>)> {
    seq![
        (IMAGE_FILE_RELOCS_STRIPPED as u32, "RELOCS_STRIPPED"@),
        (IMAGE_FILE_EXECUTABLE_IMAGE as u32, "EXECUTABLE_IMAGE"@),
        (IMAGE_FILE_LINE_NUMS_STRIPPED as u32, "LINE_NUMS_STRIPPED"@),
        (IMAGE_FILE_LOCAL_SYMS_STRIPPED as u32, "LOCAL_SYMS_STRIPPED"@),
        (IMAGE_FILE_AGGRESIVE_WS_TRIM as u32, "AGGRESIVE_WS_TRIM"@),
        (IMAGE_FILE_LARGE_ADDRESS_AWARE as u32, "LARGE_ADDRESS_AWARE"@),
        (IMAGE_FILE_BYTES_REVERSED_LO as u32, "BYTES_REVERSED_LO"@),
        (IMAGE_FILE_32BIT_MACHINE as u32, "32BIT_MACHINE"@),
        (IMAGE_FILE_DEBUG_STRIPPED as u32, "DEBUG_STRIPPED"@),
        (IMAGE_FILE_REMOVABLE_RUN_FROM_SWAP as u32, "REMOVABLE_RUN_FROM_SWAP"@),
        (IMAGE_FILE_NET_RUN_FROM_SWAP as u32, "NET_RUN_FROM_SWAP"@),
        (IMAGE_FILE_SYSTEM as u32, "SYSTEM"@),
        (IMAGE_FILE_DLL as u32, "DLL"@),
        (IMAGE_FILE_UP_SYSTEM_ONLY as u32, "UP_SYSTEM_ONLY"@),
        (IMAGE_FILE_BYTES_REVERSED_HI as u32, "BYTES_REVERSED_HI"@),
    ]
}

/// `IMAGE_FILE_*` characteristics of the COFF file header.
pub fn file_characteristics() -> (r: Vec<(u32, &'static str)>)
    ensures
        table_view(r@) == file_characteristics_table(),
{
    let r = vec![
        (IMAGE_FILE_RELOCS_STRIPPED as u32, "RELOCS_STRIPPED"),
        (IMAGE_FILE_EXECUTABLE_IMAGE as u32, "EXECUTABLE_IMAGE"),
        (IMAGE_FILE_LINE_NUMS_STRIPPED as u32, "LINE_NUMS_STRIPPED"),
        (IMAGE_FILE_LOCAL_SYMS_STRIPPED as u32, "LOCAL_SYMS_STRIPPED"),
        (IMAGE_FILE_AGGRESIVE_WS_TRIM as u32, "AGGRESIVE_WS_TRIM"),
        (IMAGE_FILE_LARGE_ADDRESS_AWARE as u32, "LARGE_ADDRESS_AWARE"),
        (IMAGE_FILE_BYTES_REVERSED_LO as u32, "BYTES_REVERSED_LO"),
        (IMAGE_FILE_32BIT_MACHINE as u32, "32BIT_MACHINE"),
        (IMAGE_FILE_DEBUG_STRIPPED as u32, "DEBUG_STRIPPED"),
        (IMAGE_FILE_REMOVABLE_RUN_FROM_SWAP as u32, "REMOVABLE_RUN_FROM_SWAP"),
        (IMAGE_FILE_NET_RUN_FROM_SWAP as u32, "NET_RUN_FROM_SWAP"),
        (IMAGE_FILE_SYSTEM as u32, "SYSTEM"),
        (IMAGE_FILE_DLL as u32, "DLL"),
        (IMAGE_FILE_UP_SYSTEM_ONLY as u32, "UP_SYSTEM_ONLY"),
        (IMAGE_FILE_BYTES_REVERSED_HI as u32, "BYTES_REVERSED_HI"),
    ];
    assert(table_view(r@) =~= file_characteristics_table());
    r
}

/// A name is among the decoded names of `value` exactly when some entry
/// of the table carries that name and has its bit set in `value`.
proof fn lemma_decoded_names_contain(value: u32, t: Seq<(u32, Seq<char>)>, name: Seq<char>)
    ensures
        set_flag_names(value, t).contains(name) <==> exists|i: int|
            0 <= i < t.len() && #[trigger] t[i].1 == name && flag_set(value, t[i].0),
    decreases t.len(),
{
    if t.len() > 0 {
        let init = t.drop_last();
        lemma_decoded_names_contain(value, init, name);
        let rest = set_flag_names(value, init);
        if set_flag_names(value, t).contains(name) {
            if flag_set(value, t.last().0) && !rest.contains(name) {
                let k = choose|k: int| 0 <= k < rest.push(t.last().1).len() && rest.push(
                    t.last().1,
                )[k] == name;
                assert(k == rest.len());
                assert(t[t.len() - 1].1 == name);
            } else if rest.contains(name) {
                let i = choose|i: int|
                    0 <= i < init.len() && #[trigger] init[i].1 == name && flag_set(
                        value,
                        init[i].0,
                    );
                assert(t[i] == init[i]);
            } else {
                assert(set_flag_names(value, t) == rest);
            }
        } else {
            assert forall|i: int| 0 <= i < t.len() && #[trigger] t[i].1 == name implies !flag_set(
                value,
                t[i].0,
            ) by {
                if i < init.len() {
                    assert(t[i] == init[i]);
                    if flag_set(value, t[i].0) {
                        assert(rest.contains(name));
                        if flag_set(value, t.last().0) {
                            assert(rest.push(t.last().1)[rest.index_of(name)] == name);
                        }
                    }
                } else {
                    if flag_set(value, t[i].0) {
                        assert(rest.push(t.last().1)[rest.len() as int] == name);
                    }
                }
            }
        }
    }
}

/// A name that one entry alone carries is among the decoded names of
/// `value` exactly when that entry's bit is set in `value`.
proof fn lemma_sole_name_decoded(value: u32, t: Seq<(u32, Seq<char>)>, k: int)
    requires
        0 <= k < t.len(),
        forall|i: int| 0 <= i < t.len() && i != k ==> #[trigger] t[i].1 != t[k].1,
    ensures
        set_flag_names(value, t).contains(t[k].1) <==> flag_set(value, t[k].0),
{
    lemma_decoded_names_contain(value, t, t[k].1);
}

/// The `IMAGE_FILE_*` characteristics are decoded under their own names:
/// for every value, each name is reported exactly when its flag's bit is
/// set.
pub proof fn lemma_file_characteristics_named(value: u32)
    ensures
        ({
            let names = set_flag_names(value, file_characteristics_table());
            let set = |bit: u16| value & (bit as u32) == bit as u32;
            &&& names.contains("RELOCS_STRIPPED"@) <==> set(IMAGE_FILE_RELOCS_STRIPPED)
            &&& names.contains("EXECUTABLE_IMAGE"@) <==> set(IMAGE_FILE_EXECUTABLE_IMAGE)
            &&& names.contains("LINE_NUMS_STRIPPED"@) <==> set(IMAGE_FILE_LINE_NUMS_STRIPPED)
            &&& names.contains("LOCAL_SYMS_STRIPPED"@) <==> set(IMAGE_FILE_LOCAL_SYMS_STRIPPED)
            &&& names.contains("AGGRESIVE_WS_TRIM"@) <==> set(IMAGE_FILE_AGGRESIVE_WS_TRIM)
            &&& names.contains("LARGE_ADDRESS_AWARE"@) <==> set(IMAGE_FILE_LARGE_ADDRESS_AWARE)
            &&& names.contains("BYTES_REVERSED_LO"@) <==> set(IMAGE_FILE_BYTES_REVERSED_LO)
            &&& names.contains("32BIT_MACHINE"@) <==> set(IMAGE_FILE_32BIT_MACHINE)
            &&& names.contains("DEBUG_STRIPPED"@) <==> set(IMAGE_FILE_DEBUG_STRIPPED)
            &&& names.contains("REMOVABLE_RUN_FROM_SWAP"@) <==> set(
                IMAGE_FILE_REMOVABLE_RUN_FROM_SWAP,
            )
            &&& names.contains("NET_RUN_FROM_SWAP"@) <==> set(IMAGE_FILE_NET_RUN_FROM_SWAP)
            &&& names.contains("SYSTEM"@) <==> set(IMAGE_FILE_SYSTEM)
            &&& names.contains("DLL"@) <==> set(IMAGE_FILE_DLL)
            &&& names.contains("UP_SYSTEM_ONLY"@) <==> set(IMAGE_FILE_UP_SYSTEM_ONLY)
            &&& names.contains("BYTES_REVERSED_HI"@) <==> set(IMAGE_FILE_BYTES_REVERSED_HI)
        }),
{
    let t = file_characteristics_table();
    reveal_strlit("RELOCS_STRIPPED");
    reveal_strlit("EXECUTABLE_IMAGE");
    reveal_strlit("LINE_NUMS_STRIPPED");
    reveal_strlit("LOCAL_SYMS_STRIPPED");
    reveal_strlit("AGGRESIVE_WS_TRIM");
    reveal_strlit("LARGE_ADDRESS_AWARE");
    reveal_strlit("BYTES_REVERSED_LO");
    reveal_strlit("32BIT_MACHINE");
    reveal_strlit("DEBUG_STRIPPED");
    reveal_strlit("REMOVABLE_RUN_FROM_SWAP");
    reveal_strlit("NET_RUN_FROM_SWAP");
    reveal_strlit("SYSTEM");
    reveal_strlit("DLL");
    reveal_strlit("UP_SYSTEM_ONLY");
    reveal_strlit("BYTES_REVERSED_HI");
    assert forall|k: int, i: int|
        0 <= k < t.len() && 0 <= i < t.len() && i != k implies #[trigger] t[i].1 != #[trigger] t[
        k].1 by {
        if t[i].1 == t[k].1 {
            assert(t[i].1.len() == t[k].1.len());
            assert(t[i].1[0] == t[k].1[0]);
            assert(t[i].1[1] == t[k].1[1]);
            assert(t[i].1[2] == t[k].1[2]);
            assert(t[i].1[15] == t[k].1[15]);
        }
    }
    lemma_sole_name_decoded(value, t, 0);
    lemma_sole_name_decoded(value, t, 1);
    lemma_sole_name_decoded(value, t, 2);
    lemma_sole_name_decoded(value, t, 3);
    lemma_sole_name_decoded(value, t, 4);
    lemma_sole_name_decoded(value, t, 5);
    lemma_sole_name_decoded(value, t, 6);
    lemma_sole_name_decoded(value, t, 7);
    lemma_sole_name_decoded(value, t, 8);
    lemma_sole_name_decoded(value, t, 9);
    lemma_sole_name_decoded(value, t, 10);
    lemma_sole_name_decoded(value, t, 11);
    lemma_sole_name_decoded(value, t, 12);
    lemma_sole_name_decoded(value, t, 13);
    lemma_sole_name_decoded(value, t, 14);
}

/// `IMAGE_DLLCHARACTERISTICS_*` of the optional header.
pub open spec fn dll_characteristics_table() -> Seq<(u32, Seq<char>)> {
    seq![
        (IMAGE_DLLCHARACTERISTICS_HIGH_ENTROPY_VA as u32, "HIGH_ENTROPY_VA"@),
        (IMAGE_DLLCHARACTERISTICS_DYNAMIC_BASE as u32, "DYNAMIC_BASE"@),
        (IMAGE_DLLCHARACTERISTICS_FORCE_INTEGRITY as u32, "FORCE_INTEGRITY"@),
        (IMAGE_DLLCHARACTERISTICS_NX_COMPAT as u32, "NX_COMPAT"@),
        (IMAGE_DLLCHARACTERISTICS_NO_ISOLATION as u32, "NO_ISOLATION"@),
        (IMAGE_DLLCHARACTERISTICS_NO_SEH as u32, "NO_SEH"@),
        (IMAGE_DLLCHARACTERISTICS_NO_BIND as u32, "NO_BIND"@),
        (IMAGE_DLLCHARACTERISTICS_APPCONTAINER as u32, "APPCONTAINER"@),
        (IMAGE_DLLCHARACTERISTICS_WDM_DRIVER as u32, "WDM_DRIVER"@),
        (IMAGE_DLLCHARACTERISTICS_GUARD_CF as u32, "GUARD_CF"@),
        (IMAGE_DLLCHARACTERISTICS_TERMINAL_SERVER_AWARE as u32, "TERMINAL_SERVER_AWARE"@),
    ]
}

/// `IMAGE_DLLCHARACTERISTICS_*` of the optional header.
pub fn dll_characteristics() -> (r: Vec<(u32, &'static str)>)
    ensures
        table_view(r@) == dll_characteristics_table(),
{
    let r = vec![
        (IMAGE_DLLCHARACTERISTICS_HIGH_ENTROPY_VA as u32, "HIGH_ENTROPY_VA"),
        (IMAGE_DLLCHARACTERISTICS_DYNAMIC_BASE as u32, "DYNAMIC_BASE"),
        (IMAGE_DLLCHARACTERISTICS_FORCE_INTEGRITY as u32, "FORCE_INTEGRITY"),
        (IMAGE_DLLCHARACTERISTICS_NX_COMPAT as u32, "NX_COMPAT"),
        (IMAGE_DLLCHARACTERISTICS_NO_ISOLATION as u32, "NO_ISOLATION"),
        (IMAGE_DLLCHARACTERISTICS_NO_SEH as u32, "NO_SEH"),
        (IMAGE_DLLCHARACTERISTICS_NO_BIND as u32, "NO_BIND"),
        (IMAGE_DLLCHARACTERISTICS_APPCONTAINER as u32, "APPCONTAINER"),
        (IMAGE_DLLCHARACTERISTICS_WDM_DRIVER as u32, "WDM_DRIVER"),
        (IMAGE_DLLCHARACTERISTICS_GUARD_CF as u32, "GUARD_CF"),
        (IMAGE_DLLCHARACTERISTICS_TERMINAL_SERVER_AWARE as u32, "TERMINAL_SERVER_AWARE"),
    ];
    assert(table_view(r@) =~= dll_characteristics_table());
    r
}

/// `IMAGE_SCN_*` section characteristics (the meaningful, non-alignment bits).
pub open spec fn section_characteristics_table() -> Seq<(u32, Seq<char>)> {
    seq![
        (IMAGE_SCN_CNT_CODE as u32, "CNT_CODE"@),
        (IMAGE_SCN_CNT_INITIALIZED_DATA as u32, "CNT_INITIALIZED_DATA"@),
        (IMAGE_SCN_CNT_UNINITIALIZED_DATA as u32, "CNT_UNINITIALIZED_DATA"@),
        (IMAGE_SCN_LNK_INFO as u32, "LNK_INFO"@),
        (IMAGE_SCN_LNK_REMOVE as u32, "LNK_REMOVE"@),
        (IMAGE_SCN_LNK_COMDAT as u32, "LNK_COMDAT"@),
        (IMAGE_SCN_GPREL as u32, "GPREL"@),
        (IMAGE_SCN_LNK_NRELOC_OVFL as u32, "LNK_NRELOC_OVFL"@),
        (IMAGE_SCN_MEM_DISCARDABLE as u32, "MEM_DISCARDABLE"@),
        (IMAGE_SCN_MEM_NOT_CACHED as u32, "MEM_NOT_CACHED"@),
        (IMAGE_SCN_MEM_NOT_PAGED as u32, "MEM_NOT_PAGED"@),
        (IMAGE_SCN_MEM_SHARED as u32, "MEM_SHARED"@),
        (IMAGE_SCN_MEM_EXECUTE as u32, "MEM_EXECUTE"@),
        (IMAGE_SCN_MEM_READ as u32, "MEM_READ"@),
        (IMAGE_SCN_MEM_WRITE as u32, "MEM_WRITE"@),
    ]
}

/// `IMAGE_SCN_*` section characteristics (the meaningful, non-alignment bits).
pub fn section_characteristics() -> (r: Vec<(u32, &'static str)>)
    ensures
        table_view(r@) == section_characteristics_table(),
{
    let r = vec![
        (IMAGE_SCN_CNT_CODE as u32, "CNT_CODE"),
        (IMAGE_SCN_CNT_INITIALIZED_DATA as u32, "CNT_INITIALIZED_DATA"),
        (IMAGE_SCN_CNT_UNINITIALIZED_DATA as u32, "CNT_UNINITIALIZED_DATA"),
        (IMAGE_SCN_LNK_INFO as u32, "LNK_INFO"),
        (IMAGE_SCN_LNK_REMOVE as u32, "LNK_REMOVE"),
        (IMAGE_SCN_LNK_COMDAT as u32, "LNK_COMDAT"),
        (IMAGE_SCN_GPREL as u32, "GPREL"),
        (IMAGE_SCN_LNK_NRELOC_OVFL as u32, "LNK_NRELOC_OVFL"),
        (IMAGE_SCN_MEM_DISCARDABLE as u32, "MEM_DISCARDABLE"),
        (IMAGE_SCN_MEM_NOT_CACHED as u32, "MEM_NOT_CACHED"),
        (IMAGE_SCN_MEM_NOT_PAGED as u32, "MEM_NOT_PAGED"),
        (IMAGE_SCN_MEM_SHARED as u32, "MEM_SHARED"),
        (IMAGE_SCN_MEM_EXECUTE as u32, "MEM_EXECUTE"),
        (IMAGE_SCN_MEM_READ as u32, "MEM_READ"),
        (IMAGE_SCN_MEM_WRITE as u32, "MEM_WRITE"),
    ];
    assert(table_view(r@) =~= section_characteristics_table());
    r
}
/// The `IMAGE_DLLCHARACTERISTICS_*` flags are decoded under their own
/// names: for every value, each name is reported exactly when its flag's
/// bit is set.
pub proof fn lemma_dll_characteristics_named(value: u32)
    ensures
        ({
            let names = set_flag_names(value, dll_characteristics_table());
            let set = |bit: u16| value & (bit as u32) == bit as u32;
            &&& names.contains("HIGH_ENTROPY_VA"@) <==> set(IMAGE_DLLCHARACTERISTICS_HIGH_ENTROPY_VA)
            &&& names.contains("DYNAMIC_BASE"@) <==> set(IMAGE_DLLCHARACTERISTICS_DYNAMIC_BASE)
            &&& names.contains("FORCE_INTEGRITY"@) <==> set(IMAGE_DLLCHARACTERISTICS_FORCE_INTEGRITY)
            &&& names.contains("NX_COMPAT"@) <==> set(IMAGE_DLLCHARACTERISTICS_NX_COMPAT)
            &&& names.contains("NO_ISOLATION"@) <==> set(IMAGE_DLLCHARACTERISTICS_NO_ISOLATION)
            &&& names.contains("NO_SEH"@) <==> set(IMAGE_DLLCHARACTERISTICS_NO_SEH)
            &&& names.contains("NO_BIND"@) <==> set(IMAGE_DLLCHARACTERISTICS_NO_BIND)
            &&& names.contains("APPCONTAINER"@) <==> set(IMAGE_DLLCHARACTERISTICS_APPCONTAINER)
            &&& names.contains("WDM_DRIVER"@) <==> set(IMAGE_DLLCHARACTERISTICS_WDM_DRIVER)
            &&& names.contains("GUARD_CF"@) <==> set(IMAGE_DLLCHARACTERISTICS_GUARD_CF)
            &&& names.contains("TERMINAL_SERVER_AWARE"@) <==> set(IMAGE_DLLCHARACTERISTICS_TERMINAL_SERVER_AWARE)
        }),
{
    let t = dll_characteristics_table();
    reveal_strlit("HIGH_ENTROPY_VA");
    reveal_strlit("DYNAMIC_BASE");
    reveal_strlit("FORCE_INTEGRITY");
    reveal_strlit("NX_COMPAT");
    reveal_strlit("NO_ISOLATION");
    reveal_strlit("NO_SEH");
    reveal_strlit("NO_BIND");
    reveal_strlit("APPCONTAINER");
    reveal_strlit("WDM_DRIVER");
    reveal_strlit("GUARD_CF");
    reveal_strlit("TERMINAL_SERVER_AWARE");
    assert forall|k: int, i: int|
        0 <= k < t.len() && 0 <= i < t.len() && i != k implies #[trigger] t[i].1 != #[trigger] t[
        k].1 by {
        if t[i].1 == t[k].1 {
            assert(t[i].1.len() == t[k].1.len());
            assert(t[i].1[0] == t[k].1[0]);
            assert(t[i].1[1] == t[k].1[1]);
            assert(t[i].1[2] == t[k].1[2]);
            assert(t[i].1[4] == t[k].1[4]);
            assert(t[i].1[15] == t[k].1[15]);
        }
    }
    lemma_sole_name_decoded(value, t, 0);
    lemma_sole_name_decoded(value, t, 1);
    lemma_sole_name_decoded(value, t, 2);
    lemma_sole_name_decoded(value, t, 3);
    lemma_sole_name_decoded(value, t, 4);
    lemma_sole_name_decoded(value, t, 5);
    lemma_sole_name_decoded(value, t, 6);
    lemma_sole_name_decoded(value, t, 7);
    lemma_sole_name_decoded(value, t, 8);
    lemma_sole_name_decoded(value, t, 9);
    lemma_sole_name_decoded(value, t, 10);
}

/// The `IMAGE_SCN_*` section characteristics are decoded under their own
/// names: for every value, each name is reported exactly when its flag's
/// bit is set.
pub proof fn lemma_section_characteristics_named(value: u32)
    ensures
        ({
            let names = set_flag_names(value, section_characteristics_table());
            let set = |bit: u32| value & (bit as u32) == bit as u32;
            &&& names.contains("CNT_CODE"@) <==> set(IMAGE_SCN_CNT_CODE)
            &&& names.contains("CNT_INITIALIZED_DATA"@) <==> set(IMAGE_SCN_CNT_INITIALIZED_DATA)
            &&& names.contains("CNT_UNINITIALIZED_DATA"@) <==> set(IMAGE_SCN_CNT_UNINITIALIZED_DATA)
            &&& names.contains("LNK_INFO"@) <==> set(IMAGE_SCN_LNK_INFO)
            &&& names.contains("LNK_REMOVE"@) <==> set(IMAGE_SCN_LNK_REMOVE)
            &&& names.contains("LNK_COMDAT"@) <==> set(IMAGE_SCN_LNK_COMDAT)
            &&& names.contains("GPREL"@) <==> set(IMAGE_SCN_GPREL)
            &&& names.contains("LNK_NRELOC_OVFL"@) <==> set(IMAGE_SCN_LNK_NRELOC_OVFL)
            &&& names.contains("MEM_DISCARDABLE"@) <==> set(IMAGE_SCN_MEM_DISCARDABLE)
            &&& names.contains("MEM_NOT_CACHED"@) <==> set(IMAGE_SCN_MEM_NOT_CACHED)
            &&& names.contains("MEM_NOT_PAGED"@) <==> set(IMAGE_SCN_MEM_NOT_PAGED)
            &&& names.contains("MEM_SHARED"@) <==> set(IMAGE_SCN_MEM_SHARED)
            &&& names.contains("MEM_EXECUTE"@) <==> set(IMAGE_SCN_MEM_EXECUTE)
            &&& names.contains("MEM_READ"@) <==> set(IMAGE_SCN_MEM_READ)
            &&& names.contains("MEM_WRITE"@) <==> set(IMAGE_SCN_MEM_WRITE)
        }),
{
    let t = section_characteristics_table();
    reveal_strlit("CNT_CODE");
    reveal_strlit("CNT_INITIALIZED_DATA");
    reveal_strlit("CNT_UNINITIALIZED_DATA");
    reveal_strlit("LNK_INFO");
    reveal_strlit("LNK_REMOVE");
    reveal_strlit("LNK_COMDAT");
    reveal_strlit("GPREL");
    reveal_strlit("LNK_NRELOC_OVFL");
    reveal_strlit("MEM_DISCARDABLE");
    reveal_strlit("MEM_NOT_CACHED");
    reveal_strlit("MEM_NOT_PAGED");
    reveal_strlit("MEM_SHARED");
    reveal_strlit("MEM_EXECUTE");
    reveal_strlit("MEM_READ");
    reveal_strlit("MEM_WRITE");
    assert forall|k: int, i: int|
        0 <= k < t.len() && 0 <= i < t.len() && i != k implies #[trigger] t[i].1 != #[trigger] t[
        k].1 by {
        if t[i].1 == t[k].1 {
            assert(t[i].1.len() == t[k].1.len());
            assert(t[i].1[0] == t[k].1[0]);
            assert(t[i].1[1] == t[k].1[1]);
            assert(t[i].1[2] == t[k].1[2]);
            assert(t[i].1[4] == t[k].1[4]);
            assert(t[i].1[15] == t[k].1[15]);
        }
    }
    lemma_sole_name_decoded(value, t, 0);
    lemma_sole_name_decoded(value, t, 1);
    lemma_sole_name_decoded(value, t, 2);
    lemma_sole_name_decoded(value, t, 3);
    lemma_sole_name_decoded(value, t, 4);
    lemma_sole_name_decoded(value, t, 5);
    lemma_sole_name_decoded(value, t, 6);
    lemma_sole_name_decoded(value, t, 7);
    lemma_sole_name_decoded(value, t, 8);
    lemma_sole_name_decoded(value, t, 9);
    lemma_sole_name_decoded(value, t, 10);
    lemma_sole_name_decoded(value, t, 11);
    lemma_sole_name_decoded(value, t, 12);
    lemma_sole_name_decoded(value, t, 13);
    lemma_sole_name_decoded(value, t, 14);
}

/// The rows of the DOS header.
pub open spec fn spec_dos_header_fields(h: IMAGE_DOS_HEADER) -> Seq<FieldView> {
    seq![
        FieldView { name: "e_magic"@, value: hex_prefixed(h.e_magic as nat, 4), note: Some(if h.e_magic == IMAGE_DOS_SIGNATURE { "\"MZ\""@ } else { "invalid"@ }) },
        FieldView { name: "e_cblp"@, value: hex_prefixed(h.e_cblp as nat, 4), note: None },
        FieldView { name: "e_cp"@, value: hex_prefixed(h.e_cp as nat, 4), note: None },
        FieldView { name: "e_crlc"@, value: hex_prefixed(h.e_crlc as nat, 4), note: None },
        FieldView { name: "e_cparhdr"@, value: hex_prefixed(h.e_cparhdr as nat, 4), note: None },
        FieldView { name: "e_minalloc"@, value: hex_prefixed(h.e_minalloc as nat, 4), note: None },
        FieldView { name: "e_maxalloc"@, value: hex_prefixed(h.e_maxalloc as nat, 4), note: None },
        FieldView { name: "e_ss"@, value: hex_prefixed(h.e_ss as nat, 4), note: None },
        FieldView { name: "e_sp"@, value: hex_prefixed(h.e_sp as nat, 4), note: None },
        FieldView { name: "e_csum"@, value: hex_prefixed(h.e_csum as nat, 4), note: None },
        FieldView { name: "e_ip"@, value: hex_prefixed(h.e_ip as nat, 4), note: None },
        FieldView { name: "e_cs"@, value: hex_prefixed(h.e_cs as nat, 4), note: None },
        FieldView { name: "e_lfarlc"@, value: hex_prefixed(h.e_lfarlc as nat, 4), note: None },
        FieldView { name: "e_ovno"@, value: hex_prefixed(h.e_ovno as nat, 4), note: None },
        FieldView { name: "e_oemid"@, value: hex_prefixed(h.e_oemid as nat, 4), note: None },
        FieldView { name: "e_oeminfo"@, value: hex_prefixed(h.e_oeminfo as nat, 4), note: None },
        FieldView { name: "e_lfanew"@, value: hex_prefixed(h.e_lfanew as nat, 8), note: Some("file offset of NT headers"@) },
    ]
}

/// The rows of the DOS header.
pub fn dos_header_fields(h: &IMAGE_DOS_HEADER) -> (r: Vec<Field>)
    ensures
        fields_view(r@) == spec_dos_header_fields(*h),
{
    let r = vec![
        Field::new("e_magic", hex16(h.e_magic), Some(if h.e_magic == IMAGE_DOS_SIGNATURE { String::from_str("\"MZ\"") } else { String::from_str("invalid") })),
        Field::plain("e_cblp", hex16(h.e_cblp)),
        Field::plain("e_cp", hex16(h.e_cp)),
        Field::plain("e_crlc", hex16(h.e_crlc)),
        Field::plain("e_cparhdr", hex16(h.e_cparhdr)),
        Field::plain("e_minalloc", hex16(h.e_minalloc)),
        Field::plain("e_maxalloc", hex16(h.e_maxalloc)),
        Field::plain("e_ss", hex16(h.e_ss)),
        Field::plain("e_sp", hex16(h.e_sp)),
        Field::plain("e_csum", hex16(h.e_csum)),
        Field::plain("e_ip", hex16(h.e_ip)),
        Field::plain("e_cs", hex16(h.e_cs)),
        Field::plain("e_lfarlc", hex16(h.e_lfarlc)),
        Field::plain("e_ovno", hex16(h.e_ovno)),
        Field::plain("e_oemid", hex16(h.e_oemid)),
        Field::plain("e_oeminfo", hex16(h.e_oeminfo)),
        Field::new("e_lfanew", hex32(h.e_lfanew), Some(String::from_str("file offset of NT headers"))),
    ];
    assert(fields_view(r@) =~= spec_dos_header_fields(*h));
    r
}
/// The rows of the COFF file header.
pub open spec fn spec_file_header_fields(h: IMAGE_FILE_HEADER) -> Seq<FieldView> {
    seq![
        FieldView { name: "Machine"@, value: hex_prefixed(h.Machine as nat, 4), note: Some(spec_machine_name(h.Machine)) },
        FieldView { name: "NumberOfSections"@, value: dec_digits(h.NumberOfSections as nat), note: None },
        FieldView { name: "TimeDateStamp"@, value: hex_prefixed(h.TimeDateStamp as nat, 8), note: None },
        FieldView { name: "PointerToSymbolTable"@, value: hex_prefixed(h.PointerToSymbolTable as nat, 8), note: None },
        FieldView { name: "NumberOfSymbols"@, value: dec_digits(h.NumberOfSymbols as nat), note: None },
        FieldView { name: "SizeOfOptionalHeader"@, value: hex_prefixed(h.SizeOfOptionalHeader as nat, 4), note: None },
        FieldView { name: "Characteristics"@, value: hex_prefixed(h.Characteristics as nat, 4), note: Some(spec_decode_flags(h.Characteristics as u32, file_characteristics_table())) },
    ]
}

/// The rows of the COFF file header.
pub fn file_header_fields(h: &IMAGE_FILE_HEADER) -> (r: Vec<Field>)
    ensures
        fields_view(r@) == spec_file_header_fields(*h),
{
    let r = vec![
        Field::new("Machine", hex16(h.Machine), Some(String::from_str(machine_name(h.Machine)))),
        Field::plain("NumberOfSections", dec_string(h.NumberOfSections as u64)),
        Field::plain("TimeDateStamp", hex32(h.TimeDateStamp)),
        Field::plain("PointerToSymbolTable", hex32(h.PointerToSymbolTable)),
        Field::plain("NumberOfSymbols", dec_string(h.NumberOfSymbols as u64)),
        Field::plain("SizeOfOptionalHeader", hex16(h.SizeOfOptionalHeader)),
        Field::new("Characteristics", hex16(h.Characteristics), Some(decode_flags(h.Characteristics as u32, file_characteristics().as_slice()))),
    ];
    assert(fields_view(r@) =~= spec_file_header_fields(*h));
    r
}
/// The rows of a PE32 optional header.
pub open spec fn spec_optional_header32_fields(h: IMAGE_OPTIONAL_HEADER32) -> Seq<FieldView> {
    seq![
        FieldView { name: "Magic"@, value: hex_prefixed(h.Magic as nat, 4), note: Some("PE32"@) },
        FieldView { name: "LinkerVersion"@, value: version_text(h.LinkerVersion.Major as nat, h.LinkerVersion.Minor as nat), note: None },
        FieldView { name: "SizeOfCode"@, value: hex_prefixed(h.SizeOfCode as nat, 8), note: None },
        FieldView { name: "SizeOfInitializedData"@, value: hex_prefixed(h.SizeOfInitializedData as nat, 8), note: None },
        FieldView { name: "SizeOfUninitializedData"@, value: hex_prefixed(h.SizeOfUninitializedData as nat, 8), note: None },
        FieldView { name: "AddressOfEntryPoint"@, value: hex_prefixed(h.AddressOfEntryPoint as nat, 8), note: None },
        FieldView { name: "BaseOfCode"@, value: hex_prefixed(h.BaseOfCode as nat, 8), note: None },
        FieldView { name: "BaseOfData"@, value: hex_prefixed(h.BaseOfData as nat, 8), note: None },
        FieldView { name: "ImageBase"@, value: hex_prefixed(h.ImageBase as nat, 8), note: None },
        FieldView { name: "SectionAlignment"@, value: hex_prefixed(h.SectionAlignment as nat, 8), note: None },
        FieldView { name: "FileAlignment"@, value: hex_prefixed(h.FileAlignment as nat, 8), note: None },
        FieldView { name: "OperatingSystemVersion"@, value: version_text(h.OperatingSystemVersion.Major as nat, h.OperatingSystemVersion.Minor as nat), note: None },
        FieldView { name: "ImageVersion"@, value: version_text(h.ImageVersion.Major as nat, h.ImageVersion.Minor as nat), note: None },
        FieldView { name: "SubsystemVersion"@, value: version_text(h.SubsystemVersion.Major as nat, h.SubsystemVersion.Minor as nat), note: None },
        FieldView { name: "Win32VersionValue"@, value: hex_prefixed(h.Win32VersionValue as nat, 8), note: None },
        FieldView { name: "SizeOfImage"@, value: hex_prefixed(h.SizeOfImage as nat, 8), note: None },
        FieldView { name: "SizeOfHeaders"@, value: hex_prefixed(h.SizeOfHeaders as nat, 8), note: None },
        FieldView { name: "CheckSum"@, value: hex_prefixed(h.CheckSum as nat, 8), note: None },
        FieldView { name: "Subsystem"@, value: hex_prefixed(h.Subsystem as nat, 4), note: Some(spec_subsystem_name(h.Subsystem)) },
        FieldView { name: "DllCharacteristics"@, value: hex_prefixed(h.DllCharacteristics as nat, 4), note: Some(spec_decode_flags(h.DllCharacteristics as u32, dll_characteristics_table())) },
        FieldView { name: "SizeOfStackReserve"@, value: hex_prefixed(h.SizeOfStackReserve as nat, 8), note: None },
        FieldView { name: "SizeOfStackCommit"@, value: hex_prefixed(h.SizeOfStackCommit as nat, 8), note: None },
        FieldView { name: "SizeOfHeapReserve"@, value: hex_prefixed(h.SizeOfHeapReserve as nat, 8), note: None },
        FieldView { name: "SizeOfHeapCommit"@, value: hex_prefixed(h.SizeOfHeapCommit as nat, 8), note: None },
        FieldView { name: "LoaderFlags"@, value: hex_prefixed(h.LoaderFlags as nat, 8), note: None },
        FieldView { name: "NumberOfRvaAndSizes"@, value: dec_digits(h.NumberOfRvaAndSizes as nat), note: None },
    ]
}

/// The rows of a PE32 optional header.
pub fn optional_header32_fields(h: &IMAGE_OPTIONAL_HEADER32) -> (r: Vec<Field>)
    ensures
        fields_view(r@) == spec_optional_header32_fields(*h),
{
    let r = vec![
        Field::new("Magic", hex16(h.Magic), Some(String::from_str("PE32"))),
        Field::plain("LinkerVersion", version_string(h.LinkerVersion.Major as u64, h.LinkerVersion.Minor as u64)),
        Field::plain("SizeOfCode", hex32(h.SizeOfCode)),
        Field::plain("SizeOfInitializedData", hex32(h.SizeOfInitializedData)),
        Field::plain("SizeOfUninitializedData", hex32(h.SizeOfUninitializedData)),
        Field::plain("AddressOfEntryPoint", hex32(h.AddressOfEntryPoint)),
        Field::plain("BaseOfCode", hex32(h.BaseOfCode)),
        Field::plain("BaseOfData", hex32(h.BaseOfData)),
        Field::plain("ImageBase", hex32(h.ImageBase)),
        Field::plain("SectionAlignment", hex32(h.SectionAlignment)),
        Field::plain("FileAlignment", hex32(h.FileAlignment)),
        Field::plain("OperatingSystemVersion", version_string(h.OperatingSystemVersion.Major as u64, h.OperatingSystemVersion.Minor as u64)),
        Field::plain("ImageVersion", version_string(h.ImageVersion.Major as u64, h.ImageVersion.Minor as u64)),
        Field::plain("SubsystemVersion", version_string(h.SubsystemVersion.Major as u64, h.SubsystemVersion.Minor as u64)),
        Field::plain("Win32VersionValue", hex32(h.Win32VersionValue)),
        Field::plain("SizeOfImage", hex32(h.SizeOfImage)),
        Field::plain("SizeOfHeaders", hex32(h.SizeOfHeaders)),
        Field::plain("CheckSum", hex32(h.CheckSum)),
        Field::new("Subsystem", hex16(h.Subsystem), Some(String::from_str(subsystem_name(h.Subsystem)))),
        Field::new("DllCharacteristics", hex16(h.DllCharacteristics), Some(decode_flags(h.DllCharacteristics as u32, dll_characteristics().as_slice()))),
        Field::plain("SizeOfStackReserve", hex32(h.SizeOfStackReserve)),
        Field::plain("SizeOfStackCommit", hex32(h.SizeOfStackCommit)),
        Field::plain("SizeOfHeapReserve", hex32(h.SizeOfHeapReserve)),
        Field::plain("SizeOfHeapCommit", hex32(h.SizeOfHeapCommit)),
        Field::plain("LoaderFlags", hex32(h.LoaderFlags)),
        Field::plain("NumberOfRvaAndSizes", dec_string(h.NumberOfRvaAndSizes as u64)),
    ];
    assert(fields_view(r@) =~= spec_optional_header32_fields(*h));
    r
}
/// The rows of a PE32+ optional header.
pub open spec fn spec_optional_header64_fields(h: IMAGE_OPTIONAL_HEADER64) -> Seq<FieldView> {
    seq![
        FieldView { name: "Magic"@, value: hex_prefixed(h.Magic as nat, 4), note: Some("PE32+"@) },
        FieldView { name: "LinkerVersion"@, value: version_text(h.LinkerVersion.Major as nat, h.LinkerVersion.Minor as nat), note: None },
        FieldView { name: "SizeOfCode"@, value: hex_prefixed(h.SizeOfCode as nat, 8), note: None },
        FieldView { name: "SizeOfInitializedData"@, value: hex_prefixed(h.SizeOfInitializedData as nat, 8), note: None },
        FieldView { name: "SizeOfUninitializedData"@, value: hex_prefixed(h.SizeOfUninitializedData as nat, 8), note: None },
        FieldView { name: "AddressOfEntryPoint"@, value: hex_prefixed(h.AddressOfEntryPoint as nat, 8), note: None },
        FieldView { name: "BaseOfCode"@, value: hex_prefixed(h.BaseOfCode as nat, 8), note: None },
        FieldView { name: "ImageBase"@, value: hex_prefixed(h.ImageBase as nat, 16), note: None },
        FieldView { name: "SectionAlignment"@, value: hex_prefixed(h.SectionAlignment as nat, 8), note: None },
        FieldView { name: "FileAlignment"@, value: hex_prefixed(h.FileAlignment as nat, 8), note: None },
        FieldView { name: "OperatingSystemVersion"@, value: version_text(h.OperatingSystemVersion.Major as nat, h.OperatingSystemVersion.Minor as nat), note: None },
        FieldView { name: "ImageVersion"@, value: version_text(h.ImageVersion.Major as nat, h.ImageVersion.Minor as nat), note: None },
        FieldView { name: "SubsystemVersion"@, value: version_text(h.SubsystemVersion.Major as nat, h.SubsystemVersion.Minor as nat), note: None },
        FieldView { name: "Win32VersionValue"@, value: hex_prefixed(h.Win32VersionValue as nat, 8), note: None },
        FieldView { name: "SizeOfImage"@, value: hex_prefixed(h.SizeOfImage as nat, 8), note: None },
        FieldView { name: "SizeOfHeaders"@, value: hex_prefixed(h.SizeOfHeaders as nat, 8), note: None },
        FieldView { name: "CheckSum"@, value: hex_prefixed(h.CheckSum as nat, 8), note: None },
        FieldView { name: "Subsystem"@, value: hex_prefixed(h.Subsystem as nat, 4), note: Some(spec_subsystem_name(h.Subsystem)) },
        FieldView { name: "DllCharacteristics"@, value: hex_prefixed(h.DllCharacteristics as nat, 4), note: Some(spec_decode_flags(h.DllCharacteristics as u32, dll_characteristics_table())) },
        FieldView { name: "SizeOfStackReserve"@, value: hex_prefixed(h.SizeOfStackReserve as nat, 16), note: None },
        FieldView { name: "SizeOfStackCommit"@, value: hex_prefixed(h.SizeOfStackCommit as nat, 16), note: None },
        FieldView { name: "SizeOfHeapReserve"@, value: hex_prefixed(h.SizeOfHeapReserve as nat, 16), note: None },
        FieldView { name: "SizeOfHeapCommit"@, value: hex_prefixed(h.SizeOfHeapCommit as nat, 16), note: None },
        FieldView { name: "LoaderFlags"@, value: hex_prefixed(h.LoaderFlags as nat, 8), note: None },
        FieldView { name: "NumberOfRvaAndSizes"@, value: dec_digits(h.NumberOfRvaAndSizes as nat), note: None },
    ]
}

/// The rows of a PE32+ optional header.
pub fn optional_header64_fields(h: &IMAGE_OPTIONAL_HEADER64) -> (r: Vec<Field>)
    ensures
        fields_view(r@) == spec_optional_header64_fields(*h),
{
    let r = vec![
        Field::new("Magic", hex16(h.Magic), Some(String::from_str("PE32+"))),
        Field::plain("LinkerVersion", version_string(h.LinkerVersion.Major as u64, h.LinkerVersion.Minor as u64)),
        Field::plain("SizeOfCode", hex32(h.SizeOfCode)),
        Field::plain("SizeOfInitializedData", hex32(h.SizeOfInitializedData)),
        Field::plain("SizeOfUninitializedData", hex32(h.SizeOfUninitializedData)),
        Field::plain("AddressOfEntryPoint", hex32(h.AddressOfEntryPoint)),
        Field::plain("BaseOfCode", hex32(h.BaseOfCode)),
        Field::plain("ImageBase", hex64(h.ImageBase)),
        Field::plain("SectionAlignment", hex32(h.SectionAlignment)),
        Field::plain("FileAlignment", hex32(h.FileAlignment)),
        Field::plain("OperatingSystemVersion", version_string(h.OperatingSystemVersion.Major as u64, h.OperatingSystemVersion.Minor as u64)),
        Field::plain("ImageVersion", version_string(h.ImageVersion.Major as u64, h.ImageVersion.Minor as u64)),
        Field::plain("SubsystemVersion", version_string(h.SubsystemVersion.Major as u64, h.SubsystemVersion.Minor as u64)),
        Field::plain("Win32VersionValue", hex32(h.Win32VersionValue)),
        Field::plain("SizeOfImage", hex32(h.SizeOfImage)),
        Field::plain("SizeOfHeaders", hex32(h.SizeOfHeaders)),
        Field::plain("CheckSum", hex32(h.CheckSum)),
        Field::new("Subsystem", hex16(h.Subsystem), Some(String::from_str(subsystem_name(h.Subsystem)))),
        Field::new("DllCharacteristics", hex16(h.DllCharacteristics), Some(decode_flags(h.DllCharacteristics as u32, dll_characteristics().as_slice()))),
        Field::plain("SizeOfStackReserve", hex64(h.SizeOfStackReserve)),
        Field::plain("SizeOfStackCommit", hex64(h.SizeOfStackCommit)),
        Field::plain("SizeOfHeapReserve", hex64(h.SizeOfHeapReserve)),
        Field::plain("SizeOfHeapCommit", hex64(h.SizeOfHeapCommit)),
        Field::plain("LoaderFlags", hex32(h.LoaderFlags)),
        Field::plain("NumberOfRvaAndSizes", dec_string(h.NumberOfRvaAndSizes as u64)),
    ];
    assert(fields_view(r@) =~= spec_optional_header64_fields(*h));
    r
}
/// Read a section's fixed 8-byte name as an ASCII string (trimmed at NUL).
pub(crate) fn section_name(name: &[u8; 8]) -> (r: String)
    ensures
        r@ == crate::text::utf8_lossy(nul_trimmed(name@)),
        crate::text::no_nul_char(r@),
{
    let raw = vstd::array::array_as_slice(name);
    let mut end: usize = 0;
    while end < raw.len() && raw[end] != 0
        invariant
            raw@ == name@,
            end <= raw@.len(),
            forall|j: int| 0 <= j < end ==> raw@[j] != 0,
        decreases raw.len() - end,
    {
        end = end + 1;
    }
    proof {
        crate::data_source::lemma_nul_trimmed_prefix(raw@, end as int);
    }
    let head = vstd::slice::slice_subrange(raw, 0, end);
    assert(crate::text::no_zero_byte(head@));
    string_from_utf8_lossy(head)
}

/// The rows of an optional header, in whichever layout it has.
pub open spec fn spec_optional_header_fields(h: OptionalHeaderInner) -> Seq<FieldView> {
    match h {
        OptionalHeaderInner::Pe32(h32) => spec_optional_header32_fields(h32),
        OptionalHeaderInner::Pe32Plus(h64) => spec_optional_header64_fields(h64),
    }
}

/// The rows of an optional header, in whichever layout it has.
pub fn optional_header_fields(h: &OptionalHeaderInner) -> (r: Vec<Field>)
    ensures
        fields_view(r@) == spec_optional_header_fields(*h),
{
    match h {
        OptionalHeaderInner::Pe32(h32) => optional_header32_fields(h32),
        OptionalHeaderInner::Pe32Plus(h64) => optional_header64_fields(h64),
    }
}

// ---------------------------------------------------------------------------
// Row builders: section table (multi-column)
// ---------------------------------------------------------------------------

/// The column headers of the section table.
pub open spec fn section_columns_text() -> Seq<Seq<char>> {
    seq!["Name"@, "VirtAddr"@, "VirtSize"@, "RawSize"@, "RawPtr"@, "Characteristics"@]
}

/// Column headers matching the cell order of [`section_row`].
pub fn section_columns() -> (r: Vec<&'static str>)
    ensures
        strs_view(r@) == section_columns_text(),
{
    let r = vec!["Name", "VirtAddr", "VirtSize", "RawSize", "RawPtr", "Characteristics"];
    assert(strs_view(r@) =~= section_columns_text());
    r
}

/// The cells of one section's row, aligned with the section columns.
pub open spec fn spec_section_row(s: IMAGE_SECTION_HEADER) -> Seq<Seq<char>> {
    seq![
        section_name_of(s),
        hex_prefixed(s.VirtualAddress as nat, 8),
        hex_prefixed(s.VirtualSize as nat, 8),
        hex_prefixed(s.SizeOfRawData as nat, 8),
        hex_prefixed(s.PointerToRawData as nat, 8),
        spec_decode_flags(s.Characteristics, section_characteristics_table()),
    ]
}

/// A section's row has one cell per section column.
pub proof fn lemma_section_row_matches_columns(s: IMAGE_SECTION_HEADER)
    ensures
        spec_section_row(s).len() == section_columns_text().len(),
{
}

/// One section rendered as a row of already-formatted cells, aligned with
/// the section columns.
pub fn section_row(s: &IMAGE_SECTION_HEADER) -> (r: Vec<String>)
    ensures
        strings_view(r@) == spec_section_row(*s),
{
    let table = section_characteristics();
    let r = vec![
        section_name(&s.Name),
        hex32(s.VirtualAddress),
        hex32(s.VirtualSize),
        hex32(s.SizeOfRawData),
        hex32(s.PointerToRawData),
        decode_flags(s.Characteristics, table.as_slice()),
    ];
    assert(strings_view(r@) =~= spec_section_row(*s));
    r
}

} // verus!
