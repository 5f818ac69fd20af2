//! Plain-text listing of an image's imports, one line per DLL and per
//! imported function, ready to be printed or shown.
use crate::pe_structs_wrapper::import::{ImportEntryView, ImportView};
use crate::pe_structs_wrapper::{Import, ImportEntry};
use crate::report::strings_view;
use crate::text::{dec_digits, lower_hex_digits, push_dec, push_lower_hex};
use vstd::prelude::*;

verus! {

/// How one imported function is shown: its name; `(ord N)` for an import
/// by ordinal; `<0x…>` with sixteen lower-case hexadecimal digits for a
/// bound address.
pub open spec fn spec_import_entry_text(e: ImportEntryView) -> Seq<char> {
    match e {
        ImportEntryView::ImportByName(_, name) => name,
        ImportEntryView::ImportByOrdinal(o) => "(ord "@ + dec_digits(o as nat) + ")"@,
        ImportEntryView::FunctionAddress(a) => "<0x"@ + lower_hex_digits(a as nat, 16) + ">"@,
    }
}

/// The heading of one DLL's block: `[name]  (N functions)`.
pub open spec fn spec_import_heading(i: ImportView) -> Seq<char> {
    "["@ + i.dll_name + "]  ("@ + dec_digits(i.entries.len()) + " functions)"@
}

/// One DLL's block: its heading, then one indented line per function.
pub open spec fn import_block(i: ImportView) -> Seq<Seq<char>> {
    seq!["  "@ + spec_import_heading(i)] + i.entries.map_values(
        |e: ImportEntryView| "    "@ + spec_import_entry_text(e),
    )
}

/// The blocks of `imports`, in order.
pub open spec fn import_blocks(imports: Seq<ImportView>) -> Seq<Seq<char>>
    decreases imports.len(),
{
    if imports.len() == 0 {
        Seq::empty()
    } else {
        import_blocks(imports.drop_last()) + import_block(imports.last())
    }
}

/// The whole listing: a title line, then `(none)` when nothing is
/// imported, else the block of each DLL.
pub open spec fn spec_imports_listing(imports: Seq<ImportView>) -> Seq<Seq<char>> {
    seq!["=== Imports ==="@] + if imports.len() == 0 {
        seq!["(none)"@]
    } else {
        import_blocks(imports)
    }
}

/// How one imported function is shown.
pub fn import_entry_text(e: &ImportEntry) -> (r: String)
    ensures
        r@ == spec_import_entry_text(e@),
{
    match e {
        ImportEntry::ImportByName(_, name) => name.clone(),
        ImportEntry::ImportByOrdinal(o) => {
            let mut s = String::from_str("(ord ");
            push_dec(&mut s, *o);
            s.append(")");
            s
        },
        ImportEntry::FunctionAddress(a) => {
            let mut s = String::from_str("<0x");
            push_lower_hex(&mut s, *a, 16);
            s.append(">");
            s
        },
    }
}

/// The heading of one DLL's block.
pub fn import_heading(i: &Import) -> (r: String)
    ensures
        r@ == spec_import_heading(i@),
{
    let entries = i.import_name_table();
    let mut s = String::from_str("[");
    s.append(i.dll_name());
    s.append("]  (");
    push_dec(&mut s, entries.len() as u64);
    s.append(" functions)");
    s
}

/// The listing of `imports`, one line per string.
pub fn imports_listing(imports: &[Import]) -> (r: Vec<String>)
    ensures
        strings_view(r@) == spec_imports_listing(imports@.map_values(|i: Import| i@)),
{
    let ghost views = imports@.map_values(|i: Import| i@);
    let mut lines: Vec<String> = Vec::new();
    lines.push(String::from_str("=== Imports ==="));
    if imports.len() == 0 {
        lines.push(String::from_str("(none)"));
        assert(strings_view(lines@) =~= spec_imports_listing(views));
        return lines;
    }
    let mut i: usize = 0;
    while i < imports.len()
        invariant
            i <= imports@.len(),
            views == imports@.map_values(|i: Import| i@),
            strings_view(lines@) == seq!["=== Imports ==="@] + import_blocks(
                views.subrange(0, i as int),
            ),
        decreases imports.len() - i,
    {
        let imp = &imports[i];
        let ghost start = strings_view(lines@);
        let mut heading = String::from_str("  ");
        let h = import_heading(imp);
        heading.append(h.as_str());
        lines.push(heading);
        let entries = imp.import_name_table();
        let ghost evs = entries@.map_values(|e: ImportEntry| e@);
        let mut j: usize = 0;
        while j < entries.len()
            invariant
                j <= entries@.len(),
                evs == entries@.map_values(|e: ImportEntry| e@),
                strings_view(lines@) == start + seq!["  "@ + spec_import_heading(imp@)]
                    + evs.subrange(0, j as int).map_values(
                    |e: ImportEntryView| "    "@ + spec_import_entry_text(e),
                ),
            decreases entries.len() - j,
        {
            let ghost before = strings_view(lines@);
            let mut line = String::from_str("    ");
            let t = import_entry_text(&entries[j]);
            line.append(t.as_str());
            lines.push(line);
            proof {
                assert(evs[j as int] == entries@[j as int]@);
                assert(strings_view(lines@) =~= before.push(
                    "    "@ + spec_import_entry_text(evs[j as int]),
                ));
                assert(evs.subrange(0, j + 1).map_values(
                    |e: ImportEntryView| "    "@ + spec_import_entry_text(e),
                ) =~= evs.subrange(0, j as int).map_values(
                    |e: ImportEntryView| "    "@ + spec_import_entry_text(e),
                ).push("    "@ + spec_import_entry_text(evs[j as int])));
            }
            j = j + 1;
        }
        proof {
            assert(evs.subrange(0, entries@.len() as int) =~= evs);
            assert(views[i as int] == imp@);
            assert(evs == imp@.entries);
            assert(views.subrange(0, i + 1).drop_last() =~= views.subrange(0, i as int));
            assert(strings_view(lines@) =~= seq!["=== Imports ==="@] + import_blocks(
                views.subrange(0, i + 1),
            ));
        }
        i = i + 1;
    }
    assert(views.subrange(0, imports@.len() as int) =~= views);
    lines
}

} // verus!
