# pe

A viewer for PE (Portable Executable) images, whose parser is verified with
Verus.

The library (`src/`) reads a PE image from any random-access byte source
(`DataSource`) and parses the DOS header, the NT headers (PE32 and PE32+),
the section table and the import and export directories. Every parse is
stated against a mathematical model of the bytes the source holds and the
length it reports. A source states how far that model describes it: for
the byte buffers and a file's contents every read is described, and the
parser returns exactly what the model gives, errors included; for a source
whose reads may fail, the parser returns the same except that a failed read
may end it, and an error decided from the reported length alone is still
exactly the model's; a source that states nothing is promised nothing.
The library also turns what it parsed into presentation-agnostic reports
(title, column headers, rows of formatted cells) and text listings, and
holds the state of a viewer front end.

Layout:

- `src/data_source.rs`, `src/data_source/`: the `DataSource` trait, typed
  little-endian reads, the byte-buffer sources and `FileDataSource`, the
  contents of a file with its path.
- `src/pe_structs.rs`: the on-disk structures and their decoders.
- `src/pe_structs_wrapper/`: the parsed headers, sections, imports and
  exports, with RVA translation and alignment.
- `src/pe.rs`: `PeFile`, the parse of a whole image, and `ParseError`.
- `src/report.rs`, `src/listing.rs`, `src/text.rs`: reports, listings and
  number rendering.
- `src/selection.rs`, `src/app_context.rs`: what a front end was asked to
  show, and the state of the windowed viewer.
- `app/`: the program around the library: reading a file into a
  `FileDataSource`, the command-line front end (clap, comfy-table) and the windowed one (eframe,
  rfd). Started as `peviewer-gui` it opens the window.
- `tests/`: tests of the library on synthetic images.
