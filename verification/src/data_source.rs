//! Random-access byte sources, and the typed reads built on them.
use crate::text::{
    ascii_chars, dec_digits, is_ascii_bytes, no_nul_char, no_zero_byte, no_zero_unit, push_dec,
    string_from_utf16_lossy, string_from_utf8_lossy, utf16_lossy, utf8_lossy,
};
use vstd::prelude::*;

mod file_data_source;
pub use file_data_source::FileDataSource;

verus! {

/// `std::io::Error`, carried opaquely in an I/O failure.
#[verifier::external_type_specification]
#[verifier::external_body]
pub struct ExIoError(std::io::Error);

/// Errors that can occur during data source operations.
#[derive(Debug)]
pub enum DataSourceError {
    /// The requested read extends beyond the data source boundary.
    OutOfBounds { offset: u64, length: usize, source_len: Option<u64> },
    /// The file was not found at the given path (the path as text).
    FileNotFound { path: String },
    /// An underlying I/O error occurred.
    Io(std::io::Error),
}

/// Renders an I/O error through its `Display` impl.
///
/// Nothing is claimed of the text: it comes from the operating system's
/// description of the error.
#[verifier::external_body]
fn io_error_text(e: &std::io::Error) -> String {
    e.to_string()
}

/// The message of an out-of-bounds error.
pub open spec fn out_of_bounds_text(offset: u64, length: usize, source_len: Option<u64>) -> Seq<char> {
    "read out of bounds: offset="@ + dec_digits(offset as nat) + ", length="@ + dec_digits(
        length as nat,
    ) + match source_len {
        Some(l) => ", source_len="@ + dec_digits(l as nat),
        None => Seq::empty(),
    }
}

/// Whether `text` is a message of `e`: exact for an out-of-bounds read and
/// a missing file; for an I/O failure, the fixed prefix followed by the
/// operating system's description of the error.
pub open spec fn is_message_of(e: DataSourceError, text: Seq<char>) -> bool {
    match e {
        DataSourceError::OutOfBounds { offset, length, source_len } => text == out_of_bounds_text(
            offset,
            length,
            source_len,
        ),
        DataSourceError::FileNotFound { path } => text == "file not found: "@ + path@,
        DataSourceError::Io(_) => exists|t: Seq<char>| text == "I/O error: "@ + t,
    }
}

impl DataSourceError {
    /// The human-readable message of the error.
    pub fn to_string(&self) -> (r: String)
        ensures
            is_message_of(*self, r@),
    {
        match self {
            DataSourceError::OutOfBounds { offset, length, source_len } => {
                let mut s = String::from_str("read out of bounds: offset=");
                push_dec(&mut s, *offset);
                s.append(", length=");
                push_dec(&mut s, *length as u64);
                match source_len {
                    Some(l) => {
                        s.append(", source_len=");
                        push_dec(&mut s, *l);
                    },
                    None => {},
                }
                assert(s@ =~= out_of_bounds_text(*offset, *length, *source_len));
                s
            },
            DataSourceError::FileNotFound { path } => {
                let mut s = String::from_str("file not found: ");
                s.append(path.as_str());
                s
            },
            DataSourceError::Io(e) => {
                let mut s = String::from_str("I/O error: ");
                let t = io_error_text(e);
                s.append(t.as_str());
                s
            },
        }
    }
}

impl DataSourceError {
    /// The I/O error underneath, for an I/O failure; nothing otherwise.
    pub fn source(&self) -> (r: Option<&std::io::Error>)
        ensures
            match self {
                DataSourceError::Io(e) => r == Some(e),
                _ => r is None,
            },
    {
        match self {
            DataSourceError::Io(e) => Some(e),
            _ => None,
        }
    }
}

impl From<std::io::Error> for DataSourceError {
    fn from(e: std::io::Error) -> Self {
        DataSourceError::Io(e)
    }
}

impl vstd::std_specs::convert::FromSpecImpl<std::io::Error> for DataSourceError {
    open spec fn obeys_from_spec() -> bool {
        true
    }

    open spec fn from_spec(e: std::io::Error) -> Self {
        DataSourceError::Io(e)
    }
}

/// A source as its reads see it: the bytes it holds, and whether a read
/// that leaves them fails as a file's does.
pub struct SourceBytes {
    pub bytes: Seq<u8>,
    /// A read of nothing succeeds wherever it starts, and a read that runs
    /// past the end names the first byte it could not read and how many
    /// bytes were left to read. Otherwise a failed read names the whole
    /// requested range.
    pub file_reads: bool,
}

/// A buffer in memory holding `b`.
pub open spec fn buffer(b: Seq<u8>) -> SourceBytes {
    SourceBytes { bytes: b, file_reads: false }
}

/// What a read of `n` bytes at `offset` gives from a source holding `c`.
pub open spec fn spec_read(c: SourceBytes, offset: u64, n: nat) -> Result<
    Seq<u8>,
    DataSourceError,
> {
    let len = c.bytes.len();
    if offset + n <= len {
        Ok(c.bytes.subrange(offset as int, offset + n))
    } else if c.file_reads && n == 0 {
        Ok(Seq::empty())
    } else if c.file_reads {
        let got: nat = if offset < len {
            (len - offset) as nat
        } else {
            0
        };
        Err(
            DataSourceError::OutOfBounds {
                offset: (offset + got) as u64,
                length: (n - got) as usize,
                source_len: Some(len as u64),
            },
        )
    } else {
        Err(DataSourceError::OutOfBounds { offset, length: n as usize, source_len: Some(len as u64) })
    }
}

/// How far a source's answers are described by its spec functions.
pub enum ReadModel {
    /// Nothing is claimed of the source's answers.
    Unmodelled,
    /// The length, layout, image base and URL it answers are those of its
    /// spec functions, and a read that succeeds gives the bytes of its
    /// model; any read may fail.
    Fallible,
    /// As `Fallible`, and every read gives what its model gives, failures
    /// included.
    Exact,
}

/// `r` agrees with the expected outcome `e` as far as the model `m`
/// describes the source: an exact source gives `e`; a fallible one gives
/// `e` or fails.
pub open spec fn agrees<T, E>(r: Result<T, E>, e: Result<T, E>, m: ReadModel) -> bool {
    match m {
        ReadModel::Unmodelled => true,
        ReadModel::Fallible => r == e || r is Err,
        ReadModel::Exact => r == e,
    }
}

/// Whether a source is described by its spec functions.
pub open spec fn modelled(m: ReadModel) -> bool {
    !(m is Unmodelled)
}

/// The length a source reports, taken as 0 when it reports none.
pub open spec fn len_or_zero(len: Option<u64>) -> u64 {
    match len {
        Some(l) => l,
        None => 0,
    }
}

/// A reported length fits the source `c`: when there is one, it is the
/// number of bytes it holds.
pub open spec fn len_fits(c: SourceBytes, len: Option<u64>) -> bool {
    len matches Some(l) ==> l == c.bytes.len()
}

/// `r` with its success value replaced by `f` of it.
pub open spec fn map_ok<T, U, E>(r: Result<T, E>, f: spec_fn(T) -> U) -> Result<U, E> {
    match r {
        Ok(v) => Ok(f(v)),
        Err(e) => Err(e),
    }
}

/// A read-only, random-access data source.
///
/// This is the only interface the PE parser uses to obtain raw bytes.
/// A source is modelled by the bytes it holds; reads are offset-based and
/// do not change the source.
///
/// The spec functions below have default bodies only so that an
/// implementation written outside verified code still compiles. Such an
/// implementation keeps the default `read_model`, `Unmodelled`, under which
/// no clause below claims anything of it; the parsing contracts speak of a
/// source only through the spec functions its implementation defines, as
/// the byte buffers and [`FileDataSource`] do.
pub trait DataSource: Send + Sync {
    /// How far the source is described by the spec functions below:
    /// not at all unless an implementation states it.
    closed spec fn read_model(&self) -> ReadModel {
        ReadModel::Unmodelled
    }

    /// The bytes the source holds, and how its reads fail.
    closed spec fn content(&self) -> SourceBytes {
        arbitrary()
    }

    /// What `len` answers.
    closed spec fn known_len(&self) -> Option<u64> {
        arbitrary()
    }

    /// What `is_file_aligned` answers.
    closed spec fn file_aligned(&self) -> bool {
        arbitrary()
    }

    /// What `image_base` answers.
    closed spec fn base_address(&self) -> u64 {
        arbitrary()
    }

    /// What `url` answers.
    closed spec fn location(&self) -> Seq<char> {
        arbitrary()
    }

    /// Total length of the data, if known.
    fn len(&self) -> (r: Option<u64>)
        ensures
            modelled(self.read_model()) ==> r == self.known_len(),
            modelled(self.read_model()) ==> (r matches Some(l) ==> l == self.content().bytes.len()),
            self.read_model() is Exact ==> r == Some(self.content().bytes.len() as u64),
    ;

    /// Returns `true` if the source is known to be empty.
    fn is_empty(&self) -> (r: bool)
        ensures
            modelled(self.read_model()) ==> (r ==> self.content().bytes.len() == 0),
            self.read_model() is Exact ==> (r <==> self.content().bytes.len() == 0),
    {
        match self.len() {
            Some(l) => l == 0,
            None => false,
        }
    }

    /// Read exactly `buf.len()` bytes starting at `offset`; fails with
    /// [`DataSourceError::OutOfBounds`] if `[offset, offset + buf.len())`
    /// is not within the source.
    fn read_exact(&self, offset: u64, buf: &mut [u8]) -> (r: Result<(), DataSourceError>)
        ensures
            final(buf)@.len() == old(buf)@.len(),
            agrees(
                match r {
                    Ok(_) => Ok(final(buf)@),
                    Err(e) => Err(e),
                },
                spec_read(self.content(), offset, old(buf)@.len()),
                self.read_model(),
            ),
    ;

    /// Whether the source holds the image in its on-disk (file) layout.
    fn is_file_aligned(&self) -> (r: bool)
        ensures
            modelled(self.read_model()) ==> r == self.file_aligned(),
    ;

    /// The address at which the image is loaded, for an in-memory image.
    fn image_base(&self) -> (r: u64)
        ensures
            modelled(self.read_model()) ==> r == self.base_address(),
    ;

    /// A description of where the data comes from.
    fn url(&self) -> (r: String)
        ensures
            modelled(self.read_model()) ==> r@ == self.location(),
    ;
}

/// Copies `data[start..start + count]` to the front of `buf`.
fn copy_to_front(data: &[u8], start: usize, buf: &mut [u8], count: usize)
    requires
        start + count <= data@.len(),
        count <= old(buf)@.len(),
    ensures
        final(buf)@.len() == old(buf)@.len(),
        final(buf)@.subrange(0, count as int) == data@.subrange(start as int, start + count),
{
    let _ = data.len();
    let mut i: usize = 0;
    while i < count
        invariant
            buf@.len() == old(buf)@.len(),
            count <= buf@.len(),
            start + count <= data@.len(),
            data@.len() <= usize::MAX,
            i <= count,
            forall|k: int| 0 <= k < i ==> buf@[k] == data@[start + k],
        decreases count - i,
    {
        buf[i] = data[start + i];
        i = i + 1;
    }
    assert(buf@.subrange(0, count as int) =~= data@.subrange(start as int, start + count));
}

/// `read_exact` over bytes held in memory, failing as a buffer's reads do
/// or, with `file_reads`, as a file's do: a file read that runs past the
/// end fills what it could before it fails.
fn read_from_bytes(data: &[u8], file_reads: bool, offset: u64, buf: &mut [u8]) -> (r: Result<
    (),
    DataSourceError,
>)
    ensures
        final(buf)@.len() == old(buf)@.len(),
        (match r {
            Ok(_) => Ok(final(buf)@),
            Err(e) => Err(e),
        }) == spec_read(SourceBytes { bytes: data@, file_reads }, offset, old(buf)@.len()),
{
    let n = buf.len();
    let len = data.len();
    let got: usize = if offset >= len as u64 {
        0
    } else {
        let rest = len - offset as usize;
        if n < rest {
            n
        } else {
            rest
        }
    };
    if got == n && (n > 0 || offset <= len as u64) {
        copy_to_front(data, offset as usize, buf, n);
        assert(buf@ =~= buf@.subrange(0, n as int));
        return Ok(());
    }
    if n == 0 {
        if file_reads {
            assert(buf@ =~= Seq::<u8>::empty());
            return Ok(());
        }
        return Err(DataSourceError::OutOfBounds { offset, length: 0, source_len: Some(len as u64) });
    }
    if file_reads {
        if got > 0 {
            copy_to_front(data, offset as usize, buf, got);
        }
        Err(
            DataSourceError::OutOfBounds {
                offset: offset + got as u64,
                length: n - got,
                source_len: Some(len as u64),
            },
        )
    } else {
        Err(DataSourceError::OutOfBounds { offset, length: n, source_len: Some(len as u64) })
    }
}

impl DataSource for Vec<u8> {
    open spec fn read_model(&self) -> ReadModel {
        ReadModel::Exact
    }

    open spec fn content(&self) -> SourceBytes {
        buffer(self@)
    }

    open spec fn known_len(&self) -> Option<u64> {
        Some(self@.len() as u64)
    }

    open spec fn file_aligned(&self) -> bool {
        false
    }

    open spec fn base_address(&self) -> u64 {
        0
    }

    open spec fn location(&self) -> Seq<char> {
        Seq::empty()
    }

    fn len(&self) -> (r: Option<u64>) {
        let r = Some(self.as_slice().len() as u64);
        assert(self.known_len() == r);
        r
    }

    fn read_exact(&self, offset: u64, buf: &mut [u8]) -> (r: Result<(), DataSourceError>) {
        read_from_bytes(self.as_slice(), false, offset, buf)
    }

    fn is_file_aligned(&self) -> (r: bool) {
        false
    }

    fn image_base(&self) -> (r: u64) {
        0
    }

    fn url(&self) -> (r: String) {
        String::new()
    }
}

impl DataSource for [u8] {
    open spec fn read_model(&self) -> ReadModel {
        ReadModel::Exact
    }

    open spec fn content(&self) -> SourceBytes {
        buffer(self@)
    }

    open spec fn known_len(&self) -> Option<u64> {
        Some(self@.len() as u64)
    }

    open spec fn file_aligned(&self) -> bool {
        false
    }

    open spec fn base_address(&self) -> u64 {
        0
    }

    open spec fn location(&self) -> Seq<char> {
        Seq::empty()
    }

    fn len(&self) -> (r: Option<u64>) {
        let r = Some(<[u8]>::len(self) as u64);
        assert(self.known_len() == r);
        r
    }

    fn read_exact(&self, offset: u64, buf: &mut [u8]) -> (r: Result<(), DataSourceError>) {
        read_from_bytes(self, false, offset, buf)
    }

    fn is_file_aligned(&self) -> (r: bool) {
        false
    }

    fn image_base(&self) -> (r: u64) {
        0
    }

    fn url(&self) -> (r: String) {
        String::new()
    }
}

/// `&[u8]` is a common data source: zero-copy.
impl<'a> DataSource for &'a [u8] {
    open spec fn read_model(&self) -> ReadModel {
        ReadModel::Exact
    }

    open spec fn content(&self) -> SourceBytes {
        buffer((*self)@)
    }

    open spec fn known_len(&self) -> Option<u64> {
        Some((*self)@.len() as u64)
    }

    open spec fn file_aligned(&self) -> bool {
        false
    }

    open spec fn base_address(&self) -> u64 {
        0
    }

    open spec fn location(&self) -> Seq<char> {
        Seq::empty()
    }

    fn len(&self) -> (r: Option<u64>) {
        let r = Some((*self).len() as u64);
        assert(self.known_len() == r);
        r
    }

    fn read_exact(&self, offset: u64, buf: &mut [u8]) -> (r: Result<(), DataSourceError>) {
        read_from_bytes(*self, false, offset, buf)
    }

    fn is_file_aligned(&self) -> (r: bool) {
        false
    }

    fn image_base(&self) -> (r: u64) {
        0
    }

    fn url(&self) -> (r: String) {
        String::new()
    }
}

/// Little-endian `u16` at `s[i..i + 2]`.
pub open spec fn le_u16(s: Seq<u8>, i: int) -> u16 {
    (s[i] as int + s[i + 1] as int * 0x100) as u16
}

/// Little-endian `u32` at `s[i..i + 4]`.
pub open spec fn le_u32(s: Seq<u8>, i: int) -> u32 {
    (le_u16(s, i) as int + le_u16(s, i + 2) as int * 0x10000) as u32
}

/// Little-endian `u64` at `s[i..i + 8]`.
pub open spec fn le_u64(s: Seq<u8>, i: int) -> u64 {
    (le_u32(s, i) as int + le_u32(s, i + 4) as int * 0x1_0000_0000) as u64
}

/// The little-endian bytes of a `u16` (what `u16::to_le_bytes` gives).
pub open spec fn u16_le_bytes(v: u16) -> Seq<u8> {
    seq![v as u8, (v >> 8u16) as u8]
}

/// The little-endian bytes of a `u32` (what `u32::to_le_bytes` gives).
pub open spec fn u32_le_bytes(v: u32) -> Seq<u8> {
    seq![v as u8, (v >> 8u32) as u8, (v >> 16u32) as u8, (v >> 24u32) as u8]
}

/// The little-endian bytes of a `u64` (what `u64::to_le_bytes` gives).
pub open spec fn u64_le_bytes(v: u64) -> Seq<u8> {
    u32_le_bytes(v as u32) + u32_le_bytes((v >> 32u64) as u32)
}

/// Decoding the little-endian bytes of a value gives the value back.
pub proof fn lemma_read_le_bytes(a: u16, b: u32, c: u64)
    ensures
        le_u16(u16_le_bytes(a), 0) == a,
        le_u32(u32_le_bytes(b), 0) == b,
        le_u64(u64_le_bytes(c), 0) == c,
{
    assert((a as u8) as int + ((a >> 8u16) as u8) as int * 0x100 == a) by (bit_vector);
    assert(((b as u8) as int + ((b >> 8u32) as u8) as int * 0x100) + ((b >> 16u32) as u8) as int
        * 0x1_0000 + ((b >> 24u32) as u8) as int * 0x100_0000 == b) by (bit_vector);
    let lo = c as u32;
    let hi = (c >> 32u64) as u32;
    assert(lo as int + hi as int * 0x1_0000_0000 == c) by (bit_vector)
        requires
            lo == c as u32,
            hi == (c >> 32u64) as u32,
    ;
    let bl = u32_le_bytes(lo);
    let bh = u32_le_bytes(hi);
    assert((lo as u8) as int + ((lo >> 8u32) as u8) as int * 0x100 + ((lo >> 16u32) as u8) as int
        * 0x1_0000 + ((lo >> 24u32) as u8) as int * 0x100_0000 == lo) by (bit_vector);
    assert((hi as u8) as int + ((hi >> 8u32) as u8) as int * 0x100 + ((hi >> 16u32) as u8) as int
        * 0x1_0000 + ((hi >> 24u32) as u8) as int * 0x100_0000 == hi) by (bit_vector);
    let s = u64_le_bytes(c);
    assert(s[4] == bh[0] && s[5] == bh[1] && s[6] == bh[2] && s[7] == bh[3]);
    assert(s[0] == bl[0] && s[1] == bl[1] && s[2] == bl[2] && s[3] == bl[3]);
}

/// Decodes a little-endian `u16` at `b[i..i + 2]`.
pub fn get_u16(b: &[u8], i: usize) -> (r: u16)
    requires
        i + 2 <= b@.len(),
    ensures
        r == le_u16(b@, i as int),
{
    b[i] as u16 + (b[i + 1] as u16) * 0x100
}

/// Decodes a little-endian `u32` at `b[i..i + 4]`.
pub fn get_u32(b: &[u8], i: usize) -> (r: u32)
    requires
        i + 4 <= b@.len(),
    ensures
        r == le_u32(b@, i as int),
{
    assert(b@.len() == b.len());
    get_u16(b, i) as u32 + (get_u16(b, i + 2) as u32) * 0x10000
}

/// Decodes a little-endian `u64` at `b[i..i + 8]`.
pub fn get_u64(b: &[u8], i: usize) -> (r: u64)
    requires
        i + 8 <= b@.len(),
    ensures
        r == le_u64(b@, i as int),
{
    assert(b@.len() == b.len());
    get_u32(b, i) as u64 + (get_u32(b, i + 4) as u64) * 0x1_0000_0000
}

/// The bytes of `s` before its first `NUL` (all of `s` when it holds none).
pub open spec fn nul_trimmed(s: Seq<u8>) -> Seq<u8>
    decreases s.len(),
{
    if s.len() == 0 {
        s
    } else if s[0] == 0 {
        Seq::empty()
    } else {
        seq![s[0]] + nul_trimmed(s.drop_first())
    }
}

/// The code units of `s` before its first zero unit.
pub open spec fn zero_trimmed(s: Seq<u16>) -> Seq<u16>
    decreases s.len(),
{
    if s.len() == 0 {
        s
    } else if s[0] == 0 {
        Seq::empty()
    } else {
        seq![s[0]] + zero_trimmed(s.drop_first())
    }
}

/// The little-endian code units of `b`, two bytes each.
pub open spec fn le_units(b: Seq<u8>) -> Seq<u16> {
    Seq::new(b.len() / 2, |k: int| le_u16(b, 2 * k))
}

/// The text `read_ascii` makes of the bytes it read.
pub open spec fn ascii_text(raw: Seq<u8>) -> Seq<char> {
    utf8_lossy(nul_trimmed(raw))
}

/// The text `read_utf16` makes of the bytes it read.
pub open spec fn utf16_text(raw: Seq<u8>) -> Seq<char> {
    utf16_lossy(zero_trimmed(le_units(raw)))
}

/// Trimming at the first `NUL` keeps exactly the bytes before it.
pub proof fn lemma_nul_trimmed_prefix(s: Seq<u8>, k: int)
    requires
        0 <= k <= s.len(),
        forall|j: int| 0 <= j < k ==> s[j] != 0,
        k == s.len() || s[k] == 0,
    ensures
        nul_trimmed(s) == s.subrange(0, k),
    decreases s.len(),
{
    if s.len() > 0 && s[0] != 0 {
        lemma_nul_trimmed_prefix(s.drop_first(), k - 1);
        assert(s.subrange(0, k) =~= seq![s[0]] + s.drop_first().subrange(0, k - 1));
    } else {
        assert(s.subrange(0, k) =~= Seq::<u8>::empty());
    }
}

/// Trimming at the first zero unit keeps exactly the units before it.
proof fn lemma_zero_trimmed_prefix(s: Seq<u16>, k: int)
    requires
        0 <= k <= s.len(),
        forall|j: int| 0 <= j < k ==> s[j] != 0,
        k == s.len() || s[k] == 0,
    ensures
        zero_trimmed(s) == s.subrange(0, k),
    decreases s.len(),
{
    if s.len() > 0 && s[0] != 0 {
        lemma_zero_trimmed_prefix(s.drop_first(), k - 1);
        assert(s.subrange(0, k) =~= seq![s[0]] + s.drop_first().subrange(0, k - 1));
    } else {
        assert(s.subrange(0, k) =~= Seq::<u16>::empty());
    }
}

/// Convenience methods for reading typed values from a [`DataSource`].
///
/// Automatically implemented for every `T: DataSource`.
pub trait DataSourceExt: DataSource {
    /// Read a `u16` in little-endian byte order.
    fn read_u16(&self, offset: u64) -> (r: Result<u16, DataSourceError>)
        ensures
            agrees(
                r,
                map_ok(spec_read(self.content(), offset, 2), |b: Seq<u8>| le_u16(b, 0)),
                self.read_model(),
            ),
    {
        let mut buf = [0u8; 2];
        match self.read_exact(offset, &mut buf) {
            Ok(()) => Ok(get_u16(&buf, 0)),
            Err(e) => Err(e),
        }
    }

    /// Read a `u32` in little-endian byte order.
    fn read_u32(&self, offset: u64) -> (r: Result<u32, DataSourceError>)
        ensures
            agrees(
                r,
                map_ok(spec_read(self.content(), offset, 4), |b: Seq<u8>| le_u32(b, 0)),
                self.read_model(),
            ),
    {
        let mut buf = [0u8; 4];
        match self.read_exact(offset, &mut buf) {
            Ok(()) => Ok(get_u32(&buf, 0)),
            Err(e) => Err(e),
        }
    }

    /// Read a `u64` in little-endian byte order.
    fn read_u64(&self, offset: u64) -> (r: Result<u64, DataSourceError>)
        ensures
            agrees(
                r,
                map_ok(spec_read(self.content(), offset, 8), |b: Seq<u8>| le_u64(b, 0)),
                self.read_model(),
            ),
    {
        let mut buf = [0u8; 8];
        match self.read_exact(offset, &mut buf) {
            Ok(()) => Ok(get_u64(&buf, 0)),
            Err(e) => Err(e),
        }
    }

    /// Read `length` bytes starting at `offset` into a fresh `Vec<u8>`.
    fn read_bytes(&self, offset: u64, length: usize) -> (r: Result<Vec<u8>, DataSourceError>)
        ensures
            agrees(
                map_ok(r, |v: Vec<u8>| v@),
                spec_read(self.content(), offset, length as nat),
                self.read_model(),
            ),
            r matches Ok(v) ==> v@.len() == length,
    {
        let mut buf: Vec<u8> = vec![0u8; length];
        match self.read_exact(offset, buf.as_mut_slice()) {
            Ok(()) => Ok(buf),
            Err(e) => Err(e),
        }
    }

    /// Read a fixed-size byte array.
    fn read_array<const N: usize>(&self, offset: u64) -> (r: Result<[u8; N], DataSourceError>)
        ensures
            agrees(
                map_ok(r, |a: [u8; N]| a@),
                spec_read(self.content(), offset, N as nat),
                self.read_model(),
            ),
    {
        let mut buf: [u8; N] = vstd::array::array_fill_for_copy_types(0u8);
        match self.read_exact(offset, &mut buf) {
            Ok(()) => Ok(buf),
            Err(e) => Err(e),
        }
    }

    /// Read a fixed-length (possibly null-terminated) ASCII string: the
    /// reader reads `max_len` bytes and trims at the first `NUL`.
    /// Non-ASCII bytes go through `String::from_utf8_lossy`.
    fn read_ascii(&self, offset: u64, max_len: usize) -> (r: Result<String, DataSourceError>)
        ensures
            agrees(
                map_ok(r, |s: String| s@),
                map_ok(spec_read(self.content(), offset, max_len as nat), |b: Seq<u8>| ascii_text(b)),
                self.read_model(),
            ),
            r matches Ok(s) ==> no_nul_char(s@),
    {
        match self.read_bytes(offset, max_len) {
            Ok(raw) => {
                let mut end: usize = 0;
                while end < raw.len() && raw[end] != 0
                    invariant
                        end <= raw@.len(),
                        forall|j: int| 0 <= j < end ==> raw@[j] != 0,
                    decreases raw.len() - end,
                {
                    end = end + 1;
                }
                proof {
                    lemma_nul_trimmed_prefix(raw@, end as int);
                }
                let head = vstd::slice::slice_subrange(raw.as_slice(), 0, end);
                assert(no_zero_byte(head@));
                Ok(string_from_utf8_lossy(head))
            },
            Err(e) => Err(e),
        }
    }

    /// Read a null-terminated UTF-16LE string of at most `max_code_units`
    /// code units; parsing stops at the first `NUL` code unit.
    fn read_utf16(&self, offset: u64, max_code_units: usize) -> (r: Result<String, DataSourceError>)
        requires
            max_code_units <= usize::MAX / 2,
        ensures
            agrees(
                map_ok(r, |s: String| s@),
                map_ok(
                    spec_read(self.content(), offset, 2 * max_code_units as nat),
                    |b: Seq<u8>| utf16_text(b),
                ),
                self.read_model(),
            ),
            r matches Ok(s) ==> no_nul_char(s@),
    {
        match self.read_bytes(offset, max_code_units * 2) {
            Ok(raw) => {
                let mut units: Vec<u16> = Vec::new();
                let mut k: usize = 0;
                let ghost all = le_units(raw@);
                while k < max_code_units && get_u16(raw.as_slice(), 2 * k) != 0
                    invariant
                        raw@.len() == 2 * max_code_units,
                        max_code_units <= usize::MAX / 2,
                        all == le_units(raw@),
                        k <= max_code_units,
                        units@ == all.subrange(0, k as int),
                        forall|j: int| 0 <= j < k ==> all[j] != 0,
                    decreases max_code_units - k,
                {
                    let u = get_u16(raw.as_slice(), 2 * k);
                    units.push(u);
                    k = k + 1;
                    assert(units@ =~= all.subrange(0, k as int));
                }
                proof {
                    lemma_zero_trimmed_prefix(all, k as int);
                }
                assert(no_zero_unit(units@));
                Ok(string_from_utf16_lossy(units.as_slice()))
            },
            Err(e) => Err(e),
        }
    }

    /// `read_u16`, with the error dropped.
    fn checked_read_u16(&self, offset: u64) -> (r: Option<u16>)
        ensures
            agrees(
                match r { Some(v) => Ok(v), None => Err(()) },
                match spec_read(self.content(), offset, 2) {
                    Ok(b) => Ok(le_u16(b, 0)),
                    Err(_) => Err(()),
                },
                self.read_model(),
            ),
    {
        self.read_u16(offset).ok()
    }

    /// `read_u32`, with the error dropped.
    fn checked_read_u32(&self, offset: u64) -> (r: Option<u32>)
        ensures
            agrees(
                match r { Some(v) => Ok(v), None => Err(()) },
                match spec_read(self.content(), offset, 4) {
                    Ok(b) => Ok(le_u32(b, 0)),
                    Err(_) => Err(()),
                },
                self.read_model(),
            ),
    {
        self.read_u32(offset).ok()
    }

    /// `read_u64`, with the error dropped.
    fn checked_read_u64(&self, offset: u64) -> (r: Option<u64>)
        ensures
            agrees(
                match r { Some(v) => Ok(v), None => Err(()) },
                match spec_read(self.content(), offset, 8) {
                    Ok(b) => Ok(le_u64(b, 0)),
                    Err(_) => Err(()),
                },
                self.read_model(),
            ),
    {
        self.read_u64(offset).ok()
    }

    /// `read_bytes`, with the error dropped.
    fn checked_read_bytes(&self, offset: u64, length: usize) -> (r: Option<Vec<u8>>)
        ensures
            agrees(
                match r { Some(v) => Ok(v@), None => Err(()) },
                match spec_read(self.content(), offset, length as nat) {
                    Ok(b) => Ok(b),
                    Err(_) => Err(()),
                },
                self.read_model(),
            ),
    {
        self.read_bytes(offset, length).ok()
    }
}

// Blanket implementation: every DataSource also gets DataSourceExt.
impl<T: DataSource + ?Sized> DataSourceExt for T {}

} // verus!
