use crate::text::{hex_prefixed, hex_string};
use vstd::prelude::*;

verus! {

/// A 32-bit or 64-bit unsigned address / size value, depending on the
/// PE kind. Used for fields like `ImageBase`, `SizeOfStackReserve`, ...
/// whose bit width is fixed by whether the image is PE32 or PE32+.
#[derive(Clone, Copy, Debug)]
pub enum ImageBase {
    U32(u32),
    U64(u64),
}

impl ImageBase {
    /// The value, zero-extended.
    pub open spec fn spec_as_u64(&self) -> u64 {
        match self {
            ImageBase::U32(v) => *v as u64,
            ImageBase::U64(v) => *v,
        }
    }

    /// Zero-extend the value to `u64`.
    #[verifier::when_used_as_spec(spec_as_u64)]
    pub fn as_u64(&self) -> (r: u64)
        ensures
            r == self.spec_as_u64(),
    {
        match self {
            ImageBase::U32(v) => *v as u64,
            ImageBase::U64(v) => *v,
        }
    }

    /// Format as `0x...` (16 hex digits, zero-padded).
    pub fn to_hex_string(&self) -> (r: String)
        ensures
            r@ == hex_prefixed(self.spec_as_u64() as nat, 16),
    {
        hex_string(self.as_u64(), 16)
    }
}

} // verus!
