use vstd::prelude::*;

verus! {

/// What went wrong while decoding, locating, injecting or encoding.
#[derive(Clone, Copy, Debug, PartialEq, Eq, Structural)]
pub enum InjectorError {
    /// Reading or writing a file failed.
    Io,
    /// Malformed hex text, a decompression bomb or a malformed container.
    Decode,
    /// An export, an import or a code-section entry is absent.
    NotFound,
    /// The named export refers to an imported function, which has no body.
    InvalidTarget,
    /// A fault parameter is missing, or given where the fault takes none.
    Config,
    /// The module could not be serialized or compressed.
    Encode,
}

} // verus!
