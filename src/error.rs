use vstd::prelude::*;

verus! {

/// Why a buffer could not be turned into key or signature material, or why
/// the shared generator could not be used.
#[derive(Debug, Clone, Copy, PartialEq, Eq, Structural)]
pub enum KeyError {
    /// The buffer's length is neither of the two accepted encodings,
    /// `short` (compressed or canonical) and `long` (uncompressed or wide).
    InvalidLength { short: usize, long: usize, actual: usize },
    /// A buffer of the right length is not a point of the right subgroup.
    InvalidPoint,
    /// A 32-byte buffer holds a value not below the scalar field's order.
    InvalidScalar,
    /// The shared random generator could not be taken for exclusive use.
    LockUnavailable,
}

} // verus!
