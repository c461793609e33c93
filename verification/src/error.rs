use vstd::prelude::*;

verus! {

/// Typed failure of a decode or conversion.
///
/// Encoding never fails; every decode returns one of these instead of
/// panicking, so malformed input is an expected, recoverable condition.
#[derive(Debug, Clone, Copy, PartialEq, Eq, Structural)]
pub enum Error {
    /// A tagged-union decode met a discriminant byte outside the known set.
    /// Carries the offending byte for diagnostics.
    UnknownDiscriminant(u8),
    /// Fewer bytes remain in the cursor than the decode requires.
    TruncatedInput,
    /// A buffer offered as a 256-bit hash is not exactly 32 bytes long.
    InvalidLength,
    /// A storage entry offered for hash decode is not the buffer variant.
    WrongEntryKind,
}

} // verus!
