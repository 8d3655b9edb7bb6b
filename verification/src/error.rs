use vstd::prelude::*;

verus! {

/// A failure produced by one of the fallible constructors.
///
/// All three kinds mean "invalid input to a pure constructor": the inputs
/// are validated deterministically, so no failure is ever transient.
#[derive(Clone, Copy, Debug, PartialEq, Eq, Structural)]
pub enum EncodingError {
    /// A file or rank outside `[0, 9)` was passed to square construction.
    InvalidCoordinate,
    /// An integer outside `[0, 13]` was passed to piece-kind reconstruction.
    InvalidPieceKind,
    /// An integer outside `{0..=13, 16..=29}` was passed to piece
    /// reconstruction.
    InvalidPiece,
}

} // verus!
