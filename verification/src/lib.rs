//! Board-representation primitives for a 9x9 Shogi-like game:
//! square addressing, an 81-bit set of squares, and a bit-packed
//! piece identity with promotion semantics.

pub mod bitboard;
pub mod error;
pub mod piece;
pub mod square;
