use vstd::arithmetic::div_mod::lemma_fundamental_div_mod_converse;
use vstd::prelude::*;
use vstd::string::StringExecFns;

use crate::error::EncodingError;

verus! {

/// A square on a 9x9 Shogi board.
///
/// Each square has a `file` (horizontal coordinate, 0-based, displayed
/// 1-based from the right) and a `rank` (vertical coordinate, 0-based,
/// displayed 1-based from the top). A square is stored as the linear
/// index `file * 9 + rank`, which is always in `[0, 81)`; that index is
/// also the bit position the square occupies in a `Bitboard`.
#[derive(Clone, Copy, PartialEq, Eq, Hash, Debug, Structural)]
pub struct Square(u8);

impl View for Square {
    type V = int;

    /// The linear index `file * 9 + rank` of the square.
    closed spec fn view(&self) -> int {
        self.0 as int
    }
}

/// The character displayed for the 1-based coordinate digit `d`.
pub open spec fn coordinate_digit(d: int) -> char {
    if d == 1 {
        '1'
    } else if d == 2 {
        '2'
    } else if d == 3 {
        '3'
    } else if d == 4 {
        '4'
    } else if d == 5 {
        '5'
    } else if d == 6 {
        '6'
    } else if d == 7 {
        '7'
    } else if d == 8 {
        '8'
    } else {
        '9'
    }
}

/// The debug text of the square with linear index `i`: `SQ_` followed by
/// the 1-based file digit and the 1-based rank digit.
pub open spec fn square_text(i: int) -> Seq<char> {
    seq!['S', 'Q', '_', coordinate_digit(i / 9 + 1), coordinate_digit(i % 9 + 1)]
}

impl Square {
    /// The number of squares on the board.
    pub const COUNT: usize = 81;

    #[verifier::type_invariant]
    spec fn wf(self) -> bool {
        self.0 < 81
    }

    /// Builds the square at `(file, rank)`; both coordinates must lie in
    /// `[0, 9)`, anything else is an `InvalidCoordinate` failure.
    pub fn from_coord(file: u8, rank: u8) -> (r: Result<Square, EncodingError>)
        ensures
            file < 9 && rank < 9 ==> (r matches Ok(sq) && sq@ == file * 9 + rank),
            !(file < 9 && rank < 9) ==> r == Err::<Square, EncodingError>(
                EncodingError::InvalidCoordinate,
            ),
    {
        if file < 9 && rank < 9 {
            Ok(Square(file * 9 + rank))
        } else {
            Err(EncodingError::InvalidCoordinate)
        }
    }

    /// The 0-based file of the square.
    pub fn file(&self) -> (r: u8)
        ensures
            r == self@ / 9,
            r < 9,
    {
        proof {
            use_type_invariant(*self);
        }
        self.0 / 9
    }

    /// The 0-based rank of the square.
    pub fn rank(&self) -> (r: u8)
        ensures
            r == self@ % 9,
            r < 9,
    {
        proof {
            use_type_invariant(*self);
        }
        self.0 % 9
    }

    /// The linear index used for bit addressing, always in `[0, 81)`.
    pub fn index(&self) -> (r: usize)
        ensures
            r == self@,
            r < 81,
    {
        proof {
            use_type_invariant(*self);
        }
        self.0 as usize
    }

    /// The debug text of the square, e.g. `SQ_11` for index 0.
    pub fn to_text(&self) -> (s: String)
        ensures
            s@ == square_text(self@),
    {
        let f = self.file();
        let r = self.rank();
        let mut s = String::from_str("SQ_");
        s.append(coordinate_digit_str(f + 1));
        s.append(coordinate_digit_str(r + 1));
        proof {
            reveal_strlit("SQ_");
            assert(s@ =~= square_text(self@));
        }
        s
    }
}

/// The one-character string for the 1-based coordinate digit `d`.
fn coordinate_digit_str(d: u8) -> (s: &'static str)
    requires
        1 <= d <= 9,
    ensures
        s@ == seq![coordinate_digit(d as int)],
{
    proof {
        reveal_strlit("1");
        reveal_strlit("2");
        reveal_strlit("3");
        reveal_strlit("4");
        reveal_strlit("5");
        reveal_strlit("6");
        reveal_strlit("7");
        reveal_strlit("8");
        reveal_strlit("9");
    }
    let s: &'static str = match d {
        1 => "1",
        2 => "2",
        3 => "3",
        4 => "4",
        5 => "5",
        6 => "6",
        7 => "7",
        8 => "8",
        _ => "9",
    };
    proof {
        assert(s@ =~= seq![coordinate_digit(d as int)]);
    }
    s
}

/// Law: the coordinate-to-index mapping is a bijection between the 81
/// pairs `(file, rank)` with both coordinates in `[0, 9)` and the 81
/// indices in `[0, 81)`; `file` and `rank` recover exactly the
/// coordinates the index was built from.
pub proof fn lemma_coord_index_round_trip(file: int, rank: int)
    requires
        0 <= file < 9,
        0 <= rank < 9,
    ensures
        0 <= file * 9 + rank < 81,
        (file * 9 + rank) / 9 == file,
        (file * 9 + rank) % 9 == rank,
{
    lemma_fundamental_div_mod_converse(file * 9 + rank, 9, file, rank);
}

/// Law: distinct coordinate pairs map to distinct indices.
pub proof fn lemma_coord_index_injective(f1: int, r1: int, f2: int, r2: int)
    requires
        0 <= f1 < 9,
        0 <= r1 < 9,
        0 <= f2 < 9,
        0 <= r2 < 9,
        f1 * 9 + r1 == f2 * 9 + r2,
    ensures
        f1 == f2,
        r1 == r2,
{
    lemma_coord_index_round_trip(f1, r1);
    lemma_coord_index_round_trip(f2, r2);
}

} // verus!
