use vstd::arithmetic::div_mod::lemma_fundamental_div_mod_converse;
use vstd::prelude::*;
use vstd::string::StringExecFns;

use crate::square::Square;

verus! {

/// All 81 board bits set: the mask `(1 << 81) - 1`.
pub const FULL_BITS: u128 = 0x1_FFFF_FFFF_FFFF_FFFF_FFFF;

/// The base rank pattern: one bit every 9 positions, at bit positions
/// 0, 9, 18, ..., 72 — the squares of rank 0.
pub const RANK_PATTERN: u128 = 0x1_0080_4020_1008_0402_01;

/// Whether bit `i` of `bits` is set.
pub open spec fn bit_set(bits: u128, i: int) -> bool
    recommends
        0 <= i < 128,
{
    (bits >> (i as u128)) & 1u128 == 1u128
}

/// The number of set bits of `bits` at positions below `n`.
pub open spec fn popcount_below(bits: u128, n: nat) -> nat
    decreases n,
{
    if n == 0 {
        0
    } else {
        popcount_below(bits, (n - 1) as nat) + if bit_set(bits, n - 1) {
            1nat
        } else {
            0nat
        }
    }
}

/// The number of set bits of `bits`.
pub open spec fn popcount(bits: u128) -> nat {
    popcount_below(bits, 128)
}

/// The bits of the singleton set holding only the square with index `i`.
pub open spec fn single_bits(i: int) -> u128
    recommends
        0 <= i < 81,
{
    1u128 << (i as u128)
}

/// The bits of the set of all squares on file `file`: a contiguous run
/// of 9 bits, `0x1FF << (9 * file)`.
pub open spec fn file_bits(file: int) -> u128
    recommends
        0 <= file < 9,
{
    0x1FFu128 << ((9 * file) as u128)
}

/// The bits of the set of all squares on rank `rank`: the strided base
/// pattern shifted left by `rank`.
pub open spec fn rank_bits(rank: int) -> u128
    recommends
        0 <= rank < 9,
{
    RANK_PATTERN << (rank as u128)
}

/// An 81-bit set of squares packed into one `u128`.
///
/// Bit `i` is set exactly when the square with linear index `i` (that
/// is, `file * 9 + rank`) is a member, so a file is a contiguous run of
/// 9 bits while a rank is a strided pattern of one bit every 9
/// positions. Bits 81 and above are zero in every constructed value.
#[derive(Clone, Copy, Debug, PartialEq, Eq, Structural)]
pub struct Bitboard(u128);

impl View for Bitboard {
    type V = u128;

    /// The packed bits of the set.
    closed spec fn view(&self) -> u128 {
        self.0
    }
}

/// The character at position `k` of the rendered board text: lines of
/// nine cells followed by a line break, one line per rank from rank 0
/// down, cells within a line running from file 8 down to file 0.
pub open spec fn board_char(bits: u128, k: int) -> char
    recommends
        0 <= k < 90,
{
    if k % 10 == 9 {
        '\n'
    } else if bit_set(bits, (8 - k % 10) * 9 + k / 10) {
        '1'
    } else {
        '0'
    }
}

/// The rendered board text of `bits`: nine lines of nine `'1'`/`'0'`
/// cells, each line closed by a line break.
pub open spec fn board_text(bits: u128) -> Seq<char> {
    Seq::new(90, |k: int| board_char(bits, k))
}

impl Bitboard {
    #[verifier::type_invariant]
    spec fn wf(self) -> bool {
        self.0 <= FULL_BITS
    }

    /// The set with no members.
    pub fn empty() -> (r: Bitboard)
        ensures
            r@ == 0,
    {
        Bitboard(0)
    }

    /// The set of all 81 squares.
    pub fn full() -> (r: Bitboard)
        ensures
            r@ == FULL_BITS,
    {
        Bitboard(FULL_BITS)
    }

    /// The singleton set holding only `sq`.
    pub fn from_square(sq: Square) -> (r: Bitboard)
        ensures
            r@ == single_bits(sq@),
    {
        let idx = sq.index();
        let bits = 1u128 << (idx as u128);
        proof {
            lemma_single_bits_bounded(idx as u128);
        }
        Bitboard(bits)
    }

    /// The set of all squares on `file`.
    pub fn file_mask(file: u8) -> (r: Bitboard)
        requires
            file < 9,
        ensures
            r@ == file_bits(file as int),
    {
        let bits = 0x1FFu128 << (9 * (file as u128));
        proof {
            lemma_file_bits_bounded(file as u128);
        }
        Bitboard(bits)
    }

    /// The set of all squares on `rank`.
    pub fn rank_mask(rank: u8) -> (r: Bitboard)
        requires
            rank < 9,
        ensures
            r@ == rank_bits(rank as int),
    {
        let bits = RANK_PATTERN << (rank as u128);
        proof {
            lemma_rank_bits_bounded(rank as u128);
        }
        Bitboard(bits)
    }

    /// The number of member squares.
    pub fn count(&self) -> (r: u32)
        ensures
            r == popcount(self@),
    {
        let bits = self.0;
        let mut n: u32 = 0;
        let mut i: u32 = 0;
        while i < 128
            invariant
                i <= 128,
                n <= i,
                n == popcount_below(bits, i as nat),
            decreases 128 - i,
        {
            if (bits >> (i as u128)) & 1u128 == 1u128 {
                n = n + 1;
            }
            i = i + 1;
        }
        n
    }

    /// Whether the set has no members.
    pub fn is_empty(&self) -> (r: bool)
        ensures
            r == (self@ == 0),
    {
        self.0 == 0
    }

    /// Whether the set has at least one member.
    pub fn is_any(&self) -> (r: bool)
        ensures
            r == (self@ != 0),
    {
        self.0 != 0
    }

    /// The intersection of the two sets; neither operand changes.
    pub fn bitand(&self, rhs: &Bitboard) -> (r: Bitboard)
        ensures
            r@ == self@ & rhs@,
    {
        proof {
            use_type_invariant(*self);
            use_type_invariant(*rhs);
            lemma_bits_ops_bounded(self.0, rhs.0);
        }
        Bitboard(self.0 & rhs.0)
    }

    /// The union of the two sets; neither operand changes.
    pub fn bitor(&self, rhs: &Bitboard) -> (r: Bitboard)
        ensures
            r@ == self@ | rhs@,
    {
        proof {
            use_type_invariant(*self);
            use_type_invariant(*rhs);
            lemma_bits_ops_bounded(self.0, rhs.0);
        }
        Bitboard(self.0 | rhs.0)
    }

    /// The symmetric difference of the two sets; neither operand
    /// changes.
    pub fn bitxor(&self, rhs: &Bitboard) -> (r: Bitboard)
        ensures
            r@ == self@ ^ rhs@,
    {
        proof {
            use_type_invariant(*self);
            use_type_invariant(*rhs);
            lemma_bits_ops_bounded(self.0, rhs.0);
        }
        Bitboard(self.0 ^ rhs.0)
    }

    /// The complement within the 81-square board: every square not in
    /// the set, with bits 81 and above left clear.
    pub fn complement(&self) -> (r: Bitboard)
        ensures
            r@ == !self@ & FULL_BITS,
    {
        proof {
            lemma_bits_mask_bounded(!self.0);
        }
        Bitboard(!self.0 & FULL_BITS)
    }

    /// Renders the set as text: nine lines, one per rank from rank 0
    /// down; within a line, files run from file 8 down to file 0, with
    /// `'1'` for a member square and `'0'` otherwise, and a line break
    /// closing every line.
    pub fn to_text(&self) -> (s: String)
        ensures
            s@ == board_text(self@),
    {
        let bits = self.0;
        let mut s = String::new();
        let mut rank: usize = 0;
        while rank < 9
            invariant
                rank <= 9,
                bits == self@,
                s@ == board_text(bits).take(10 * rank as int),
            decreases 9 - rank,
        {
            let mut step: usize = 0;
            while step < 9
                invariant
                    rank < 9,
                    step <= 9,
                    bits == self@,
                    s@ == board_text(bits).take(10 * rank as int + step as int),
                decreases 9 - step,
            {
                let ghost k: int = 10 * rank as int + step as int;
                let file = 8 - step;
                let idx = file * 9 + rank;
                if (bits >> (idx as u128)) & 1u128 == 1u128 {
                    s.append("1");
                } else {
                    s.append("0");
                }
                proof {
                    reveal_strlit("1");
                    reveal_strlit("0");
                    lemma_fundamental_div_mod_converse(k, 10, rank as int, step as int);
                    assert(board_text(bits)[k] == board_char(bits, k));
                    assert(board_text(bits).take(k + 1) =~= board_text(bits).take(k).push(
                        board_char(bits, k),
                    ));
                    assert(s@ =~= board_text(bits).take(k + 1));
                }
                step = step + 1;
            }
            s.append("\n");
            proof {
                let ghost k: int = 10 * rank as int + 9;
                reveal_strlit("\n");
                lemma_fundamental_div_mod_converse(k, 10, rank as int, 9);
                assert(board_text(bits)[k] == board_char(bits, k));
                assert(board_text(bits).take(k + 1) =~= board_text(bits).take(k).push(
                    board_char(bits, k),
                ));
                assert(s@ =~= board_text(bits).take(k + 1));
            }
            rank = rank + 1;
        }
        proof {
            assert(s@ =~= board_text(bits));
        }
        s
    }
}

proof fn lemma_bits_ops_bounded(a: u128, b: u128)
    by (bit_vector)
    requires
        a <= 0x1_FFFF_FFFF_FFFF_FFFF_FFFFu128,
        b <= 0x1_FFFF_FFFF_FFFF_FFFF_FFFFu128,
    ensures
        (a & b) <= 0x1_FFFF_FFFF_FFFF_FFFF_FFFFu128,
        (a | b) <= 0x1_FFFF_FFFF_FFFF_FFFF_FFFFu128,
        (a ^ b) <= 0x1_FFFF_FFFF_FFFF_FFFF_FFFFu128,
{
}

proof fn lemma_bits_mask_bounded(a: u128)
    by (bit_vector)
    ensures
        (a & 0x1_FFFF_FFFF_FFFF_FFFF_FFFFu128) <= 0x1_FFFF_FFFF_FFFF_FFFF_FFFFu128,
{
}

proof fn lemma_single_bits_bounded(i: u128)
    by (bit_vector)
    requires
        i < 81,
    ensures
        (1u128 << i) <= 0x1_FFFF_FFFF_FFFF_FFFF_FFFFu128,
{
}

proof fn lemma_file_bits_bounded(file: u128)
    by (bit_vector)
    requires
        file < 9,
    ensures
        (0x1FFu128 << (9 * file)) <= 0x1_FFFF_FFFF_FFFF_FFFF_FFFFu128,
{
}

proof fn lemma_rank_bits_bounded(rank: u128)
    by (bit_vector)
    requires
        rank < 9,
    ensures
        (0x1_0080_4020_1008_0402_01u128 << rank) <= 0x1_FFFF_FFFF_FFFF_FFFF_FFFFu128,
{
}

proof fn lemma_single_bit_test(i: u128, j: u128)
    by (bit_vector)
    requires
        i < 128,
        j < 128,
    ensures
        (((1u128 << i) >> j) & 1u128 == 1u128) <==> i == j,
{
}

proof fn lemma_full_bit_test(j: u128)
    by (bit_vector)
    requires
        j < 128,
    ensures
        ((0x1_FFFF_FFFF_FFFF_FFFF_FFFFu128 >> j) & 1u128 == 1u128) <==> j < 81,
{
}

proof fn lemma_popcount_below_single(i: int, n: nat)
    requires
        0 <= i < 128,
        n <= 128,
    ensures
        popcount_below(single_bits(i), n) == if i < n {
            1nat
        } else {
            0nat
        },
    decreases n,
{
    if n > 0 {
        lemma_popcount_below_single(i, (n - 1) as nat);
        lemma_single_bit_test(i as u128, (n - 1) as u128);
    }
}

proof fn lemma_popcount_below_zero(n: nat)
    requires
        n <= 128,
    ensures
        popcount_below(0u128, n) == 0,
    decreases n,
{
    if n > 0 {
        lemma_popcount_below_zero((n - 1) as nat);
        let j = (n - 1) as u128;
        assert((0u128 >> j) & 1u128 != 1u128) by (bit_vector);
    }
}

proof fn lemma_popcount_below_full(n: nat)
    requires
        n <= 128,
    ensures
        popcount_below(FULL_BITS, n) == if n <= 81 {
            n
        } else {
            81nat
        },
    decreases n,
{
    if n > 0 {
        lemma_popcount_below_full((n - 1) as nat);
        lemma_full_bit_test((n - 1) as u128);
    }
}

/// Law: the singleton set for a square index holds exactly one member,
/// and its one set bit is at that index.
pub proof fn lemma_singleton_popcount(i: int)
    requires
        0 <= i < 81,
    ensures
        popcount(single_bits(i)) == 1,
        bit_set(single_bits(i), i),
        forall|j: int| 0 <= j < 128 && j != i ==> !bit_set(single_bits(i), j),
{
    lemma_popcount_below_single(i, 128);
    lemma_single_bit_test(i as u128, i as u128);
    assert forall|j: int| 0 <= j < 128 && j != i implies !bit_set(single_bits(i), j) by {
        lemma_single_bit_test(i as u128, j as u128);
    }
}

/// Law: the empty set has no members and the full set has all 81.
pub proof fn lemma_empty_full_popcount()
    ensures
        popcount(0u128) == 0,
        popcount(FULL_BITS) == 81,
{
    lemma_popcount_below_zero(128);
    lemma_popcount_below_full(128);
}

/// Law: a file mask holds exactly the squares of its file — bit `i` is
/// set exactly when index `i` lies on the file.
pub proof fn lemma_file_mask_bit(file: int, i: int)
    requires
        0 <= file < 9,
        0 <= i < 81,
    ensures
        bit_set(file_bits(file), i) <==> i / 9 == file,
{
    let fu = file as u128;
    let iu = i as u128;
    assert((((0x1FFu128 << (9 * fu)) >> iu) & 1u128 == 1u128) <==> iu / 9 == fu) by (bit_vector)
        requires
            fu < 9,
            iu < 81,
    ;
}

/// Law: a rank mask holds exactly the squares of its rank — bit `i` is
/// set exactly when index `i` lies on the rank.
pub proof fn lemma_rank_mask_bit(rank: int, i: int)
    requires
        0 <= rank < 9,
        0 <= i < 81,
    ensures
        bit_set(rank_bits(rank), i) <==> i % 9 == rank,
{
    let ru = rank as u128;
    let iu = i as u128;
    assert((((0x1_0080_4020_1008_0402_01u128 << ru) >> iu) & 1u128 == 1u128) <==> iu % 9 == ru)
        by (bit_vector)
        requires
            ru < 9,
            iu < 81,
    ;
}

/// Law: distinct file masks share no square.
pub proof fn lemma_file_masks_disjoint(i: int, j: int)
    requires
        0 <= i < 9,
        0 <= j < 9,
        i != j,
    ensures
        file_bits(i) & file_bits(j) == 0,
{
    let iu = i as u128;
    let ju = j as u128;
    assert((0x1FFu128 << (9 * iu)) & (0x1FFu128 << (9 * ju)) == 0) by (bit_vector)
        requires
            iu < 9,
            ju < 9,
            iu != ju,
    ;
}

/// Law: the nine file masks together cover the whole board.
pub proof fn lemma_file_masks_cover()
    ensures
        file_bits(0) | file_bits(1) | file_bits(2) | file_bits(3) | file_bits(4) | file_bits(5)
            | file_bits(6) | file_bits(7) | file_bits(8) == FULL_BITS,
{
    assert((0x1FFu128 << 0) | (0x1FFu128 << 9) | (0x1FFu128 << 18) | (0x1FFu128 << 27) | (
    0x1FFu128 << 36) | (0x1FFu128 << 45) | (0x1FFu128 << 54) | (0x1FFu128 << 63) | (0x1FFu128
        << 72) == 0x1_FFFF_FFFF_FFFF_FFFF_FFFFu128) by (bit_vector);
}

/// Law: distinct rank masks share no square.
pub proof fn lemma_rank_masks_disjoint(i: int, j: int)
    requires
        0 <= i < 9,
        0 <= j < 9,
        i != j,
    ensures
        rank_bits(i) & rank_bits(j) == 0,
{
    let iu = i as u128;
    let ju = j as u128;
    assert((0x1_0080_4020_1008_0402_01u128 << iu) & (0x1_0080_4020_1008_0402_01u128 << ju) == 0)
        by (bit_vector)
        requires
            iu < 9,
            ju < 9,
            iu != ju,
    ;
}

/// Law: the nine rank masks together cover the whole board.
pub proof fn lemma_rank_masks_cover()
    ensures
        rank_bits(0) | rank_bits(1) | rank_bits(2) | rank_bits(3) | rank_bits(4) | rank_bits(5)
            | rank_bits(6) | rank_bits(7) | rank_bits(8) == FULL_BITS,
{
    assert((0x1_0080_4020_1008_0402_01u128 << 0) | (0x1_0080_4020_1008_0402_01u128 << 1) | (
    0x1_0080_4020_1008_0402_01u128 << 2) | (0x1_0080_4020_1008_0402_01u128 << 3) | (
    0x1_0080_4020_1008_0402_01u128 << 4) | (0x1_0080_4020_1008_0402_01u128 << 5) | (
    0x1_0080_4020_1008_0402_01u128 << 6) | (0x1_0080_4020_1008_0402_01u128 << 7) | (
    0x1_0080_4020_1008_0402_01u128 << 8) == 0x1_FFFF_FFFF_FFFF_FFFF_FFFFu128) by (bit_vector);
}

} // verus!
