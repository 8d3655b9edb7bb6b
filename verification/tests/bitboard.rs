use shogi_board::bitboard::Bitboard;
use shogi_board::square::Square;

fn square(file: u8, rank: u8) -> Square {
    Square::from_coord(file, rank).unwrap()
}

#[test]
fn empty_and_full_counts() {
    assert_eq!(Bitboard::empty().count(), 0);
    assert_eq!(Bitboard::full().count(), 81);
    assert!(Bitboard::empty().is_empty());
    assert!(!Bitboard::empty().is_any());
    assert!(!Bitboard::full().is_empty());
    assert!(Bitboard::full().is_any());
}

#[test]
fn singleton_counts() {
    for file in 0u8..9 {
        for rank in 0u8..9 {
            let bb = Bitboard::from_square(square(file, rank));
            assert_eq!(bb.count(), 1);
            assert!(bb.is_any());
        }
    }
}

#[test]
fn singletons_distinct() {
    for i in 0u8..81 {
        for j in 0u8..81 {
            let a = Bitboard::from_square(square(i / 9, i % 9));
            let b = Bitboard::from_square(square(j / 9, j % 9));
            if i == j {
                assert_eq!(a, b);
                assert_eq!(a.bitand(&b).count(), 1);
            } else {
                assert_ne!(a, b);
                assert!(a.bitand(&b).is_empty());
            }
        }
    }
}

#[test]
fn singleton_bit_position() {
    // The one set bit of a singleton sits at the square's index: the
    // cell for (file, rank) in the rendered text is '1', all others '0'.
    for file in 0u8..9 {
        for rank in 0u8..9 {
            let text = Bitboard::from_square(square(file, rank)).to_text();
            for (line_no, line) in text.lines().enumerate() {
                for (col, cell) in line.chars().enumerate() {
                    let expected = line_no == rank as usize && col == (8 - file) as usize;
                    assert_eq!(cell == '1', expected);
                }
            }
        }
    }
}

#[test]
fn file_masks_partition_board() {
    let mut union = Bitboard::empty();
    for i in 0u8..9 {
        for j in 0u8..9 {
            let a = Bitboard::file_mask(i);
            let b = Bitboard::file_mask(j);
            if i != j {
                assert!(a.bitand(&b).is_empty());
            }
        }
        assert_eq!(Bitboard::file_mask(i).count(), 9);
        union = union.bitor(&Bitboard::file_mask(i));
    }
    assert_eq!(union, Bitboard::full());
}

#[test]
fn rank_masks_partition_board() {
    let mut union = Bitboard::empty();
    for i in 0u8..9 {
        for j in 0u8..9 {
            let a = Bitboard::rank_mask(i);
            let b = Bitboard::rank_mask(j);
            if i != j {
                assert!(a.bitand(&b).is_empty());
            }
        }
        assert_eq!(Bitboard::rank_mask(i).count(), 9);
        union = union.bitor(&Bitboard::rank_mask(i));
    }
    assert_eq!(union, Bitboard::full());
}

#[test]
fn file_and_rank_meet_in_one_square() {
    for file in 0u8..9 {
        for rank in 0u8..9 {
            let meet = Bitboard::file_mask(file).bitand(&Bitboard::rank_mask(rank));
            assert_eq!(meet, Bitboard::from_square(square(file, rank)));
            assert_eq!(meet.count(), 1);
        }
    }
}

#[test]
fn set_operations() {
    let a = Bitboard::file_mask(3);
    let b = Bitboard::rank_mask(5);
    assert_eq!(a.bitxor(&a), Bitboard::empty());
    assert_eq!(a.bitor(&a), a);
    assert_eq!(a.bitand(&a), a);
    assert_eq!(a.bitxor(&b).count(), 16);
    assert_eq!(a.bitor(&b).count(), 17);
    assert_eq!(a.bitand(&b).count(), 1);
    assert_eq!(a.complement().count(), 72);
    assert_eq!(a.complement().bitand(&a), Bitboard::empty());
    assert_eq!(a.complement().bitor(&a), Bitboard::full());
    assert_eq!(Bitboard::empty().complement(), Bitboard::full());
    assert_eq!(Bitboard::full().complement(), Bitboard::empty());
}

#[test]
fn to_string() {
    let cases: [(Bitboard, &str); 6] = [
        (
            Bitboard::empty(),
            "000000000\n\
             000000000\n\
             000000000\n\
             000000000\n\
             000000000\n\
             000000000\n\
             000000000\n\
             000000000\n\
             000000000\n",
        ),
        (
            Bitboard::full(),
            "111111111\n\
             111111111\n\
             111111111\n\
             111111111\n\
             111111111\n\
             111111111\n\
             111111111\n\
             111111111\n\
             111111111\n",
        ),
        (
            Bitboard::file_mask(7),
            "010000000\n\
             010000000\n\
             010000000\n\
             010000000\n\
             010000000\n\
             010000000\n\
             010000000\n\
             010000000\n\
             010000000\n",
        ),
        (
            Bitboard::rank_mask(2),
            "000000000\n\
             000000000\n\
             111111111\n\
             000000000\n\
             000000000\n\
             000000000\n\
             000000000\n\
             000000000\n\
             000000000\n",
        ),
        (
            Bitboard::from_square(square(0, 0)),
            "000000001\n\
             000000000\n\
             000000000\n\
             000000000\n\
             000000000\n\
             000000000\n\
             000000000\n\
             000000000\n\
             000000000\n",
        ),
        (
            Bitboard::from_square(square(5, 4)),
            "000000000\n\
             000000000\n\
             000000000\n\
             000000000\n\
             000100000\n\
             000000000\n\
             000000000\n\
             000000000\n\
             000000000\n",
        ),
    ];
    for (bb, expected) in cases.iter() {
        assert_eq!(bb.to_text(), *expected);
    }
}
