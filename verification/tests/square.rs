use shogi_board::error::EncodingError;
use shogi_board::square::Square;

#[test]
fn coord_round_trip() {
    let mut seen = [false; 81];
    for file in 0u8..9 {
        for rank in 0u8..9 {
            let sq = Square::from_coord(file, rank).unwrap();
            assert_eq!(sq.file(), file);
            assert_eq!(sq.rank(), rank);
            let index = sq.index();
            assert_eq!(index, (file * 9 + rank) as usize);
            assert!(index < Square::COUNT);
            assert!(!seen[index], "index {} produced twice", index);
            seen[index] = true;
        }
    }
    assert!(seen.iter().all(|&s| s));
}

#[test]
fn coord_out_of_range() {
    for (file, rank) in [(9u8, 0u8), (0, 9), (9, 9), (255, 0), (0, 255)] {
        assert_eq!(
            Square::from_coord(file, rank),
            Err(EncodingError::InvalidCoordinate)
        );
    }
}

#[test]
fn square_text() {
    assert_eq!(Square::from_coord(0, 0).unwrap().to_text(), "SQ_11");
    assert_eq!(Square::from_coord(5, 4).unwrap().to_text(), "SQ_65");
    assert_eq!(Square::from_coord(8, 8).unwrap().to_text(), "SQ_99");
    assert_eq!(Square::from_coord(0, 8).unwrap().to_text(), "SQ_19");
}
