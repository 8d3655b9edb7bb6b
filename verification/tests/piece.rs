use shogi_board::error::EncodingError;
use shogi_board::piece::{Color, Piece, PieceKind};

const ALL_KINDS: [PieceKind; 14] = [
    PieceKind::Pawn,
    PieceKind::Lance,
    PieceKind::Knight,
    PieceKind::Silver,
    PieceKind::Bishop,
    PieceKind::Rook,
    PieceKind::Gold,
    PieceKind::King,
    PieceKind::ProPawn,
    PieceKind::ProLance,
    PieceKind::ProKnight,
    PieceKind::ProSilver,
    PieceKind::Horse,
    PieceKind::Dragon,
];

#[test]
fn new() {
    for color in [Color::Black, Color::White] {
        for piece_kind in 0..PieceKind::COUNT as u8 {
            let piece_kind = PieceKind::from_value(piece_kind).unwrap();
            let piece = Piece::new(color, piece_kind);

            assert_eq!(piece.kind(), piece_kind);
            assert_eq!(piece.color(), color);
        }
    }
}

#[test]
fn color() {
    for color in [Color::Black, Color::White] {
        for piece_kind in 0..PieceKind::COUNT as u8 {
            let piece_kind = PieceKind::from_value(piece_kind).unwrap();
            let piece = Piece::new(color, piece_kind);

            match color {
                Color::Black => {
                    assert!(piece.is_black());
                    assert!(!piece.is_white());
                    assert_eq!(piece.color(), Color::Black);
                }
                Color::White => {
                    assert!(!piece.is_black());
                    assert!(piece.is_white());
                    assert_eq!(piece.color(), Color::White);
                }
            }
        }
    }
}

#[test]
fn kind_value_round_trip() {
    for (i, kind) in ALL_KINDS.iter().enumerate() {
        assert_eq!(kind.value(), i as u8);
        assert_eq!(PieceKind::from_value(i as u8), Ok(*kind));
    }
}

#[test]
fn kind_from_value_out_of_range() {
    for value in [14u8, 15, 16, 100, 255] {
        assert_eq!(
            PieceKind::from_value(value),
            Err(EncodingError::InvalidPieceKind)
        );
    }
}

#[test]
fn kind_promote() {
    assert_eq!(PieceKind::Pawn.promote(), Some(PieceKind::ProPawn));
    assert_eq!(PieceKind::Lance.promote(), Some(PieceKind::ProLance));
    assert_eq!(PieceKind::Knight.promote(), Some(PieceKind::ProKnight));
    assert_eq!(PieceKind::Silver.promote(), Some(PieceKind::ProSilver));
    assert_eq!(PieceKind::Bishop.promote(), Some(PieceKind::Horse));
    assert_eq!(PieceKind::Rook.promote(), Some(PieceKind::Dragon));
    assert_eq!(PieceKind::Gold.promote(), None);
    assert_eq!(PieceKind::King.promote(), None);
    assert_eq!(PieceKind::ProPawn.promote(), None);
    assert_eq!(PieceKind::ProLance.promote(), None);
    assert_eq!(PieceKind::ProKnight.promote(), None);
    assert_eq!(PieceKind::ProSilver.promote(), None);
    assert_eq!(PieceKind::Horse.promote(), None);
    assert_eq!(PieceKind::Dragon.promote(), None);
}

#[test]
fn kind_is_promoted() {
    for kind in ALL_KINDS.iter() {
        assert_eq!(kind.is_promoted(), kind.value() >= 8);
    }
    assert!(!PieceKind::Pawn.is_promoted());
    assert!(PieceKind::ProPawn.is_promoted());
    assert!(!PieceKind::Gold.is_promoted());
    assert!(PieceKind::Dragon.is_promoted());
}

#[test]
fn piece_promote() {
    let cases: [(Piece, bool, Option<Piece>); 28] = [
        (Piece::BPawn, false, Some(Piece::BProPawn)),
        (Piece::BLance, false, Some(Piece::BProLance)),
        (Piece::BKnight, false, Some(Piece::BProKnight)),
        (Piece::BSilver, false, Some(Piece::BProSilver)),
        (Piece::BBishop, false, Some(Piece::BHorse)),
        (Piece::BRook, false, Some(Piece::BDragon)),
        (Piece::BGold, false, None),
        (Piece::BKing, false, None),
        (Piece::BProPawn, true, None),
        (Piece::BProLance, true, None),
        (Piece::BProKnight, true, None),
        (Piece::BProSilver, true, None),
        (Piece::BHorse, true, None),
        (Piece::BDragon, true, None),
        (Piece::WPawn, false, Some(Piece::WProPawn)),
        (Piece::WLance, false, Some(Piece::WProLance)),
        (Piece::WKnight, false, Some(Piece::WProKnight)),
        (Piece::WSilver, false, Some(Piece::WProSilver)),
        (Piece::WBishop, false, Some(Piece::WHorse)),
        (Piece::WRook, false, Some(Piece::WDragon)),
        (Piece::WGold, false, None),
        (Piece::WKing, false, None),
        (Piece::WProPawn, true, None),
        (Piece::WProLance, true, None),
        (Piece::WProKnight, true, None),
        (Piece::WProSilver, true, None),
        (Piece::WHorse, true, None),
        (Piece::WDragon, true, None),
    ];
    for (piece, is_promoted, promoted_piece) in cases.iter() {
        assert_eq!(piece.is_promoted(), *is_promoted);
        assert_eq!(piece.promote(), *promoted_piece);

        assert_eq!(piece.kind().is_promoted(), *is_promoted);
        assert_eq!(piece.kind().promote(), promoted_piece.map(|p| p.kind()));
    }
}

#[test]
fn piece_value_round_trip() {
    for value in 0u8..=13 {
        let piece = Piece::from_value(value).unwrap();
        assert_eq!(piece.value(), value);
        assert!(piece.is_black());
    }
    for value in 16u8..=29 {
        let piece = Piece::from_value(value).unwrap();
        assert_eq!(piece.value(), value);
        assert!(piece.is_white());
    }
}

#[test]
fn piece_from_value_out_of_range() {
    for value in [14u8, 15, 30, 31, 100, 255] {
        assert_eq!(Piece::from_value(value), Err(EncodingError::InvalidPiece));
    }
}

#[test]
fn piece_packing() {
    assert_eq!(Piece::new(Color::Black, PieceKind::Pawn), Piece::BPawn);
    assert_eq!(Piece::new(Color::White, PieceKind::Pawn), Piece::WPawn);
    assert_eq!(Piece::new(Color::Black, PieceKind::Dragon), Piece::BDragon);
    assert_eq!(Piece::new(Color::White, PieceKind::Dragon), Piece::WDragon);
    assert_eq!(Piece::new(Color::White, PieceKind::Pawn).value(), 16);
    assert_eq!(Piece::new(Color::Black, PieceKind::King).value(), 7);
    assert_eq!(Piece::new(Color::White, PieceKind::Dragon).value(), 29);
}
