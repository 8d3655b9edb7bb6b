use vstd::prelude::*;

use crate::error::EncodingError;

verus! {

/// The distinct piece kinds of Shogi: the 8 base kinds followed by the
/// 6 promoted forms. Gold and King have no promoted form.
///
/// Every kind has a packed integer value (see [`PieceKind::value`]): the
/// base kinds take 0 through 7 in declaration order, and a promoted form
/// takes its base kind's value with the promotion bit (value 8) added,
/// so the promoted forms take 8 through 13.
#[derive(Clone, Copy, Debug, PartialEq, Eq, Structural)]
pub enum PieceKind {
    Pawn,
    Lance,
    Knight,
    Silver,
    Bishop,
    Rook,
    Gold,
    King,
    ProPawn,
    ProLance,
    ProKnight,
    ProSilver,
    Horse,
    Dragon,
}

/// The side a piece belongs to. Black conventionally moves first.
#[derive(Clone, Copy, Debug, PartialEq, Eq, Structural)]
pub enum Color {
    Black,
    White,
}

/// A piece identity: a kind together with the side that owns it.
///
/// Every piece has a packed integer value (see [`Piece::value`]): the
/// kind's value, plus 16 when the piece is white. Black pieces take 0
/// through 13 and white pieces 16 through 29; 14, 15 and everything from
/// 30 up are unused.
#[derive(Clone, Copy, Debug, PartialEq, Eq, Structural)]
pub enum Piece {
    BPawn,
    BLance,
    BKnight,
    BSilver,
    BBishop,
    BRook,
    BGold,
    BKing,
    BProPawn,
    BProLance,
    BProKnight,
    BProSilver,
    BHorse,
    BDragon,
    WPawn,
    WLance,
    WKnight,
    WSilver,
    WBishop,
    WRook,
    WGold,
    WKing,
    WProPawn,
    WProLance,
    WProKnight,
    WProSilver,
    WHorse,
    WDragon,
}

impl PieceKind {
    /// The number of distinct piece kinds.
    pub const COUNT: usize = 14;

    /// The packed integer value of the kind, in `[0, 13]`.
    pub open spec fn value_spec(self) -> int {
        match self {
            PieceKind::Pawn => 0,
            PieceKind::Lance => 1,
            PieceKind::Knight => 2,
            PieceKind::Silver => 3,
            PieceKind::Bishop => 4,
            PieceKind::Rook => 5,
            PieceKind::Gold => 6,
            PieceKind::King => 7,
            PieceKind::ProPawn => 8,
            PieceKind::ProLance => 9,
            PieceKind::ProKnight => 10,
            PieceKind::ProSilver => 11,
            PieceKind::Horse => 12,
            PieceKind::Dragon => 13,
        }
    }

    /// Whether the kind is one of the six promoted forms; in the packed
    /// value this is exactly the promotion bit (value 8) being set.
    pub open spec fn is_promoted_spec(self) -> bool {
        self.value_spec() >= 8
    }

    /// The promoted form of the kind, where one exists: each of the six
    /// promotable base kinds maps to its promoted form; Gold, King and
    /// the already-promoted kinds have no transition.
    pub open spec fn promote_spec(self) -> Option<PieceKind> {
        match self {
            PieceKind::Pawn => Some(PieceKind::ProPawn),
            PieceKind::Lance => Some(PieceKind::ProLance),
            PieceKind::Knight => Some(PieceKind::ProKnight),
            PieceKind::Silver => Some(PieceKind::ProSilver),
            PieceKind::Bishop => Some(PieceKind::Horse),
            PieceKind::Rook => Some(PieceKind::Dragon),
            _ => None,
        }
    }

    /// The packed integer value of the kind.
    pub fn value(&self) -> (r: u8)
        ensures
            r == self.value_spec(),
    {
        match self {
            PieceKind::Pawn => 0,
            PieceKind::Lance => 1,
            PieceKind::Knight => 2,
            PieceKind::Silver => 3,
            PieceKind::Bishop => 4,
            PieceKind::Rook => 5,
            PieceKind::Gold => 6,
            PieceKind::King => 7,
            PieceKind::ProPawn => 8,
            PieceKind::ProLance => 9,
            PieceKind::ProKnight => 10,
            PieceKind::ProSilver => 11,
            PieceKind::Horse => 12,
            PieceKind::Dragon => 13,
        }
    }

    /// Whether the kind is a promoted form.
    pub fn is_promoted(&self) -> (r: bool)
        ensures
            r == self.is_promoted_spec(),
    {
        self.value() >= 8
    }

    /// The promoted form of the kind, or `None` where the kind does not
    /// promote (Gold, King, and every already-promoted kind).
    pub fn promote(&self) -> (r: Option<PieceKind>)
        ensures
            r == self.promote_spec(),
    {
        match self {
            PieceKind::Pawn => Some(PieceKind::ProPawn),
            PieceKind::Lance => Some(PieceKind::ProLance),
            PieceKind::Knight => Some(PieceKind::ProKnight),
            PieceKind::Silver => Some(PieceKind::ProSilver),
            PieceKind::Bishop => Some(PieceKind::Horse),
            PieceKind::Rook => Some(PieceKind::Dragon),
            _ => None,
        }
    }

    /// Rebuilds a kind from its packed integer value; values outside
    /// `[0, 13]` are an `InvalidPieceKind` failure.
    pub fn from_value(value: u8) -> (r: Result<PieceKind, EncodingError>)
        ensures
            value <= 13 ==> r == Ok::<PieceKind, EncodingError>(kind_of_value(value as int)),
            value > 13 ==> r == Err::<PieceKind, EncodingError>(EncodingError::InvalidPieceKind),
    {
        match value {
            0 => Ok(PieceKind::Pawn),
            1 => Ok(PieceKind::Lance),
            2 => Ok(PieceKind::Knight),
            3 => Ok(PieceKind::Silver),
            4 => Ok(PieceKind::Bishop),
            5 => Ok(PieceKind::Rook),
            6 => Ok(PieceKind::Gold),
            7 => Ok(PieceKind::King),
            8 => Ok(PieceKind::ProPawn),
            9 => Ok(PieceKind::ProLance),
            10 => Ok(PieceKind::ProKnight),
            11 => Ok(PieceKind::ProSilver),
            12 => Ok(PieceKind::Horse),
            13 => Ok(PieceKind::Dragon),
            _ => Err(EncodingError::InvalidPieceKind),
        }
    }
}

/// The kind whose packed value is `v`, for `v` in `[0, 13]`.
pub open spec fn kind_of_value(v: int) -> PieceKind
    recommends
        0 <= v <= 13,
{
    if v == 0 {
        PieceKind::Pawn
    } else if v == 1 {
        PieceKind::Lance
    } else if v == 2 {
        PieceKind::Knight
    } else if v == 3 {
        PieceKind::Silver
    } else if v == 4 {
        PieceKind::Bishop
    } else if v == 5 {
        PieceKind::Rook
    } else if v == 6 {
        PieceKind::Gold
    } else if v == 7 {
        PieceKind::King
    } else if v == 8 {
        PieceKind::ProPawn
    } else if v == 9 {
        PieceKind::ProLance
    } else if v == 10 {
        PieceKind::ProKnight
    } else if v == 11 {
        PieceKind::ProSilver
    } else if v == 12 {
        PieceKind::Horse
    } else {
        PieceKind::Dragon
    }
}

impl Color {
    /// The number of sides.
    pub const COUNT: usize = 2;
}

impl Piece {
    /// The number of distinct pieces.
    pub const COUNT: usize = 28;

    /// The packed integer value of the piece: the kind's value, plus 16
    /// for a white piece. Black pieces take `[0, 13]`, white pieces
    /// `[16, 29]`.
    pub open spec fn value_spec(self) -> int {
        match self {
            Piece::BPawn => 0,
            Piece::BLance => 1,
            Piece::BKnight => 2,
            Piece::BSilver => 3,
            Piece::BBishop => 4,
            Piece::BRook => 5,
            Piece::BGold => 6,
            Piece::BKing => 7,
            Piece::BProPawn => 8,
            Piece::BProLance => 9,
            Piece::BProKnight => 10,
            Piece::BProSilver => 11,
            Piece::BHorse => 12,
            Piece::BDragon => 13,
            Piece::WPawn => 16,
            Piece::WLance => 17,
            Piece::WKnight => 18,
            Piece::WSilver => 19,
            Piece::WBishop => 20,
            Piece::WRook => 21,
            Piece::WGold => 22,
            Piece::WKing => 23,
            Piece::WProPawn => 24,
            Piece::WProLance => 25,
            Piece::WProKnight => 26,
            Piece::WProSilver => 27,
            Piece::WHorse => 28,
            Piece::WDragon => 29,
        }
    }

    /// The side of the piece: white exactly when the color bit
    /// (value 16) is set in the packed value.
    pub open spec fn color_spec(self) -> Color {
        if self.value_spec() >= 16 {
            Color::White
        } else {
            Color::Black
        }
    }

    /// The kind of the piece: the packed value with the color bit
    /// cleared.
    pub open spec fn kind_spec(self) -> PieceKind {
        kind_of_value(
            if self.value_spec() >= 16 {
                self.value_spec() - 16
            } else {
                self.value_spec()
            },
        )
    }

    /// The same piece with its kind promoted, where the kind has a
    /// promoted form; the side is kept.
    pub open spec fn promote_spec(self) -> Option<Piece> {
        match self.kind_spec().promote_spec() {
            Some(k) => Some(
                piece_of_value(
                    k.value_spec() + if self.color_spec() is White {
                        16int
                    } else {
                        0int
                    },
                ),
            ),
            None => None,
        }
    }

    /// The packed integer value of the piece.
    pub fn value(&self) -> (r: u8)
        ensures
            r == self.value_spec(),
    {
        match self {
            Piece::BPawn => 0,
            Piece::BLance => 1,
            Piece::BKnight => 2,
            Piece::BSilver => 3,
            Piece::BBishop => 4,
            Piece::BRook => 5,
            Piece::BGold => 6,
            Piece::BKing => 7,
            Piece::BProPawn => 8,
            Piece::BProLance => 9,
            Piece::BProKnight => 10,
            Piece::BProSilver => 11,
            Piece::BHorse => 12,
            Piece::BDragon => 13,
            Piece::WPawn => 16,
            Piece::WLance => 17,
            Piece::WKnight => 18,
            Piece::WSilver => 19,
            Piece::WBishop => 20,
            Piece::WRook => 21,
            Piece::WGold => 22,
            Piece::WKing => 23,
            Piece::WProPawn => 24,
            Piece::WProLance => 25,
            Piece::WProKnight => 26,
            Piece::WProSilver => 27,
            Piece::WHorse => 28,
            Piece::WDragon => 29,
        }
    }

    /// Packs a side and a kind into a piece; every combination is valid,
    /// and the piece decomposes back into exactly the given side and
    /// kind.
    pub fn new(color: Color, piece_kind: PieceKind) -> (r: Piece)
        ensures
            r.kind_spec() == piece_kind,
            r.color_spec() == color,
            r.value_spec() == piece_kind.value_spec() + if color is White {
                16int
            } else {
                0int
            },
    {
        let kind_value = piece_kind.value();
        let value = match color {
            Color::Black => kind_value,
            Color::White => kind_value + 16,
        };
        match Piece::from_value(value) {
            Ok(piece) => piece,
            Err(_) => vstd::pervasive::unreached(),
        }
    }

    /// The kind of the piece.
    pub fn kind(&self) -> (r: PieceKind)
        ensures
            r == self.kind_spec(),
    {
        let value = self.value();
        let kind_value = if value >= 16 {
            value - 16
        } else {
            value
        };
        match PieceKind::from_value(kind_value) {
            Ok(kind) => kind,
            Err(_) => vstd::pervasive::unreached(),
        }
    }

    /// Whether the piece belongs to the black side.
    pub fn is_black(&self) -> (r: bool)
        ensures
            r == (self.color_spec() is Black),
    {
        self.value() < 16
    }

    /// Whether the piece belongs to the white side.
    pub fn is_white(&self) -> (r: bool)
        ensures
            r == (self.color_spec() is White),
    {
        self.value() >= 16
    }

    /// The side of the piece.
    pub fn color(&self) -> (r: Color)
        ensures
            r == self.color_spec(),
    {
        if self.is_black() {
            Color::Black
        } else {
            Color::White
        }
    }

    /// Whether the piece's kind is a promoted form.
    pub fn is_promoted(&self) -> (r: bool)
        ensures
            r == self.kind_spec().is_promoted_spec(),
    {
        let value = self.value();
        let kind_value = if value >= 16 {
            value - 16
        } else {
            value
        };
        kind_value >= 8
    }

    /// The same piece with its kind promoted, or `None` where the kind
    /// does not promote; the side never changes.
    pub fn promote(&self) -> (r: Option<Piece>)
        ensures
            r == self.promote_spec(),
    {
        match self.kind().promote() {
            Some(kind) => {
                let promoted = Piece::new(self.color(), kind);
                proof {
                    lemma_piece_value_round_trip(promoted);
                }
                Some(promoted)
            },
            None => None,
        }
    }

    /// Rebuilds a piece from its packed integer value; everything
    /// outside `{0..=13, 16..=29}` — including the reserved gaps 14, 15
    /// and 30 up — is an `InvalidPiece` failure.
    pub fn from_value(value: u8) -> (r: Result<Piece, EncodingError>)
        ensures
            value <= 13 || (16 <= value && value <= 29) ==> r == Ok::<Piece, EncodingError>(
                piece_of_value(value as int),
            ),
            !(value <= 13 || (16 <= value && value <= 29)) ==> r == Err::<Piece, EncodingError>(
                EncodingError::InvalidPiece,
            ),
    {
        match value {
            0 => Ok(Piece::BPawn),
            1 => Ok(Piece::BLance),
            2 => Ok(Piece::BKnight),
            3 => Ok(Piece::BSilver),
            4 => Ok(Piece::BBishop),
            5 => Ok(Piece::BRook),
            6 => Ok(Piece::BGold),
            7 => Ok(Piece::BKing),
            8 => Ok(Piece::BProPawn),
            9 => Ok(Piece::BProLance),
            10 => Ok(Piece::BProKnight),
            11 => Ok(Piece::BProSilver),
            12 => Ok(Piece::BHorse),
            13 => Ok(Piece::BDragon),
            16 => Ok(Piece::WPawn),
            17 => Ok(Piece::WLance),
            18 => Ok(Piece::WKnight),
            19 => Ok(Piece::WSilver),
            20 => Ok(Piece::WBishop),
            21 => Ok(Piece::WRook),
            22 => Ok(Piece::WGold),
            23 => Ok(Piece::WKing),
            24 => Ok(Piece::WProPawn),
            25 => Ok(Piece::WProLance),
            26 => Ok(Piece::WProKnight),
            27 => Ok(Piece::WProSilver),
            28 => Ok(Piece::WHorse),
            29 => Ok(Piece::WDragon),
            _ => Err(EncodingError::InvalidPiece),
        }
    }
}

/// The piece whose packed value is `v`, for `v` in `{0..=13, 16..=29}`.
pub open spec fn piece_of_value(v: int) -> Piece
    recommends
        0 <= v <= 13 || 16 <= v <= 29,
{
    if v == 0 {
        Piece::BPawn
    } else if v == 1 {
        Piece::BLance
    } else if v == 2 {
        Piece::BKnight
    } else if v == 3 {
        Piece::BSilver
    } else if v == 4 {
        Piece::BBishop
    } else if v == 5 {
        Piece::BRook
    } else if v == 6 {
        Piece::BGold
    } else if v == 7 {
        Piece::BKing
    } else if v == 8 {
        Piece::BProPawn
    } else if v == 9 {
        Piece::BProLance
    } else if v == 10 {
        Piece::BProKnight
    } else if v == 11 {
        Piece::BProSilver
    } else if v == 12 {
        Piece::BHorse
    } else if v == 13 {
        Piece::BDragon
    } else if v == 16 {
        Piece::WPawn
    } else if v == 17 {
        Piece::WLance
    } else if v == 18 {
        Piece::WKnight
    } else if v == 19 {
        Piece::WSilver
    } else if v == 20 {
        Piece::WBishop
    } else if v == 21 {
        Piece::WRook
    } else if v == 22 {
        Piece::WGold
    } else if v == 23 {
        Piece::WKing
    } else if v == 24 {
        Piece::WProPawn
    } else if v == 25 {
        Piece::WProLance
    } else if v == 26 {
        Piece::WProKnight
    } else if v == 27 {
        Piece::WProSilver
    } else if v == 28 {
        Piece::WHorse
    } else {
        Piece::WDragon
    }
}

/// Law: a kind's packed value round-trips — rebuilding a kind from its
/// value gives the kind back, and the 14 kinds take exactly the values
/// 0 through 13.
pub proof fn lemma_kind_value_round_trip(kind: PieceKind)
    ensures
        0 <= kind.value_spec() <= 13,
        kind_of_value(kind.value_spec()) == kind,
{
}

/// Law: every value in `[0, 13]` is some kind's packed value, so the
/// value-to-kind mapping is a bijection on that range.
pub proof fn lemma_value_kind_round_trip(v: int)
    requires
        0 <= v <= 13,
    ensures
        kind_of_value(v).value_spec() == v,
{
}

/// Law: a piece's packed value round-trips — rebuilding a piece from
/// its value gives the piece back, and the 28 pieces take exactly the
/// values in `{0..=13, 16..=29}`.
pub proof fn lemma_piece_value_round_trip(piece: Piece)
    ensures
        0 <= piece.value_spec() <= 13 || 16 <= piece.value_spec() <= 29,
        piece_of_value(piece.value_spec()) == piece,
{
}

/// Law: every value in `{0..=13, 16..=29}` is some piece's packed
/// value, so the value-to-piece mapping is a bijection on that set.
pub proof fn lemma_value_piece_round_trip(v: int)
    requires
        0 <= v <= 13 || 16 <= v <= 29,
    ensures
        piece_of_value(v).value_spec() == v,
{
}

/// Law: a piece is black or white, never both — `is_black` and
/// `is_white` are mutually exclusive and exhaustive.
pub proof fn lemma_color_dichotomy(piece: Piece)
    ensures
        (piece.color_spec() is Black) <==> !(piece.color_spec() is White),
{
}

/// Law: promoting a piece promotes exactly its kind and keeps its side
/// — a piece promotes exactly when its kind does, and the result has
/// the promoted kind and the same color.
pub proof fn lemma_piece_promotion(piece: Piece)
    ensures
        piece.promote_spec() is Some <==> piece.kind_spec().promote_spec() is Some,
        piece.promote_spec() matches Some(p) ==> (p.color_spec() == piece.color_spec()
            && piece.kind_spec().promote_spec() == Some(p.kind_spec())),
{
}

/// Law: promotion is one-way and at most once — a kind promotes exactly
/// when it is one of the six promotable base kinds, the result is a
/// promoted form with the promotion bit added to the value, and the
/// result itself never promotes again.
pub proof fn lemma_promotion_one_way(kind: PieceKind)
    ensures
        kind.promote_spec() is Some <==> (!kind.is_promoted_spec() && kind != PieceKind::Gold
            && kind != PieceKind::King),
        kind.promote_spec() matches Some(p) ==> (p.is_promoted_spec() && p.promote_spec() is None
            && p.value_spec() == kind.value_spec() + 8),
{
}

} // verus!
