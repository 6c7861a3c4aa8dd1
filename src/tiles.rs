use vstd::prelude::*;

use crate::board::GameBoardSpaceType;

verus! {

/// Number of tiles in the catalog.
pub const NUM_BOARD_PIECES: usize = 36;

/// A tile: three terrains, in clockwise order, laid as one piece.
#[derive(Clone, Copy, Debug, PartialEq, Eq, Structural)]
pub struct BoardPiece {
    pub a: GameBoardSpaceType,
    pub b: GameBoardSpaceType,
    pub c: GameBoardSpaceType,
}

pub open spec fn tile(a: GameBoardSpaceType, b: GameBoardSpaceType, c: GameBoardSpaceType) -> BoardPiece {
    BoardPiece { a, b, c }
}

/// The fixed catalog of tiles that setup draws from: six mostly mountain,
/// six mostly field, seven mostly plains, eight mostly forest and nine mixed.
pub open spec fn board_piece_catalog() -> Seq<BoardPiece> {
    seq![
        tile(GameBoardSpaceType::Mountain, GameBoardSpaceType::Mountain, GameBoardSpaceType::Mountain),
        tile(GameBoardSpaceType::Water, GameBoardSpaceType::Mountain, GameBoardSpaceType::Mountain),
        tile(GameBoardSpaceType::Water, GameBoardSpaceType::Mountain, GameBoardSpaceType::Mountain),
        tile(GameBoardSpaceType::Forest, GameBoardSpaceType::Mountain, GameBoardSpaceType::Mountain),
        tile(GameBoardSpaceType::Plains, GameBoardSpaceType::Mountain, GameBoardSpaceType::Mountain),
        tile(GameBoardSpaceType::Field, GameBoardSpaceType::Mountain, GameBoardSpaceType::Mountain),
        tile(GameBoardSpaceType::Field, GameBoardSpaceType::Field, GameBoardSpaceType::Field),
        tile(GameBoardSpaceType::Water, GameBoardSpaceType::Field, GameBoardSpaceType::Field),
        tile(GameBoardSpaceType::Water, GameBoardSpaceType::Field, GameBoardSpaceType::Field),
        tile(GameBoardSpaceType::Mountain, GameBoardSpaceType::Field, GameBoardSpaceType::Field),
        tile(GameBoardSpaceType::Forest, GameBoardSpaceType::Field, GameBoardSpaceType::Field),
        tile(GameBoardSpaceType::Plains, GameBoardSpaceType::Field, GameBoardSpaceType::Field),
        tile(GameBoardSpaceType::Plains, GameBoardSpaceType::Plains, GameBoardSpaceType::Plains),
        tile(GameBoardSpaceType::Plains, GameBoardSpaceType::Plains, GameBoardSpaceType::Plains),
        tile(GameBoardSpaceType::Water, GameBoardSpaceType::Plains, GameBoardSpaceType::Plains),
        tile(GameBoardSpaceType::Water, GameBoardSpaceType::Plains, GameBoardSpaceType::Plains),
        tile(GameBoardSpaceType::Mountain, GameBoardSpaceType::Plains, GameBoardSpaceType::Plains),
        tile(GameBoardSpaceType::Forest, GameBoardSpaceType::Plains, GameBoardSpaceType::Plains),
        tile(GameBoardSpaceType::Field, GameBoardSpaceType::Plains, GameBoardSpaceType::Plains),
        tile(GameBoardSpaceType::Forest, GameBoardSpaceType::Forest, GameBoardSpaceType::Forest),
        tile(GameBoardSpaceType::Forest, GameBoardSpaceType::Forest, GameBoardSpaceType::Forest),
        tile(GameBoardSpaceType::Water, GameBoardSpaceType::Forest, GameBoardSpaceType::Forest),
        tile(GameBoardSpaceType::Water, GameBoardSpaceType::Forest, GameBoardSpaceType::Forest),
        tile(GameBoardSpaceType::Mountain, GameBoardSpaceType::Forest, GameBoardSpaceType::Forest),
        tile(GameBoardSpaceType::Plains, GameBoardSpaceType::Forest, GameBoardSpaceType::Forest),
        tile(GameBoardSpaceType::Field, GameBoardSpaceType::Forest, GameBoardSpaceType::Forest),
        tile(GameBoardSpaceType::Plains, GameBoardSpaceType::Field, GameBoardSpaceType::Forest),
        tile(GameBoardSpaceType::Field, GameBoardSpaceType::Plains, GameBoardSpaceType::Mountain),
        tile(GameBoardSpaceType::Water, GameBoardSpaceType::Plains, GameBoardSpaceType::Mountain),
        tile(GameBoardSpaceType::Field, GameBoardSpaceType::Mountain, GameBoardSpaceType::Water),
        tile(GameBoardSpaceType::Plains, GameBoardSpaceType::Field, GameBoardSpaceType::Water),
        tile(GameBoardSpaceType::Plains, GameBoardSpaceType::Forest, GameBoardSpaceType::Mountain),
        tile(GameBoardSpaceType::Field, GameBoardSpaceType::Forest, GameBoardSpaceType::Mountain),
        tile(GameBoardSpaceType::Mountain, GameBoardSpaceType::Forest, GameBoardSpaceType::Water),
        tile(GameBoardSpaceType::Plains, GameBoardSpaceType::Forest, GameBoardSpaceType::Water),
        tile(GameBoardSpaceType::Field, GameBoardSpaceType::Forest, GameBoardSpaceType::Water),
    ]
}

/// Every terrain of `t` is a real terrain.
pub open spec fn piece_has_no_void(t: BoardPiece) -> bool {
    &&& t.a != GameBoardSpaceType::Void
    &&& t.b != GameBoardSpaceType::Void
    &&& t.c != GameBoardSpaceType::Void
}

/// The terrains of `t` turned clockwise `rotation` times; three turns bring
/// the tile back.
pub open spec fn rotated(t: BoardPiece, rotation: int) -> (GameBoardSpaceType, GameBoardSpaceType, GameBoardSpaceType) {
    if rotation % 3 == 0 {
        (t.a, t.b, t.c)
    } else if rotation % 3 == 1 {
        (t.b, t.c, t.a)
    } else {
        (t.c, t.a, t.b)
    }
}

/// No tile of the catalog holds `Void`.
pub proof fn lemma_catalog_has_no_void()
    ensures
        board_piece_catalog().len() == NUM_BOARD_PIECES,
        forall|i: int| 0 <= i < board_piece_catalog().len() ==> piece_has_no_void(#[trigger] board_piece_catalog()[i]),
{
}

/// A fresh copy of the catalog.
pub fn board_pieces() -> (r: Vec<BoardPiece>)
    ensures
        r@ == board_piece_catalog(),
{
    let r = vec![
        BoardPiece { a: GameBoardSpaceType::Mountain, b: GameBoardSpaceType::Mountain, c: GameBoardSpaceType::Mountain },
        BoardPiece { a: GameBoardSpaceType::Water, b: GameBoardSpaceType::Mountain, c: GameBoardSpaceType::Mountain },
        BoardPiece { a: GameBoardSpaceType::Water, b: GameBoardSpaceType::Mountain, c: GameBoardSpaceType::Mountain },
        BoardPiece { a: GameBoardSpaceType::Forest, b: GameBoardSpaceType::Mountain, c: GameBoardSpaceType::Mountain },
        BoardPiece { a: GameBoardSpaceType::Plains, b: GameBoardSpaceType::Mountain, c: GameBoardSpaceType::Mountain },
        BoardPiece { a: GameBoardSpaceType::Field, b: GameBoardSpaceType::Mountain, c: GameBoardSpaceType::Mountain },
        BoardPiece { a: GameBoardSpaceType::Field, b: GameBoardSpaceType::Field, c: GameBoardSpaceType::Field },
        BoardPiece { a: GameBoardSpaceType::Water, b: GameBoardSpaceType::Field, c: GameBoardSpaceType::Field },
        BoardPiece { a: GameBoardSpaceType::Water, b: GameBoardSpaceType::Field, c: GameBoardSpaceType::Field },
        BoardPiece { a: GameBoardSpaceType::Mountain, b: GameBoardSpaceType::Field, c: GameBoardSpaceType::Field },
        BoardPiece { a: GameBoardSpaceType::Forest, b: GameBoardSpaceType::Field, c: GameBoardSpaceType::Field },
        BoardPiece { a: GameBoardSpaceType::Plains, b: GameBoardSpaceType::Field, c: GameBoardSpaceType::Field },
        BoardPiece { a: GameBoardSpaceType::Plains, b: GameBoardSpaceType::Plains, c: GameBoardSpaceType::Plains },
        BoardPiece { a: GameBoardSpaceType::Plains, b: GameBoardSpaceType::Plains, c: GameBoardSpaceType::Plains },
        BoardPiece { a: GameBoardSpaceType::Water, b: GameBoardSpaceType::Plains, c: GameBoardSpaceType::Plains },
        BoardPiece { a: GameBoardSpaceType::Water, b: GameBoardSpaceType::Plains, c: GameBoardSpaceType::Plains },
        BoardPiece { a: GameBoardSpaceType::Mountain, b: GameBoardSpaceType::Plains, c: GameBoardSpaceType::Plains },
        BoardPiece { a: GameBoardSpaceType::Forest, b: GameBoardSpaceType::Plains, c: GameBoardSpaceType::Plains },
        BoardPiece { a: GameBoardSpaceType::Field, b: GameBoardSpaceType::Plains, c: GameBoardSpaceType::Plains },
        BoardPiece { a: GameBoardSpaceType::Forest, b: GameBoardSpaceType::Forest, c: GameBoardSpaceType::Forest },
        BoardPiece { a: GameBoardSpaceType::Forest, b: GameBoardSpaceType::Forest, c: GameBoardSpaceType::Forest },
        BoardPiece { a: GameBoardSpaceType::Water, b: GameBoardSpaceType::Forest, c: GameBoardSpaceType::Forest },
        BoardPiece { a: GameBoardSpaceType::Water, b: GameBoardSpaceType::Forest, c: GameBoardSpaceType::Forest },
        BoardPiece { a: GameBoardSpaceType::Mountain, b: GameBoardSpaceType::Forest, c: GameBoardSpaceType::Forest },
        BoardPiece { a: GameBoardSpaceType::Plains, b: GameBoardSpaceType::Forest, c: GameBoardSpaceType::Forest },
        BoardPiece { a: GameBoardSpaceType::Field, b: GameBoardSpaceType::Forest, c: GameBoardSpaceType::Forest },
        BoardPiece { a: GameBoardSpaceType::Plains, b: GameBoardSpaceType::Field, c: GameBoardSpaceType::Forest },
        BoardPiece { a: GameBoardSpaceType::Field, b: GameBoardSpaceType::Plains, c: GameBoardSpaceType::Mountain },
        BoardPiece { a: GameBoardSpaceType::Water, b: GameBoardSpaceType::Plains, c: GameBoardSpaceType::Mountain },
        BoardPiece { a: GameBoardSpaceType::Field, b: GameBoardSpaceType::Mountain, c: GameBoardSpaceType::Water },
        BoardPiece { a: GameBoardSpaceType::Plains, b: GameBoardSpaceType::Field, c: GameBoardSpaceType::Water },
        BoardPiece { a: GameBoardSpaceType::Plains, b: GameBoardSpaceType::Forest, c: GameBoardSpaceType::Mountain },
        BoardPiece { a: GameBoardSpaceType::Field, b: GameBoardSpaceType::Forest, c: GameBoardSpaceType::Mountain },
        BoardPiece { a: GameBoardSpaceType::Mountain, b: GameBoardSpaceType::Forest, c: GameBoardSpaceType::Water },
        BoardPiece { a: GameBoardSpaceType::Plains, b: GameBoardSpaceType::Forest, c: GameBoardSpaceType::Water },
        BoardPiece { a: GameBoardSpaceType::Field, b: GameBoardSpaceType::Forest, c: GameBoardSpaceType::Water },
    ];
    assert(r@ =~= board_piece_catalog());
    r
}

/// The terrains of `t` turned clockwise `rotation` times.
pub fn rotate_piece(t: BoardPiece, rotation: usize) -> (r: (GameBoardSpaceType, GameBoardSpaceType, GameBoardSpaceType))
    ensures
        r == rotated(t, rotation as int),
{
    let turns = rotation % 3;
    if turns == 0 {
        (t.a, t.b, t.c)
    } else if turns == 1 {
        (t.b, t.c, t.a)
    } else {
        (t.c, t.a, t.b)
    }
}

} // verus!
