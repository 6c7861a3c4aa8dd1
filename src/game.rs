use vstd::prelude::*;

use crate::board::{grid_index, GameBoard, GameBoardSpaceType};
use crate::hex::{GameBoardSpacePos, MAX_BOARD_HEIGHT, MAX_BOARD_WIDTH};
use crate::tiles::{
    board_piece_catalog, board_pieces, lemma_catalog_has_no_void, piece_has_no_void, rotate_piece,
    rotated, BoardPiece, NUM_BOARD_PIECES,
};
use crate::units::{PlayerColor, UnitInfo};

verus! {

/// Tiles that each player lays during setup.
pub const PIECES_PER_PLAYER: usize = 9;

/// The pieces the acting player has left to place.
#[derive(Clone, Copy, Debug, PartialEq, Eq, Structural)]
pub struct PlayerInventory {
    pub num_cities: u8,
    pub num_strongholds: u8,
    pub num_villages: u8,
    pub num_knights: u8,
}

impl PlayerInventory {
    pub open spec fn initial() -> PlayerInventory {
        PlayerInventory { num_cities: 5, num_strongholds: 2, num_villages: 14, num_knights: 7 }
    }

    /// A full inventory: five cities, two strongholds, fourteen villages and
    /// seven knights.
    pub fn new() -> (r: PlayerInventory)
        ensures
            r == PlayerInventory::initial(),
    {
        PlayerInventory { num_cities: 5, num_strongholds: 2, num_villages: 14, num_knights: 7 }
    }
}

/// The three target spaces of a tile are on the grid and distinct.
pub open spec fn valid_triple(t: (GameBoardSpacePos, GameBoardSpacePos, GameBoardSpacePos)) -> bool {
    &&& t.0.in_bounds()
    &&& t.1.in_bounds()
    &&& t.2.in_bounds()
    &&& t.0 != t.1
    &&& t.1 != t.2
    &&& t.0 != t.2
}

/// The state shared by the turn phases: the board, the tiles not yet laid,
/// the acting player's inventory and color, and what the pointer is over.
pub struct GameUIData {
    pub num_players: u8,
    pub game_board: GameBoard,
    pub unplaced_board_pieces: Vec<BoardPiece>,
    pub player_inventory: PlayerInventory,
    pub player_color: PlayerColor,
    pub three_pos_under_mouse: Option<(GameBoardSpacePos, GameBoardSpacePos, GameBoardSpacePos)>,
    pub one_pos_under_mouse: Option<GameBoardSpacePos>,
    /// The tiles laid so far.
    pub placed_board_pieces: Ghost<Seq<BoardPiece>>,
    /// The spaces those tiles cover.
    pub placed_region: Ghost<Set<GameBoardSpacePos>>,
}

/// Everything but the board and the inventory is as it was.
pub open spec fn same_setup(o: GameUIData, n: GameUIData) -> bool {
    &&& n.num_players == o.num_players
    &&& n.unplaced_board_pieces@ == o.unplaced_board_pieces@
    &&& n.player_color == o.player_color
    &&& n.three_pos_under_mouse == o.three_pos_under_mouse
    &&& n.one_pos_under_mouse == o.one_pos_under_mouse
    &&& n.placed_board_pieces@ == o.placed_board_pieces@
    &&& n.placed_region@ == o.placed_region@
}

/// Nothing observable changed.
pub open spec fn unchanged(o: GameUIData, n: GameUIData) -> bool {
    &&& same_setup(o, n)
    &&& n.game_board@ == o.game_board@
    &&& n.player_inventory == o.player_inventory
}

/// The outcome of a tile drop: where one is possible, some tile of the pool
/// turned some number of times was laid; otherwise nothing changed.
pub open spec fn tile_drop_result(o: GameUIData, n: GameUIData) -> bool {
    &&& o.tile_drop_possible() ==> exists|i: int, rotation: int|
        0 <= i < o.unplaced_board_pieces@.len() && 0 <= rotation < 3 && o.tile_dropped(n, i, rotation)
    &&& !o.tile_drop_possible() ==> unchanged(o, n)
}

/// The outcome of a city drop: where one is possible, a city and a knight of
/// the acting player stand under the pointer and the inventory holds one
/// city and one knight less; otherwise nothing changed.
pub open spec fn city_drop_result(o: GameUIData, n: GameUIData) -> bool {
    &&& same_setup(o, n)
    &&& o.city_drop_possible() ==> ({
        let p = o.one_pos_under_mouse.unwrap();
        let u = UnitInfo { position: p, owner: o.player_color };
        &&& n.game_board@.grid == o.game_board@.grid
        &&& n.game_board@.cities == o.game_board@.cities.push(u)
        &&& n.game_board@.knights == o.game_board@.knights.push(u)
        &&& n.player_inventory == PlayerInventory {
            num_cities: (o.player_inventory.num_cities - 1) as u8,
            num_knights: (o.player_inventory.num_knights - 1) as u8,
            ..o.player_inventory
        }
    })
    &&& !o.city_drop_possible() ==> unchanged(o, n)
}

impl GameUIData {
    /// The board is well formed, the pointer is on the grid, the laid tiles
    /// and the pool together are exactly the catalog, and every space a laid
    /// tile covers holds a real terrain.
    pub open spec fn wf(&self) -> bool {
        &&& self.game_board@.wf()
        &&& (self.one_pos_under_mouse matches Some(p) ==> p.in_bounds())
        &&& (self.three_pos_under_mouse matches Some(t) ==> valid_triple(t))
        &&& (self.unplaced_board_pieces@ + self.placed_board_pieces@).to_multiset()
            == board_piece_catalog().to_multiset()
        &&& forall|p: GameBoardSpacePos| #[trigger]
            self.placed_region@.contains(p) ==> p.in_bounds() && self.game_board@.space(p)
                != GameBoardSpaceType::Void
    }

    /// A tile can be laid: the pointer is over three spaces that are all
    /// `Void`, and the pool is not empty.
    pub open spec fn tile_drop_possible(&self) -> bool {
        &&& self.three_pos_under_mouse matches Some((a, b, c))
        &&& self.game_board@.space(a) == GameBoardSpaceType::Void
        &&& self.game_board@.space(b) == GameBoardSpaceType::Void
        &&& self.game_board@.space(c) == GameBoardSpaceType::Void
        &&& self.unplaced_board_pieces@.len() > 0
    }

    /// `n` is `self` after tile `i` of the pool, turned `rotation` times, was
    /// laid on the three spaces under the pointer.
    pub open spec fn tile_dropped(&self, n: GameUIData, i: int, rotation: int) -> bool {
        &&& self.three_pos_under_mouse matches Some((a, b, c))
        &&& {
            let t = self.unplaced_board_pieces@[i];
            let (x, y, z) = rotated(t, rotation);
            &&& n.game_board@.grid == self.game_board@.grid.update(grid_index(a), x).update(
                grid_index(b),
                y,
            ).update(grid_index(c), z)
            &&& n.game_board@.cities == self.game_board@.cities
            &&& n.game_board@.knights == self.game_board@.knights
            &&& n.unplaced_board_pieces@ == self.unplaced_board_pieces@.remove(i)
            &&& n.placed_board_pieces@ == self.placed_board_pieces@.push(t)
            &&& n.placed_region@ == self.placed_region@.insert(a).insert(b).insert(c)
            &&& n.num_players == self.num_players
            &&& n.player_inventory == self.player_inventory
            &&& n.player_color == self.player_color
            &&& n.three_pos_under_mouse == self.three_pos_under_mouse
            &&& n.one_pos_under_mouse == self.one_pos_under_mouse
        }
    }

    /// A city and a knight can be placed under the pointer: the space takes
    /// a city and the inventory still holds a city and a knight.
    pub open spec fn city_drop_possible(&self) -> bool {
        &&& self.one_pos_under_mouse matches Some(p)
        &&& self.game_board@.ok_for_city(p)
        &&& self.player_inventory.num_cities > 0
        &&& self.player_inventory.num_knights > 0
    }

    /// Setup of the board is over once the pool is down to the tiles that
    /// the players do not lay.
    pub open spec fn board_setup_done(&self) -> bool {
        self.unplaced_board_pieces@.len() + PIECES_PER_PLAYER * self.num_players <= NUM_BOARD_PIECES
    }

    /// The defaults of a new game: one red player, an empty board, the whole
    /// catalog in the pool and a full inventory.
    pub fn defaults() -> (r: GameUIData)
        ensures
            r.wf(),
            r.num_players == 1,
            r.player_color == PlayerColor::Red,
            r.player_inventory == PlayerInventory::initial(),
            r.unplaced_board_pieces@ == board_piece_catalog(),
            forall|p: GameBoardSpacePos|
                p.in_bounds() ==> r.game_board@.space(p) == GameBoardSpaceType::Void,
            r.game_board@.cities.len() == 0,
            r.game_board@.knights.len() == 0,
            r.three_pos_under_mouse is None,
            r.one_pos_under_mouse is None,
            r.placed_board_pieces@.len() == 0,
            r.placed_region@.is_empty(),
    {
        let r = GameUIData {
            num_players: 1,
            game_board: GameBoard::new(),
            unplaced_board_pieces: board_pieces(),
            player_inventory: PlayerInventory::new(),
            player_color: PlayerColor::Red,
            three_pos_under_mouse: None,
            one_pos_under_mouse: None,
            placed_board_pieces: Ghost(Seq::empty()),
            placed_region: Ghost(Set::empty()),
        };
        assert(r.unplaced_board_pieces@ + r.placed_board_pieces@ =~= board_piece_catalog());
        r
    }

    /// Starts the game over: an empty board, the whole catalog in the pool
    /// and a full inventory; players, color and pointer stay.
    pub fn reset_board(&mut self)
        requires
            old(self).wf(),
        ensures
            final(self).wf(),
            final(self).num_players == old(self).num_players,
            final(self).player_color == old(self).player_color,
            final(self).three_pos_under_mouse == old(self).three_pos_under_mouse,
            final(self).one_pos_under_mouse == old(self).one_pos_under_mouse,
            final(self).player_inventory == PlayerInventory::initial(),
            final(self).unplaced_board_pieces@ == board_piece_catalog(),
            forall|p: GameBoardSpacePos|
                p.in_bounds() ==> final(self).game_board@.space(p) == GameBoardSpaceType::Void,
            final(self).game_board@.cities.len() == 0,
            final(self).game_board@.knights.len() == 0,
            final(self).placed_board_pieces@.len() == 0,
            final(self).placed_region@.is_empty(),
    {
        self.game_board = GameBoard::new();
        self.player_inventory = PlayerInventory::new();
        self.unplaced_board_pieces = board_pieces();
        self.placed_board_pieces = Ghost(Seq::empty());
        self.placed_region = Ghost(Set::empty());
        assert(self.unplaced_board_pieces@ + self.placed_board_pieces@ =~= board_piece_catalog());
    }

    /// Records the space under the pointer; a position off the grid counts
    /// as none.
    pub fn set_one_pos_under_mouse(&mut self, pos: Option<GameBoardSpacePos>)
        requires
            old(self).wf(),
        ensures
            final(self).wf(),
            final(self).one_pos_under_mouse == (match pos {
                Some(p) => if p.in_bounds() {
                    Some(p)
                } else {
                    None
                },
                None => None,
            }),
            final(self).game_board@ == old(self).game_board@,
            final(self).player_inventory == old(self).player_inventory,
            final(self).three_pos_under_mouse == old(self).three_pos_under_mouse,
            final(self).unplaced_board_pieces@ == old(self).unplaced_board_pieces@,
            final(self).num_players == old(self).num_players,
            final(self).player_color == old(self).player_color,
            final(self).placed_board_pieces@ == old(self).placed_board_pieces@,
            final(self).placed_region@ == old(self).placed_region@,
    {
        self.one_pos_under_mouse = match pos {
            Some(p) => if on_grid(p) {
                Some(p)
            } else {
                None
            },
            None => None,
        };
    }

    /// Records the three spaces a tile would cover; three spaces that are
    /// not distinct spaces of the grid count as none.
    pub fn set_three_pos_under_mouse(
        &mut self,
        target: Option<(GameBoardSpacePos, GameBoardSpacePos, GameBoardSpacePos)>,
    )
        requires
            old(self).wf(),
        ensures
            final(self).wf(),
            final(self).three_pos_under_mouse == (match target {
                Some(t) => if valid_triple(t) {
                    Some(t)
                } else {
                    None
                },
                None => None,
            }),
            final(self).game_board@ == old(self).game_board@,
            final(self).player_inventory == old(self).player_inventory,
            final(self).one_pos_under_mouse == old(self).one_pos_under_mouse,
            final(self).unplaced_board_pieces@ == old(self).unplaced_board_pieces@,
            final(self).num_players == old(self).num_players,
            final(self).player_color == old(self).player_color,
            final(self).placed_board_pieces@ == old(self).placed_board_pieces@,
            final(self).placed_region@ == old(self).placed_region@,
    {
        self.three_pos_under_mouse = match target {
            Some(t) => if on_grid(t.0) && on_grid(t.1) && on_grid(t.2) && t.0 != t.1 && t.1 != t.2
                && t.0 != t.2 {
                Some(t)
            } else {
                None
            },
            None => None,
        };
    }

    /// Lays tile `piece_index` of the pool, turned clockwise `rotation`
    /// times (three turns bring it back), on the three spaces under the pointer, where all three are
    /// `Void`; otherwise nothing changes.
    pub fn drop_board_piece_with(&mut self, piece_index: usize, rotation: usize)
        requires
            old(self).wf(),
            piece_index < old(self).unplaced_board_pieces@.len(),
        ensures
            final(self).wf(),
            old(self).tile_drop_possible() ==> old(self).tile_dropped(
                *final(self),
                piece_index as int,
                rotation as int,
            ),
            !old(self).tile_drop_possible() ==> unchanged(*old(self), *final(self)),
    {
        if let Some((a, b, c)) = self.three_pos_under_mouse {
            if self.game_board.get_board_space_type(a) == GameBoardSpaceType::Void
                && self.game_board.get_board_space_type(b) == GameBoardSpaceType::Void
                && self.game_board.get_board_space_type(c) == GameBoardSpaceType::Void {
                let ghost before = *self;
                let piece = self.unplaced_board_pieces.remove(piece_index);
                let (new_a, new_b, new_c) = rotate_piece(piece, rotation);
                self.game_board.set_board_space_type(a, new_a);
                self.game_board.set_board_space_type(b, new_b);
                self.game_board.set_board_space_type(c, new_c);
                proof {
                    self.placed_board_pieces@ = self.placed_board_pieces@.push(piece);
                    self.placed_region@ = self.placed_region@.insert(a).insert(b).insert(c);
                    lemma_tile_leaves_pool(
                        before.unplaced_board_pieces@,
                        before.placed_board_pieces@,
                        piece_index as int,
                    );
                    assert(self.unplaced_board_pieces@ + self.placed_board_pieces@
                        =~= before.unplaced_board_pieces@.remove(piece_index as int)
                        + before.placed_board_pieces@.push(piece));
                    lemma_catalog_has_no_void();
                    broadcast use vstd::seq_lib::group_to_multiset_ensures;
                    broadcast use vstd::multiset::group_multiset_axioms;

                    let later = before.placed_board_pieces@.push(piece);
                    assert(later.to_multiset() == before.placed_board_pieces@.to_multiset().insert(
                        piece,
                    ));
                    assert(later.to_multiset().count(piece) > 0);
                    assert(before.unplaced_board_pieces@.remove(piece_index as int).to_multiset().count(
                        piece,
                    ) + later.to_multiset().count(piece) == board_piece_catalog().to_multiset().count(
                        piece,
                    ));
                    assert(board_piece_catalog().to_multiset().count(piece) > 0);
                    assert(board_piece_catalog().contains(piece));
                    assert(piece_has_no_void(piece));
                    assert forall|p: GameBoardSpacePos| #[trigger]
                        self.placed_region@.contains(p) implies p.in_bounds()
                        && self.game_board@.space(p) != GameBoardSpaceType::Void by {
                        if p != a && p != b && p != c {
                            assert(before.placed_region@.contains(p));
                        }
                    }
                }
                return;
            }
        }
    }

    /// Lays a tile drawn at random from the pool, turned a random number of
    /// times, on the three spaces under the pointer, where all three are
    /// `Void` and the pool is not empty; otherwise nothing changes.
    pub fn drop_board_piece(&mut self)
        requires
            old(self).wf(),
        ensures
            final(self).wf(),
            tile_drop_result(*old(self), *final(self)),
    {
        if let Some((a, b, c)) = self.three_pos_under_mouse {
            let len = self.unplaced_board_pieces.len();
            if len > 0 && self.game_board.get_board_space_type(a) == GameBoardSpaceType::Void
                && self.game_board.get_board_space_type(b) == GameBoardSpaceType::Void
                && self.game_board.get_board_space_type(c) == GameBoardSpaceType::Void {
                let piece_index = random_below(len);
                let rotation = random_below(3);
                self.drop_board_piece_with(piece_index, rotation);
            }
        }
    }

    /// Founds a city of the acting player under the pointer, with a knight
    /// on it, taking one of each from the inventory, where the space takes a
    /// city and the inventory holds both; otherwise nothing changes.
    pub fn drop_city(&mut self)
        requires
            old(self).wf(),
        ensures
            final(self).wf(),
            city_drop_result(*old(self), *final(self)),
    {
        if let Some(pos) = self.one_pos_under_mouse {
            if self.game_board.space_ok_for_city(pos) && self.player_inventory.num_cities > 0
                && self.player_inventory.num_knights > 0 {
                self.game_board.add_city(pos, self.player_color);
                self.game_board.add_knight(pos, self.player_color);
                self.player_inventory.num_cities = self.player_inventory.num_cities - 1;
                self.player_inventory.num_knights = self.player_inventory.num_knights - 1;
            }
        }
    }
}

/// The position lies on the grid.
pub fn on_grid(p: GameBoardSpacePos) -> (r: bool)
    ensures
        r == p.in_bounds(),
{
    (p.x_pos as usize) < MAX_BOARD_WIDTH && (p.y_pos as usize) < MAX_BOARD_HEIGHT
}

/// Relies on rand's `thread_rng().gen_range(0..bound)`: a number drawn from
/// `0..bound`. It panics on an empty range, which `requires` rules out.
#[verifier::external_body]
fn random_below(bound: usize) -> (r: usize)
    requires
        bound > 0,
    ensures
        r < bound,
{
    rand::Rng::gen_range(&mut rand::thread_rng(), 0..bound)
}

/// Setup never loses or duplicates a tile: the pool and the laid tiles
/// together are always the catalog, and every space a laid tile covers holds
/// one of the five real terrains.
pub proof fn lemma_setup_keeps_tiles(d: GameUIData)
    requires
        d.wf(),
    ensures
        (d.unplaced_board_pieces@ + d.placed_board_pieces@).to_multiset()
            == board_piece_catalog().to_multiset(),
        forall|p: GameBoardSpacePos| #[trigger]
            d.placed_region@.contains(p) ==> d.game_board@.space(p) != GameBoardSpaceType::Void,
{
}

/// Laying tile `i` of the pool moves exactly that tile from the pool to the
/// laid tiles: the pool loses one copy of it and nothing else, so where the
/// pool and the laid tiles together were the catalog, they still are, and
/// no tile is both in the pool and laid more often than the catalog holds it.
pub proof fn lemma_tile_leaves_pool(pool: Seq<BoardPiece>, placed: Seq<BoardPiece>, i: int)
    requires
        (pool + placed).to_multiset() == board_piece_catalog().to_multiset(),
        0 <= i < pool.len(),
    ensures
        pool.remove(i).len() == pool.len() - 1,
        pool.remove(i).to_multiset() == pool.to_multiset().remove(pool[i]),
        placed.push(pool[i]).to_multiset() == placed.to_multiset().insert(pool[i]),
        (pool.remove(i) + placed.push(pool[i])).to_multiset()
            == board_piece_catalog().to_multiset(),
        forall|t: BoardPiece|
            #[trigger] pool.remove(i).to_multiset().count(t) + placed.push(pool[i]).to_multiset().count(
                t,
            ) == board_piece_catalog().to_multiset().count(t),
{
    broadcast use vstd::seq_lib::group_to_multiset_ensures;
    broadcast use vstd::seq_lib::lemma_multiset_commutative;
    broadcast use vstd::multiset::group_multiset_axioms;

    let piece = pool[i];
    assert(pool.contains(piece));
    assert(pool.to_multiset().count(piece) > 0);
    assert(pool.remove(i).to_multiset().add(placed.push(piece).to_multiset())
        =~= pool.to_multiset().add(placed.to_multiset()));
}

} // verus!
