use vstd::prelude::*;

use crate::hex::{
    lemma_neighbor_symmetric, lemma_neighbors_contains, GameBoardSpacePos, MAX_BOARD_WIDTH,
};
use crate::units::{
    casualties, city_within_one, count_at, enemy_city_at, first_own_index, is_first_own,
    lemma_count_at_zero, lemma_first_own_exists, lemma_no_casualties, lemma_first_own_index,
    lemma_opposing_count_update, lemma_resolution_single_majority, lemma_single_majority,
    opposing_count, own_unit_at, owned_count, resolution, single_majority, survivors, PlayerColor,
    UnitInfo, units_in_bounds,
};

verus! {

/// Number of spaces of the grid: thirteen columns of seven rows.
pub const BOARD_SPACES: usize = 91;

/// The terrain of one space. `Void` is a space that no tile covers yet.
#[derive(Clone, Copy, Debug, PartialEq, Eq, Structural)]
pub enum GameBoardSpaceType {
    Void,
    Water,
    Mountain,
    Forest,
    Plains,
    Field,
}

/// Where a position's terrain is kept in the row-major grid.
pub open spec fn grid_index(p: GameBoardSpacePos) -> int {
    p.y_pos * MAX_BOARD_WIDTH + p.x_pos
}

/// The mathematical content of a board: its terrain, row by row, and its two
/// registries of units in the order they were added.
pub struct BoardModel {
    pub grid: Seq<GameBoardSpaceType>,
    pub cities: Seq<UnitInfo>,
    pub knights: Seq<UnitInfo>,
}

impl BoardModel {
    /// The grid has one space per position and every unit stands on it.
    pub open spec fn wf(self) -> bool {
        &&& self.grid.len() == BOARD_SPACES
        &&& units_in_bounds(self.cities)
        &&& units_in_bounds(self.knights)
    }

    pub open spec fn space(self, p: GameBoardSpacePos) -> GameBoardSpaceType {
        self.grid[grid_index(p)]
    }

    /// A city may be founded at `p`: the terrain allows one and no city
    /// stands on `p` or next to it.
    pub open spec fn ok_for_city(self, p: GameBoardSpacePos) -> bool {
        &&& self.space(p) != GameBoardSpaceType::Void
        &&& self.space(p) != GameBoardSpaceType::Water
        &&& self.space(p) != GameBoardSpaceType::Forest
        &&& !city_within_one(self.cities, p)
    }

    /// A knight of `owner` may enter `p`.
    pub open spec fn ok_for_knight(self, p: GameBoardSpacePos, owner: PlayerColor) -> bool {
        &&& !enemy_city_at(self.cities, p, owner)
        &&& match self.space(p) {
            GameBoardSpaceType::Void | GameBoardSpaceType::Water => false,
            GameBoardSpaceType::Mountain => opposing_count(self.knights, p, owner) == 0,
            _ => opposing_count(self.knights, p, owner) < 2,
        }
    }

    /// The board with the knights replaced by `knights`.
    pub open spec fn with_knights(self, knights: Seq<UnitInfo>) -> BoardModel {
        BoardModel { grid: self.grid, cities: self.cities, knights }
    }

    /// The board after combat at `p`, and the knights that combat removed.
    pub open spec fn after_combat(self, p: GameBoardSpacePos) -> (BoardModel, Seq<UnitInfo>) {
        let (knights, dead) = resolution(self.knights, p);
        (self.with_knights(knights), dead)
    }

    /// A knight of `owner` stands at `from` and may enter `to`.
    pub open spec fn move_allowed(
        self,
        from: GameBoardSpacePos,
        to: GameBoardSpacePos,
        owner: PlayerColor,
    ) -> bool {
        own_unit_at(self.knights, from, owner) && self.ok_for_knight(to, owner)
    }

    /// The board after the first knight of `owner` at `at` is put back on
    /// `origin`, with no legality check and no combat; the same board where
    /// `owner` has no knight at `at`.
    pub open spec fn knight_returned(
        self,
        at: GameBoardSpacePos,
        origin: GameBoardSpacePos,
        owner: PlayerColor,
    ) -> BoardModel {
        if own_unit_at(self.knights, at, owner) {
            self.with_knights(
                self.knights.update(
                    first_own_index(self.knights, at, owner),
                    UnitInfo { position: origin, owner },
                ),
            )
        } else {
            self
        }
    }

    /// Moving the first knight of `owner` at `from` to `to`, then combat at
    /// `to`: the board that results and the knights removed, or `None` where
    /// the move is not allowed.
    pub open spec fn move_outcome(
        self,
        from: GameBoardSpacePos,
        to: GameBoardSpacePos,
        owner: PlayerColor,
    ) -> Option<(BoardModel, Seq<UnitInfo>)> {
        if self.move_allowed(from, to, owner) {
            let i = first_own_index(self.knights, from, owner);
            let moved = self.knights.update(i, UnitInfo { position: to, owner });
            Some(self.with_knights(moved).after_combat(to))
        } else {
            None
        }
    }
}

/// The failure of a knight move: no knight of the mover at the origin, or a
/// destination that the knight may not enter.
#[derive(Clone, Copy, Debug, PartialEq, Eq, Structural)]
pub struct KnightMoveError;

impl KnightMoveError {
    /// What went wrong, in words.
    pub fn description(&self) -> (r: &'static str)
        ensures
            r@ == "Invalid knight movement attempted"@,
    {
        proof {
            reveal_strlit("Invalid knight movement attempted");
        }
        "Invalid knight movement attempted"
    }
}

/// Row-major positions are distinct for distinct positions of the grid.
pub proof fn lemma_grid_index(p: GameBoardSpacePos, q: GameBoardSpacePos)
    requires
        p.in_bounds(),
        q.in_bounds(),
    ensures
        0 <= grid_index(p) < BOARD_SPACES,
        grid_index(p) == grid_index(q) ==> p == q,
{
    assert(0 <= grid_index(p) < BOARD_SPACES) by (nonlinear_arith)
        requires
            p.x_pos < 13,
            p.y_pos < 7,
            grid_index(p) == p.y_pos * 13 + p.x_pos,
    ;
    if grid_index(p) == grid_index(q) {
        assert(p.y_pos == q.y_pos && p.x_pos == q.x_pos) by (nonlinear_arith)
            requires
                p.x_pos < 13,
                q.x_pos < 13,
                p.y_pos * 13 + p.x_pos == q.y_pos * 13 + q.x_pos,
        ;
    }
}

/// The board: terrain of every space, the cities and the knights.
pub struct GameBoard {
    board_state: Vec<GameBoardSpaceType>,
    cities: Vec<UnitInfo>,
    knights: Vec<UnitInfo>,
}

impl View for GameBoard {
    type V = BoardModel;

    closed spec fn view(&self) -> BoardModel {
        BoardModel { grid: self.board_state@, cities: self.cities@, knights: self.knights@ }
    }
}

fn space_index(position: GameBoardSpacePos) -> (r: usize)
    requires
        position.in_bounds(),
    ensures
        r == grid_index(position),
        r < BOARD_SPACES,
{
    proof {
        lemma_grid_index(position, position);
    }
    (position.y_pos as usize) * MAX_BOARD_WIDTH + position.x_pos as usize
}

impl GameBoard {
    /// An empty board: every space `Void`, no cities, no knights.
    pub fn new() -> (r: GameBoard)
        ensures
            r@.wf(),
            forall|p: GameBoardSpacePos| p.in_bounds() ==> r@.space(p) == GameBoardSpaceType::Void,
            r@.cities.len() == 0,
            r@.knights.len() == 0,
    {
        let mut board_state: Vec<GameBoardSpaceType> = Vec::new();
        let mut i: usize = 0;
        while i < BOARD_SPACES
            invariant
                i <= BOARD_SPACES,
                board_state@.len() == i,
                forall|j: int| 0 <= j < i ==> board_state@[j] == GameBoardSpaceType::Void,
            decreases BOARD_SPACES - i,
        {
            board_state.push(GameBoardSpaceType::Void);
            i = i + 1;
        }
        let r = GameBoard { board_state, cities: Vec::new(), knights: Vec::new() };
        assert forall|p: GameBoardSpacePos| p.in_bounds() implies r@.space(p)
            == GameBoardSpaceType::Void by {
            lemma_grid_index(p, p);
        }
        r
    }

    /// The terrain at `position`.
    pub fn get_board_space_type(&self, position: GameBoardSpacePos) -> (r: GameBoardSpaceType)
        requires
            self@.wf(),
            position.in_bounds(),
        ensures
            r == self@.space(position),
    {
        self.board_state[space_index(position)]
    }

    /// Sets the terrain at `position`, with no legality check.
    pub fn set_board_space_type(
        &mut self,
        position: GameBoardSpacePos,
        space_type: GameBoardSpaceType,
    )
        requires
            old(self)@.wf(),
            position.in_bounds(),
        ensures
            final(self)@.wf(),
            final(self)@.grid == old(self)@.grid.update(grid_index(position), space_type),
            final(self)@.space(position) == space_type,
            forall|q: GameBoardSpacePos|
                q.in_bounds() && q != position ==> final(self)@.space(q) == old(self)@.space(q),
            final(self)@.cities == old(self)@.cities,
            final(self)@.knights == old(self)@.knights,
    {
        let idx = space_index(position);
        self.board_state.set(idx, space_type);
        assert forall|q: GameBoardSpacePos| q.in_bounds() && q != position implies final(self)@.space(
            q,
        ) == old(self)@.space(q) by {
            lemma_grid_index(q, position);
        }
    }

    /// The cities, in the order they were founded.
    pub fn cities(&self) -> (r: &[UnitInfo])
        ensures
            r@ == self@.cities,
    {
        self.cities.as_slice()
    }

    pub fn num_cities(&self) -> (r: usize)
        ensures
            r == self@.cities.len(),
    {
        self.cities.len()
    }

    /// Registers a city of `owner` at `position`, with no legality check.
    pub fn add_city(&mut self, position: GameBoardSpacePos, owner: PlayerColor)
        requires
            old(self)@.wf(),
            position.in_bounds(),
        ensures
            final(self)@.wf(),
            final(self)@.cities == old(self)@.cities.push(UnitInfo { position, owner }),
            final(self)@.grid == old(self)@.grid,
            final(self)@.knights == old(self)@.knights,
    {
        self.cities.push(UnitInfo { position: position, owner: owner });
    }

    /// The knights, in the order they were added.
    pub fn knights(&self) -> (r: &[UnitInfo])
        ensures
            r@ == self@.knights,
    {
        self.knights.as_slice()
    }

    pub fn num_knights(&self) -> (r: usize)
        ensures
            r == self@.knights.len(),
    {
        self.knights.len()
    }

    /// Registers a knight of `owner` at `position`, with no legality check.
    pub fn add_knight(&mut self, position: GameBoardSpacePos, owner: PlayerColor)
        requires
            old(self)@.wf(),
            position.in_bounds(),
        ensures
            final(self)@.wf(),
            final(self)@.knights == old(self)@.knights.push(UnitInfo { position, owner }),
            final(self)@.grid == old(self)@.grid,
            final(self)@.cities == old(self)@.cities,
    {
        self.knights.push(UnitInfo { position: position, owner: owner });
    }

    /// Whether a city may be founded at `position`: not on `Void`, `Water` or
    /// `Forest`, and no city on the space or on any of its neighbors.
    pub fn space_ok_for_city(&self, position: GameBoardSpacePos) -> (r: bool)
        requires
            self@.wf(),
            position.in_bounds(),
        ensures
            r == self@.ok_for_city(position),
    {
        match self.get_board_space_type(position) {
            GameBoardSpaceType::Void | GameBoardSpaceType::Water | GameBoardSpaceType::Forest => {
                false
            },
            _ => {
                let mut i: usize = 0;
                while i < self.cities.len()
                    invariant
                        i <= self.cities@.len(),
                        forall|j: int|
                            0 <= j < i ==> {
                                let c = #[trigger] self.cities@[j].position;
                                c != position && !position.neighbors().contains(c)
                            },
                    decreases self.cities@.len() - i,
                {
                    let c = self.cities[i].position;
                    if c == position || position.is_neighbor(c) {
                        return false;
                    }
                    i = i + 1;
                }
                true
            },
        }
    }

    /// Number of knights at `position` whose owner is not `owner`.
    pub fn opposing_unit_count_at_pos(&self, position: GameBoardSpacePos, owner: PlayerColor) -> (r:
        usize)
        ensures
            r == opposing_count(self@.knights, position, owner),
    {
        let mut count: usize = 0;
        let mut i: usize = 0;
        while i < self.knights.len()
            invariant
                i <= self.knights@.len(),
                count <= i,
                count == opposing_count(self.knights@.subrange(0, i as int), position, owner),
            decreases self.knights@.len() - i,
        {
            let k = self.knights[i];
            proof {
                assert(self.knights@.subrange(0, i + 1).drop_last() =~= self.knights@.subrange(
                    0,
                    i as int,
                ));
            }
            if k.position == position && k.owner != owner {
                count = count + 1;
            }
            i = i + 1;
        }
        assert(self.knights@.subrange(0, i as int) =~= self.knights@);
        count
    }

    /// Number of knights at `position` owned by `owner`.
    pub fn owned_unit_count_at_pos(&self, position: GameBoardSpacePos, owner: PlayerColor) -> (r:
        usize)
        ensures
            r == owned_count(self@.knights, position, owner),
    {
        let mut count: usize = 0;
        let mut i: usize = 0;
        while i < self.knights.len()
            invariant
                i <= self.knights@.len(),
                count <= i,
                count == owned_count(self.knights@.subrange(0, i as int), position, owner),
            decreases self.knights@.len() - i,
        {
            let k = self.knights[i];
            proof {
                assert(self.knights@.subrange(0, i + 1).drop_last() =~= self.knights@.subrange(
                    0,
                    i as int,
                ));
            }
            if k.position == position && k.owner == owner {
                count = count + 1;
            }
            i = i + 1;
        }
        assert(self.knights@.subrange(0, i as int) =~= self.knights@);
        count
    }

    /// Number of knights at `position`, whoever owns them.
    pub fn unit_count_at_pos(&self, position: GameBoardSpacePos) -> (r: usize)
        ensures
            r == count_at(self@.knights, position),
    {
        let mut count: usize = 0;
        let mut i: usize = 0;
        while i < self.knights.len()
            invariant
                i <= self.knights@.len(),
                count <= i,
                count == count_at(self.knights@.subrange(0, i as int), position),
            decreases self.knights@.len() - i,
        {
            let k = self.knights[i];
            proof {
                assert(self.knights@.subrange(0, i + 1).drop_last() =~= self.knights@.subrange(
                    0,
                    i as int,
                ));
            }
            if k.position == position {
                count = count + 1;
            }
            i = i + 1;
        }
        assert(self.knights@.subrange(0, i as int) =~= self.knights@);
        count
    }

    /// Whether a knight of `owner` may enter `position`: never into an enemy
    /// city, `Void` or `Water`; into a `Mountain` only where no opposing knight
    /// stands; into `Forest`, `Plains` or `Field` where fewer than two do.
    pub fn space_ok_for_knight(&self, position: GameBoardSpacePos, owner: PlayerColor) -> (r: bool)
        requires
            self@.wf(),
            position.in_bounds(),
        ensures
            r == self@.ok_for_knight(position, owner),
    {
        let mut i: usize = 0;
        while i < self.cities.len()
            invariant
                i <= self.cities@.len(),
                forall|j: int|
                    0 <= j < i ==> !(#[trigger] self.cities@[j].position == position
                        && self.cities@[j].owner != owner),
            decreases self.cities@.len() - i,
        {
            let c = self.cities[i];
            if c.position == position && c.owner != owner {
                return false;
            }
            i = i + 1;
        }
        let opposing = self.opposing_unit_count_at_pos(position, owner);
        match self.get_board_space_type(position) {
            GameBoardSpaceType::Void | GameBoardSpaceType::Water => false,
            GameBoardSpaceType::Mountain => opposing == 0,
            _ => opposing < 2,
        }
    }

    /// The index of the first knight of `owner` at `position`, if any.
    fn find_own_knight(&self, position: GameBoardSpacePos, owner: PlayerColor) -> (r: Option<usize>)
        ensures
            match r {
                Some(i) => is_first_own(self@.knights, position, owner, i as int),
                None => !own_unit_at(self@.knights, position, owner),
            },
    {
        let mut i: usize = 0;
        while i < self.knights.len()
            invariant
                i <= self.knights@.len(),
                forall|j: int|
                    0 <= j < i ==> !(#[trigger] self.knights@[j].position == position
                        && self.knights@[j].owner == owner),
            decreases self.knights@.len() - i,
        {
            let k = self.knights[i];
            if k.position == position && k.owner == owner {
                return Some(i);
            }
            i = i + 1;
        }
        None
    }

    /// Puts the first knight of `owner` at `at` back on `origin`, to take back
    /// a move: no legality check and no combat. Returns whether `owner` had a
    /// knight at `at`; the board is unchanged where not.
    pub fn return_knight(
        &mut self,
        at: GameBoardSpacePos,
        origin: GameBoardSpacePos,
        owner: PlayerColor,
    ) -> (r: bool)
        requires
            old(self)@.wf(),
            origin.in_bounds(),
        ensures
            final(self)@.wf(),
            r == own_unit_at(old(self)@.knights, at, owner),
            final(self)@ == old(self)@.knight_returned(at, origin, owner),
    {
        match self.find_own_knight(at, owner) {
            None => false,
            Some(i) => {
                proof {
                    lemma_first_own_index(self@.knights, at, owner, i as int);
                }
                self.knights.set(i, UnitInfo { position: origin, owner: owner });
                true
            },
        }
    }

    /// Moves the first knight of `owner` found at `from_pos` to `to_pos` and
    /// resolves combat there, returning the knights that combat removed. Fails,
    /// leaving the board unchanged, where `owner` has no knight at `from_pos`
    /// or the knight may not enter `to_pos`.
    pub fn move_knight(
        &mut self,
        from_pos: GameBoardSpacePos,
        to_pos: GameBoardSpacePos,
        owner: PlayerColor,
    ) -> (r: Result<Vec<UnitInfo>, KnightMoveError>)
        requires
            old(self)@.wf(),
            to_pos.in_bounds(),
        ensures
            final(self)@.wf(),
            match r {
                Ok(dead) => old(self)@.move_outcome(from_pos, to_pos, owner) == Some(
                    (final(self)@, dead@),
                ) && single_majority(final(self)@.knights, to_pos),
                Err(_) => old(self)@.move_outcome(from_pos, to_pos, owner) is None && final(self)@
                    == old(self)@,
            },
    {
        match self.find_own_knight(from_pos, owner) {
            None => Err(KnightMoveError),
            Some(i) => {
                if self.space_ok_for_knight(to_pos, owner) {
                    let ghost before = self@;
                    let moved_unit = UnitInfo { position: to_pos, owner: owner };
                    proof {
                        lemma_first_own_index(before.knights, from_pos, owner, i as int);
                        lemma_opposing_count_update(before.knights, i as int, moved_unit, to_pos);
                    }
                    self.knights.set(i, moved_unit);
                    proof {
                        lemma_single_majority(self@.knights, to_pos, owner);
                        lemma_resolution_single_majority(self@.knights, to_pos);
                        assert(self@ == before.with_knights(
                            before.knights.update(i as int, moved_unit),
                        ));
                    }
                    Ok(self.resolve_coexistence(to_pos))
                } else {
                    Err(KnightMoveError)
                }
            },
        }
    }

    /// Combat at `position`: with three or more knights there and one owner
    /// holding at least two of them, every knight of the other owners there is
    /// removed and returned; otherwise nothing changes.
    pub fn resolve_coexistence(&mut self, position: GameBoardSpacePos) -> (r: Vec<UnitInfo>)
        requires
            old(self)@.wf(),
            single_majority(old(self)@.knights, position),
        ensures
            final(self)@.wf(),
            (final(self)@, r@) == old(self)@.after_combat(position),
    {
        let total = self.unit_count_at_pos(position);
        if total < 3 {
            return Vec::new();
        }
        let winner = if self.owned_unit_count_at_pos(position, PlayerColor::Red) >= 2 {
            Some(PlayerColor::Red)
        } else if self.owned_unit_count_at_pos(position, PlayerColor::Blue) >= 2 {
            Some(PlayerColor::Blue)
        } else if self.owned_unit_count_at_pos(position, PlayerColor::Green) >= 2 {
            Some(PlayerColor::Green)
        } else if self.owned_unit_count_at_pos(position, PlayerColor::Yellow) >= 2 {
            Some(PlayerColor::Yellow)
        } else {
            None
        };
        match winner {
            None => Vec::new(),
            Some(w) => {
                let mut dead: Vec<UnitInfo> = Vec::new();
                let mut kept: Vec<UnitInfo> = Vec::new();
                let mut i: usize = 0;
                while i < self.knights.len()
                    invariant
                        i <= self.knights@.len(),
                        units_in_bounds(self.knights@),
                        units_in_bounds(kept@),
                        dead@ == casualties(self.knights@.subrange(0, i as int), position, w),
                        kept@ == survivors(self.knights@.subrange(0, i as int), position, w),
                    decreases self.knights@.len() - i,
                {
                    let k = self.knights[i];
                    proof {
                        assert(self.knights@.subrange(0, i + 1).drop_last()
                            =~= self.knights@.subrange(0, i as int));
                    }
                    if k.position == position && k.owner != w {
                        dead.push(k);
                    } else {
                        kept.push(k);
                    }
                    i = i + 1;
                }
                assert(self.knights@.subrange(0, i as int) =~= self.knights@);
                self.knights = kept;
                dead
            },
        }
    }
}

/// Cities keep their distance: no city can be founded on a space that holds
/// a city or that neighbors one, and on a space of a terrain that allows a
/// city, with no city on it or next to it, one can.
pub proof fn lemma_city_spacing(b: BoardModel, p: GameBoardSpacePos)
    requires
        b.wf(),
        p.in_bounds(),
    ensures
        (exists|i: int|
            0 <= i < b.cities.len() && ((#[trigger] b.cities[i]).position == p
                || b.cities[i].position.adjacent(p))) ==> !b.ok_for_city(p),
        b.space(p) != GameBoardSpaceType::Void && b.space(p) != GameBoardSpaceType::Water
            && b.space(p) != GameBoardSpaceType::Forest && (forall|i: int|
            0 <= i < b.cities.len() ==> (#[trigger] b.cities[i]).position != p
                && !b.cities[i].position.adjacent(p)) ==> b.ok_for_city(p),
{
    assert forall|i: int| 0 <= i < b.cities.len() implies (#[trigger] b.cities[i].position.adjacent(
        p,
    )) == p.neighbors().contains(b.cities[i].position) by {
        lemma_neighbor_symmetric(p, b.cities[i].position);
        lemma_neighbors_contains(p, b.cities[i].position);
    }
}

/// A knight can never enter a `Mountain` held by an enemy knight, and can
/// always enter one that no enemy knight or city holds.
pub proof fn lemma_mountain_entry(
    b: BoardModel,
    from: GameBoardSpacePos,
    to: GameBoardSpacePos,
    owner: PlayerColor,
)
    requires
        b.wf(),
        to.in_bounds(),
        b.space(to) == GameBoardSpaceType::Mountain,
    ensures
        opposing_count(b.knights, to, owner) >= 1 ==> b.move_outcome(from, to, owner) is None,
        opposing_count(b.knights, to, owner) == 0 && own_unit_at(b.knights, from, owner)
            && !enemy_city_at(b.cities, to, owner) ==> b.move_outcome(from, to, owner) is Some,
{
}

/// Taking back a knight move that removed nobody restores the board: the
/// terrain and cities are as they were and the knights are the same units;
/// where no other knight stood at the destination, even their order is
/// the same.
pub proof fn lemma_move_undo(
    b: BoardModel,
    from: GameBoardSpacePos,
    to: GameBoardSpacePos,
    owner: PlayerColor,
)
    requires
        b.wf(),
        b.move_outcome(from, to, owner) matches Some((_, dead)) && dead.len() == 0,
    ensures
        ({
            let b1 = b.move_outcome(from, to, owner).unwrap().0;
            let b2 = b1.knight_returned(to, from, owner);
            &&& own_unit_at(b1.knights, to, owner)
            &&& b2.grid == b.grid
            &&& b2.cities == b.cities
            &&& b2.knights.to_multiset() == b.knights.to_multiset()
            &&& count_at(b.knights, to) == 0 ==> b2 == b
        }),
{
    broadcast use vstd::seq_lib::group_to_multiset_ensures;
    broadcast use vstd::multiset::group_multiset_axioms;

    let s = b.knights;
    lemma_first_own_exists(s, from, owner);
    let i = first_own_index(s, from, owner);
    let u = UnitInfo { position: to, owner };
    let back = UnitInfo { position: from, owner };
    let moved = s.update(i, u);
    assert(s[i] == back);
    lemma_no_casualties(moved, to);
    let b1 = b.move_outcome(from, to, owner).unwrap().0;
    assert(b1.knights == moved);
    assert(moved[i] == u);
    assert(own_unit_at(moved, to, owner));
    lemma_first_own_exists(moved, to, owner);
    let j = first_own_index(moved, to, owner);
    assert(moved[j] == u);
    let k = moved.update(j, back);
    assert(moved.to_multiset() == s.to_multiset().remove(back).insert(u));
    assert(k.to_multiset() == moved.to_multiset().remove(u).insert(back));
    assert(s.to_multiset().count(back) > 0) by {
        assert(s.contains(back));
    }
    assert(k.to_multiset() =~= s.to_multiset());
    if count_at(s, to) == 0 {
        lemma_count_at_zero(s, to);
        assert(is_first_own(moved, to, owner, i));
        lemma_first_own_index(moved, to, owner, i);
        assert(k =~= s);
    }
}

} // verus!
