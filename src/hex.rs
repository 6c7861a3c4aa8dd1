use vstd::prelude::*;

verus! {

/// Number of rows of the grid.
pub const MAX_BOARD_HEIGHT: usize = 7;

/// Number of columns of the grid.
pub const MAX_BOARD_WIDTH: usize = 13;

/// A space of the offset hexagonal grid: column `x_pos`, row `y_pos`.
/// Odd columns sit half a row higher than even columns.
#[derive(Clone, Copy, Debug, PartialEq, Eq, Hash, Structural)]
pub struct GameBoardSpacePos {
    pub x_pos: u8,
    pub y_pos: u8,
}

/// A position built from integer coordinates, when both fit the grid's
/// coordinate type.
pub open spec fn pos_at(x: int, y: int) -> GameBoardSpacePos {
    GameBoardSpacePos { x_pos: x as u8, y_pos: y as u8 }
}

/// The present position at (x, y), or `None` when (x, y) falls off the
/// side of the grid that the direction can leave through.
pub open spec fn step_to(x: int, y: int, present: bool) -> Option<GameBoardSpacePos> {
    if present {
        Some(pos_at(x, y))
    } else {
        None
    }
}

pub open spec fn option_to_seq(o: Option<GameBoardSpacePos>) -> Seq<GameBoardSpacePos> {
    match o {
        Some(p) => seq![p],
        None => Seq::empty(),
    }
}

impl GameBoardSpacePos {
    /// The position lies on the grid.
    pub open spec fn in_bounds(self) -> bool {
        &&& (self.x_pos as int) < MAX_BOARD_WIDTH as int
        &&& (self.y_pos as int) < MAX_BOARD_HEIGHT as int
    }

    pub open spec fn odd_column(self) -> bool {
        self.x_pos % 2 == 1
    }

    pub open spec fn up_spec(self) -> Option<GameBoardSpacePos> {
        let y = self.y_pos + 1;
        step_to(self.x_pos as int, y, y < MAX_BOARD_HEIGHT as int)
    }

    pub open spec fn up_right_spec(self) -> Option<GameBoardSpacePos> {
        let x = self.x_pos + 1;
        let y = if self.odd_column() { self.y_pos + 1 } else { self.y_pos as int };
        step_to(x, y, x < MAX_BOARD_WIDTH as int && y < MAX_BOARD_HEIGHT as int)
    }

    pub open spec fn down_right_spec(self) -> Option<GameBoardSpacePos> {
        let x = self.x_pos + 1;
        let y = if self.odd_column() { self.y_pos as int } else { self.y_pos - 1 };
        step_to(x, y, x < MAX_BOARD_WIDTH as int && y >= 0)
    }

    pub open spec fn down_spec(self) -> Option<GameBoardSpacePos> {
        let y = self.y_pos - 1;
        step_to(self.x_pos as int, y, y >= 0)
    }

    pub open spec fn down_left_spec(self) -> Option<GameBoardSpacePos> {
        let x = self.x_pos - 1;
        let y = if self.odd_column() { self.y_pos as int } else { self.y_pos - 1 };
        step_to(x, y, x >= 0 && y >= 0)
    }

    pub open spec fn up_left_spec(self) -> Option<GameBoardSpacePos> {
        let x = self.x_pos - 1;
        let y = if self.odd_column() { self.y_pos + 1 } else { self.y_pos as int };
        step_to(x, y, x >= 0 && y < MAX_BOARD_HEIGHT as int)
    }

    /// The present neighbors, in the order up, up-right, down-right, down,
    /// down-left, up-left.
    pub open spec fn neighbors(self) -> Seq<GameBoardSpacePos> {
        option_to_seq(self.up_spec()) + option_to_seq(self.up_right_spec()) + option_to_seq(
            self.down_right_spec(),
        ) + option_to_seq(self.down_spec()) + option_to_seq(self.down_left_spec())
            + option_to_seq(self.up_left_spec())
    }

    /// `other` is one of the six neighbors of `self`.
    pub open spec fn adjacent(self, other: GameBoardSpacePos) -> bool {
        ||| self.up_spec() == Some(other)
        ||| self.up_right_spec() == Some(other)
        ||| self.down_right_spec() == Some(other)
        ||| self.down_spec() == Some(other)
        ||| self.down_left_spec() == Some(other)
        ||| self.up_left_spec() == Some(other)
    }

    /// The position above this one.
    pub fn up(&self) -> (r: Option<GameBoardSpacePos>)
        ensures
            r == self.up_spec(),
    {
        if (self.y_pos as usize) + 1 < MAX_BOARD_HEIGHT {
            Some(GameBoardSpacePos { x_pos: self.x_pos, y_pos: self.y_pos + 1 })
        } else {
            None
        }
    }

    /// The position up and to the right of this one.
    pub fn up_right(&self) -> (r: Option<GameBoardSpacePos>)
        ensures
            r == self.up_right_spec(),
    {
        if (self.x_pos as usize) + 1 >= MAX_BOARD_WIDTH {
            return None;
        }
        let next_x = self.x_pos + 1;
        if self.x_pos % 2 == 1 {
            if (self.y_pos as usize) + 1 < MAX_BOARD_HEIGHT {
                Some(GameBoardSpacePos { x_pos: next_x, y_pos: self.y_pos + 1 })
            } else {
                None
            }
        } else if (self.y_pos as usize) < MAX_BOARD_HEIGHT {
            Some(GameBoardSpacePos { x_pos: next_x, y_pos: self.y_pos })
        } else {
            None
        }
    }

    /// The position down and to the right of this one.
    pub fn down_right(&self) -> (r: Option<GameBoardSpacePos>)
        ensures
            r == self.down_right_spec(),
    {
        if (self.x_pos as usize) + 1 >= MAX_BOARD_WIDTH {
            return None;
        }
        let next_x = self.x_pos + 1;
        if self.x_pos % 2 == 1 {
            Some(GameBoardSpacePos { x_pos: next_x, y_pos: self.y_pos })
        } else if self.y_pos >= 1 {
            Some(GameBoardSpacePos { x_pos: next_x, y_pos: self.y_pos - 1 })
        } else {
            None
        }
    }

    /// The position below this one.
    pub fn down(&self) -> (r: Option<GameBoardSpacePos>)
        ensures
            r == self.down_spec(),
    {
        if self.y_pos >= 1 {
            Some(GameBoardSpacePos { x_pos: self.x_pos, y_pos: self.y_pos - 1 })
        } else {
            None
        }
    }

    /// The position down and to the left of this one.
    pub fn down_left(&self) -> (r: Option<GameBoardSpacePos>)
        ensures
            r == self.down_left_spec(),
    {
        if self.x_pos == 0 {
            return None;
        }
        let next_x = self.x_pos - 1;
        if self.x_pos % 2 == 1 {
            Some(GameBoardSpacePos { x_pos: next_x, y_pos: self.y_pos })
        } else if self.y_pos >= 1 {
            Some(GameBoardSpacePos { x_pos: next_x, y_pos: self.y_pos - 1 })
        } else {
            None
        }
    }

    /// The position up and to the left of this one.
    pub fn up_left(&self) -> (r: Option<GameBoardSpacePos>)
        ensures
            r == self.up_left_spec(),
    {
        if self.x_pos == 0 {
            return None;
        }
        let next_x = self.x_pos - 1;
        if self.x_pos % 2 == 1 {
            if (self.y_pos as usize) + 1 < MAX_BOARD_HEIGHT {
                Some(GameBoardSpacePos { x_pos: next_x, y_pos: self.y_pos + 1 })
            } else {
                None
            }
        } else if (self.y_pos as usize) < MAX_BOARD_HEIGHT {
            Some(GameBoardSpacePos { x_pos: next_x, y_pos: self.y_pos })
        } else {
            None
        }
    }

    /// All present neighbors, in the order up, up-right, down-right, down,
    /// down-left, up-left.
    pub fn all_neighboring_positions(&self) -> (r: Vec<GameBoardSpacePos>)
        ensures
            r@ == self.neighbors(),
    {
        let mut ret_val: Vec<GameBoardSpacePos> = Vec::new();
        if let Some(p) = self.up() {
            ret_val.push(p);
        }
        assert(ret_val@ =~= option_to_seq(self.up_spec()));
        if let Some(p) = self.up_right() {
            ret_val.push(p);
        }
        assert(ret_val@ =~= option_to_seq(self.up_spec()) + option_to_seq(self.up_right_spec()));
        if let Some(p) = self.down_right() {
            ret_val.push(p);
        }
        assert(ret_val@ =~= option_to_seq(self.up_spec()) + option_to_seq(self.up_right_spec())
            + option_to_seq(self.down_right_spec()));
        if let Some(p) = self.down() {
            ret_val.push(p);
        }
        assert(ret_val@ =~= option_to_seq(self.up_spec()) + option_to_seq(self.up_right_spec())
            + option_to_seq(self.down_right_spec()) + option_to_seq(self.down_spec()));
        if let Some(p) = self.down_left() {
            ret_val.push(p);
        }
        assert(ret_val@ =~= option_to_seq(self.up_spec()) + option_to_seq(self.up_right_spec())
            + option_to_seq(self.down_right_spec()) + option_to_seq(self.down_spec())
            + option_to_seq(self.down_left_spec()));
        if let Some(p) = self.up_left() {
            ret_val.push(p);
        }
        assert(ret_val@ =~= self.neighbors());
        ret_val
    }

    /// Whether `other_pos` is one of the present neighbors of this position.
    pub fn is_neighbor(&self, other_pos: GameBoardSpacePos) -> (r: bool)
        ensures
            r == self.neighbors().contains(other_pos),
            r == self.adjacent(other_pos),
    {
        proof {
            lemma_neighbors_contains(*self, other_pos);
        }
        let neighbors = self.all_neighboring_positions();
        let mut i: usize = 0;
        while i < neighbors.len()
            invariant
                i <= neighbors@.len(),
                neighbors@ == self.neighbors(),
                forall|j: int| 0 <= j < i ==> neighbors@[j] != other_pos,
            decreases neighbors@.len() - i,
        {
            if neighbors[i] == other_pos {
                return true;
            }
            i = i + 1;
        }
        false
    }
}

/// Membership in the neighbor list is adjacency in one of the six
/// directions.
pub proof fn lemma_neighbors_contains(p: GameBoardSpacePos, q: GameBoardSpacePos)
    ensures
        p.neighbors().contains(q) <==> p.adjacent(q),
{
    let s1 = option_to_seq(p.up_spec());
    let s2 = option_to_seq(p.up_right_spec());
    let s3 = option_to_seq(p.down_right_spec());
    let s4 = option_to_seq(p.down_spec());
    let s5 = option_to_seq(p.down_left_spec());
    let s6 = option_to_seq(p.up_left_spec());
    assert forall|s: Seq<GameBoardSpacePos>, t: Seq<GameBoardSpacePos>|
        (#[trigger] (s + t)).contains(q) <==> s.contains(q) || t.contains(q) by {
        if (s + t).contains(q) {
            let k = choose|k: int| 0 <= k < (s + t).len() && (s + t)[k] == q;
            if k < s.len() {
                assert(s[k] == q);
            } else {
                assert(t[k - s.len()] == q);
            }
        }
        if s.contains(q) {
            let k = choose|k: int| 0 <= k < s.len() && s[k] == q;
            assert((s + t)[k] == q);
        }
        if t.contains(q) {
            let k = choose|k: int| 0 <= k < t.len() && t[k] == q;
            assert((s + t)[k + s.len()] == q);
        }
    }
    assert forall|o: Option<GameBoardSpacePos>| #[trigger]
        option_to_seq(o).contains(q) <==> o == Some(q) by {
        if o == Some(q) {
            assert(option_to_seq(o)[0] == q);
        }
    }
    assert(p.neighbors() == s1 + s2 + s3 + s4 + s5 + s6);
}

/// The number of the six directions in which a position of the grid has no
/// neighbor: the top row loses up, the bottom row loses down, the outer
/// columns lose their outer diagonals, and the half-row stagger takes the
/// upper diagonals of odd columns in the top row and the lower diagonals of
/// even columns in the bottom row.
pub open spec fn missing_sides(p: GameBoardSpacePos) -> int {
    let x = p.x_pos as int;
    let y = p.y_pos as int;
    let top = y == MAX_BOARD_HEIGHT - 1;
    let bottom = y == 0;
    let left = x == 0;
    let right = x == MAX_BOARD_WIDTH - 1;
    let odd = p.odd_column();
    (if top { 1int } else { 0 }) + (if bottom { 1int } else { 0 }) + (if right || (odd && top) {
        1int
    } else {
        0
    }) + (if left || (odd && top) { 1int } else { 0 }) + (if right || (!odd && bottom) {
        1int
    } else {
        0
    }) + (if left || (!odd && bottom) { 1int } else { 0 })
}

/// Neither on an outer column nor on the top or bottom row.
pub open spec fn is_interior(p: GameBoardSpacePos) -> bool {
    &&& 1 <= p.x_pos < MAX_BOARD_WIDTH - 1
    &&& 1 <= p.y_pos < MAX_BOARD_HEIGHT - 1
}

/// A position of the grid has one neighbor for each direction that the
/// boundary does not cut off; interior positions have all six, and every
/// neighbor is itself on the grid.
pub proof fn lemma_neighbor_count(p: GameBoardSpacePos)
    requires
        p.in_bounds(),
    ensures
        p.neighbors().len() == 6 - missing_sides(p),
        is_interior(p) ==> p.neighbors().len() == 6,
        !is_interior(p) ==> p.neighbors().len() < 6,
        forall|i: int| 0 <= i < p.neighbors().len() ==> (#[trigger] p.neighbors()[i]).in_bounds(),
        forall|i: int| 0 <= i < p.neighbors().len() ==> #[trigger] p.neighbors()[i] != p,
{
    assert forall|o: Option<GameBoardSpacePos>| #[trigger]
        option_to_seq(o).len() == if o is Some { 1int } else { 0 } by {}
    assert forall|i: int| 0 <= i < p.neighbors().len() implies (#[trigger] p.neighbors()[i]).in_bounds()
        && p.neighbors()[i] != p by {
        lemma_neighbors_contains(p, p.neighbors()[i]);
        assert(p.neighbors().contains(p.neighbors()[i]));
    }
}

/// Adjacency on the grid is symmetric.
pub proof fn lemma_neighbor_symmetric(p: GameBoardSpacePos, q: GameBoardSpacePos)
    requires
        p.in_bounds(),
        q.in_bounds(),
    ensures
        p.adjacent(q) == q.adjacent(p),
        p.neighbors().contains(q) == q.neighbors().contains(p),
{
    lemma_neighbors_contains(p, q);
    lemma_neighbors_contains(q, p);
}

} // verus!
