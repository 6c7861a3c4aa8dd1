use vstd::prelude::*;

use crate::board::{lemma_move_undo, BoardModel, GameBoardSpaceType};
use crate::game::{
    city_drop_result, same_setup, tile_drop_result, unchanged, GameUIData, PIECES_PER_PLAYER,
};
use crate::hex::{lemma_neighbor_count, GameBoardSpacePos};
use crate::tiles::NUM_BOARD_PIECES;
use crate::units::{count_at, own_unit_at, owned_count, PlayerColor, UnitInfo};

verus! {

/// Which phase of a turn is active.
#[derive(Clone, Copy, Debug, PartialEq, Eq, Structural)]
pub enum PlayerActionType {
    SetupBoard,
    SetupCities,
    ChooseAction,
    Recruitment,
    Movement,
    Construction,
    NewCity,
    Expedition,
    NobleTitle,
    End,
}

/// A key press, as far as the turn rules tell keys apart. The number keys
/// of the main row and of the keypad are the same key here.
#[derive(Clone, Copy, Debug, PartialEq, Eq, Structural)]
pub enum Key {
    Num1,
    Num2,
    Num3,
    Num4,
    Num5,
    Num6,
    Backspace,
    Y,
    Other,
}

/// How many knights a number key asks for in recruitment; zero for other
/// keys.
pub open spec fn key_count(key: Key) -> int {
    match key {
        Key::Num1 => 1,
        Key::Num2 => 2,
        Key::Num3 => 3,
        _ => 0,
    }
}

/// A city of `owner` stands at `p`.
pub open spec fn friendly_city_at(b: BoardModel, p: GameBoardSpacePos, owner: PlayerColor) -> bool {
    own_unit_at(b.cities, p, owner)
}

/// Some neighbor of `p` is `Water`.
pub open spec fn water_adjacent(b: BoardModel, p: GameBoardSpacePos) -> bool {
    exists|i: int|
        0 <= i < p.neighbors().len() && b.space(#[trigger] p.neighbors()[i])
            == GameBoardSpaceType::Water
}

/// The most knights a city at `p` can recruit: three next to water, two
/// elsewhere, and never more than the inventory holds.
pub open spec fn max_recruits(d: GameUIData, p: GameBoardSpacePos) -> int {
    let cap: int = if water_adjacent(d.game_board@, p) {
        3
    } else {
        2
    };
    if d.player_inventory.num_knights < cap {
        d.player_inventory.num_knights as int
    } else {
        cap
    }
}

/// `n` copies of `u` added after the knights `s`.
pub open spec fn knights_added(s: Seq<UnitInfo>, u: UnitInfo, n: nat) -> Seq<UnitInfo> {
    s + Seq::new(n, |i: int| u)
}

/// A knight of `owner` can move away from `from`: `owner` has a knight there
/// that was not just moved in alone, and some neighbor lets it in.
pub open spec fn movable_from(
    b: BoardModel,
    owner: PlayerColor,
    from: GameBoardSpacePos,
    first_move: Option<(GameBoardSpacePos, GameBoardSpacePos)>,
) -> bool {
    let n = owned_count(b.knights, from, owner);
    &&& !(first_move matches Some((_, to)) && to == from && n == 1)
    &&& n > 0
    &&& exists|i: int|
        0 <= i < from.neighbors().len() && b.ok_for_knight(#[trigger] from.neighbors()[i], owner)
}

/// Some knight of `owner` can move.
pub open spec fn movement_viable(b: BoardModel, owner: PlayerColor) -> bool {
    exists|i: int|
        0 <= i < b.knights.len() && (#[trigger] b.knights[i]).owner == owner && movable_from(
            b,
            owner,
            b.knights[i].position,
            None,
        )
}

/// A knight of `owner` at `from` may move to `to`: the two are neighbors and
/// the knight may enter `to`.
pub open spec fn to_space_viable(
    b: BoardModel,
    owner: PlayerColor,
    from: GameBoardSpacePos,
    to: GameBoardSpacePos,
) -> bool {
    to.adjacent(from) && b.ok_for_knight(to, owner)
}

/// The phase that a key chooses from the list of actions, where it is
/// available.
pub open spec fn chosen_action(d: GameUIData, key: Key) -> Option<TurnPhase> {
    match key {
        Key::Num1 => if d.player_inventory.num_knights > 0 {
            Some(TurnPhase::Recruitment(Recruitment { selected_city: None }))
        } else {
            None
        },
        Key::Num2 => if movement_viable(d.game_board@, d.player_color) {
            Some(TurnPhase::Movement(Movement { selected_knight: None, first_move: None }))
        } else {
            None
        },
        Key::Num3 => Some(TurnPhase::Construction(Construction {})),
        Key::Num4 => Some(TurnPhase::NewCity(NewCity {})),
        Key::Num5 => Some(TurnPhase::Expedition(Expedition {})),
        Key::Num6 => Some(TurnPhase::NobleTitle(NobleTitle {})),
        _ => None,
    }
}

pub open spec fn back_to_choice() -> Option<TurnPhase> {
    Some(TurnPhase::ChooseAction(ChooseAction {}))
}

/// A phase that does nothing but offer Backspace to go back to the choice of
/// action.
pub open spec fn stub_key_post(d: GameUIData, key: Key, d2: GameUIData, r: Option<TurnPhase>) -> bool {
    &&& unchanged(d, d2)
    &&& r == if key == Key::Backspace {
        back_to_choice()
    } else {
        None
    }
}

/// Laying the board: each click lays a tile on three empty spaces.
#[derive(Clone, Copy, Debug, PartialEq, Eq, Structural)]
pub struct SetupBoard {}

impl SetupBoard {
    pub open spec fn click_post(d: GameUIData, d2: GameUIData, r: Option<TurnPhase>) -> bool {
        &&& tile_drop_result(d, d2)
        &&& r == if d2.board_setup_done() {
            Some(TurnPhase::SetupCities(SetupCities {}))
        } else {
            None
        }
    }

    pub fn get_action_type(&self) -> (r: PlayerActionType)
        ensures
            r == PlayerActionType::SetupBoard,
    {
        PlayerActionType::SetupBoard
    }

    /// Lays a random tile from the pool on the three spaces under the pointer
    /// where they are all `Void`; moves on to city setup once the players
    /// have laid their tiles.
    pub fn mouse_clicked(&mut self, game_ui_data: &mut GameUIData) -> (r: Option<TurnPhase>)
        requires
            old(game_ui_data).wf(),
        ensures
            final(game_ui_data).wf(),
            *final(self) == *old(self),
            SetupBoard::click_post(*old(game_ui_data), *final(game_ui_data), r),
    {
        game_ui_data.drop_board_piece();
        let pool = game_ui_data.unplaced_board_pieces.len();
        let laid_by_players = PIECES_PER_PLAYER * (game_ui_data.num_players as usize);
        if pool <= NUM_BOARD_PIECES && laid_by_players <= NUM_BOARD_PIECES - pool {
            Some(TurnPhase::SetupCities(SetupCities {}))
        } else {
            None
        }
    }

    /// Keys do nothing while the board is laid.
    pub fn key_pressed(&mut self, game_ui_data: &mut GameUIData, key: Key) -> (r: Option<TurnPhase>)
        ensures
            *final(self) == *old(self),
            unchanged(*old(game_ui_data), *final(game_ui_data)),
            r is None,
    {
        None
    }
}

/// Founding the starting cities.
#[derive(Clone, Copy, Debug, PartialEq, Eq, Structural)]
pub struct SetupCities {}

impl SetupCities {
    pub open spec fn click_post(d: GameUIData, d2: GameUIData, r: Option<TurnPhase>) -> bool {
        &&& city_drop_result(d, d2)
        &&& r == if d2.game_board@.cities.len() >= 3 {
            back_to_choice()
        } else {
            None
        }
    }

    pub fn get_action_type(&self) -> (r: PlayerActionType)
        ensures
            r == PlayerActionType::SetupCities,
    {
        PlayerActionType::SetupCities
    }

    /// Founds a city with a knight under the pointer where allowed; moves on
    /// to the choice of action once three cities stand.
    pub fn mouse_clicked(&mut self, game_ui_data: &mut GameUIData) -> (r: Option<TurnPhase>)
        requires
            old(game_ui_data).wf(),
        ensures
            final(game_ui_data).wf(),
            *final(self) == *old(self),
            SetupCities::click_post(*old(game_ui_data), *final(game_ui_data), r),
    {
        game_ui_data.drop_city();
        if game_ui_data.game_board.num_cities() >= 3 {
            Some(TurnPhase::ChooseAction(ChooseAction {}))
        } else {
            None
        }
    }

    /// Keys do nothing while cities are founded.
    pub fn key_pressed(&mut self, game_ui_data: &mut GameUIData, key: Key) -> (r: Option<TurnPhase>)
        ensures
            *final(self) == *old(self),
            unchanged(*old(game_ui_data), *final(game_ui_data)),
            r is None,
    {
        None
    }
}

/// Choosing the action of the turn with a number key.
#[derive(Clone, Copy, Debug, PartialEq, Eq, Structural)]
pub struct ChooseAction {}

impl ChooseAction {
    pub fn get_action_type(&self) -> (r: PlayerActionType)
        ensures
            r == PlayerActionType::ChooseAction,
    {
        PlayerActionType::ChooseAction
    }

    /// Clicks do nothing here.
    pub fn mouse_clicked(&mut self, game_ui_data: &mut GameUIData) -> (r: Option<TurnPhase>)
        ensures
            *final(self) == *old(self),
            unchanged(*old(game_ui_data), *final(game_ui_data)),
            r is None,
    {
        None
    }

    /// Keys 1 to 6 choose recruitment, movement, construction, a new city,
    /// an expedition or a noble title; recruitment needs a knight in the
    /// inventory and movement a knight that can move.
    pub fn key_pressed(&mut self, game_ui_data: &mut GameUIData, key: Key) -> (r: Option<TurnPhase>)
        requires
            old(game_ui_data).wf(),
        ensures
            *final(self) == *old(self),
            unchanged(*old(game_ui_data), *final(game_ui_data)),
            r == chosen_action(*old(game_ui_data), key),
    {
        match key {
            Key::Num1 => {
                if Recruitment::is_action_viable(game_ui_data) {
                    Some(TurnPhase::Recruitment(Recruitment { selected_city: None }))
                } else {
                    None
                }
            },
            Key::Num2 => {
                if Movement::is_action_viable(game_ui_data) {
                    Some(TurnPhase::Movement(Movement { selected_knight: None, first_move: None }))
                } else {
                    None
                }
            },
            Key::Num3 => Some(TurnPhase::Construction(Construction {})),
            Key::Num4 => Some(TurnPhase::NewCity(NewCity {})),
            Key::Num5 => Some(TurnPhase::Expedition(Expedition {})),
            Key::Num6 => Some(TurnPhase::NobleTitle(NobleTitle {})),
            _ => None,
        }
    }
}

/// Recruiting knights into a city of the acting player.
#[derive(Clone, Copy, Debug, PartialEq, Eq, Structural)]
pub struct Recruitment {
    pub selected_city: Option<GameBoardSpacePos>,
}

impl Recruitment {
    pub open spec fn wf(self) -> bool {
        self.selected_city matches Some(p) ==> p.in_bounds()
    }

    pub open spec fn click_post(
        self,
        d: GameUIData,
        s2: Recruitment,
        d2: GameUIData,
        r: Option<TurnPhase>,
    ) -> bool {
        &&& unchanged(d, d2)
        &&& r is None
        &&& s2 == match d.one_pos_under_mouse {
            Some(p) => Recruitment {
                selected_city: if friendly_city_at(d.game_board@, p, d.player_color) {
                    Some(p)
                } else {
                    None
                },
            },
            None => self,
        }
    }

    pub open spec fn key_post(
        self,
        d: GameUIData,
        key: Key,
        s2: Recruitment,
        d2: GameUIData,
        r: Option<TurnPhase>,
    ) -> bool {
        if key_count(key) > 0 {
            if self.selected_city is Some && key_count(key) <= max_recruits(
                d,
                self.selected_city.unwrap(),
            ) {
                let c = self.selected_city.unwrap();
                let n = key_count(key);
                &&& s2 == self
                &&& same_setup(d, d2)
                &&& d2.game_board@.grid == d.game_board@.grid
                &&& d2.game_board@.cities == d.game_board@.cities
                &&& d2.game_board@.knights == knights_added(
                    d.game_board@.knights,
                    UnitInfo { position: c, owner: d.player_color },
                    n as nat,
                )
                &&& d2.player_inventory == crate::game::PlayerInventory {
                    num_knights: (d.player_inventory.num_knights - n) as u8,
                    ..d.player_inventory
                }
                &&& r == back_to_choice()
            } else {
                s2 == self && unchanged(d, d2) && r is None
            }
        } else if key == Key::Backspace {
            &&& unchanged(d, d2)
            &&& if self.selected_city is Some {
                s2.selected_city is None && r is None
            } else {
                s2 == self && r == back_to_choice()
            }
        } else {
            s2 == self && unchanged(d, d2) && r is None
        }
    }

    pub fn get_action_type(&self) -> (r: PlayerActionType)
        ensures
            r == PlayerActionType::Recruitment,
    {
        PlayerActionType::Recruitment
    }

    /// Recruitment is open while the inventory holds a knight.
    pub fn is_action_viable(game_ui_data: &GameUIData) -> (r: bool)
        ensures
            r == (game_ui_data.player_inventory.num_knights > 0),
    {
        game_ui_data.player_inventory.num_knights > 0
    }

    /// A city of the acting player stands at `position`.
    pub fn is_space_viable(position: GameBoardSpacePos, game_ui_data: &GameUIData) -> (r: bool)
        ensures
            r == friendly_city_at(game_ui_data.game_board@, position, game_ui_data.player_color),
    {
        let cities = game_ui_data.game_board.cities();
        let mut i: usize = 0;
        while i < cities.len()
            invariant
                i <= cities@.len(),
                cities@ == game_ui_data.game_board@.cities,
                forall|j: int|
                    0 <= j < i ==> !(#[trigger] cities@[j].position == position && cities@[j].owner
                        == game_ui_data.player_color),
            decreases cities@.len() - i,
        {
            if cities[i].position == position && cities[i].owner == game_ui_data.player_color {
                return true;
            }
            i = i + 1;
        }
        false
    }

    /// Three knights next to water, two elsewhere, capped by the inventory.
    pub fn max_number_of_knights_to_add(position: GameBoardSpacePos, game_ui_data: &GameUIData) -> (r:
        u8)
        requires
            game_ui_data.wf(),
            position.in_bounds(),
        ensures
            r as int == max_recruits(*game_ui_data, position),
    {
        proof {
            lemma_neighbor_count(position);
        }
        let neighbors = position.all_neighboring_positions();
        let mut water = false;
        let mut i: usize = 0;
        while i < neighbors.len()
            invariant
                i <= neighbors@.len(),
                neighbors@ == position.neighbors(),
                game_ui_data.wf(),
                forall|j: int| 0 <= j < neighbors@.len() ==> (#[trigger] neighbors@[j]).in_bounds(),
                water == exists|j: int|
                    0 <= j < i && game_ui_data.game_board@.space(#[trigger] neighbors@[j])
                        == GameBoardSpaceType::Water,
            decreases neighbors@.len() - i,
        {
            if game_ui_data.game_board.get_board_space_type(neighbors[i]) == GameBoardSpaceType::Water {
                water = true;
            }
            i = i + 1;
        }
        let cap: u8 = if water {
            3
        } else {
            2
        };
        if game_ui_data.player_inventory.num_knights < cap {
            game_ui_data.player_inventory.num_knights
        } else {
            cap
        }
    }

    /// Adds `num_knights` knights of the acting player to the selected city.
    pub fn add_knights(&self, game_ui_data: &mut GameUIData, num_knights: usize)
        requires
            old(game_ui_data).wf(),
            self.selected_city matches Some(c) && c.in_bounds(),
        ensures
            final(game_ui_data).wf(),
            same_setup(*old(game_ui_data), *final(game_ui_data)),
            final(game_ui_data).player_inventory == old(game_ui_data).player_inventory,
            final(game_ui_data).game_board@.grid == old(game_ui_data).game_board@.grid,
            final(game_ui_data).game_board@.cities == old(game_ui_data).game_board@.cities,
            final(game_ui_data).game_board@.knights == knights_added(
                old(game_ui_data).game_board@.knights,
                UnitInfo { position: self.selected_city.unwrap(), owner: old(game_ui_data).player_color },
                num_knights as nat,
            ),
    {
        let city = self.selected_city.unwrap();
        let ghost u = UnitInfo { position: city, owner: game_ui_data.player_color };
        let ghost start = *game_ui_data;
        let mut i: usize = 0;
        while i < num_knights
            invariant
                i <= num_knights,
                city.in_bounds(),
                u == (UnitInfo { position: city, owner: start.player_color }),
                game_ui_data.wf(),
                same_setup(start, *game_ui_data),
                game_ui_data.player_inventory == start.player_inventory,
                game_ui_data.game_board@.grid == start.game_board@.grid,
                game_ui_data.game_board@.cities == start.game_board@.cities,
                game_ui_data.game_board@.knights == knights_added(
                    start.game_board@.knights,
                    u,
                    i as nat,
                ),
            decreases num_knights - i,
        {
            game_ui_data.game_board.add_knight(city, game_ui_data.player_color);
            assert(knights_added(start.game_board@.knights, u, i as nat).push(u) =~= knights_added(
                start.game_board@.knights,
                u,
                (i + 1) as nat,
            ));
            i = i + 1;
        }
    }

    /// Clicking a city of the acting player selects it; clicking any other
    /// space clears the selection.
    pub fn mouse_clicked(&mut self, game_ui_data: &mut GameUIData) -> (r: Option<TurnPhase>)
        requires
            old(game_ui_data).wf(),
            old(self).wf(),
        ensures
            final(self).wf(),
            old(self).click_post(*old(game_ui_data), *final(self), *final(game_ui_data), r),
    {
        if let Some(pos) = game_ui_data.one_pos_under_mouse {
            if Recruitment::is_space_viable(pos, game_ui_data) {
                self.selected_city = Some(pos);
            } else {
                self.selected_city = None;
            }
        }
        None
    }

    /// A number key from 1 to 3 recruits that many knights into the selected
    /// city, where the city allows that many, and ends the action.
    /// Backspace clears the selection, or goes back to the choice of action
    /// when nothing is selected.
    pub fn key_pressed(&mut self, game_ui_data: &mut GameUIData, key: Key) -> (r: Option<TurnPhase>)
        requires
            old(game_ui_data).wf(),
            old(self).wf(),
        ensures
            final(game_ui_data).wf(),
            final(self).wf(),
            old(self).key_post(*old(game_ui_data), key, *final(self), *final(game_ui_data), r),
    {
        let n: u8 = match key {
            Key::Num1 => 1,
            Key::Num2 => 2,
            Key::Num3 => 3,
            _ => 0,
        };
        if n > 0 {
            if let Some(city) = self.selected_city {
                if n <= Recruitment::max_number_of_knights_to_add(city, game_ui_data) {
                    self.add_knights(game_ui_data, n as usize);
                    game_ui_data.player_inventory.num_knights = game_ui_data.player_inventory.num_knights
                        - n;
                    return Some(TurnPhase::ChooseAction(ChooseAction {}));
                }
            }
            None
        } else if key == Key::Backspace {
            if self.selected_city.is_some() {
                self.selected_city = None;
                None
            } else {
                Some(TurnPhase::ChooseAction(ChooseAction {}))
            }
        } else {
            None
        }
    }
}

/// Moving up to two knights, one space each.
#[derive(Clone, Copy, Debug, PartialEq, Eq)]
pub struct Movement {
    pub selected_knight: Option<GameBoardSpacePos>,
    pub first_move: Option<(GameBoardSpacePos, GameBoardSpacePos)>,
}

impl Movement {
    pub open spec fn wf(self) -> bool {
        &&& (self.selected_knight matches Some(p) ==> p.in_bounds())
        &&& (self.first_move matches Some((f, t)) ==> f.in_bounds() && t.in_bounds())
    }

    pub open spec fn click_post(
        self,
        d: GameUIData,
        s2: Movement,
        d2: GameUIData,
        r: Option<TurnPhase>,
    ) -> bool {
        let b = d.game_board@;
        let color = d.player_color;
        match d.one_pos_under_mouse {
            None => s2 == self && unchanged(d, d2) && r is None,
            Some(p) => match self.selected_knight {
                Some(from) => if to_space_viable(b, color, from, p) && b.move_outcome(
                    from,
                    p,
                    color,
                ) is Some {
                    &&& same_setup(d, d2)
                    &&& d2.player_inventory == d.player_inventory
                    &&& d2.game_board@ == b.move_outcome(from, p, color).unwrap().0
                    &&& if self.first_move is Some {
                        s2 == self && r == back_to_choice()
                    } else {
                        s2 == (Movement { selected_knight: None, first_move: Some((from, p)) })
                            && r is None
                    }
                } else {
                    s2 == self && unchanged(d, d2) && r is None
                },
                None => {
                    &&& unchanged(d, d2)
                    &&& r is None
                    &&& s2 == (Movement {
                        selected_knight: if movable_from(b, color, p, self.first_move) {
                            Some(p)
                        } else {
                            None
                        },
                        first_move: self.first_move,
                    })
                },
            },
        }
    }

    pub open spec fn key_post(
        self,
        d: GameUIData,
        key: Key,
        s2: Movement,
        d2: GameUIData,
        r: Option<TurnPhase>,
    ) -> bool {
        let b = d.game_board@;
        let color = d.player_color;
        match key {
            Key::Backspace => if self.first_move is Some && self.selected_knight is None {
                let (f, t) = self.first_move.unwrap();
                &&& r is None
                &&& s2 == (Movement { selected_knight: None, first_move: None })
                &&& same_setup(d, d2)
                &&& d2.player_inventory == d.player_inventory
                &&& d2.game_board@ == b.knight_returned(t, f, color)
            } else if self.selected_knight is Some {
                &&& unchanged(d, d2)
                &&& r is None
                &&& s2 == (Movement { selected_knight: None, first_move: self.first_move })
            } else {
                s2 == self && unchanged(d, d2) && r == back_to_choice()
            },
            Key::Y => {
                &&& s2 == self
                &&& unchanged(d, d2)
                &&& r == if self.first_move is Some {
                    back_to_choice()
                } else {
                    None
                }
            },
            _ => s2 == self && unchanged(d, d2) && r is None,
        }
    }

    pub fn get_action_type(&self) -> (r: PlayerActionType)
        ensures
            r == PlayerActionType::Movement,
    {
        PlayerActionType::Movement
    }

    /// Some knight of the acting player can move.
    pub fn is_action_viable(game_ui_data: &GameUIData) -> (r: bool)
        requires
            game_ui_data.wf(),
        ensures
            r == movement_viable(game_ui_data.game_board@, game_ui_data.player_color),
    {
        let knights = game_ui_data.game_board.knights();
        let color = game_ui_data.player_color;
        let mut i: usize = 0;
        while i < knights.len()
            invariant
                i <= knights@.len(),
                knights@ == game_ui_data.game_board@.knights,
                color == game_ui_data.player_color,
                game_ui_data.wf(),
                forall|j: int|
                    0 <= j < i ==> !((#[trigger] knights@[j]).owner == color && movable_from(
                        game_ui_data.game_board@,
                        color,
                        knights@[j].position,
                        None,
                    )),
            decreases knights@.len() - i,
        {
            let k = knights[i];
            if k.owner == color && Movement::is_from_space_viable(k.position, game_ui_data, None) {
                return true;
            }
            i = i + 1;
        }
        false
    }

    /// A knight of the acting player can leave `from_pos`: there is one, it
    /// is not a knight that was moved in alone this turn, and a neighbor lets
    /// it in.
    pub fn is_from_space_viable(
        from_pos: GameBoardSpacePos,
        game_ui_data: &GameUIData,
        first_move: Option<(GameBoardSpacePos, GameBoardSpacePos)>,
    ) -> (r: bool)
        requires
            game_ui_data.wf(),
            from_pos.in_bounds(),
        ensures
            r == movable_from(game_ui_data.game_board@, game_ui_data.player_color, from_pos, first_move),
    {
        let board = &game_ui_data.game_board;
        let color = game_ui_data.player_color;
        let owned = board.owned_unit_count_at_pos(from_pos, color);
        if let Some((_, first_to)) = first_move {
            if first_to == from_pos && owned == 1 {
                return false;
            }
        }
        if owned == 0 {
            return false;
        }
        proof {
            lemma_neighbor_count(from_pos);
        }
        let neighbors = from_pos.all_neighboring_positions();
        let mut i: usize = 0;
        while i < neighbors.len()
            invariant
                i <= neighbors@.len(),
                neighbors@ == from_pos.neighbors(),
                game_ui_data.wf(),
                *board == game_ui_data.game_board,
                color == game_ui_data.player_color,
                owned == owned_count(board@.knights, from_pos, color),
                owned > 0,
                !(first_move matches Some((_, t)) && t == from_pos && owned == 1),
                forall|j: int| 0 <= j < neighbors@.len() ==> (#[trigger] neighbors@[j]).in_bounds(),
                forall|j: int|
                    0 <= j < i ==> !board@.ok_for_knight(#[trigger] neighbors@[j], color),
            decreases neighbors@.len() - i,
        {
            if board.space_ok_for_knight(neighbors[i], color) {
                assert(board@.ok_for_knight(from_pos.neighbors()[i as int], color));
                return true;
            }
            i = i + 1;
        }
        false
    }

    /// A knight of the acting player at `from_pos` may move to `to_pos`.
    pub fn is_to_space_viable(
        from_pos: GameBoardSpacePos,
        to_pos: GameBoardSpacePos,
        game_ui_data: &GameUIData,
    ) -> (r: bool)
        requires
            game_ui_data.wf(),
            to_pos.in_bounds(),
        ensures
            r == to_space_viable(game_ui_data.game_board@, game_ui_data.player_color, from_pos, to_pos),
    {
        to_pos.is_neighbor(from_pos) && game_ui_data.game_board.space_ok_for_knight(
            to_pos,
            game_ui_data.player_color,
        )
    }

    /// With no knight selected, clicking a space with a movable knight of the
    /// acting player selects it and clicking elsewhere clears the selection.
    /// With a knight selected, clicking a neighboring space it may enter
    /// moves it there: the first move is remembered, the second ends the
    /// action.
    pub fn mouse_clicked(&mut self, game_ui_data: &mut GameUIData) -> (r: Option<TurnPhase>)
        requires
            old(game_ui_data).wf(),
            old(self).wf(),
        ensures
            final(game_ui_data).wf(),
            final(self).wf(),
            old(self).click_post(*old(game_ui_data), *final(self), *final(game_ui_data), r),
    {
        if let Some(pos) = game_ui_data.one_pos_under_mouse {
            if let Some(from_pos) = self.selected_knight {
                let to_pos = pos;
                if Movement::is_to_space_viable(from_pos, to_pos, game_ui_data) {
                    let color = game_ui_data.player_color;
                    match game_ui_data.game_board.move_knight(from_pos, to_pos, color) {
                        Ok(_) => {
                            if self.first_move.is_some() {
                                return Some(TurnPhase::ChooseAction(ChooseAction {}));
                            } else {
                                self.first_move = Some((from_pos, to_pos));
                                self.selected_knight = None;
                            }
                        },
                        Err(_) => {},
                    }
                }
            } else {
                if Movement::is_from_space_viable(pos, game_ui_data, self.first_move) {
                    self.selected_knight = Some(pos);
                } else {
                    self.selected_knight = None;
                }
            }
        }
        None
    }

    /// Backspace takes back the first move where no knight is selected (the
    /// knight returns to its origin whatever now stands there), else
    /// clears the selection, else goes back to the choice of action. `Y` ends
    /// the action after a first move.
    pub fn key_pressed(&mut self, game_ui_data: &mut GameUIData, key: Key) -> (r: Option<TurnPhase>)
        requires
            old(game_ui_data).wf(),
            old(self).wf(),
        ensures
            final(game_ui_data).wf(),
            final(self).wf(),
            old(self).key_post(*old(game_ui_data), key, *final(self), *final(game_ui_data), r),
    {
        match key {
            Key::Backspace => {
                if self.first_move.is_some() && self.selected_knight.is_none() {
                    let (prev_from, prev_to) = self.first_move.unwrap();
                    let color = game_ui_data.player_color;
                    game_ui_data.game_board.return_knight(prev_to, prev_from, color);
                    self.first_move = None;
                    None
                } else if self.selected_knight.is_some() {
                    self.selected_knight = None;
                    None
                } else {
                    Some(TurnPhase::ChooseAction(ChooseAction {}))
                }
            },
            Key::Y => {
                if self.first_move.is_some() {
                    Some(TurnPhase::ChooseAction(ChooseAction {}))
                } else {
                    None
                }
            },
            _ => None,
        }
    }
}

/// Building with a knight. Nothing is played here yet: Backspace goes back to the
/// choice of action.
#[derive(Clone, Copy, Debug, PartialEq, Eq, Structural)]
pub struct Construction {}

impl Construction {
    pub fn get_action_type(&self) -> (r: PlayerActionType)
        ensures
            r == PlayerActionType::Construction,
    {
        PlayerActionType::Construction
    }

    /// Clicks do nothing here.
    pub fn mouse_clicked(&mut self, game_ui_data: &mut GameUIData) -> (r: Option<TurnPhase>)
        ensures
            *final(self) == *old(self),
            unchanged(*old(game_ui_data), *final(game_ui_data)),
            r is None,
    {
        None
    }

    /// Backspace goes back to the choice of action; other keys do nothing.
    pub fn key_pressed(&mut self, game_ui_data: &mut GameUIData, key: Key) -> (r: Option<TurnPhase>)
        ensures
            *final(self) == *old(self),
            stub_key_post(*old(game_ui_data), key, *final(game_ui_data), r),
    {
        match key {
            Key::Backspace => Some(TurnPhase::ChooseAction(ChooseAction {})),
            _ => None,
        }
    }
}

/// Upgrading a village to a city. Nothing is played here yet: Backspace goes back to the
/// choice of action.
#[derive(Clone, Copy, Debug, PartialEq, Eq, Structural)]
pub struct NewCity {}

impl NewCity {
    pub fn get_action_type(&self) -> (r: PlayerActionType)
        ensures
            r == PlayerActionType::NewCity,
    {
        PlayerActionType::NewCity
    }

    /// Clicks do nothing here.
    pub fn mouse_clicked(&mut self, game_ui_data: &mut GameUIData) -> (r: Option<TurnPhase>)
        ensures
            *final(self) == *old(self),
            unchanged(*old(game_ui_data), *final(game_ui_data)),
            r is None,
    {
        None
    }

    /// Backspace goes back to the choice of action; other keys do nothing.
    pub fn key_pressed(&mut self, game_ui_data: &mut GameUIData, key: Key) -> (r: Option<TurnPhase>)
        ensures
            *final(self) == *old(self),
            stub_key_post(*old(game_ui_data), key, *final(game_ui_data), r),
    {
        match key {
            Key::Backspace => Some(TurnPhase::ChooseAction(ChooseAction {})),
            _ => None,
        }
    }
}

/// Sending an expedition from the edge of the map. Nothing is played here yet: Backspace goes back to the
/// choice of action.
#[derive(Clone, Copy, Debug, PartialEq, Eq, Structural)]
pub struct Expedition {}

impl Expedition {
    pub fn get_action_type(&self) -> (r: PlayerActionType)
        ensures
            r == PlayerActionType::Expedition,
    {
        PlayerActionType::Expedition
    }

    /// Clicks do nothing here.
    pub fn mouse_clicked(&mut self, game_ui_data: &mut GameUIData) -> (r: Option<TurnPhase>)
        ensures
            *final(self) == *old(self),
            unchanged(*old(game_ui_data), *final(game_ui_data)),
            r is None,
    {
        None
    }

    /// Backspace goes back to the choice of action; other keys do nothing.
    pub fn key_pressed(&mut self, game_ui_data: &mut GameUIData, key: Key) -> (r: Option<TurnPhase>)
        ensures
            *final(self) == *old(self),
            stub_key_post(*old(game_ui_data), key, *final(game_ui_data), r),
    {
        match key {
            Key::Backspace => Some(TurnPhase::ChooseAction(ChooseAction {})),
            _ => None,
        }
    }
}

/// Upgrading the noble title. Nothing is played here yet: Backspace goes back to the
/// choice of action.
#[derive(Clone, Copy, Debug, PartialEq, Eq, Structural)]
pub struct NobleTitle {}

impl NobleTitle {
    pub fn get_action_type(&self) -> (r: PlayerActionType)
        ensures
            r == PlayerActionType::NobleTitle,
    {
        PlayerActionType::NobleTitle
    }

    /// Clicks do nothing here.
    pub fn mouse_clicked(&mut self, game_ui_data: &mut GameUIData) -> (r: Option<TurnPhase>)
        ensures
            *final(self) == *old(self),
            unchanged(*old(game_ui_data), *final(game_ui_data)),
            r is None,
    {
        None
    }

    /// Backspace goes back to the choice of action; other keys do nothing.
    pub fn key_pressed(&mut self, game_ui_data: &mut GameUIData, key: Key) -> (r: Option<TurnPhase>)
        ensures
            *final(self) == *old(self),
            stub_key_post(*old(game_ui_data), key, *final(game_ui_data), r),
    {
        match key {
            Key::Backspace => Some(TurnPhase::ChooseAction(ChooseAction {})),
            _ => None,
        }
    }
}

/// The game is over.
#[derive(Clone, Copy, Debug, PartialEq, Eq, Structural)]
pub struct End {}

/// The active phase of the turn, with its own state.
#[derive(Clone, Copy, Debug, PartialEq, Eq)]
pub enum TurnPhase {
    SetupBoard(SetupBoard),
    SetupCities(SetupCities),
    ChooseAction(ChooseAction),
    Recruitment(Recruitment),
    Movement(Movement),
    Construction(Construction),
    NewCity(NewCity),
    Expedition(Expedition),
    NobleTitle(NobleTitle),
    End(End),
}

impl TurnPhase {
    /// Selections lie on the grid.
    pub open spec fn wf(self) -> bool {
        match self {
            TurnPhase::Recruitment(x) => x.wf(),
            TurnPhase::Movement(x) => x.wf(),
            _ => true,
        }
    }

    pub open spec fn action_type(self) -> PlayerActionType {
        match self {
            TurnPhase::SetupBoard(_) => PlayerActionType::SetupBoard,
            TurnPhase::SetupCities(_) => PlayerActionType::SetupCities,
            TurnPhase::ChooseAction(_) => PlayerActionType::ChooseAction,
            TurnPhase::Recruitment(_) => PlayerActionType::Recruitment,
            TurnPhase::Movement(_) => PlayerActionType::Movement,
            TurnPhase::Construction(_) => PlayerActionType::Construction,
            TurnPhase::NewCity(_) => PlayerActionType::NewCity,
            TurnPhase::Expedition(_) => PlayerActionType::Expedition,
            TurnPhase::NobleTitle(_) => PlayerActionType::NobleTitle,
            TurnPhase::End(_) => PlayerActionType::End,
        }
    }

    /// What a click does in each phase: `s2`, `d2` and `r` are the phase, the
    /// game state and the next phase after it.
    pub open spec fn click_post(
        self,
        d: GameUIData,
        s2: TurnPhase,
        d2: GameUIData,
        r: Option<TurnPhase>,
    ) -> bool {
        match self {
            TurnPhase::SetupBoard(_) => s2 == self && SetupBoard::click_post(d, d2, r),
            TurnPhase::SetupCities(_) => s2 == self && SetupCities::click_post(d, d2, r),
            TurnPhase::Recruitment(x) => s2 matches TurnPhase::Recruitment(y) && x.click_post(
                d,
                y,
                d2,
                r,
            ),
            TurnPhase::Movement(x) => s2 matches TurnPhase::Movement(y) && x.click_post(
                d,
                y,
                d2,
                r,
            ),
            _ => s2 == self && unchanged(d, d2) && r is None,
        }
    }

    /// What a key does in each phase: `s2`, `d2` and `r` are the phase, the
    /// game state and the next phase after it.
    pub open spec fn key_post(
        self,
        d: GameUIData,
        key: Key,
        s2: TurnPhase,
        d2: GameUIData,
        r: Option<TurnPhase>,
    ) -> bool {
        match self {
            TurnPhase::ChooseAction(_) => s2 == self && unchanged(d, d2) && r == chosen_action(
                d,
                key,
            ),
            TurnPhase::Recruitment(x) => s2 matches TurnPhase::Recruitment(y) && x.key_post(
                d,
                key,
                y,
                d2,
                r,
            ),
            TurnPhase::Movement(x) => s2 matches TurnPhase::Movement(y) && x.key_post(
                d,
                key,
                y,
                d2,
                r,
            ),
            TurnPhase::Construction(_) | TurnPhase::NewCity(_) | TurnPhase::Expedition(_)
            | TurnPhase::NobleTitle(_) => s2 == self && stub_key_post(d, key, d2, r),
            _ => s2 == self && unchanged(d, d2) && r is None,
        }
    }

    pub fn get_action_type(&self) -> (r: PlayerActionType)
        ensures
            r == self.action_type(),
    {
        match self {
            TurnPhase::SetupBoard(x) => x.get_action_type(),
            TurnPhase::SetupCities(x) => x.get_action_type(),
            TurnPhase::ChooseAction(x) => x.get_action_type(),
            TurnPhase::Recruitment(x) => x.get_action_type(),
            TurnPhase::Movement(x) => x.get_action_type(),
            TurnPhase::Construction(x) => x.get_action_type(),
            TurnPhase::NewCity(x) => x.get_action_type(),
            TurnPhase::Expedition(x) => x.get_action_type(),
            TurnPhase::NobleTitle(x) => x.get_action_type(),
            TurnPhase::End(_) => PlayerActionType::End,
        }
    }

    /// Hands a click to the active phase; returns the phase to move to, if
    /// any.
    pub fn mouse_clicked(&mut self, game_ui_data: &mut GameUIData) -> (r: Option<TurnPhase>)
        requires
            old(game_ui_data).wf(),
            old(self).wf(),
        ensures
            final(game_ui_data).wf(),
            final(self).wf(),
            r matches Some(next) ==> next.wf(),
            old(self).click_post(*old(game_ui_data), *final(self), *final(game_ui_data), r),
    {
        match self {
            TurnPhase::SetupBoard(x) => x.mouse_clicked(game_ui_data),
            TurnPhase::SetupCities(x) => x.mouse_clicked(game_ui_data),
            TurnPhase::ChooseAction(x) => x.mouse_clicked(game_ui_data),
            TurnPhase::Recruitment(x) => x.mouse_clicked(game_ui_data),
            TurnPhase::Movement(x) => x.mouse_clicked(game_ui_data),
            TurnPhase::Construction(x) => x.mouse_clicked(game_ui_data),
            TurnPhase::NewCity(x) => x.mouse_clicked(game_ui_data),
            TurnPhase::Expedition(x) => x.mouse_clicked(game_ui_data),
            TurnPhase::NobleTitle(x) => x.mouse_clicked(game_ui_data),
            TurnPhase::End(_) => None,
        }
    }

    /// Hands a key to the active phase; returns the phase to move to, if
    /// any.
    pub fn key_pressed(&mut self, game_ui_data: &mut GameUIData, key: Key) -> (r: Option<TurnPhase>)
        requires
            old(game_ui_data).wf(),
            old(self).wf(),
        ensures
            final(game_ui_data).wf(),
            final(self).wf(),
            r matches Some(next) ==> next.wf(),
            old(self).key_post(*old(game_ui_data), key, *final(self), *final(game_ui_data), r),
    {
        match self {
            TurnPhase::SetupBoard(x) => x.key_pressed(game_ui_data, key),
            TurnPhase::SetupCities(x) => x.key_pressed(game_ui_data, key),
            TurnPhase::ChooseAction(x) => x.key_pressed(game_ui_data, key),
            TurnPhase::Recruitment(x) => x.key_pressed(game_ui_data, key),
            TurnPhase::Movement(x) => x.key_pressed(game_ui_data, key),
            TurnPhase::Construction(x) => x.key_pressed(game_ui_data, key),
            TurnPhase::NewCity(x) => x.key_pressed(game_ui_data, key),
            TurnPhase::Expedition(x) => x.key_pressed(game_ui_data, key),
            TurnPhase::NobleTitle(x) => x.key_pressed(game_ui_data, key),
            TurnPhase::End(_) => None,
        }
    }
}

/// The recruitment cap: in a city next to water, a number key from 1 to 3
/// recruits that many knights while the inventory holds at least three; with
/// one knight left only key 1 recruits, and keys 2 and 3 change nothing.
pub proof fn lemma_recruitment_cap(
    x: Recruitment,
    d: GameUIData,
    key: Key,
    s2: Recruitment,
    d2: GameUIData,
    r: Option<TurnPhase>,
)
    requires
        x.selected_city matches Some(c) && water_adjacent(d.game_board@, c),
        key_count(key) > 0,
        x.key_post(d, key, s2, d2, r),
    ensures
        d.player_inventory.num_knights >= 3 ==> r == back_to_choice()
            && d2.game_board@.knights == knights_added(
            d.game_board@.knights,
            UnitInfo { position: x.selected_city.unwrap(), owner: d.player_color },
            key_count(key) as nat,
        ) && d2.player_inventory.num_knights == d.player_inventory.num_knights - key_count(key),
        d.player_inventory.num_knights == 1 ==> (r is Some <==> key == Key::Num1),
        d.player_inventory.num_knights == 1 && key != Key::Num1 ==> unchanged(d, d2),
{
}

/// Undoing a move: after a first move that removed nobody, Backspace with no
/// knight selected forgets the move and restores the board it was made on:
/// the same terrain, cities and units, in the same order where no other
/// knight stood at the destination, and the inventory is untouched.
pub proof fn lemma_movement_undo(
    b: BoardModel,
    from: GameBoardSpacePos,
    to: GameBoardSpacePos,
    x: Movement,
    d: GameUIData,
    s2: Movement,
    d2: GameUIData,
    r: Option<TurnPhase>,
)
    requires
        b.wf(),
        b.move_outcome(from, to, d.player_color) matches Some((after, dead)) && after
            == d.game_board@ && dead.len() == 0,
        x.first_move == Some((from, to)),
        x.selected_knight is None,
        x.key_post(d, Key::Backspace, s2, d2, r),
    ensures
        d2.game_board@.grid == b.grid,
        d2.game_board@.cities == b.cities,
        d2.game_board@.knights.to_multiset() == b.knights.to_multiset(),
        count_at(b.knights, to) == 0 ==> d2.game_board@ == b,
        s2.first_move is None,
        s2.selected_knight is None,
        r is None,
        d2.player_inventory == d.player_inventory,
{
    lemma_move_undo(b, from, to, d.player_color);
}

} // verus!
