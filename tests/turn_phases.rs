use fast_feudalist::{
    ChooseAction, Construction, Expedition, GameBoard, GameBoardSpacePos, GameBoardSpaceType,
    GameUIData, Key, Movement, NewCity, NobleTitle, PlayerActionType, PlayerColor,
    PlayerInventory, Recruitment, SetupBoard, SetupCities, TurnPhase, NUM_BOARD_PIECES,
};

fn pos(x: u8, y: u8) -> GameBoardSpacePos {
    GameBoardSpacePos { x_pos: x, y_pos: y }
}

fn board_of(kind: GameBoardSpaceType) -> GameBoard {
    let mut board = GameBoard::new();
    for x in 0..13 {
        for y in 0..7 {
            board.set_board_space_type(pos(x, y), kind);
        }
    }
    board
}

fn knights_at(data: &GameUIData, p: GameBoardSpacePos) -> usize {
    data.game_board.knights().iter().filter(|k| k.position == p).count()
}

fn is_choose_action(r: &Option<TurnPhase>) -> bool {
    matches!(r, Some(TurnPhase::ChooseAction(_)))
}

#[test]
fn defaults_start_a_fresh_game() {
    let data = GameUIData::defaults();
    assert_eq!(data.num_players, 1);
    assert_eq!(data.player_color, PlayerColor::Red);
    assert_eq!(
        data.player_inventory,
        PlayerInventory { num_cities: 5, num_strongholds: 2, num_villages: 14, num_knights: 7 }
    );
    assert_eq!(data.unplaced_board_pieces.len(), NUM_BOARD_PIECES);
    assert_eq!(data.game_board.num_cities(), 0);
    assert_eq!(data.one_pos_under_mouse, None);
    assert_eq!(data.three_pos_under_mouse, None);
}

#[test]
fn pointer_off_the_grid_counts_as_none() {
    let mut data = GameUIData::defaults();
    data.set_one_pos_under_mouse(Some(pos(13, 0)));
    assert_eq!(data.one_pos_under_mouse, None);
    data.set_one_pos_under_mouse(Some(pos(12, 6)));
    assert_eq!(data.one_pos_under_mouse, Some(pos(12, 6)));
    data.set_three_pos_under_mouse(Some((pos(0, 0), pos(0, 0), pos(1, 0))));
    assert_eq!(data.three_pos_under_mouse, None);
    data.set_three_pos_under_mouse(Some((pos(0, 0), pos(0, 1), pos(1, 0))));
    assert_eq!(data.three_pos_under_mouse, Some((pos(0, 0), pos(0, 1), pos(1, 0))));
}

#[test]
fn tile_drop_lays_chosen_tile_rotated() {
    let mut data = GameUIData::defaults();
    let target = (pos(0, 0), pos(0, 1), pos(1, 0));
    data.set_three_pos_under_mouse(Some(target));
    // Tile 4 is Plains, Mountain, Mountain; one turn gives Mountain, Mountain, Plains.
    data.drop_board_piece_with(4, 1);
    assert_eq!(data.game_board.get_board_space_type(target.0), GameBoardSpaceType::Mountain);
    assert_eq!(data.game_board.get_board_space_type(target.1), GameBoardSpaceType::Mountain);
    assert_eq!(data.game_board.get_board_space_type(target.2), GameBoardSpaceType::Plains);
    assert_eq!(data.unplaced_board_pieces.len(), NUM_BOARD_PIECES - 1);
    // The spaces are taken now: a second drop changes nothing.
    data.drop_board_piece_with(0, 0);
    assert_eq!(data.unplaced_board_pieces.len(), NUM_BOARD_PIECES - 1);
    assert_eq!(data.game_board.get_board_space_type(target.2), GameBoardSpaceType::Plains);
}

#[test]
fn tile_rotations() {
    // Tile 28 is Water, Plains, Mountain.
    for (rotation, expected) in [
        (0, [GameBoardSpaceType::Water, GameBoardSpaceType::Plains, GameBoardSpaceType::Mountain]),
        (1, [GameBoardSpaceType::Plains, GameBoardSpaceType::Mountain, GameBoardSpaceType::Water]),
        (2, [GameBoardSpaceType::Mountain, GameBoardSpaceType::Water, GameBoardSpaceType::Plains]),
    ] {
        let mut data = GameUIData::defaults();
        let target = (pos(2, 2), pos(2, 3), pos(3, 3));
        data.set_three_pos_under_mouse(Some(target));
        data.drop_board_piece_with(28, rotation);
        assert_eq!(data.game_board.get_board_space_type(target.0), expected[0]);
        assert_eq!(data.game_board.get_board_space_type(target.1), expected[1]);
        assert_eq!(data.game_board.get_board_space_type(target.2), expected[2]);
    }
}

/// The triples of three mutually adjacent spaces that a run of setup clicks
/// covers, none overlapping.
fn setup_targets() -> Vec<(GameBoardSpacePos, GameBoardSpacePos, GameBoardSpacePos)> {
    let mut targets = Vec::new();
    for x in (0..12).step_by(2) {
        for y in (0..6).step_by(2) {
            targets.push((pos(x, y), pos(x, y + 1), pos(x + 1, y)));
        }
    }
    targets
}

#[test]
fn board_setup_lays_nine_random_tiles_then_moves_on() {
    let mut data = GameUIData::defaults();
    let mut phase = TurnPhase::SetupBoard(SetupBoard {});
    let mut next = None;
    let mut laid = Vec::new();
    for target in setup_targets() {
        data.set_three_pos_under_mouse(Some(target));
        next = phase.mouse_clicked(&mut data);
        laid.push(target);
        if next.is_some() {
            break;
        }
    }
    assert!(matches!(next, Some(TurnPhase::SetupCities(_))));
    assert_eq!(laid.len(), 9);
    assert_eq!(data.unplaced_board_pieces.len(), NUM_BOARD_PIECES - 9);
    for (a, b, c) in laid {
        for p in [a, b, c] {
            assert!(data.game_board.get_board_space_type(p) != GameBoardSpaceType::Void);
        }
    }
    // The pool and the laid terrain account for every tile exactly once:
    // the pool lost nine tiles and nothing else.
    let catalog = fast_feudalist::board_pieces();
    let mut remaining = catalog.clone();
    for t in &data.unplaced_board_pieces {
        let i = remaining.iter().position(|r| r == t).expect("pool holds a tile twice");
        remaining.remove(i);
    }
    assert_eq!(remaining.len(), 9);
}

#[test]
fn board_setup_ignores_taken_spaces_and_keys() {
    let mut data = GameUIData::defaults();
    let mut phase = SetupBoard {};
    assert!(phase.mouse_clicked(&mut data).is_none());
    assert_eq!(data.unplaced_board_pieces.len(), NUM_BOARD_PIECES);
    let target = (pos(4, 2), pos(4, 3), pos(5, 3));
    data.set_three_pos_under_mouse(Some(target));
    data.game_board.set_board_space_type(pos(5, 3), GameBoardSpaceType::Field);
    assert!(phase.mouse_clicked(&mut data).is_none());
    assert_eq!(data.unplaced_board_pieces.len(), NUM_BOARD_PIECES);
    assert!(phase.key_pressed(&mut data, Key::Num1).is_none());
    assert_eq!(phase.get_action_type(), PlayerActionType::SetupBoard);
}

#[test]
fn city_setup_places_three_cities() {
    let mut data = GameUIData::defaults();
    data.game_board = board_of(GameBoardSpaceType::Plains);
    let mut phase = SetupCities {};
    data.set_one_pos_under_mouse(Some(pos(1, 1)));
    assert!(phase.mouse_clicked(&mut data).is_none());
    // Next to the first city: refused.
    data.set_one_pos_under_mouse(Some(pos(1, 2)));
    assert!(phase.mouse_clicked(&mut data).is_none());
    assert_eq!(data.game_board.num_cities(), 1);
    data.set_one_pos_under_mouse(Some(pos(5, 3)));
    assert!(phase.mouse_clicked(&mut data).is_none());
    data.set_one_pos_under_mouse(Some(pos(9, 5)));
    let next = phase.mouse_clicked(&mut data);
    assert!(is_choose_action(&next));
    assert_eq!(data.game_board.num_cities(), 3);
    assert_eq!(data.game_board.num_knights(), 3);
    assert_eq!(data.player_inventory.num_cities, 2);
    assert_eq!(data.player_inventory.num_knights, 4);
    assert!(phase.key_pressed(&mut data, Key::Backspace).is_none());
}

#[test]
fn city_setup_refuses_water() {
    let mut data = GameUIData::defaults();
    data.game_board = board_of(GameBoardSpaceType::Water);
    let mut phase = SetupCities {};
    data.set_one_pos_under_mouse(Some(pos(1, 1)));
    assert!(phase.mouse_clicked(&mut data).is_none());
    assert_eq!(data.game_board.num_cities(), 0);
    assert_eq!(data.player_inventory.num_cities, 5);
}

#[test]
fn choose_action_keys() {
    let mut data = GameUIData::defaults();
    data.game_board = board_of(GameBoardSpaceType::Plains);
    data.game_board.add_knight(pos(3, 3), PlayerColor::Red);
    let mut phase = ChooseAction {};
    assert!(matches!(
        phase.key_pressed(&mut data, Key::Num1),
        Some(TurnPhase::Recruitment(Recruitment { selected_city: None }))
    ));
    assert!(matches!(
        phase.key_pressed(&mut data, Key::Num2),
        Some(TurnPhase::Movement(Movement { selected_knight: None, first_move: None }))
    ));
    assert!(matches!(phase.key_pressed(&mut data, Key::Num3), Some(TurnPhase::Construction(_))));
    assert!(matches!(phase.key_pressed(&mut data, Key::Num4), Some(TurnPhase::NewCity(_))));
    assert!(matches!(phase.key_pressed(&mut data, Key::Num5), Some(TurnPhase::Expedition(_))));
    assert!(matches!(phase.key_pressed(&mut data, Key::Num6), Some(TurnPhase::NobleTitle(_))));
    assert!(phase.key_pressed(&mut data, Key::Y).is_none());
    assert!(phase.mouse_clicked(&mut data).is_none());
}

#[test]
fn choose_action_gates_recruitment_and_movement() {
    let mut data = GameUIData::defaults();
    data.game_board = board_of(GameBoardSpaceType::Water);
    data.game_board.set_board_space_type(pos(3, 3), GameBoardSpaceType::Plains);
    data.game_board.add_knight(pos(3, 3), PlayerColor::Red);
    data.player_inventory.num_knights = 0;
    let mut phase = ChooseAction {};
    // No knight left to recruit, and the only knight is surrounded by water.
    assert!(phase.key_pressed(&mut data, Key::Num1).is_none());
    assert!(phase.key_pressed(&mut data, Key::Num2).is_none());
}

fn recruitment_board() -> GameUIData {
    let mut data = GameUIData::defaults();
    data.game_board = board_of(GameBoardSpaceType::Plains);
    data.game_board.add_city(pos(4, 3), PlayerColor::Red);
    data.game_board.add_city(pos(9, 3), PlayerColor::Red);
    // Water next to the first city only.
    data.game_board.set_board_space_type(pos(4, 4), GameBoardSpaceType::Water);
    data
}

#[test]
fn recruitment_next_to_water_takes_three() {
    let mut data = recruitment_board();
    let mut phase = Recruitment { selected_city: None };
    data.set_one_pos_under_mouse(Some(pos(4, 3)));
    assert!(phase.mouse_clicked(&mut data).is_none());
    assert_eq!(phase.selected_city, Some(pos(4, 3)));
    assert_eq!(Recruitment::max_number_of_knights_to_add(pos(4, 3), &data), 3);
    let next = phase.key_pressed(&mut data, Key::Num3);
    assert!(is_choose_action(&next));
    assert_eq!(knights_at(&data, pos(4, 3)), 3);
    assert_eq!(data.player_inventory.num_knights, 4);
}

#[test]
fn recruitment_with_one_knight_left() {
    let mut data = recruitment_board();
    data.player_inventory.num_knights = 1;
    let mut phase = Recruitment { selected_city: Some(pos(4, 3)) };
    assert_eq!(Recruitment::max_number_of_knights_to_add(pos(4, 3), &data), 1);
    assert!(phase.key_pressed(&mut data, Key::Num3).is_none());
    assert!(phase.key_pressed(&mut data, Key::Num2).is_none());
    assert_eq!(knights_at(&data, pos(4, 3)), 0);
    assert_eq!(data.player_inventory.num_knights, 1);
    let next = phase.key_pressed(&mut data, Key::Num1);
    assert!(is_choose_action(&next));
    assert_eq!(knights_at(&data, pos(4, 3)), 1);
    assert_eq!(data.player_inventory.num_knights, 0);
}

#[test]
fn recruitment_away_from_water_takes_two() {
    let mut data = recruitment_board();
    let mut phase = Recruitment { selected_city: Some(pos(9, 3)) };
    assert_eq!(Recruitment::max_number_of_knights_to_add(pos(9, 3), &data), 2);
    assert!(phase.key_pressed(&mut data, Key::Num3).is_none());
    assert!(is_choose_action(&phase.key_pressed(&mut data, Key::Num2)));
    assert_eq!(knights_at(&data, pos(9, 3)), 2);
    assert_eq!(data.player_inventory.num_knights, 5);
}

#[test]
fn recruitment_selection_and_backspace() {
    let mut data = recruitment_board();
    data.game_board.add_city(pos(0, 6), PlayerColor::Blue);
    let mut phase = Recruitment { selected_city: None };
    // Without a selection the number keys do nothing.
    assert!(phase.key_pressed(&mut data, Key::Num1).is_none());
    data.set_one_pos_under_mouse(Some(pos(4, 3)));
    phase.mouse_clicked(&mut data);
    assert_eq!(phase.selected_city, Some(pos(4, 3)));
    // A space without a city clears the selection, and so does an enemy city.
    data.set_one_pos_under_mouse(Some(pos(6, 1)));
    phase.mouse_clicked(&mut data);
    assert_eq!(phase.selected_city, None);
    data.set_one_pos_under_mouse(Some(pos(0, 6)));
    phase.mouse_clicked(&mut data);
    assert_eq!(phase.selected_city, None);
    data.set_one_pos_under_mouse(Some(pos(9, 3)));
    phase.mouse_clicked(&mut data);
    assert_eq!(phase.selected_city, Some(pos(9, 3)));
    assert!(phase.key_pressed(&mut data, Key::Backspace).is_none());
    assert_eq!(phase.selected_city, None);
    assert!(is_choose_action(&phase.key_pressed(&mut data, Key::Backspace)));
    assert_eq!(phase.get_action_type(), PlayerActionType::Recruitment);
}

fn movement_board() -> GameUIData {
    let mut data = GameUIData::defaults();
    data.game_board = board_of(GameBoardSpaceType::Plains);
    data.game_board.add_knight(pos(3, 3), PlayerColor::Red);
    data.game_board.add_knight(pos(8, 3), PlayerColor::Red);
    data
}

#[test]
fn movement_undo_restores_the_knight() {
    let mut data = movement_board();
    let mut phase = TurnPhase::Movement(Movement { selected_knight: None, first_move: None });
    let from = pos(3, 3);
    let to = pos(4, 3);
    data.set_one_pos_under_mouse(Some(from));
    assert!(phase.mouse_clicked(&mut data).is_none());
    data.set_one_pos_under_mouse(Some(to));
    assert!(phase.mouse_clicked(&mut data).is_none());
    assert_eq!(
        phase,
        TurnPhase::Movement(Movement { selected_knight: None, first_move: Some((from, to)) })
    );
    assert_eq!(knights_at(&data, to), 1);
    assert_eq!(knights_at(&data, from), 0);
    assert!(phase.key_pressed(&mut data, Key::Backspace).is_none());
    assert_eq!(phase, TurnPhase::Movement(Movement { selected_knight: None, first_move: None }));
    assert_eq!(knights_at(&data, from), 1);
    assert_eq!(knights_at(&data, to), 0);
    assert_eq!(data.game_board.knights()[0].owner, PlayerColor::Red);
    assert_eq!(data.game_board.knights()[0].position, from);
}

#[test]
fn movement_second_move_ends_the_action() {
    let mut data = movement_board();
    let mut phase = Movement { selected_knight: None, first_move: None };
    data.set_one_pos_under_mouse(Some(pos(3, 3)));
    phase.mouse_clicked(&mut data);
    data.set_one_pos_under_mouse(Some(pos(3, 4)));
    assert!(phase.mouse_clicked(&mut data).is_none());
    // The knight that moved alone cannot be picked again.
    assert!(!Movement::is_from_space_viable(pos(3, 4), &data, phase.first_move));
    data.set_one_pos_under_mouse(Some(pos(3, 4)));
    phase.mouse_clicked(&mut data);
    assert_eq!(phase.selected_knight, None);
    data.set_one_pos_under_mouse(Some(pos(8, 3)));
    phase.mouse_clicked(&mut data);
    assert_eq!(phase.selected_knight, Some(pos(8, 3)));
    data.set_one_pos_under_mouse(Some(pos(8, 2)));
    let next = phase.mouse_clicked(&mut data);
    assert!(is_choose_action(&next));
    assert_eq!(knights_at(&data, pos(8, 2)), 1);
    assert_eq!(knights_at(&data, pos(3, 4)), 1);
}

#[test]
fn movement_refuses_distant_and_blocked_spaces() {
    let mut data = movement_board();
    data.game_board.set_board_space_type(pos(3, 4), GameBoardSpaceType::Water);
    let mut phase = Movement { selected_knight: Some(pos(3, 3)), first_move: None };
    assert!(!Movement::is_to_space_viable(pos(3, 3), pos(5, 3), &data));
    assert!(!Movement::is_to_space_viable(pos(3, 3), pos(3, 4), &data));
    assert!(Movement::is_to_space_viable(pos(3, 3), pos(2, 3), &data));
    data.set_one_pos_under_mouse(Some(pos(5, 3)));
    assert!(phase.mouse_clicked(&mut data).is_none());
    data.set_one_pos_under_mouse(Some(pos(3, 4)));
    assert!(phase.mouse_clicked(&mut data).is_none());
    assert_eq!(phase.first_move, None);
    assert_eq!(knights_at(&data, pos(3, 3)), 1);
}

#[test]
fn movement_keys() {
    let mut data = movement_board();
    let mut phase = Movement { selected_knight: Some(pos(3, 3)), first_move: None };
    assert!(phase.key_pressed(&mut data, Key::Y).is_none());
    assert!(phase.key_pressed(&mut data, Key::Backspace).is_none());
    assert_eq!(phase.selected_knight, None);
    assert!(is_choose_action(&phase.key_pressed(&mut data, Key::Backspace)));
    let mut moved = Movement { selected_knight: None, first_move: Some((pos(2, 2), pos(3, 3))) };
    assert!(is_choose_action(&moved.key_pressed(&mut data, Key::Y)));
    assert!(moved.key_pressed(&mut data, Key::Num1).is_none());
    assert!(Movement::is_action_viable(&data));
    assert_eq!(moved.get_action_type(), PlayerActionType::Movement);
}

#[test]
fn stub_actions_only_go_back() {
    let mut data = GameUIData::defaults();
    let mut phases = [
        TurnPhase::Construction(Construction {}),
        TurnPhase::NewCity(NewCity {}),
        TurnPhase::Expedition(Expedition {}),
        TurnPhase::NobleTitle(NobleTitle {}),
    ];
    for phase in phases.iter_mut() {
        assert!(phase.mouse_clicked(&mut data).is_none());
        assert!(phase.key_pressed(&mut data, Key::Y).is_none());
        assert!(is_choose_action(&phase.key_pressed(&mut data, Key::Backspace)));
    }
    assert_eq!(phases[0].get_action_type(), PlayerActionType::Construction);
    assert_eq!(phases[3].get_action_type(), PlayerActionType::NobleTitle);
}

#[test]
fn reset_restores_a_fresh_board() {
    let mut data = recruitment_board();
    data.player_inventory.num_knights = 1;
    data.reset_board();
    assert_eq!(data.game_board.num_cities(), 0);
    assert_eq!(data.game_board.get_board_space_type(pos(4, 4)), GameBoardSpaceType::Void);
    assert_eq!(data.player_inventory.num_knights, 7);
    assert_eq!(data.unplaced_board_pieces.len(), NUM_BOARD_PIECES);
}

#[test]
fn casualties_are_not_returned_to_any_inventory() {
    // Red moves its second knight onto a space held by one blue knight and
    // one red knight; the blue knight falls and no inventory changes.
    let mut data = GameUIData::defaults();
    data.game_board = board_of(GameBoardSpaceType::Plains);
    let target = pos(5, 3);
    data.game_board.add_knight(target, PlayerColor::Blue);
    data.game_board.add_knight(target, PlayerColor::Red);
    data.game_board.add_knight(pos(5, 2), PlayerColor::Red);
    let inventory_before = data.player_inventory;
    let mut phase = Movement { selected_knight: Some(pos(5, 2)), first_move: None };
    data.set_one_pos_under_mouse(Some(target));
    assert!(phase.mouse_clicked(&mut data).is_none());
    assert_eq!(phase.first_move, Some((pos(5, 2), target)));
    assert_eq!(data.game_board.num_knights(), 2);
    assert!(data.game_board.knights().iter().all(|k| k.owner == PlayerColor::Red));
    assert_eq!(data.player_inventory, inventory_before);
}

#[test]
fn city_setup_needs_inventory() {
    let mut data = GameUIData::defaults();
    data.game_board = board_of(GameBoardSpaceType::Field);
    data.player_inventory.num_cities = 0;
    let mut phase = SetupCities {};
    data.set_one_pos_under_mouse(Some(pos(1, 1)));
    assert!(phase.mouse_clicked(&mut data).is_none());
    assert_eq!(data.game_board.num_cities(), 0);
    assert_eq!(data.game_board.num_knights(), 0);
    assert_eq!(data.player_inventory.num_knights, 7);
}

#[test]
fn no_movement_without_knights() {
    let mut data = GameUIData::defaults();
    data.game_board = board_of(GameBoardSpaceType::Plains);
    assert!(!Movement::is_action_viable(&data));
    data.game_board.add_knight(pos(3, 3), PlayerColor::Blue);
    assert!(!Movement::is_action_viable(&data));
    assert!(!Movement::is_from_space_viable(pos(3, 3), &data, None));
}

#[test]
fn end_phase_ignores_input() {
    let mut data = GameUIData::defaults();
    let mut phase = TurnPhase::End(fast_feudalist::End {});
    assert!(phase.mouse_clicked(&mut data).is_none());
    assert!(phase.key_pressed(&mut data, Key::Backspace).is_none());
    assert_eq!(phase.get_action_type(), PlayerActionType::End);
}

#[test]
fn movement_undo_returns_to_enemy_city_space() {
    // A red knight stands in a blue city, where a red knight could not move
    // in; undoing its move still brings it back.
    let mut data = GameUIData::defaults();
    data.game_board = board_of(GameBoardSpaceType::Plains);
    let from = pos(5, 3);
    let to = pos(5, 4);
    data.game_board.add_city(from, PlayerColor::Blue);
    data.game_board.add_knight(from, PlayerColor::Red);
    let before = data.game_board.knights().to_vec();
    let mut phase = Movement { selected_knight: None, first_move: None };
    data.set_one_pos_under_mouse(Some(from));
    phase.mouse_clicked(&mut data);
    assert_eq!(phase.selected_knight, Some(from));
    data.set_one_pos_under_mouse(Some(to));
    assert!(phase.mouse_clicked(&mut data).is_none());
    assert_eq!(phase.first_move, Some((from, to)));
    assert!(!data.game_board.space_ok_for_knight(from, PlayerColor::Red));
    assert!(phase.key_pressed(&mut data, Key::Backspace).is_none());
    assert_eq!(phase, Movement { selected_knight: None, first_move: None });
    assert_eq!(data.game_board.knights().to_vec(), before);
}

#[test]
fn movement_undo_returns_to_held_mountain() {
    // The origin is a mountain that also holds a blue knight.
    let mut data = GameUIData::defaults();
    data.game_board = board_of(GameBoardSpaceType::Field);
    let from = pos(2, 2);
    let to = pos(2, 3);
    data.game_board.set_board_space_type(from, GameBoardSpaceType::Mountain);
    data.game_board.add_knight(from, PlayerColor::Red);
    data.game_board.add_knight(from, PlayerColor::Blue);
    let before = data.game_board.knights().to_vec();
    let mut phase = Movement { selected_knight: Some(from), first_move: None };
    data.set_one_pos_under_mouse(Some(to));
    assert!(phase.mouse_clicked(&mut data).is_none());
    assert_eq!(knights_at(&data, to), 1);
    assert!(phase.key_pressed(&mut data, Key::Backspace).is_none());
    assert_eq!(phase.first_move, None);
    assert_eq!(data.game_board.knights().to_vec(), before);
    assert_eq!(data.player_inventory.num_knights, 7);
}

#[test]
fn three_turns_bring_a_tile_back() {
    let mut data = GameUIData::defaults();
    let target = (pos(2, 2), pos(2, 3), pos(3, 3));
    data.set_three_pos_under_mouse(Some(target));
    // Tile 28 is Water, Plains, Mountain; four turns are one turn.
    data.drop_board_piece_with(28, 4);
    assert_eq!(data.game_board.get_board_space_type(target.0), GameBoardSpaceType::Plains);
    assert_eq!(data.game_board.get_board_space_type(target.1), GameBoardSpaceType::Mountain);
    assert_eq!(data.game_board.get_board_space_type(target.2), GameBoardSpaceType::Water);
}
