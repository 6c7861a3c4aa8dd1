use fast_feudalist::{GameBoardSpacePos, MAX_BOARD_HEIGHT, MAX_BOARD_WIDTH};

fn pos(x: u8, y: u8) -> GameBoardSpacePos {
    GameBoardSpacePos { x_pos: x, y_pos: y }
}

#[test]
fn neighbors_of_even_column() {
    let p = pos(4, 3);
    assert_eq!(p.up(), Some(pos(4, 4)));
    assert_eq!(p.up_right(), Some(pos(5, 3)));
    assert_eq!(p.down_right(), Some(pos(5, 2)));
    assert_eq!(p.down(), Some(pos(4, 2)));
    assert_eq!(p.down_left(), Some(pos(3, 2)));
    assert_eq!(p.up_left(), Some(pos(3, 3)));
}

#[test]
fn neighbors_of_odd_column() {
    let p = pos(5, 3);
    assert_eq!(p.up(), Some(pos(5, 4)));
    assert_eq!(p.up_right(), Some(pos(6, 4)));
    assert_eq!(p.down_right(), Some(pos(6, 3)));
    assert_eq!(p.down(), Some(pos(5, 2)));
    assert_eq!(p.down_left(), Some(pos(4, 3)));
    assert_eq!(p.up_left(), Some(pos(4, 4)));
}

#[test]
fn neighbor_order_is_clockwise_from_up() {
    assert_eq!(
        pos(4, 3).all_neighboring_positions(),
        vec![pos(4, 4), pos(5, 3), pos(5, 2), pos(4, 2), pos(3, 2), pos(3, 3)]
    );
}

#[test]
fn interior_positions_have_six_neighbors() {
    for x in 1..(MAX_BOARD_WIDTH as u8 - 1) {
        for y in 1..(MAX_BOARD_HEIGHT as u8 - 1) {
            assert_eq!(pos(x, y).all_neighboring_positions().len(), 6, "at ({}, {})", x, y);
        }
    }
}

#[test]
fn corner_neighbor_counts() {
    // Bottom-left, even column: only up and up-right.
    assert_eq!(pos(0, 0).all_neighboring_positions(), vec![pos(0, 1), pos(1, 0)]);
    // Top-left, even column: down, up-right and down-right.
    assert_eq!(pos(0, 6).all_neighboring_positions().len(), 3);
    // Bottom-right, even column (12): up, up-left.
    assert_eq!(pos(12, 0).all_neighboring_positions(), vec![pos(12, 1), pos(11, 0)]);
    // Top-right, even column: down, down-left, up-left.
    assert_eq!(pos(12, 6).all_neighboring_positions().len(), 3);
}

#[test]
fn edge_neighbor_counts() {
    // Top row, odd column loses up and both upper diagonals.
    assert_eq!(pos(5, 6).all_neighboring_positions().len(), 3);
    // Top row, even column loses only up.
    assert_eq!(pos(4, 6).all_neighboring_positions().len(), 5);
    // Bottom row, even column loses down and both lower diagonals.
    assert_eq!(pos(4, 0).all_neighboring_positions().len(), 3);
    // Bottom row, odd column loses only down.
    assert_eq!(pos(5, 0).all_neighboring_positions().len(), 5);
    // Left column loses both left diagonals.
    assert_eq!(pos(0, 3).all_neighboring_positions().len(), 4);
    assert_eq!(pos(0, 3).down_left(), None);
    assert_eq!(pos(0, 3).up_left(), None);
}

#[test]
fn neighbor_counts_follow_boundary() {
    for x in 0..MAX_BOARD_WIDTH as u8 {
        for y in 0..MAX_BOARD_HEIGHT as u8 {
            let top = y as usize == MAX_BOARD_HEIGHT - 1;
            let bottom = y == 0;
            let left = x == 0;
            let right = x as usize == MAX_BOARD_WIDTH - 1;
            let odd = x % 2 == 1;
            let missing = [
                top,
                bottom,
                right || (odd && top),
                left || (odd && top),
                right || (!odd && bottom),
                left || (!odd && bottom),
            ]
            .iter()
            .filter(|m| **m)
            .count();
            assert_eq!(pos(x, y).all_neighboring_positions().len(), 6 - missing);
        }
    }
}

#[test]
fn neighborhood_is_symmetric() {
    for x1 in 0..MAX_BOARD_WIDTH as u8 {
        for y1 in 0..MAX_BOARD_HEIGHT as u8 {
            for x2 in 0..MAX_BOARD_WIDTH as u8 {
                for y2 in 0..MAX_BOARD_HEIGHT as u8 {
                    let p = pos(x1, y1);
                    let q = pos(x2, y2);
                    assert_eq!(p.is_neighbor(q), q.is_neighbor(p));
                }
            }
        }
    }
}

#[test]
fn a_position_is_not_its_own_neighbor() {
    assert!(!pos(3, 3).is_neighbor(pos(3, 3)));
    assert!(pos(3, 3).is_neighbor(pos(2, 3)));
    assert!(!pos(3, 3).is_neighbor(pos(5, 3)));
}
