//! Board model and turn rules of a hex-grid territory game.
//!
//! `hex` holds the grid geometry, `units` the cities and knights with the
//! counting and combat rules over them, `board` the terrain grid with its
//! registries and legality checks, `tiles` the fixed tile catalog, `game`
//! the state shared by the turn phases, `actions` the phases themselves and
//! `colors` the color of each terrain and player. Rendering, windowing and
//! pointer-to-hex conversion stand outside the library.
pub mod actions;
pub mod board;
pub mod colors;
pub mod game;
pub mod hex;
pub mod tiles;
pub mod units;

pub use actions::{
    ChooseAction, Construction, End, Expedition, Key, Movement, NewCity, NobleTitle,
    PlayerActionType, Recruitment, SetupBoard, SetupCities, TurnPhase,
};
pub use board::{BoardModel, GameBoard, GameBoardSpaceType, KnightMoveError};
pub use colors::{Color, ColorSpec};
pub use game::{GameUIData, PlayerInventory};
pub use hex::{GameBoardSpacePos, MAX_BOARD_HEIGHT, MAX_BOARD_WIDTH};
pub use tiles::{board_pieces, BoardPiece, NUM_BOARD_PIECES};
pub use units::{PlayerColor, UnitInfo};
