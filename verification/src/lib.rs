//! Game data of "5D Chess With Multiverse Time Travel" as read from the
//! game's memory, and the rules that turn it into move notation.

pub mod text;
pub mod notation;
pub mod game_data;
pub mod game;
pub mod board_record;
pub mod saving;
pub mod process;
