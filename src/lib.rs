//! Core rules of a small farming game: vehicle motion, harvesting, transfer
//! between vehicles, the drop zone, the session clock and the layout of the
//! fields, stated and proved over integer models of the game's quantities.

pub mod animals;
pub mod collision;
pub mod drop_zone;
pub mod field;
pub mod game;
pub mod harvest;
mod random;
pub mod session;
pub mod storage;
pub mod ui;
pub mod vehicles;
