//! Yak Mania: the game rules of a multiplayer yak-farming game, with the
//! decision logic of its bot-player simulator, specified and proved with Verus.

pub mod api;
pub mod bot;
pub mod config;
pub mod cost;
pub mod counts;
pub mod enums;
pub mod game_update;
pub mod ids;
pub mod laws;
pub mod players;
pub mod roster;
pub mod subscription;
pub mod text;
pub mod websocket;
pub mod yak_counts;
pub mod ideal;
pub mod json;
