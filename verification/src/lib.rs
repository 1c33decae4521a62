//! A verified engine for a two-player, turn-based card game.
//!
//! The library owns the authoritative [`models::GameState`], validates and
//! applies player actions, resolves combat, and advances turn phases. Every
//! public operation carries a contract describing exactly which inputs
//! succeed and how the state changes.

pub mod combat;
pub mod commands;
pub mod deck_builder;
pub mod game_engine;
pub mod models;
pub mod text;
