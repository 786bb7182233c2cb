//! Conversation logic of a cocktail-recipe chat bot: per-user settings, the
//! dialogue state machine, the ingredient-narrowing game, result selection,
//! the persisted session record and the rendering of catalog records.

pub mod error;
pub mod helpers;
pub mod text;
pub mod settings;
pub mod drink;
pub mod game;
pub mod keyboard;
pub mod localization;
pub mod state;
pub mod results;
pub mod controller;
pub mod codec;
pub mod str_builder;
pub mod schemas;
pub mod render;
