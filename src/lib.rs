//! Item and character stat derivation for a role-playing game.

pub mod stat;
pub mod text;
pub mod requirement;
pub mod modifier;
pub mod item;
pub mod item_builder;
pub mod inventory;
pub mod player;
pub mod presentation;
pub mod laws;
pub mod view;
pub mod ui;
pub mod render;
