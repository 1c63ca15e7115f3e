//! Interaction and outcome rules of a two-dimensional stacking puzzle.

pub mod body;
pub mod collision;
pub mod components;
pub mod draggable;
pub mod events;
pub mod geometry;
pub mod input;
pub mod level;
pub mod lock;
pub mod menu;
pub mod physics;
pub mod rotation;
pub mod search;
pub mod settling;
pub mod shadows;
pub mod shape_maker;
pub mod source;
pub mod stage;
pub mod text;
pub mod walls;
pub mod win;
