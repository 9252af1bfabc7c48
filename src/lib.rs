//! A small top-down tile game, modelled on integers: a map of glyph tiles,
//! a player that slides along walls, encounter zones that start a timed
//! fade into combat, and a two-state game controller.

pub mod geometry;
pub mod ascii;
pub mod tilemap;
pub mod player;
pub mod fadeout;
pub mod game;
pub mod combat;
