//! A deterministic, seed-driven dungeon game core: random draws derived from a
//! shared entropy seed, point-budget character generation, turn-based battle
//! resolution against trap defenders, a multi-pool gold ledger, and a
//! league/timing gate for dungeon eligibility.
#![allow(non_snake_case)]

pub mod battle;
pub mod coins;
pub mod game;
pub mod gate;
pub mod grid;
pub mod seeder;
pub mod strmap;

pub use seeder::draw;
