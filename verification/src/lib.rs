//! yatzy — Kniffel (Yatzy) game engine for physical GoDice.
//!
//! Provides the core game logic for Kniffel: scorecard management,
//! scoring rules, validation, strategy and game state.

pub mod error;
pub mod models;
pub mod rules;
pub mod strategy;
pub mod services;
pub mod ui;
