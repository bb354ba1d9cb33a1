//! Hatagenpei ("flag Genpei"), a two-player dice game played against a chat
//! bot: the outcome table, the game engine, the score stores and the session
//! controller that ties them together.

pub mod commands;
pub mod controller;
pub mod dice;
pub mod display;
pub mod game;
pub mod outcome;
pub mod score_operator;
pub mod transcript;
