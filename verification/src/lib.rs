//! Request logic of the trading API, verified: reading the page that a listing
//! request asks for and the cursors that lead on from it, reading numeric settings,
//! and turning dependency checks into health answers.

pub mod config;
pub mod decimal;
pub mod health;
pub mod pagination;
