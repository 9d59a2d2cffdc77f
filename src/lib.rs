//! Core of a seasonal photo-guessing game: the scoring engine, guess
//! validation, the daily release window, the OAuth2 session lifecycle and the
//! leaderboard, each with its contract.

pub mod calendar;
pub mod config;
pub mod guess;
pub mod identity;
pub mod leaderboard;
pub mod oauth2;
pub mod picture;
pub mod profile;
pub mod scoring;
pub mod session;
pub mod store;
pub mod text;
pub mod user;
