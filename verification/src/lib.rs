//! The logic of koushin, a command-line companion for MyAnimeList: the
//! watching list and its layout by airing day, the questions asked to update
//! an anime, the sign-in sequence, and the texts and forms sent.

pub mod auth;
pub mod cli;
pub mod config;
pub mod error;
pub mod paint;
pub mod text;
pub mod weekday;
pub mod entry;
pub mod schedule;
pub mod mal;
pub mod prompt;
pub mod xdg;
