//! The logic of a terminal music player: the catalog of songs, the playlists,
//! the view that the user browses and the playback session behind it.
//!
//! The player is a state ([`app::MyApp`]) that commands change
//! ([`input_handler::handle_key_event`]). It touches neither the audio device
//! nor the disk: each command hands back what the surroundings have to do
//! ([`app::Action`]), and what was read from the disk comes in as plain
//! values. [`model`] states every operation as a function on plain values,
//! and [`laws`] what holds of them together.

pub mod app;
pub mod display;
pub mod input_handler;
pub mod laws;
pub mod manifest;
pub mod model;
pub mod names;
pub mod order;
pub mod playback;
pub mod playlist;
pub mod scroll;
pub mod song;
pub mod storage;
pub mod text;
pub mod ui;
pub mod utils;
