//! Verified core of a Pomodoro timer: the countdown timer, the playlist
//! navigation, the session state machine and the settings parsers.

pub mod timer;
pub mod text;
pub mod config;
pub mod color;
pub mod settings;
pub mod media;
pub mod playlist;
pub mod session;
pub mod thumbnails;
pub mod window;
pub mod display;
pub mod form;
