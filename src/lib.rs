//! Core of a soundboard: the shared mixer settings, the protocol a playback
//! session follows from launch to termination, output-device resolution, the
//! routing of button triggers, and the rule that admits a file for playback.

pub mod settings;
pub mod player;
pub mod board;
pub mod device;
pub mod add_view;
