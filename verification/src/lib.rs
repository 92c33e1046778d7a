//! The logic of a status-bar helper for media players.
//!
//! The daemon shows what the selected player is doing and takes commands
//! over a local control channel. This crate decides and formats. Its caller
//! runs the two outside programs, one that lists the players and one that
//! controls them, owns the socket, the timers and the files, and reports
//! what happened to the [`engine::Engine`]. The one thing that the crate
//! itself looks at outside is the environment, when it expands the default
//! path of the output file.

pub mod action;
pub mod config;
pub mod engine;
pub mod message;
pub mod metadata;
pub mod output;
pub mod text;

pub use crate::config::{
    get_output_file_path, get_playerctl_cmd, get_players_metadata_cmd, Config,
};
pub use crate::message::StreamMessage;
pub use crate::metadata::{InfoResponse, PlayerMetadata};
pub use crate::text::read_first_line;
