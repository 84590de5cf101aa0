//! Track-control engine for live performance: an ordered playlist of backing
//! tracks and metronomes, stepped through with transport commands.
//!
//! The playlist is a state machine: each command updates the active index and
//! the tracks' states, and returns the effects (commands to the tracks' audio
//! actors, announcements) that the caller carries out in order.

pub mod backing;
pub mod config;
pub mod errors;
pub mod metronome;
pub mod playlist;
pub mod state;
pub mod track;

pub use backing::{backing_step, Backing, BackingAction, BackingCommand, BackingEvent};
pub use config::{Config, ConfigMetronome, ConfigTrack, TrackType};
pub use errors::Error;
pub use metronome::{
    interval, metronome_step, parse_signature, remaining_sleep, BeatCounter, BeatSound, Metronome,
    MetronomeAction, MetronomeEvent,
};
pub use playlist::{Effect, Playlist, Transport};
pub use state::{state_text, PlaybackState};
pub use track::Track;
