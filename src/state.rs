use vstd::prelude::*;

verus! {

/// Playback state of one track.
#[derive(Clone, Copy, Debug, PartialEq, Eq, Structural)]
pub enum PlaybackState {
    /// Never played.
    Initial,
    Playing,
    Paused,
    /// Played, then ended or stopped.
    Stopped,
}

/// The text shown for a state; a track that never played reads as stopped.
pub open spec fn spec_state_text(s: PlaybackState) -> Seq<char> {
    match s {
        PlaybackState::Initial => "Stopped"@,
        PlaybackState::Playing => "Playing"@,
        PlaybackState::Paused => "Paused"@,
        PlaybackState::Stopped => "Stopped"@,
    }
}

pub fn state_text(s: PlaybackState) -> (r: &'static str)
    ensures
        r@ == spec_state_text(s),
{
    match s {
        PlaybackState::Initial => "Stopped",
        PlaybackState::Playing => "Playing",
        PlaybackState::Paused => "Paused",
        PlaybackState::Stopped => "Stopped",
    }
}

} // verus!
