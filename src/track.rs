use vstd::prelude::*;

use crate::backing::Backing;
use crate::config::TrackType;
use crate::metronome::{decimal, Metronome};
use crate::state::PlaybackState;

verus! {

/// What the playlist knows of a track.
pub struct TrackView {
    pub name: Seq<char>,
    pub kind: TrackType,
    pub autostart: bool,
    pub state: PlaybackState,
}

impl TrackView {
    pub open spec fn with_state(self, state: PlaybackState) -> TrackView {
        TrackView { state, ..self }
    }
}

/// The state a track of `kind` is in once paused: a metronome cannot pause.
pub open spec fn paused_state(kind: TrackType) -> PlaybackState {
    match kind {
        TrackType::Backing => PlaybackState::Paused,
        TrackType::Metronome => PlaybackState::Stopped,
    }
}

/// Same kind, and the same audio or beat: only the name, autostart flag and
/// state may tell the two apart.
pub open spec fn same_media(a: Track, b: Track) -> bool {
    match (a, b) {
        (Track::Backing(x), Track::Backing(y)) => x.same_media(&y),
        (Track::Metronome(x), Track::Metronome(y)) => x.same_media(&y),
        _ => false,
    }
}

/// One track of a playlist.
pub enum Track {
    Backing(Backing),
    Metronome(Metronome),
}

impl View for Track {
    type V = TrackView;

    open spec fn view(&self) -> TrackView {
        match self {
            Track::Backing(b) => TrackView {
                name: b.spec_name(),
                kind: TrackType::Backing,
                autostart: b.spec_autostart(),
                state: b.spec_state(),
            },
            Track::Metronome(m) => TrackView {
                name: m.spec_name(),
                kind: TrackType::Metronome,
                autostart: m.spec_autostart(),
                state: m.spec_state(),
            },
        }
    }
}

impl Track {
    pub fn name(&self) -> (r: &str)
        ensures
            r@ == self@.name,
    {
        match self {
            Track::Backing(b) => b.name(),
            Track::Metronome(m) => m.name(),
        }
    }

    /// The line that describes this track.
    pub fn label(&self) -> (r: String)
        ensures
            self matches Track::Backing(b) ==> r@ == "Backing track - "@ + b.spec_path(),
            self matches Track::Metronome(m) ==> r@ == "Metronome at "@ + decimal(
                m.spec_tempo() as nat,
            ) + "bpm in "@ + m.spec_signature(),
    {
        match self {
            Track::Backing(b) => b.label(),
            Track::Metronome(m) => m.label(),
        }
    }

    pub fn kind(&self) -> (r: TrackType)
        ensures
            r == self@.kind,
    {
        match self {
            Track::Backing(_) => TrackType::Backing,
            Track::Metronome(_) => TrackType::Metronome,
        }
    }

    pub fn autostart(&self) -> (r: bool)
        ensures
            r == self@.autostart,
    {
        match self {
            Track::Backing(b) => b.autostart(),
            Track::Metronome(m) => m.autostart(),
        }
    }

    pub fn set_autostart(&mut self, autostart: bool)
        ensures
            same_media(*final(self), *old(self)),
            final(self)@ == (TrackView { autostart, ..old(self)@ }),
    {
        match self {
            Track::Backing(b) => b.set_autostart(autostart),
            Track::Metronome(m) => m.set_autostart(autostart),
        }
    }

    pub fn get_state(&self) -> (r: PlaybackState)
        ensures
            r == self@.state,
    {
        match self {
            Track::Backing(b) => b.get_state(),
            Track::Metronome(m) => m.get_state(),
        }
    }

    pub fn play(&mut self)
        ensures
            same_media(*final(self), *old(self)),
            final(self)@ == old(self)@.with_state(PlaybackState::Playing),
    {
        match self {
            Track::Backing(b) => b.play(),
            Track::Metronome(m) => m.play(),
        }
    }

    pub fn pause(&mut self)
        ensures
            same_media(*final(self), *old(self)),
            final(self)@ == old(self)@.with_state(paused_state(old(self)@.kind)),
    {
        match self {
            Track::Backing(b) => b.pause(),
            Track::Metronome(m) => m.pause(),
        }
    }

    pub fn stop(&mut self)
        ensures
            same_media(*final(self), *old(self)),
            final(self)@ == old(self)@.with_state(PlaybackState::Stopped),
    {
        match self {
            Track::Backing(b) => b.stop(),
            Track::Metronome(m) => m.stop(),
        }
    }

    /// Records a natural end; only backing tracks end by themselves, so a
    /// metronome keeps its state.
    pub fn finish(&mut self)
        ensures
            same_media(*final(self), *old(self)),
            old(self)@.kind == TrackType::Backing ==> final(self)@ == old(self)@.with_state(
                PlaybackState::Stopped,
            ),
            old(self)@.kind == TrackType::Metronome ==> final(self)@ == old(self)@,
    {
        match self {
            Track::Backing(b) => b.finish(),
            Track::Metronome(_) => {},
        }
    }
}

} // verus!
