use vstd::prelude::*;
use vstd::string::*;

use crate::state::PlaybackState;

verus! {

/// A pre-recorded backing track, played after an optional delay.
pub struct Backing {
    name: String,
    path: String,
    delay: u64,
    autostart: bool,
    state: PlaybackState,
}

impl Backing {
    pub closed spec fn spec_name(&self) -> Seq<char> {
        self.name@
    }

    pub closed spec fn spec_path(&self) -> Seq<char> {
        self.path@
    }

    pub closed spec fn spec_delay(&self) -> u64 {
        self.delay
    }

    pub closed spec fn spec_autostart(&self) -> bool {
        self.autostart
    }

    pub closed spec fn spec_state(&self) -> PlaybackState {
        self.state
    }

    /// Same audio file and delay.
    pub open spec fn same_media(&self, other: &Backing) -> bool {
        self.spec_path() == other.spec_path() && self.spec_delay() == other.spec_delay()
    }

    /// A backing track that has not played yet and does not start by itself.
    pub fn new(name: &str, path: &str, delay: u64) -> (r: Backing)
        ensures
            r.spec_name() == name@,
            r.spec_path() == path@,
            r.spec_delay() == delay,
            !r.spec_autostart(),
            r.spec_state() == PlaybackState::Initial,
    {
        Backing {
            name: name.to_owned(),
            path: path.to_owned(),
            delay,
            autostart: false,
            state: PlaybackState::Initial,
        }
    }

    pub fn name(&self) -> (r: &str)
        ensures
            r@ == self.spec_name(),
    {
        self.name.as_str()
    }

    /// The line that describes this track, as in `Backing track - intro.ogg`.
    pub fn label(&self) -> (r: String)
        ensures
            r@ == "Backing track - "@ + self.spec_path(),
    {
        let mut r = String::from_str("Backing track - ");
        r.append(self.path.as_str());
        r
    }

    pub fn path(&self) -> (r: &str)
        ensures
            r@ == self.spec_path(),
    {
        self.path.as_str()
    }

    /// Seconds to wait between a play command and the first sound.
    pub fn delay(&self) -> (r: u64)
        ensures
            r == self.spec_delay(),
    {
        self.delay
    }

    pub fn autostart(&self) -> (r: bool)
        ensures
            r == self.spec_autostart(),
    {
        self.autostart
    }

    pub fn set_autostart(&mut self, autostart: bool)
        ensures
            final(self).spec_autostart() == autostart,
            final(self).spec_state() == old(self).spec_state(),
            final(self).spec_name() == old(self).spec_name(),
            final(self).spec_path() == old(self).spec_path(),
            final(self).spec_delay() == old(self).spec_delay(),
    {
        self.autostart = autostart;
    }

    pub fn get_state(&self) -> (r: PlaybackState)
        ensures
            r == self.spec_state(),
    {
        self.state
    }

    pub fn play(&mut self)
        ensures
            final(self).spec_state() == PlaybackState::Playing,
            final(self).spec_autostart() == old(self).spec_autostart(),
            final(self).spec_name() == old(self).spec_name(),
            final(self).same_media(old(self)),
    {
        self.state = PlaybackState::Playing;
    }

    pub fn pause(&mut self)
        ensures
            final(self).spec_state() == PlaybackState::Paused,
            final(self).spec_autostart() == old(self).spec_autostart(),
            final(self).spec_name() == old(self).spec_name(),
            final(self).same_media(old(self)),
    {
        self.state = PlaybackState::Paused;
    }

    pub fn stop(&mut self)
        ensures
            final(self).spec_state() == PlaybackState::Stopped,
            final(self).spec_autostart() == old(self).spec_autostart(),
            final(self).spec_name() == old(self).spec_name(),
            final(self).same_media(old(self)),
    {
        self.state = PlaybackState::Stopped;
    }

    /// Records that the audio reached its end by itself.
    pub fn finish(&mut self)
        ensures
            final(self).spec_state() == PlaybackState::Stopped,
            final(self).spec_autostart() == old(self).spec_autostart(),
            final(self).spec_name() == old(self).spec_name(),
            final(self).same_media(old(self)),
    {
        self.state = PlaybackState::Stopped;
    }
}

// ---------------------------------------------------------------------------
// The playback actor
// ---------------------------------------------------------------------------

/// A command sent to the actor that owns a backing track's audio.
#[derive(Clone, Copy, Debug, PartialEq, Eq, Structural)]
pub enum BackingCommand {
    Stop,
    Play,
    Pause,
}

/// What the actor's wait on its command queue ended with.
#[derive(Clone, Copy, Debug, PartialEq, Eq, Structural)]
pub enum BackingEvent {
    Command(BackingCommand),
    /// No command came in time; `playing` is whether the audio still plays.
    Timeout { playing: bool },
    /// The command queue was closed.
    Closed,
}

/// What the actor does with its audio in answer to an event.
#[derive(Clone, Copy, Debug, PartialEq, Eq, Structural)]
pub enum BackingAction {
    StopAudio,
    /// Sleep for the track's delay, then start the audio.
    DelayThenPlay,
    PauseAudio,
    /// Tell the playlist that the track ended by itself.
    ReportFinished,
    Nothing,
    /// Leave the command loop.
    Exit,
}

/// The actor's next "started" flag and action, from its current flag and an event.
pub open spec fn spec_backing_step(started: bool, event: BackingEvent) -> (bool, BackingAction) {
    match event {
        BackingEvent::Command(BackingCommand::Stop) => (false, BackingAction::StopAudio),
        BackingEvent::Command(BackingCommand::Play) => (true, BackingAction::DelayThenPlay),
        BackingEvent::Command(BackingCommand::Pause) => (false, BackingAction::PauseAudio),
        BackingEvent::Timeout { playing } => if started && !playing {
            (false, BackingAction::ReportFinished)
        } else {
            (started, BackingAction::Nothing)
        },
        BackingEvent::Closed => (started, BackingAction::Exit),
    }
}

/// One turn of a backing track's actor. `started` is set while the audio was
/// started by a play command and has not been stopped, paused or seen ending;
/// a natural end is reported once, as the flag drops with the report.
pub fn backing_step(started: bool, event: BackingEvent) -> (r: (bool, BackingAction))
    ensures
        r == spec_backing_step(started, event),
        r.1 == BackingAction::ReportFinished ==> !r.0,
        r.1 == BackingAction::ReportFinished <==> (started && event == (BackingEvent::Timeout {
            playing: false,
        })),
{
    match event {
        BackingEvent::Command(BackingCommand::Stop) => (false, BackingAction::StopAudio),
        BackingEvent::Command(BackingCommand::Play) => (true, BackingAction::DelayThenPlay),
        BackingEvent::Command(BackingCommand::Pause) => (false, BackingAction::PauseAudio),
        BackingEvent::Timeout { playing } => {
            if started && !playing {
                (false, BackingAction::ReportFinished)
            } else {
                (started, BackingAction::Nothing)
            }
        },
        BackingEvent::Closed => (started, BackingAction::Exit),
    }
}

/// Once a natural end has been reported, further ticks report nothing until
/// the track is played again.
pub proof fn lemma_finish_reported_once(started: bool, playing: bool, later: bool)
    requires
        spec_backing_step(started, BackingEvent::Timeout { playing }).1
            == BackingAction::ReportFinished,
    ensures
        spec_backing_step(
            spec_backing_step(started, BackingEvent::Timeout { playing }).0,
            BackingEvent::Timeout { playing: later },
        ).1 == BackingAction::Nothing,
{
}

} // verus!
