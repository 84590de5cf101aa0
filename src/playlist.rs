use vstd::prelude::*;

use crate::backing::Backing;
use crate::config::{Config, ConfigTrack, TrackType};
use crate::errors::Error;
use crate::metronome::{digits_value, splits_signature, valid_signature, Metronome};
use crate::state::PlaybackState;
use crate::track::{paused_state, same_media, Track, TrackView};

verus! {

/// A transport command for one track.
#[derive(Clone, Copy, Debug, PartialEq, Eq, Structural)]
pub enum Transport {
    Play,
    Pause,
    Stop,
}

/// What the playlist asks of the world after a command, in order.
#[derive(Clone, Copy, Debug, PartialEq, Eq, Structural)]
pub enum Effect {
    /// Send a transport command to the track at `track`.
    Send { track: usize, command: Transport },
    /// Show the track at `track` as the active one, in `state`.
    Announce { track: usize, state: PlaybackState },
}

/// The playlist as a value: its tracks and the index of the active one.
pub struct PlaylistView {
    pub index: nat,
    pub tracks: Seq<TrackView>,
}

/// The index is in range, and no track but the active one sounds or waits
/// paused.
pub open spec fn valid(v: PlaylistView) -> bool {
    &&& 0 < v.tracks.len()
    &&& v.index < v.tracks.len()
    &&& forall|j: int|
        0 <= j < v.tracks.len() && j != v.index ==> (#[trigger] v.tracks[j]).state
            == PlaybackState::Initial || v.tracks[j].state == PlaybackState::Stopped
}

/// The active track set to `state`, sent `command`, then announced.
pub open spec fn command_active(v: PlaylistView, command: Transport, state: PlaybackState) -> (
    PlaylistView,
    Seq<Effect>,
) {
    let i = v.index;
    (
        PlaylistView { tracks: v.tracks.update(i as int, v.tracks[i as int].with_state(state)), ..v },
        seq![
            Effect::Send { track: i as usize, command },
            Effect::Announce { track: i as usize, state },
        ],
    )
}

pub open spec fn spec_stop(v: PlaylistView) -> (PlaylistView, Seq<Effect>) {
    command_active(v, Transport::Stop, PlaybackState::Stopped)
}

pub open spec fn spec_play(v: PlaylistView) -> (PlaylistView, Seq<Effect>) {
    command_active(v, Transport::Play, PlaybackState::Playing)
}

pub open spec fn spec_pause(v: PlaylistView) -> (PlaylistView, Seq<Effect>) {
    command_active(v, Transport::Pause, paused_state(v.tracks[v.index as int].kind))
}

pub open spec fn spec_play_pause(v: PlaylistView) -> (PlaylistView, Seq<Effect>) {
    if v.tracks[v.index as int].state == PlaybackState::Playing {
        spec_pause(v)
    } else {
        spec_play(v)
    }
}

/// Stops the active track and makes `to` the active one, announcing it.
pub open spec fn move_to(v: PlaylistView, to: nat) -> (PlaylistView, Seq<Effect>) {
    let (s, e) = spec_stop(v);
    (
        PlaylistView { index: to, ..s },
        e.push(Effect::Announce { track: to as usize, state: s.tracks[to as int].state }),
    )
}

pub open spec fn spec_next(v: PlaylistView) -> (PlaylistView, Seq<Effect>) {
    if v.index + 1 < v.tracks.len() {
        move_to(v, v.index + 1)
    } else {
        (v, seq![])
    }
}

pub open spec fn spec_previous(v: PlaylistView) -> (PlaylistView, Seq<Effect>) {
    if v.index > 0 {
        move_to(v, (v.index - 1) as nat)
    } else {
        (v, seq![])
    }
}

/// The track at `track` ended by itself. An event from a track that is no
/// longer active changes nothing. Otherwise a backing track is then stopped;
/// when the next track starts by itself, it becomes active and plays, and
/// else nothing is asked of the world.
pub open spec fn spec_finished(v: PlaylistView, track: nat) -> (PlaylistView, Seq<Effect>) {
    let i = v.index;
    let t = v.tracks[i as int];
    let ended = if t.kind == TrackType::Backing {
        PlaylistView {
            tracks: v.tracks.update(i as int, t.with_state(PlaybackState::Stopped)),
            ..v
        }
    } else {
        v
    };
    if track != i {
        (v, seq![])
    } else if i + 1 < v.tracks.len() && v.tracks[i + 1int].autostart {
        let (n, e1) = move_to(ended, i + 1);
        let (p, e2) = spec_play(n);
        (p, e1 + e2)
    } else {
        (ended, seq![])
    }
}

/// Why a playlist entry cannot become a track, if it cannot; `sounds` is
/// whether the metronome sounds are given.
pub open spec fn track_error(t: ConfigTrack, sounds: bool) -> Option<Error> {
    match t.track_type {
        TrackType::Backing => if t.path is None {
            Some(Error::MissingPath)
        } else {
            None
        },
        TrackType::Metronome => if t.tempo is None {
            Some(Error::MissingTempo)
        } else if t.signature is None {
            Some(Error::MissingSignature)
        } else if !sounds {
            Some(Error::MissingMetronomeSounds)
        } else if !valid_signature(t.signature->Some_0@) {
            Some(Error::InvalidSignature)
        } else {
            None
        },
    }
}

/// The track that a valid playlist entry becomes, before it has played.
pub open spec fn track_from_config(t: ConfigTrack) -> TrackView {
    TrackView {
        name: t.name@,
        kind: t.track_type,
        autostart: t.autostart == Some(true),
        state: PlaybackState::Initial,
    }
}

/// The track built from a valid playlist entry carries the entry's details:
/// a backing track its file and delay (none means no delay), a metronome its
/// tempo, signature and the signature's beats per bar.
pub open spec fn built_from(track: Track, t: ConfigTrack) -> bool {
    &&& track@ == track_from_config(t)
    &&& match track {
        Track::Backing(b) => {
            &&& b.spec_path() == t.path->Some_0@
            &&& b.spec_delay() == match t.delay {
                Some(d) => d,
                None => 0,
            }
        },
        Track::Metronome(m) => {
            &&& m.spec_tempo() == t.tempo->Some_0
            &&& m.spec_signature() == t.signature->Some_0@
            &&& forall|p: int|
                splits_signature(t.signature->Some_0@, p) ==> m.spec_beats_per_bar()
                    == digits_value(t.signature->Some_0@.subrange(0, p))
        },
    }
}

/// The ordered tracks of a performance and the one that is active.
pub struct Playlist {
    tracks: Vec<Track>,
    index: usize,
}

impl View for Playlist {
    type V = PlaylistView;

    closed spec fn view(&self) -> PlaylistView {
        PlaylistView { index: self.index as nat, tracks: self.tracks@.map_values(|t: Track| t@) }
    }
}

impl Playlist {
    pub open spec fn wf(&self) -> bool {
        valid(self@)
    }

    /// The track at `i`.
    pub closed spec fn spec_track(&self, i: int) -> Track {
        self.tracks@[i]
    }

    proof fn lemma_view(&self)
        ensures
            self@.index == self.index,
            self@.tracks.len() == self.tracks@.len(),
            forall|k: int| 0 <= k < self.tracks@.len() ==> self@.tracks[k] == (#[trigger] self.tracks@[k])@,
    {
    }

    proof fn lemma_keeps_media_trans(a: &Playlist, b: &Playlist, c: &Playlist)
        requires
            c.keeps_media(b),
            b.keeps_media(a),
            b@.tracks.len() == a@.tracks.len(),
        ensures
            c.keeps_media(a),
    {
        assert forall|j: int| 0 <= j < a@.tracks.len() implies same_media(
            #[trigger] c.spec_track(j),
            a.spec_track(j),
        ) by {
            assert(same_media(c.spec_track(j), b.spec_track(j)));
            assert(same_media(b.spec_track(j), a.spec_track(j)));
        }
    }

    /// Every track keeps its kind and media, whatever the command.
    pub open spec fn keeps_media(&self, before: &Playlist) -> bool {
        forall|j: int|
            0 <= j < before@.tracks.len() ==> same_media(
                #[trigger] self.spec_track(j),
                before.spec_track(j),
            )
    }

    /// Builds the tracks of a playlist file, in order, the first one active.
    /// Fails on an empty list, or with the error of the first entry that
    /// cannot become a track.
    pub fn from_config(config: Config) -> (r: Result<Playlist, Error>)
        ensures
            config.tracks@.len() == 0 ==> r == Err::<Playlist, Error>(Error::NoTracks),
            config.tracks@.len() > 0 ==> (r is Ok <==> forall|j: int|
                0 <= j < config.tracks@.len() ==> track_error(
                    #[trigger] config.tracks@[j],
                    config.metronome is Some,
                ) is None),
            r matches Ok(p) ==> {
                &&& p.wf()
                &&& p@.index == 0
                &&& p@.tracks == config.tracks@.map_values(|t: ConfigTrack| track_from_config(t))
                &&& forall|j: int|
                    0 <= j < config.tracks@.len() ==> built_from(
                        #[trigger] p.spec_track(j),
                        config.tracks@[j],
                    )
            },
            r matches Err(e) ==> config.tracks@.len() == 0 || exists|j: int|
                0 <= j < config.tracks@.len() && track_error(
                    #[trigger] config.tracks@[j],
                    config.metronome is Some,
                ) == Some(e) && forall|k: int|
                    0 <= k < j ==> track_error(
                        #[trigger] config.tracks@[k],
                        config.metronome is Some,
                    ) is None,
    {
        let n = config.tracks.len();
        if n == 0 {
            return Err(Error::NoTracks);
        }
        let sounds = config.metronome.is_some();
        let mut tracks: Vec<Track> = Vec::new();
        let mut j: usize = 0;
        while j < n
            invariant
                n == config.tracks@.len(),
                sounds == config.metronome is Some,
                j <= n,
                tracks@.len() == j,
                forall|k: int|
                    0 <= k < j ==> built_from(#[trigger] tracks@[k], config.tracks@[k]),
                forall|k: int|
                    0 <= k < j ==> track_error(#[trigger] config.tracks@[k], sounds) is None,
            decreases n - j,
        {
            let ct = &config.tracks[j];
            let autostart = match ct.autostart {
                Some(b) => b,
                None => false,
            };
            let t = match ct.track_type {
                TrackType::Backing => match &ct.path {
                    None => return Err(Error::MissingPath),
                    Some(path) => {
                        let delay = match ct.delay {
                            Some(d) => d,
                            None => 0,
                        };
                        let mut b = Backing::new(ct.name.as_str(), path.as_str(), delay);
                        b.set_autostart(autostart);
                        Track::Backing(b)
                    },
                },
                TrackType::Metronome => {
                    let tempo = match ct.tempo {
                        None => return Err(Error::MissingTempo),
                        Some(t) => t,
                    };
                    let signature = match &ct.signature {
                        None => return Err(Error::MissingSignature),
                        Some(s) => s,
                    };
                    if !sounds {
                        return Err(Error::MissingMetronomeSounds);
                    }
                    match Metronome::new(ct.name.as_str(), tempo, signature.as_str(), autostart) {
                        Err(e) => return Err(e),
                        Ok(m) => Track::Metronome(m),
                    }
                },
            };
            assert(built_from(t, config.tracks@[j as int]));
            tracks.push(t);
            j = j + 1;
        }
        let p = Playlist { tracks, index: 0 };
        assert forall|k: int| 0 <= k < n implies (#[trigger] tracks@[k])@ == track_from_config(
            config.tracks@[k],
        ) by {
            assert(built_from(tracks@[k], config.tracks@[k]));
        }
        assert(p@.tracks =~= config.tracks@.map_values(|t: ConfigTrack| track_from_config(t)));
        Ok(p)
    }

    /// Sends `command` to the active track and announces it.
    fn command_active(&mut self, command: Transport, effects: &mut Vec<Effect>)
        requires
            old(self).wf(),
        ensures
            final(self).keeps_media(old(self)),
            ({
                let state = match command {
                    Transport::Play => PlaybackState::Playing,
                    Transport::Pause => paused_state(old(self)@.tracks[old(self)@.index as int].kind),
                    Transport::Stop => PlaybackState::Stopped,
                };
                let (v, e) = command_active(old(self)@, command, state);
                final(self)@ == v && final(effects)@ == old(effects)@ + e
            }),
    {
        let i = self.index;
        match command {
            Transport::Play => self.tracks[i].play(),
            Transport::Pause => self.tracks[i].pause(),
            Transport::Stop => self.tracks[i].stop(),
        }
        let state = self.tracks[i].get_state();
        effects.push(Effect::Send { track: i, command });
        effects.push(Effect::Announce { track: i, state });
        proof {
            let ghost state = match command {
                Transport::Play => PlaybackState::Playing,
                Transport::Pause => paused_state(old(self)@.tracks[i as int].kind),
                Transport::Stop => PlaybackState::Stopped,
            };
            let (v, e) = command_active(old(self)@, command, state);
            assert(self@.tracks =~= v.tracks);
            assert(effects@ =~= old(effects)@ + e);
        }
    }

    /// Stops the active track and makes the track at `to` the active one.
    fn move_to(&mut self, to: usize, effects: &mut Vec<Effect>)
        requires
            old(self).wf(),
            to < old(self)@.tracks.len(),
        ensures
            final(self).wf(),
            final(self).keeps_media(old(self)),
            ({
                let (v, e) = move_to(old(self)@, to as nat);
                final(self)@ == v && final(effects)@ == old(effects)@ + e
            }),
    {
        self.command_active(Transport::Stop, effects);
        proof {
            self.lemma_view();
        }
        let ghost stopped = *self;
        self.index = to;
        proof {
            assert(self.tracks@ == stopped.tracks@);
            assert(self.keeps_media(&stopped));
            Playlist::lemma_keeps_media_trans(old(self), &stopped, self);
        }
        let state = self.tracks[to].get_state();
        effects.push(Effect::Announce { track: to, state });
        proof {
            let (v, e) = move_to(old(self)@, to as nat);
            assert(self@.tracks =~= v.tracks);
            assert(effects@ =~= old(effects)@ + e);
        }
    }

    /// Stops the active track.
    pub fn stop(&mut self) -> (effects: Vec<Effect>)
        requires
            old(self).wf(),
        ensures
            final(self).wf(),
            final(self).keeps_media(old(self)),
            (final(self)@, effects@) == spec_stop(old(self)@),
    {
        let mut effects = Vec::new();
        self.command_active(Transport::Stop, &mut effects);
        assert(effects@ =~= spec_stop(old(self)@).1);
        effects
    }

    /// Plays the active track unless it plays, in which case it pauses it.
    pub fn play_pause(&mut self) -> (effects: Vec<Effect>)
        requires
            old(self).wf(),
        ensures
            final(self).wf(),
            final(self).keeps_media(old(self)),
            (final(self)@, effects@) == spec_play_pause(old(self)@),
    {
        let mut effects = Vec::new();
        proof {
            self.lemma_view();
        }
        let state = self.tracks[self.index].get_state();
        match state {
            PlaybackState::Playing => self.command_active(Transport::Pause, &mut effects),
            _ => self.command_active(Transport::Play, &mut effects),
        }
        assert(effects@ =~= spec_play_pause(old(self)@).1);
        effects
    }

    /// Makes the following track the active one, without playing it; does
    /// nothing on the last track.
    pub fn next(&mut self) -> (effects: Vec<Effect>)
        requires
            old(self).wf(),
        ensures
            final(self).wf(),
            final(self).keeps_media(old(self)),
            (final(self)@, effects@) == spec_next(old(self)@),
    {
        let mut effects = Vec::new();
        proof {
            self.lemma_view();
        }
        if self.index < self.tracks.len() - 1 {
            self.move_to(self.index + 1, &mut effects);
        }
        assert(effects@ =~= spec_next(old(self)@).1);
        effects
    }

    /// Makes the preceding track the active one, without playing it; does
    /// nothing on the first track.
    pub fn previous(&mut self) -> (effects: Vec<Effect>)
        requires
            old(self).wf(),
        ensures
            final(self).wf(),
            final(self).keeps_media(old(self)),
            (final(self)@, effects@) == spec_previous(old(self)@),
    {
        let mut effects = Vec::new();
        proof {
            self.lemma_view();
        }
        if self.index > 0 {
            self.move_to(self.index - 1, &mut effects);
        }
        assert(effects@ =~= spec_previous(old(self)@).1);
        effects
    }

    /// The track at `track` ended by itself: chains into the next track when
    /// that one starts by itself. An event from a track that is no longer
    /// active is ignored.
    pub fn finished(&mut self, track: usize) -> (effects: Vec<Effect>)
        requires
            old(self).wf(),
        ensures
            final(self).wf(),
            final(self).keeps_media(old(self)),
            (final(self)@, effects@) == spec_finished(old(self)@, track as nat),
    {
        let mut effects = Vec::new();
        proof {
            self.lemma_view();
        }
        let i = self.index;
        if track != i {
            return effects;
        }
        self.tracks[i].finish();
        proof {
            self.lemma_view();
            let v = old(self)@;
            let t = v.tracks[i as int];
            let ended = if t.kind == TrackType::Backing {
                PlaylistView {
                    tracks: v.tracks.update(i as int, t.with_state(PlaybackState::Stopped)),
                    ..v
                }
            } else {
                v
            };
            assert(self@.tracks =~= ended.tracks);
        }
        if i < self.tracks.len() - 1 && self.tracks[i + 1].autostart() {
            self.move_to(i + 1, &mut effects);
            self.command_active(Transport::Play, &mut effects);
        }
        assert(effects@ =~= spec_finished(old(self)@, track as nat).1);
        effects
    }
}

impl Playlist {
    /// Index of the active track.
    pub fn index(&self) -> (r: usize)
        ensures
            r == self@.index,
    {
        self.index
    }

    pub fn len(&self) -> (r: usize)
        ensures
            r == self@.tracks.len(),
    {
        self.tracks.len()
    }

    pub fn track(&self, i: usize) -> (r: &Track)
        requires
            i < self@.tracks.len(),
        ensures
            r@ == self@.tracks[i as int],
            *r == self.spec_track(i as int),
    {
        &self.tracks[i]
    }

    pub fn active_track(&self) -> (r: &Track)
        requires
            self.wf(),
        ensures
            r@ == self@.tracks[self@.index as int],
            *r == self.spec_track(self@.index as int),
    {
        &self.tracks[self.index]
    }
}

/// Moving on from any track but the last makes the following one active and
/// leaves the one before stopped; the stop goes out first and nothing is
/// played.
pub proof fn lemma_next_stops_then_advances(v: PlaylistView)
    requires
        valid(v),
        v.index + 1 < v.tracks.len(),
    ensures
        ({
            let (w, e) = spec_next(v);
            &&& valid(w)
            &&& w.index == v.index + 1
            &&& w.tracks[v.index as int].state == PlaybackState::Stopped
            &&& e[0] == (Effect::Send { track: v.index as usize, command: Transport::Stop })
            &&& forall|k: int|
                0 <= k < e.len() ==> !(#[trigger] e[k] matches Effect::Send {
                    command: Transport::Play,
                    ..
                })
        }),
{
    let (w, e) = spec_next(v);
    assert forall|j: int| 0 <= j < w.tracks.len() && j != w.index implies (#[trigger] w.tracks[j]).state
        == PlaybackState::Initial || w.tracks[j].state == PlaybackState::Stopped by {
        if j != v.index {
            assert(w.tracks[j] == v.tracks[j]);
        }
    }
}

/// Going back from the first track changes nothing and asks nothing.
pub proof fn lemma_previous_at_first_is_noop(v: PlaylistView)
    requires
        valid(v),
        v.index == 0,
    ensures
        spec_previous(v) == (v, Seq::<Effect>::empty()),
{
}

/// Play/pause plays a track that is not playing, and pauses one that is; a
/// paused backing track plays again on the next press.
pub proof fn lemma_play_pause_cycles(v: PlaylistView)
    requires
        valid(v),
    ensures
        ({
            let i = v.index as int;
            let (w, e) = spec_play_pause(v);
            &&& valid(w)
            &&& w.index == v.index
            &&& v.tracks[i].state != PlaybackState::Playing ==> {
                &&& w.tracks[i].state == PlaybackState::Playing
                &&& e[0] == (Effect::Send { track: i as usize, command: Transport::Play })
            }
            &&& v.tracks[i].state == PlaybackState::Playing ==> {
                &&& w.tracks[i].state == paused_state(v.tracks[i].kind)
                &&& e[0] == (Effect::Send { track: i as usize, command: Transport::Pause })
            }
            &&& (v.tracks[i].state == PlaybackState::Playing && v.tracks[i].kind
                == TrackType::Backing) ==> {
                &&& w.tracks[i].state == PlaybackState::Paused
                &&& spec_play_pause(w).0.tracks[i].state == PlaybackState::Playing
            }
        }),
{
    let (w, e) = spec_play_pause(v);
    assert forall|j: int| 0 <= j < w.tracks.len() && j != w.index implies (#[trigger] w.tracks[j]).state
        == PlaybackState::Initial || w.tracks[j].state == PlaybackState::Stopped by {
        assert(w.tracks[j] == v.tracks[j]);
    }
}

/// When the active backing track ends by itself, the next track becomes
/// active and plays if it starts by itself, after the ended one is stopped;
/// otherwise the ended track stays active, stopped, and nothing is sent or
/// announced.
pub proof fn lemma_finished_chains(v: PlaylistView)
    requires
        valid(v),
        v.tracks[v.index as int].kind == TrackType::Backing,
    ensures
        ({
            let i = v.index;
            let (w, e) = spec_finished(v, i);
            &&& valid(w)
            &&& (i + 1 < v.tracks.len() && v.tracks[i + 1int].autostart) ==> {
                &&& w.index == i + 1
                &&& w.tracks[i + 1int].state == PlaybackState::Playing
                &&& w.tracks[i as int].state == PlaybackState::Stopped
                &&& e[0] == (Effect::Send { track: i as usize, command: Transport::Stop })
                &&& e.last() == (Effect::Announce {
                    track: (i + 1) as usize,
                    state: PlaybackState::Playing,
                })
                &&& e[e.len() - 2] == (Effect::Send {
                    track: (i + 1) as usize,
                    command: Transport::Play,
                })
            }
            &&& !(i + 1 < v.tracks.len() && v.tracks[i + 1int].autostart) ==> {
                &&& w.index == i
                &&& w.tracks[i as int].state == PlaybackState::Stopped
                &&& e.len() == 0
            }
        }),
{
    let (w, e) = spec_finished(v, v.index);
    assert forall|j: int| 0 <= j < w.tracks.len() && j != w.index implies (#[trigger] w.tracks[j]).state
        == PlaybackState::Initial || w.tracks[j].state == PlaybackState::Stopped by {
        if j != v.index {
            assert(w.tracks[j] == v.tracks[j]);
        }
    }
}

/// An end reported by a track that is no longer active changes nothing.
pub proof fn lemma_stale_finish_ignored(v: PlaylistView, track: nat)
    requires
        valid(v),
        track != v.index,
    ensures
        spec_finished(v, track) == (v, Seq::<Effect>::empty()),
{
}

} // verus!
