use vstd::prelude::*;
use vstd::string::*;

use crate::errors::Error;
use crate::state::PlaybackState;

verus! {

/// Nanoseconds in one minute.
pub const NANOS_PER_MINUTE: u64 = 60_000_000_000;

// ---------------------------------------------------------------------------
// Time signatures
// ---------------------------------------------------------------------------

pub open spec fn is_digit(c: char) -> bool {
    '0' <= c && c <= '9'
}

pub open spec fn all_digits(s: Seq<char>) -> bool {
    forall|i: int| 0 <= i < s.len() ==> is_digit(#[trigger] s[i])
}

/// The decimal value of a string of digits.
pub open spec fn digits_value(s: Seq<char>) -> nat
    decreases s.len(),
{
    if s.len() == 0 {
        0
    } else {
        digits_value(s.drop_last()) * 10 + (s.last() as nat - '0' as nat) as nat
    }
}

/// A non-empty decimal number that fits in a byte.
pub open spec fn is_byte_number(s: Seq<char>) -> bool {
    s.len() > 0 && all_digits(s) && digits_value(s) <= 255
}

/// `s` reads `N/M` with the slash at `p`.
pub open spec fn splits_signature(s: Seq<char>, p: int) -> bool {
    0 <= p < s.len() && s[p] == '/' && is_byte_number(s.subrange(0, p)) && is_byte_number(
        s.subrange(p + 1, s.len() as int),
    )
}

pub open spec fn valid_signature(s: Seq<char>) -> bool {
    exists|p: int| splits_signature(s, p)
}

/// Reads the byte number held by the characters `start..end` of `s`.
fn parse_byte_number(s: &str, start: usize, end: usize) -> (r: Option<u8>)
    requires
        start <= end <= s@.len(),
    ensures
        r is Some <==> is_byte_number(s@.subrange(start as int, end as int)),
        r matches Some(v) ==> v as nat == digits_value(s@.subrange(start as int, end as int)),
{
    if start == end {
        return None;
    }
    let mut acc: u32 = 0;
    let mut i: usize = start;
    while i < end
        invariant
            start <= i <= end <= s@.len(),
            all_digits(s@.subrange(start as int, i as int)),
            acc as nat == if digits_value(s@.subrange(start as int, i as int)) < 256 {
                digits_value(s@.subrange(start as int, i as int))
            } else {
                256
            },
        decreases end - i,
    {
        let c = s.get_char(i);
        let ghost prev = s@.subrange(start as int, i as int);
        let ghost next = s@.subrange(start as int, i + 1);
        if c < '0' || c > '9' {
            assert(!all_digits(s@.subrange(start as int, end as int))) by {
                assert(s@.subrange(start as int, end as int)[i - start] == c);
            }
            return None;
        }
        assert(next.drop_last() =~= prev);
        assert(next.last() == c);
        let d: u32 = (c as u32) - ('0' as u32);
        let v: u32 = acc * 10 + d;
        acc = if v < 256 { v } else { 256 };
        proof {
            assert forall|k: int| 0 <= k < next.len() implies is_digit(#[trigger] next[k]) by {
                if k < prev.len() {
                    assert(next[k] == prev[k]);
                }
            }
            assert(digits_value(next) == digits_value(prev) * 10 + d);
        }
        i = i + 1;
    }
    if acc < 256 {
        Some(acc as u8)
    } else {
        None
    }
}

/// Reads a time signature `N/M` into its two numbers.
pub fn parse_signature(s: &str) -> (r: Option<(u8, u8)>)
    ensures
        r is Some <==> valid_signature(s@),
        forall|p: int|
            splits_signature(s@, p) ==> (r matches Some(pair) && pair.0 as nat == digits_value(
                s@.subrange(0, p),
            ) && pair.1 as nat == digits_value(s@.subrange(p + 1, s@.len() as int))),
{
    let n = s.unicode_len();
    let mut p: usize = 0;
    while p < n && s.get_char(p) != '/'
        invariant
            p <= n == s@.len(),
            forall|k: int| 0 <= k < p ==> s@[k] != '/',
        decreases n - p,
    {
        p = p + 1;
    }
    proof {
        // Any slash that splits the signature is the first one.
        assert forall|q: int| splits_signature(s@, q) implies q == p by {
            if q > p {
                assert(s@.subrange(0, q)[p as int] == '/');
            }
        }
    }
    if p == n {
        return None;
    }
    let first = parse_byte_number(s, 0, p);
    let second = parse_byte_number(s, p + 1, n);
    match (first, second) {
        (Some(a), Some(b)) => {
            assert(splits_signature(s@, p as int));
            Some((a, b))
        },
        _ => {
            assert(!splits_signature(s@, p as int));
            None
        },
    }
}

// ---------------------------------------------------------------------------
// Beat timing
// ---------------------------------------------------------------------------

/// Beat interval in nanoseconds: one minute divided by the tempo. A tempo of
/// zero gives the longest interval there is.
pub open spec fn spec_interval(tempo: u16) -> u64 {
    if tempo == 0 {
        u64::MAX
    } else {
        (NANOS_PER_MINUTE / tempo as u64) as u64
    }
}

/// Time between two beats at `tempo` beats per minute, in nanoseconds.
pub fn interval(tempo: u16) -> (r: u64)
    ensures
        r == spec_interval(tempo),
        tempo > 0 ==> r as int == 60_000_000_000int / (tempo as int),
{
    if tempo == 0 {
        u64::MAX
    } else {
        NANOS_PER_MINUTE / (tempo as u64)
    }
}

pub open spec fn spec_remaining_sleep(interval: u64, elapsed: u64) -> u64 {
    if elapsed <= interval {
        (interval - elapsed) as u64
    } else {
        0
    }
}

/// How long to sleep after a beat whose sounding took `elapsed` nanoseconds,
/// so that beats stay `interval` apart without drift.
pub fn remaining_sleep(interval: u64, elapsed: u64) -> (r: u64)
    ensures
        r == spec_remaining_sleep(interval, elapsed),
        elapsed <= interval ==> r == interval - elapsed,
        elapsed > interval ==> r == 0,
{
    if elapsed <= interval {
        interval - elapsed
    } else {
        0
    }
}

/// Time from the start of the first of these beats to the end of the last:
/// each beat takes its sounding time, then the sleep that follows it.
pub open spec fn beats_duration(interval: u64, elapsed: Seq<u64>) -> int
    decreases elapsed.len(),
{
    if elapsed.len() == 0 {
        0
    } else {
        beats_duration(interval, elapsed.drop_last()) + elapsed.last() + spec_remaining_sleep(
            interval,
            elapsed.last(),
        )
    }
}

/// As long as no beat takes longer than the interval to sound, beat `k`
/// starts exactly `k` intervals after the first, however long each sounding
/// took: the timing does not drift.
pub proof fn lemma_no_drift(interval: u64, elapsed: Seq<u64>)
    requires
        forall|i: int| 0 <= i < elapsed.len() ==> #[trigger] elapsed[i] <= interval,
    ensures
        beats_duration(interval, elapsed) == elapsed.len() * interval,
    decreases elapsed.len(),
{
    if elapsed.len() > 0 {
        let rest = elapsed.drop_last();
        assert forall|i: int| 0 <= i < rest.len() implies #[trigger] rest[i] <= interval by {
            assert(rest[i] == elapsed[i]);
        }
        lemma_no_drift(interval, rest);
        assert(elapsed.last() == elapsed[elapsed.len() - 1]);
        assert(elapsed.len() * interval == rest.len() * interval + interval) by (nonlinear_arith)
            requires
                elapsed.len() == rest.len() + 1,
        ;
    }
}

/// A signal reaching the beat thread, or the lack of one.
#[derive(Clone, Copy, Debug, PartialEq, Eq, Structural)]
pub enum MetronomeEvent {
    /// `true` asks to start, `false` to stop.
    Signal(bool),
    /// No signal is waiting (only a running metronome checks without blocking).
    Quiet,
    /// The signal channel was closed.
    Closed,
}

/// What the beat thread does next.
#[derive(Clone, Copy, Debug, PartialEq, Eq, Structural)]
pub enum MetronomeAction {
    /// Begin a new bar: the next beat is an accent.
    StartBar,
    /// Sound the next beat, then sleep out the interval.
    Beat,
    /// Stop beating and wait for the next signal.
    Halt,
    /// Keep waiting.
    Wait,
    /// Leave the thread.
    Exit,
}

/// The beat thread's next "running" flag and action. Idle, it starts on a
/// `true` signal; running, any signal stops it, so a pause restarts the bar.
pub open spec fn spec_metronome_step(running: bool, event: MetronomeEvent) -> (
    bool,
    MetronomeAction,
) {
    match event {
        MetronomeEvent::Closed => (false, MetronomeAction::Exit),
        MetronomeEvent::Signal(start) => if running {
            (false, MetronomeAction::Halt)
        } else if start {
            (true, MetronomeAction::StartBar)
        } else {
            (false, MetronomeAction::Wait)
        },
        MetronomeEvent::Quiet => if running {
            (true, MetronomeAction::Beat)
        } else {
            (false, MetronomeAction::Wait)
        },
    }
}

/// One turn of the metronome's beat thread.
pub fn metronome_step(running: bool, event: MetronomeEvent) -> (r: (bool, MetronomeAction))
    ensures
        r == spec_metronome_step(running, event),
{
    match event {
        MetronomeEvent::Closed => (false, MetronomeAction::Exit),
        MetronomeEvent::Signal(start) => {
            if running {
                (false, MetronomeAction::Halt)
            } else if start {
                (true, MetronomeAction::StartBar)
            } else {
                (false, MetronomeAction::Wait)
            }
        },
        MetronomeEvent::Quiet => {
            if running {
                (true, MetronomeAction::Beat)
            } else {
                (false, MetronomeAction::Wait)
            }
        },
    }
}

/// Which sound a beat makes.
#[derive(Clone, Copy, Debug, PartialEq, Eq, Structural)]
pub enum BeatSound {
    /// The first beat of a bar.
    Accent,
    Regular,
}

/// The position that follows `beat` in a bar of `n` beats.
pub open spec fn next_beat(beat: nat, n: nat) -> nat {
    if beat + 1 >= n {
        0
    } else {
        beat + 1
    }
}

/// The position in the bar of the beat numbered `k` since the metronome started.
pub open spec fn beat_after(n: nat, k: nat) -> nat
    decreases k,
{
    if k == 0 {
        0
    } else {
        next_beat(beat_after(n, (k - 1) as nat), n)
    }
}

pub open spec fn sound_at(beat: nat) -> BeatSound {
    if beat == 0 {
        BeatSound::Accent
    } else {
        BeatSound::Regular
    }
}

/// Position within the bar of a running metronome.
pub struct BeatCounter {
    beat: u8,
    beats_per_bar: u8,
}

impl BeatCounter {
    pub closed spec fn spec_beat(&self) -> nat {
        self.beat as nat
    }

    pub closed spec fn spec_beats_per_bar(&self) -> nat {
        self.beats_per_bar as nat
    }

    pub closed spec fn wf(&self) -> bool {
        self.beat == 0 || self.beat < self.beats_per_bar
    }

    /// A counter at the start of a bar.
    pub fn new(beats_per_bar: u8) -> (r: BeatCounter)
        ensures
            r.wf(),
            r.spec_beat() == 0,
            r.spec_beats_per_bar() == beats_per_bar,
    {
        BeatCounter { beat: 0, beats_per_bar }
    }

    pub fn beat(&self) -> (r: u8)
        ensures
            r == self.spec_beat(),
    {
        self.beat
    }

    /// Sounds the current beat, accented on the first of the bar, and moves on.
    pub fn tick(&mut self) -> (r: BeatSound)
        requires
            old(self).wf(),
        ensures
            final(self).wf(),
            r == sound_at(old(self).spec_beat()),
            final(self).spec_beat() == next_beat(old(self).spec_beat(), old(self).spec_beats_per_bar()),
            final(self).spec_beats_per_bar() == old(self).spec_beats_per_bar(),
    {
        let r = if self.beat == 0 {
            BeatSound::Accent
        } else {
            BeatSound::Regular
        };
        if self.beat as u16 + 1 >= self.beats_per_bar as u16 {
            self.beat = 0;
        } else {
            self.beat = self.beat + 1;
        }
        r
    }
}

/// In a bar of `n` beats, beat number `k` since the start falls at position
/// `k % n`: the accent sounds on beats 0, n, 2n, and on no other.
pub proof fn lemma_accent_every_bar(n: nat, k: nat)
    requires
        n > 0,
    ensures
        beat_after(n, k) == k % n,
        sound_at(beat_after(n, k)) == BeatSound::Accent <==> k % n == 0,
    decreases k,
{
    if k > 0 {
        lemma_accent_every_bar(n, (k - 1) as nat);
        assert(beat_after(n, k) == k % n) by (nonlinear_arith)
            requires
                beat_after(n, k) == next_beat(beat_after(n, (k - 1) as nat), n),
                beat_after(n, (k - 1) as nat) == (k - 1) % (n as int),
                n > 0,
                k > 0,
        {
            vstd::arithmetic::div_mod::lemma_mod_adds((k - 1) as int, 1, n as int);
        }
    }
}

/// The decimal digit of value `d`.
pub open spec fn digit_char(d: nat) -> char {
    ((d + '0' as nat) as u32) as char
}

/// The decimal form of `n`, without leading zeros.
pub open spec fn decimal(n: nat) -> Seq<char>
    decreases n,
{
    if n < 10 {
        seq![digit_char(n)]
    } else {
        decimal(n / 10).push(digit_char(n % 10))
    }
}

fn digit_str(d: u16) -> (r: &'static str)
    requires
        d < 10,
    ensures
        r@ == seq![digit_char(d as nat)],
{
    proof {
        reveal_strlit("0");
        reveal_strlit("1");
        reveal_strlit("2");
        reveal_strlit("3");
        reveal_strlit("4");
        reveal_strlit("5");
        reveal_strlit("6");
        reveal_strlit("7");
        reveal_strlit("8");
        reveal_strlit("9");
    }
    let r = match d {
        0 => "0",
        1 => "1",
        2 => "2",
        3 => "3",
        4 => "4",
        5 => "5",
        6 => "6",
        7 => "7",
        8 => "8",
        _ => "9",
    };
    assert(r@ =~= seq![digit_char(d as nat)]);
    r
}

/// Appends the decimal form of `n` to `s`.
fn push_decimal(s: &mut String, n: u16)
    ensures
        final(s)@ == old(s)@ + decimal(n as nat),
    decreases n,
{
    if n >= 10 {
        push_decimal(s, n / 10);
    }
    s.append(digit_str(n % 10));
    assert(final(s)@ =~= old(s)@ + decimal(n as nat));
}

// ---------------------------------------------------------------------------
// Metronome tracks
// ---------------------------------------------------------------------------

/// A metronome track. Pausing it stops it: the next play starts a new bar.
pub struct Metronome {
    name: String,
    tempo: u16,
    signature: String,
    beats_per_bar: u8,
    autostart: bool,
    state: PlaybackState,
}

impl Metronome {
    pub closed spec fn spec_name(&self) -> Seq<char> {
        self.name@
    }

    pub closed spec fn spec_tempo(&self) -> u16 {
        self.tempo
    }

    pub closed spec fn spec_signature(&self) -> Seq<char> {
        self.signature@
    }

    pub closed spec fn spec_beats_per_bar(&self) -> nat {
        self.beats_per_bar as nat
    }

    pub closed spec fn spec_autostart(&self) -> bool {
        self.autostart
    }

    pub closed spec fn spec_state(&self) -> PlaybackState {
        self.state
    }

    /// Same tempo and signature.
    pub open spec fn same_media(&self, other: &Metronome) -> bool {
        &&& self.spec_tempo() == other.spec_tempo()
        &&& self.spec_signature() == other.spec_signature()
        &&& self.spec_beats_per_bar() == other.spec_beats_per_bar()
    }

    /// A metronome that has not played yet; fails when the signature is not `N/M`.
    pub fn new(name: &str, tempo: u16, signature: &str, autostart: bool) -> (r: Result<
        Metronome,
        Error,
    >)
        ensures
            r is Err <==> !valid_signature(signature@),
            r matches Err(e) ==> e == Error::InvalidSignature,
            r matches Ok(m) ==> {
                &&& m.spec_name() == name@
                &&& m.spec_tempo() == tempo
                &&& m.spec_signature() == signature@
                &&& m.spec_autostart() == autostart
                &&& m.spec_state() == PlaybackState::Initial
                &&& forall|p: int|
                    splits_signature(signature@, p) ==> m.spec_beats_per_bar() == digits_value(
                        signature@.subrange(0, p),
                    )
            },
    {
        match parse_signature(signature) {
            Some((beats, _)) => Ok(
                Metronome {
                    name: name.to_owned(),
                    tempo,
                    signature: signature.to_owned(),
                    beats_per_bar: beats,
                    autostart,
                    state: PlaybackState::Initial,
                },
            ),
            None => Err(Error::InvalidSignature),
        }
    }

    pub fn name(&self) -> (r: &str)
        ensures
            r@ == self.spec_name(),
    {
        self.name.as_str()
    }

    /// The line that describes this metronome, as in `Metronome at 120bpm in 4/4`.
    pub fn label(&self) -> (r: String)
        ensures
            r@ == "Metronome at "@ + decimal(self.spec_tempo() as nat) + "bpm in "@
                + self.spec_signature(),
    {
        let mut r = String::from_str("Metronome at ");
        push_decimal(&mut r, self.tempo);
        r.append("bpm in ");
        r.append(self.signature.as_str());
        r
    }

    pub fn tempo(&self) -> (r: u16)
        ensures
            r == self.spec_tempo(),
    {
        self.tempo
    }

    pub fn signature(&self) -> (r: &str)
        ensures
            r@ == self.spec_signature(),
    {
        self.signature.as_str()
    }

    pub fn beats_per_bar(&self) -> (r: u8)
        ensures
            r == self.spec_beats_per_bar(),
    {
        self.beats_per_bar
    }

    pub fn autostart(&self) -> (r: bool)
        ensures
            r == self.spec_autostart(),
    {
        self.autostart
    }

    pub fn set_autostart(&mut self, autostart: bool)
        ensures
            final(self).spec_autostart() == autostart,
            final(self).spec_state() == old(self).spec_state(),
            final(self).spec_name() == old(self).spec_name(),
            final(self).same_media(old(self)),
    {
        self.autostart = autostart;
    }

    /// The state as this handle last set it: the beat loop never changes it.
    pub fn get_state(&self) -> (r: PlaybackState)
        ensures
            r == self.spec_state(),
    {
        self.state
    }

    /// Starts the beat loop from the top of a bar.
    pub fn play(&mut self)
        ensures
            final(self).spec_state() == PlaybackState::Playing,
            final(self).spec_autostart() == old(self).spec_autostart(),
            final(self).spec_name() == old(self).spec_name(),
            final(self).same_media(old(self)),
    {
        self.state = PlaybackState::Playing;
    }

    /// Same as `stop`: a metronome has no place to resume from.
    pub fn pause(&mut self)
        ensures
            final(self).spec_state() == PlaybackState::Stopped,
            final(self).spec_autostart() == old(self).spec_autostart(),
            final(self).spec_name() == old(self).spec_name(),
            final(self).same_media(old(self)),
    {
        self.stop()
    }

    pub fn stop(&mut self)
        ensures
            final(self).spec_state() == PlaybackState::Stopped,
            final(self).spec_autostart() == old(self).spec_autostart(),
            final(self).spec_name() == old(self).spec_name(),
            final(self).same_media(old(self)),
    {
        self.state = PlaybackState::Stopped;
    }
}

} // verus!
