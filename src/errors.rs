use vstd::prelude::*;

verus! {

/// Reasons for which a playlist cannot be built.
#[derive(Clone, Copy, Debug, PartialEq, Eq, Structural)]
pub enum Error {
    /// The playlist holds no track.
    NoTracks,
    /// A backing track names no audio file.
    MissingPath,
    /// A metronome track gives no tempo.
    MissingTempo,
    /// A metronome track gives no time signature.
    MissingSignature,
    /// A time signature is not of the form `N/M` with both parts in 0..=255.
    InvalidSignature,
    /// A metronome track is present but the accent and beat sounds are not.
    MissingMetronomeSounds,
}

} // verus!
