use vstd::prelude::*;

verus! {

/// The state of the decode pipeline, as the pipeline itself reports it.
///
/// The states are ordered `Void → Null → Ready → Paused ⇄ Playing`; only the
/// last two are states in which media is loaded and a transport gesture has
/// an effect.
#[derive(Clone, Copy, Debug, PartialEq, Eq, Structural)]
pub enum PlaybackState {
    Void,
    Null,
    Ready,
    Paused,
    Playing,
}

} // verus!
