use vstd::prelude::*;
use crate::state::PlaybackState;

verus! {

/// One step that the coordinator asks its surroundings to perform.
///
/// A handler returns the actions in the order in which they must be
/// performed; the caller performs them one by one and in that order.
#[derive(Clone, Copy, Debug, PartialEq, Eq, Structural)]
pub enum Action {
    /// Command the pipeline into the given state.
    SetState(PlaybackState),
    /// Discard what the pipeline has buffered and resume at the given
    /// position, in nanoseconds from the start of the media.
    FlushSeek(u64),
    /// Ask the background run-loop that drives the pipeline to terminate.
    QuitLoop,
    /// Hide the window without destroying it.
    HideWindow,
    /// Hand the current mouse gesture to the surface's own window move.
    MoveWindow,
    /// Enqueue the user-interface task that sets the playing flag.
    SetPlaying(bool),
}

impl Action {
    /// Whether the action repositions the pipeline.
    pub open spec fn is_seek(self) -> bool {
        self is FlushSeek
    }
}

/// Every termination signal in `actions` comes strictly after a command that
/// takes the pipeline to `Null`.
pub open spec fn teardown_precedes_quit(actions: Seq<Action>) -> bool {
    forall|i: int|
        0 <= i < actions.len() && actions[i] == Action::QuitLoop ==> exists|j: int|
            0 <= j < i && #[trigger] actions[j] == Action::SetState(PlaybackState::Null)
}

} // verus!
