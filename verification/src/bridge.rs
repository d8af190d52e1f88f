use vstd::prelude::*;
use crate::action::{teardown_precedes_quit, Action};
use crate::frame::{convert, is_conversion_of, Frame, PixelBuffer, UnsupportedFormatError};
use crate::state::PlaybackState;

verus! {

/// A lifecycle notification from the pipeline's bus.
#[derive(Clone, Copy, Debug, PartialEq, Eq, Structural)]
pub enum Notification {
    /// The media has played to its end.
    EndOfStream,
    /// The pipeline has entered the given state.
    StateChanged(PlaybackState),
    /// The pipeline has failed.
    Error,
    /// Any notification of another kind.
    Other,
}

/// Whether the listener goes on after a notification.
#[derive(Clone, Copy, Debug, PartialEq, Eq, Structural)]
pub enum Flow {
    Continue,
    Break,
}

/// The answer to one notification: at most one action, and whether to go on
/// listening.
#[derive(Clone, Copy, Debug)]
pub struct Reaction {
    pub action: Option<Action>,
    pub flow: Flow,
}

/// The action that answers `note`, if any.
///
/// The end of the stream loops playback with a flush-seek to zero. A change
/// to `Paused` or `Playing` is mirrored into the user interface; a change to
/// any other state has no effect. An error stops the background run-loop.
pub open spec fn action_for(note: Notification) -> Option<Action> {
    match note {
        Notification::EndOfStream => Some(Action::FlushSeek(0)),
        Notification::StateChanged(PlaybackState::Paused) => Some(Action::SetPlaying(false)),
        Notification::StateChanged(PlaybackState::Playing) => Some(Action::SetPlaying(true)),
        Notification::StateChanged(_) => None,
        Notification::Error => Some(Action::QuitLoop),
        Notification::Other => None,
    }
}

/// Whether the listener goes on after `note`: only an error ends it.
pub open spec fn flow_after(note: Notification) -> Flow {
    match note {
        Notification::Error => Flow::Break,
        _ => Flow::Continue,
    }
}

/// Whether a listener that was `listening` still listens after `notes`.
pub open spec fn listening_after(listening: bool, notes: Seq<Notification>) -> bool
    decreases notes.len(),
{
    if notes.len() == 0 {
        listening
    } else {
        listening_after(listening, notes.drop_last()) && flow_after(notes.last())
            == Flow::Continue
    }
}

/// The actions that a listener issues over `notes`, in order. Once it has
/// stopped listening it issues nothing more.
pub open spec fn actions_over(listening: bool, notes: Seq<Notification>) -> Seq<Action>
    decreases notes.len(),
{
    if notes.len() == 0 {
        Seq::empty()
    } else {
        let before = actions_over(listening, notes.drop_last());
        if listening_after(listening, notes.drop_last()) {
            match action_for(notes.last()) {
                Some(action) => before.push(action),
                None => before,
            }
        } else {
            before
        }
    }
}

/// How many of `actions` reposition the pipeline.
pub open spec fn seek_count(actions: Seq<Action>) -> nat
    decreases actions.len(),
{
    if actions.len() == 0 {
        0
    } else if actions.last().is_seek() {
        seek_count(actions.drop_last()) + 1
    } else {
        seek_count(actions.drop_last())
    }
}

/// How many of `notes` report the end of the stream.
pub open spec fn end_count(notes: Seq<Notification>) -> nat
    decreases notes.len(),
{
    if notes.len() == 0 {
        0
    } else if notes.last() == Notification::EndOfStream {
        end_count(notes.drop_last()) + 1
    } else {
        end_count(notes.drop_last())
    }
}

/// Whether `note` reports a change to `Paused` or to `Playing`.
pub open spec fn is_transport_change(note: Notification) -> bool {
    note == Notification::StateChanged(PlaybackState::Paused) || note
        == Notification::StateChanged(PlaybackState::Playing)
}

/// Answers one notification.
pub fn on_notification(note: Notification) -> (r: Reaction)
    ensures
        r.action == action_for(note),
        r.flow == flow_after(note),
{
    match note {
        Notification::EndOfStream => Reaction {
            action: Some(crate::transport::replay()),
            flow: Flow::Continue,
        },
        Notification::StateChanged(state) => {
            let action = match state {
                PlaybackState::Paused => Some(Action::SetPlaying(false)),
                PlaybackState::Playing => Some(Action::SetPlaying(true)),
                _ => None,
            };
            Reaction { action, flow: Flow::Continue }
        },
        Notification::Error => Reaction { action: Some(Action::QuitLoop), flow: Flow::Break },
        Notification::Other => Reaction { action: None, flow: Flow::Continue },
    }
}

/// The answer to one decoded frame: the buffer to put on display, or why
/// the frame is dropped, and whether frames go on being delivered.
#[derive(Debug)]
pub struct FrameReaction {
    pub outcome: Result<PixelBuffer, UnsupportedFormatError>,
    pub flow: Flow,
}

/// Answers one decoded frame.
///
/// An RGB8 frame is converted and forwarded to the display. A frame in any
/// other layout is dropped, and only that frame: delivery goes on either
/// way.
pub fn on_frame(frame: &Frame) -> (r: FrameReaction)
    ensures
        is_conversion_of(r.outcome, *frame),
        r.flow == Flow::Continue,
{
    FrameReaction { outcome: convert(frame), flow: Flow::Continue }
}

/// The listener on the pipeline's bus.
///
/// It answers notifications until the first error and is silent from then
/// on.
#[derive(Clone, Copy, Debug)]
pub struct EventBridge {
    listening: bool,
}

impl EventBridge {
    /// Whether the bridge still answers notifications.
    pub closed spec fn listening(&self) -> bool {
        self.listening
    }

    /// A bridge that listens.
    pub fn new() -> (r: EventBridge)
        ensures
            r.listening(),
    {
        EventBridge { listening: true }
    }

    /// Whether the bridge still answers notifications.
    pub fn is_listening(&self) -> (r: bool)
        ensures
            r == self.listening(),
    {
        self.listening
    }

    /// Takes one notification and returns the action to perform, if any.
    pub fn handle(&mut self, note: Notification) -> (r: Option<Action>)
        ensures
            r == (if old(self).listening() {
                action_for(note)
            } else {
                None
            }),
            final(self).listening() == (old(self).listening() && flow_after(note)
                == Flow::Continue),
    {
        if !self.listening {
            return None;
        }
        let reaction = on_notification(note);
        match reaction.flow {
            Flow::Continue => {},
            Flow::Break => {
                self.listening = false;
            },
        }
        reaction.action
    }

    /// Takes a run of notifications in order and returns every action to
    /// perform, in the order in which they were issued.
    pub fn handle_all(&mut self, notes: &Vec<Notification>) -> (r: Vec<Action>)
        ensures
            r@ == actions_over(old(self).listening(), notes@),
            final(self).listening() == listening_after(old(self).listening(), notes@),
    {
        let ghost start = self.listening();
        let mut issued: Vec<Action> = Vec::new();
        let mut i: usize = 0;
        while i < notes.len()
            invariant
                i <= notes.len(),
                issued@ == actions_over(start, notes@.take(i as int)),
                self.listening() == listening_after(start, notes@.take(i as int)),
            decreases notes.len() - i,
        {
            proof {
                assert(notes@.take(i + 1).drop_last() =~= notes@.take(i as int));
            }
            match self.handle(notes[i]) {
                Some(action) => {
                    issued.push(action);
                },
                None => {},
            }
            i = i + 1;
        }
        proof {
            assert(notes@.take(i as int) =~= notes@);
        }
        issued
    }
}

/// A flush-seek is issued for the end of the stream and for nothing else,
/// and it always goes to position zero.
pub proof fn lemma_seek_only_at_end_of_stream(note: Notification)
    ensures
        note == Notification::EndOfStream ==> action_for(note) == Some(Action::FlushSeek(0)),
        note != Notification::EndOfStream ==> !(action_for(note) is Some
            && action_for(note)->0.is_seek()),
{
}

/// After the end of the stream, the next action that a listening bridge
/// issues is a flush-seek to position zero; a bridge that has stopped
/// issues nothing.
pub proof fn lemma_end_of_stream_issues_seek(listening: bool, notes: Seq<Notification>)
    ensures
        actions_over(listening, notes.push(Notification::EndOfStream)) == (if listening_after(
            listening,
            notes,
        ) {
            actions_over(listening, notes).push(Action::FlushSeek(0))
        } else {
            actions_over(listening, notes)
        }),
{
    assert(notes.push(Notification::EndOfStream).drop_last() =~= notes);
}

/// Over any run of notifications, the seeks that a listener issues are all
/// to position zero, and there are no more of them than ends of stream.
pub proof fn lemma_seeks_follow_ends_of_stream(listening: bool, notes: Seq<Notification>)
    ensures
        forall|k: int|
            0 <= k < actions_over(listening, notes).len() && (#[trigger] actions_over(
                listening,
                notes,
            )[k]).is_seek() ==> actions_over(listening, notes)[k] == Action::FlushSeek(0),
        seek_count(actions_over(listening, notes)) <= end_count(notes),
        listening_after(listening, notes) ==> seek_count(actions_over(listening, notes))
            == end_count(notes),
    decreases notes.len(),
{
    if notes.len() > 0 {
        let front = notes.drop_last();
        let before = actions_over(listening, front);
        lemma_seeks_follow_ends_of_stream(listening, front);
        lemma_seek_only_at_end_of_stream(notes.last());
        if listening_after(listening, front) {
            match action_for(notes.last()) {
                Some(action) => {
                    assert(before.push(action).drop_last() =~= before);
                    assert(before.push(action).last() == action);
                },
                None => {},
            }
        }
    }
}

/// The bridge tells the background run-loop to stop only in answer to an
/// error: over a run of notifications without one it never does, so such a
/// run keeps the order of a shutdown.
pub proof fn lemma_quit_only_on_error(listening: bool, notes: Seq<Notification>)
    requires
        forall|k: int| 0 <= k < notes.len() ==> #[trigger] notes[k] != Notification::Error,
    ensures
        forall|k: int|
            0 <= k < actions_over(listening, notes).len() ==> #[trigger] actions_over(
                listening,
                notes,
            )[k] != Action::QuitLoop,
        teardown_precedes_quit(actions_over(listening, notes)),
    decreases notes.len(),
{
    if notes.len() > 0 {
        let front = notes.drop_last();
        assert forall|k: int| 0 <= k < front.len() implies #[trigger] front[k]
            != Notification::Error by {
            assert(front[k] == notes[k]);
        }
        lemma_quit_only_on_error(listening, front);
        assert(notes[notes.len() - 1] != Notification::Error);
    }
}

/// A state change never ends the listener.
pub proof fn lemma_changes_keep_listening(notes: Seq<Notification>)
    requires
        forall|k: int| 0 <= k < notes.len() ==> is_transport_change(#[trigger] notes[k]),
    ensures
        listening_after(true, notes),
    decreases notes.len(),
{
    if notes.len() > 0 {
        lemma_changes_keep_listening(notes.drop_last());
        assert(is_transport_change(notes.last()));
    }
}

/// A user-interface task that sets the playing flag is issued only for a
/// change to `Paused` or `Playing`, and carries the state that was reported.
pub proof fn lemma_playing_set_only_by_change(note: Notification, flag: bool)
    ensures
        action_for(note) == Some(Action::SetPlaying(flag)) <==> note == Notification::StateChanged(
            if flag {
                PlaybackState::Playing
            } else {
                PlaybackState::Paused
            },
        ),
{
}

} // verus!
