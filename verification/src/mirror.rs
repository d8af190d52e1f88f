use vstd::prelude::*;
use crate::action::Action;
use crate::bridge::{actions_over, is_transport_change, lemma_changes_keep_listening, Notification};
use crate::frame::PixelBuffer;
use crate::input::{input_actions, session_actions, Input};
use crate::state::PlaybackState;

verus! {

/// The display surface's copy of what the pipeline last reported.
///
/// The surface owns it and changes it only by running the tasks that the
/// event bridge enqueues, one at a time and in the order enqueued.
#[derive(Debug)]
pub struct UiMirror {
    video_width: u32,
    video_height: u32,
    current_frame: Option<PixelBuffer>,
    is_playing: bool,
}

/// The playing flag after one action has run: only the task that sets it
/// changes it.
pub open spec fn playing_step(playing: bool, action: Action) -> bool {
    match action {
        Action::SetPlaying(flag) => flag,
        _ => playing,
    }
}

/// The playing flag after `actions` have run in order, starting from
/// `playing`.
pub open spec fn playing_after(playing: bool, actions: Seq<Action>) -> bool
    decreases actions.len(),
{
    if actions.len() == 0 {
        playing
    } else {
        playing_step(playing_after(playing, actions.drop_last()), actions.last())
    }
}

impl UiMirror {
    /// The width of the frame on display.
    pub closed spec fn spec_video_width(&self) -> u32 {
        self.video_width
    }

    /// The height of the frame on display.
    pub closed spec fn spec_video_height(&self) -> u32 {
        self.video_height
    }

    /// The frame on display: the last one that arrived.
    pub closed spec fn spec_current_frame(&self) -> Option<PixelBuffer> {
        self.current_frame
    }

    /// Whether the pipeline was last seen playing.
    pub closed spec fn spec_is_playing(&self) -> bool {
        self.is_playing
    }

    /// The width of the frame on display.
    pub fn video_width(&self) -> (r: u32)
        ensures
            r == self.spec_video_width(),
    {
        self.video_width
    }

    /// The height of the frame on display.
    pub fn video_height(&self) -> (r: u32)
        ensures
            r == self.spec_video_height(),
    {
        self.video_height
    }

    /// The frame on display, if one has arrived.
    pub fn current_frame(&self) -> (r: Option<&PixelBuffer>)
        ensures
            r is Some <==> self.spec_current_frame() is Some,
            r is Some ==> *r->0 == self.spec_current_frame()->0,
    {
        self.current_frame.as_ref()
    }

    /// Whether the pipeline was last seen playing.
    pub fn is_playing(&self) -> (r: bool)
        ensures
            r == self.spec_is_playing(),
    {
        self.is_playing
    }

    /// The mirror before anything has arrived: no frame, not playing.
    pub fn new() -> (r: UiMirror)
        ensures
            r.spec_video_width() == 0,
            r.spec_video_height() == 0,
            r.spec_current_frame() is None,
            !r.spec_is_playing(),
    {
        UiMirror { video_width: 0, video_height: 0, current_frame: None, is_playing: false }
    }

    /// Puts a new frame on display, together with its size. The frame that
    /// was on display is dropped; the playing flag is left alone.
    pub fn show_frame(&mut self, buffer: PixelBuffer)
        ensures
            final(self).spec_video_width() == buffer.spec_width(),
            final(self).spec_video_height() == buffer.spec_height(),
            final(self).spec_current_frame() == Some(buffer),
            final(self).spec_is_playing() == old(self).spec_is_playing(),
    {
        self.video_width = buffer.width();
        self.video_height = buffer.height();
        self.current_frame = Some(buffer);
    }

    /// Runs one action on the mirror. Only the task that sets the playing
    /// flag has an effect, and only on that flag.
    pub fn apply(&mut self, action: Action)
        ensures
            final(self).spec_is_playing() == playing_step(old(self).spec_is_playing(), action),
            final(self).spec_video_width() == old(self).spec_video_width(),
            final(self).spec_video_height() == old(self).spec_video_height(),
            final(self).spec_current_frame() == old(self).spec_current_frame(),
    {
        match action {
            Action::SetPlaying(flag) => {
                self.is_playing = flag;
            },
            _ => {},
        }
    }

    /// Runs `actions` on the mirror, in order.
    pub fn apply_all(&mut self, actions: &Vec<Action>)
        ensures
            final(self).spec_is_playing() == playing_after(old(self).spec_is_playing(), actions@),
            final(self).spec_video_width() == old(self).spec_video_width(),
            final(self).spec_video_height() == old(self).spec_video_height(),
            final(self).spec_current_frame() == old(self).spec_current_frame(),
    {
        let ghost start = *self;
        let mut i: usize = 0;
        while i < actions.len()
            invariant
                i <= actions.len(),
                self.spec_is_playing() == playing_after(
                    start.spec_is_playing(),
                    actions@.take(i as int),
                ),
                self.spec_video_width() == start.spec_video_width(),
                self.spec_video_height() == start.spec_video_height(),
                self.spec_current_frame() == start.spec_current_frame(),
            decreases actions.len() - i,
        {
            proof {
                assert(actions@.take(i + 1).drop_last() =~= actions@.take(i as int));
            }
            self.apply(actions[i]);
            i = i + 1;
        }
        proof {
            assert(actions@.take(i as int) =~= actions@);
        }
    }
}

/// While only changes to `Paused` and `Playing` arrive, the playing flag of
/// the mirror says whether the last of them was `Playing`, whatever it said
/// before.
pub proof fn lemma_mirror_follows_last_change(playing: bool, notes: Seq<Notification>)
    requires
        notes.len() > 0,
        forall|k: int| 0 <= k < notes.len() ==> is_transport_change(#[trigger] notes[k]),
    ensures
        playing_after(playing, actions_over(true, notes)) == (notes.last()
            == Notification::StateChanged(PlaybackState::Playing)),
{
    let front = notes.drop_last();
    assert forall|k: int| 0 <= k < front.len() implies is_transport_change(#[trigger] front[k]) by {
        assert(front[k] == notes[k]);
    }
    lemma_changes_keep_listening(front);
    let before = actions_over(true, front);
    let flag = notes.last() == Notification::StateChanged(PlaybackState::Playing);
    assert(is_transport_change(notes.last()));
    assert(actions_over(true, notes) == before.push(Action::SetPlaying(flag)));
    assert(before.push(Action::SetPlaying(flag)).drop_last() =~= before);
}

/// Actions that are no user-interface task leave the playing flag as it
/// was: a command from an input handler never sets it.
pub proof fn lemma_commands_leave_playing(playing: bool, actions: Seq<Action>)
    requires
        forall|k: int| 0 <= k < actions.len() ==> !(#[trigger] actions[k] is SetPlaying),
    ensures
        playing_after(playing, actions) == playing,
    decreases actions.len(),
{
    if actions.len() > 0 {
        let front = actions.drop_last();
        assert forall|k: int| 0 <= k < front.len() implies !(#[trigger] front[k] is SetPlaying) by {
            assert(front[k] == actions[k]);
        }
        lemma_commands_leave_playing(playing, front);
        assert(!(actions[actions.len() - 1] is SetPlaying));
    }
}

/// No input handler sets the playing flag: whatever the session of inputs,
/// running its actions leaves the flag as it was. The flag changes only in
/// answer to a lifecycle notification.
pub proof fn lemma_inputs_leave_playing(playing: bool, steps: Seq<(Input, PlaybackState)>)
    ensures
        forall|k: int|
            0 <= k < session_actions(steps).len() ==> !(#[trigger] session_actions(
                steps,
            )[k] is SetPlaying),
        playing_after(playing, session_actions(steps)) == playing,
    decreases steps.len(),
{
    if steps.len() > 0 {
        let front = session_actions(steps.drop_last());
        let tail = input_actions(steps.last().0, steps.last().1);
        lemma_inputs_leave_playing(playing, steps.drop_last());
        assert forall|k: int| 0 <= k < tail.len() implies !(#[trigger] tail[k] is SetPlaying) by {}
        assert forall|k: int| 0 <= k < (front + tail).len() implies !(#[trigger] (front
            + tail)[k] is SetPlaying) by {
            if k < front.len() {
                assert((front + tail)[k] == front[k]);
            } else {
                assert((front + tail)[k] == tail[k - front.len()]);
            }
        }
    }
    lemma_commands_leave_playing(playing, session_actions(steps));
}

} // verus!
