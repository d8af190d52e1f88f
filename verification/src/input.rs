use vstd::prelude::*;
use crate::action::{teardown_precedes_quit, Action};
use crate::state::PlaybackState;
use crate::transport::{shutdown_actions, toggle_request};

verus! {

/// An event raised by the display surface.
#[derive(Debug)]
pub enum Input {
    /// A key was pressed; the text is what the key produces.
    KeyPressed(String),
    /// A mouse drag has started on the window.
    MouseDrag,
    /// The user asked to close the window.
    CloseRequested,
}

/// The actions that quit the player: the shutdown, then hiding the window.
pub open spec fn quit_actions() -> Seq<Action> {
    shutdown_actions().push(Action::HideWindow)
}

/// The actions for a key that produces `text`, pressed while the pipeline
/// reports `state`.
///
/// `q` quits. The space bar resumes a paused pipeline and pauses a playing
/// one. Nothing else has an effect.
pub open spec fn key_actions(text: Seq<char>, state: PlaybackState) -> Seq<Action> {
    if text == seq!['q'] {
        quit_actions()
    } else if text == seq![' '] {
        match state {
            PlaybackState::Paused => seq![Action::SetState(PlaybackState::Playing)],
            PlaybackState::Playing => seq![Action::SetState(PlaybackState::Paused)],
            _ => Seq::empty(),
        }
    } else {
        Seq::empty()
    }
}

/// The actions for `input`, raised while the pipeline reports `state`.
pub open spec fn input_actions(input: Input, state: PlaybackState) -> Seq<Action> {
    match input {
        Input::KeyPressed(text) => key_actions(text@, state),
        Input::MouseDrag => seq![Action::MoveWindow],
        Input::CloseRequested => quit_actions(),
    }
}

/// The actions of a whole session: those of each input in turn, each input
/// paired with the state that the pipeline reported when it was raised.
pub open spec fn session_actions(steps: Seq<(Input, PlaybackState)>) -> Seq<Action>
    decreases steps.len(),
{
    if steps.len() == 0 {
        Seq::empty()
    } else {
        session_actions(steps.drop_last()) + input_actions(steps.last().0, steps.last().1)
    }
}

/// Whether `text` is exactly the one character `key`.
fn is_key(text: &str, key: char) -> (r: bool)
    ensures
        r == (text@ == seq![key]),
{
    if text.unicode_len() == 1 {
        let first = text.get_char(0);
        proof {
            if first == key {
                assert(text@ =~= seq![key]);
            } else {
                assert(seq![key][0] == key);
            }
        }
        first == key
    } else {
        proof {
            assert(seq![key].len() == 1);
        }
        false
    }
}

/// Handles a key press: `text` is what the key produces, `state` what the
/// pipeline reports at that moment.
pub fn on_key_pressed(text: &str, state: PlaybackState) -> (r: Vec<Action>)
    ensures
        r@ == key_actions(text@, state),
{
    if is_key(text, 'q') {
        on_close_requested()
    } else if is_key(text, ' ') {
        let request = match state {
            PlaybackState::Paused => crate::transport::set_playing(state),
            PlaybackState::Playing => crate::transport::set_paused(state),
            _ => None,
        };
        let mut actions: Vec<Action> = Vec::new();
        match request {
            Some(action) => {
                actions.push(action);
            },
            None => {},
        }
        proof {
            assert(actions@ =~= key_actions(text@, state));
        }
        actions
    } else {
        let actions: Vec<Action> = Vec::new();
        proof {
            assert(actions@ =~= key_actions(text@, state));
        }
        actions
    }
}

/// Handles the start of a mouse drag: the surface moves the window, the
/// pipeline is left alone.
pub fn on_mouse_drag() -> (r: Vec<Action>)
    ensures
        r@ == seq![Action::MoveWindow],
{
    let mut actions: Vec<Action> = Vec::new();
    actions.push(Action::MoveWindow);
    proof {
        assert(actions@ =~= seq![Action::MoveWindow]);
    }
    actions
}

/// Handles a close request: shuts down, then hides the window rather than
/// destroying it.
pub fn on_close_requested() -> (r: Vec<Action>)
    ensures
        r@ == quit_actions(),
{
    let mut actions = crate::transport::shutdown();
    actions.push(Action::HideWindow);
    actions
}

/// Handles any input of the surface.
pub fn dispatch(input: &Input, state: PlaybackState) -> (r: Vec<Action>)
    ensures
        r@ == input_actions(*input, state),
{
    match input {
        Input::KeyPressed(text) => on_key_pressed(text.as_str(), state),
        Input::MouseDrag => on_mouse_drag(),
        Input::CloseRequested => on_close_requested(),
    }
}

/// The space bar asks of the pipeline exactly what a toggle asks.
pub proof fn lemma_space_agrees_with_toggle(state: PlaybackState)
    ensures
        key_actions(seq![' '], state) == (match toggle_request(state) {
            Some(action) => seq![action],
            None => Seq::empty(),
        }),
{
    assert(seq![' '][0] == ' ');
    assert(seq!['q'][0] == 'q');
}

/// Whatever the input and the state, the pipeline is torn down before the
/// background run-loop is told to stop.
pub proof fn lemma_input_teardown_precedes_quit(input: Input, state: PlaybackState)
    ensures
        teardown_precedes_quit(input_actions(input, state)),
{
    let actions = input_actions(input, state);
    assert forall|i: int| 0 <= i < actions.len() && actions[i] == Action::QuitLoop implies exists|
        j: int,
    |
        0 <= j < i && #[trigger] actions[j] == Action::SetState(PlaybackState::Null) by {
        assert(actions =~= quit_actions());
        assert(actions[0] == Action::SetState(PlaybackState::Null));
        assert(i == 1);
    }
}

/// Appending two runs that each tear down before they quit gives a run that
/// does so too.
pub proof fn lemma_teardown_precedes_quit_concat(first: Seq<Action>, second: Seq<Action>)
    requires
        teardown_precedes_quit(first),
        teardown_precedes_quit(second),
    ensures
        teardown_precedes_quit(first + second),
{
    let joined = first + second;
    assert forall|i: int| 0 <= i < joined.len() && joined[i] == Action::QuitLoop implies exists|
        j: int,
    |
        0 <= j < i && #[trigger] joined[j] == Action::SetState(PlaybackState::Null) by {
        if i < first.len() {
            assert(first[i] == Action::QuitLoop);
            let j = choose|j: int|
                0 <= j < i && #[trigger] first[j] == Action::SetState(PlaybackState::Null);
            assert(joined[j] == Action::SetState(PlaybackState::Null));
        } else {
            let k = i - first.len();
            assert(second[k] == Action::QuitLoop);
            let j = choose|j: int|
                0 <= j < k && #[trigger] second[j] == Action::SetState(PlaybackState::Null);
            assert(joined[j + first.len()] == Action::SetState(PlaybackState::Null));
        }
    }
}

/// Over any session of inputs, every termination signal comes strictly
/// after a command that takes the pipeline to `Null`.
pub proof fn lemma_session_teardown_precedes_quit(steps: Seq<(Input, PlaybackState)>)
    ensures
        teardown_precedes_quit(session_actions(steps)),
    decreases steps.len(),
{
    if steps.len() > 0 {
        lemma_session_teardown_precedes_quit(steps.drop_last());
        lemma_input_teardown_precedes_quit(steps.last().0, steps.last().1);
        lemma_teardown_precedes_quit_concat(
            session_actions(steps.drop_last()),
            input_actions(steps.last().0, steps.last().1),
        );
    }
}

} // verus!
