use vstd::prelude::*;
use crate::action::Action;
use crate::state::PlaybackState;

verus! {

/// A position to seek to, as a fraction of the total duration.
#[derive(Clone, Copy, Debug, PartialEq, Eq, Structural)]
pub struct SeekRequest {
    pub numerator: u64,
    pub denominator: u64,
}

/// Why a seek request produced no command.
#[derive(Clone, Copy, Debug, PartialEq, Eq, Structural)]
pub enum SeekError {
    /// The pipeline could not tell the total duration.
    DurationUnknown,
    /// The fraction has a zero denominator.
    ZeroDenominator,
    /// The position does not fit in 64 bits of nanoseconds.
    PositionOverflow,
}

/// `value * num / denom`, rounded to the nearest integer, a tie going up.
pub open spec fn scaled_round(value: u64, num: u64, denom: u64) -> nat
    recommends
        denom != 0,
{
    ((value as nat) * (num as nat) + (denom as nat) / 2) / (denom as nat)
}

/// `scaled_round` where it fits in a `u64`, nothing where it does not.
pub open spec fn scaled_position(value: u64, num: u64, denom: u64) -> Option<u64>
    recommends
        denom != 0,
{
    if scaled_round(value, num, denom) <= u64::MAX {
        Some(scaled_round(value, num, denom) as u64)
    } else {
        None
    }
}

/// Calls `muldiv::MulDiv::mul_div_round` on `u64`.
///
/// Taken on trust from that crate: for a non-zero `denom` the call computes
/// `(value * num + denom / 2) / denom` in 128 bits and returns it where it
/// fits in 64 bits, `None` where it does not. A zero `denom` makes the call
/// panic and is excluded.
#[verifier::external_body]
fn mul_div_round(value: u64, num: u64, denom: u64) -> (r: Option<u64>)
    requires
        denom != 0,
    ensures
        r == scaled_position(value, num, denom),
{
    muldiv::MulDiv::mul_div_round(value, num, denom)
}

impl SeekRequest {
    /// The request for `numerator / denominator` of the duration, where
    /// neither number is negative.
    pub fn new(numerator: i32, denominator: i32) -> (r: Option<SeekRequest>)
        ensures
            r is Some <==> numerator >= 0 && denominator >= 0,
            r is Some ==> r->0.numerator == numerator && r->0.denominator == denominator,
    {
        if numerator >= 0 && denominator >= 0 {
            Some(SeekRequest { numerator: numerator as u64, denominator: denominator as u64 })
        } else {
            None
        }
    }
}

/// What `toggle` asks of a pipeline that reports `state`.
pub open spec fn toggle_request(state: PlaybackState) -> Option<Action> {
    match state {
        PlaybackState::Playing => Some(Action::SetState(PlaybackState::Paused)),
        PlaybackState::Paused => Some(Action::SetState(PlaybackState::Playing)),
        _ => None,
    }
}

/// What `seek` answers for a queried `duration` and a `request`.
pub open spec fn seek_outcome(duration: Option<u64>, request: SeekRequest) -> Result<
    Action,
    SeekError,
> {
    match duration {
        None => Err(SeekError::DurationUnknown),
        Some(total) => if request.denominator == 0 {
            Err(SeekError::ZeroDenominator)
        } else {
            match scaled_position(total, request.numerator, request.denominator) {
                Some(position) => Ok(Action::FlushSeek(position)),
                None => Err(SeekError::PositionOverflow),
            }
        },
    }
}

/// The actions of a shutdown, in the order in which they are performed.
pub open spec fn shutdown_actions() -> Seq<Action> {
    seq![Action::SetState(PlaybackState::Null), Action::QuitLoop]
}

/// Flips between playing and paused.
///
/// `state` is what the pipeline reports at the moment of the call. A playing
/// pipeline is asked to pause and a paused one to play, with one command;
/// in every other state nothing is asked.
pub fn toggle(state: PlaybackState) -> (r: Option<Action>)
    ensures
        r == toggle_request(state),
{
    match state {
        PlaybackState::Playing => set_paused(state),
        PlaybackState::Paused => set_playing(state),
        _ => None,
    }
}

/// Asks a playing pipeline to pause; asks nothing in any other state.
pub fn set_paused(state: PlaybackState) -> (r: Option<Action>)
    ensures
        state == PlaybackState::Playing ==> r == Some(Action::SetState(PlaybackState::Paused)),
        state != PlaybackState::Playing ==> r is None,
{
    match state {
        PlaybackState::Playing => Some(Action::SetState(PlaybackState::Paused)),
        _ => None,
    }
}

/// Asks a paused pipeline to play; asks nothing in any other state.
pub fn set_playing(state: PlaybackState) -> (r: Option<Action>)
    ensures
        state == PlaybackState::Paused ==> r == Some(Action::SetState(PlaybackState::Playing)),
        state != PlaybackState::Paused ==> r is None,
{
    match state {
        PlaybackState::Paused => Some(Action::SetState(PlaybackState::Playing)),
        _ => None,
    }
}

/// Restarts the media: a flush-seek to position zero, whatever the state.
pub fn replay() -> (r: Action)
    ensures
        r == Action::FlushSeek(0),
{
    Action::FlushSeek(0)
}

/// Turns a fractional seek request into a flush-seek.
///
/// `duration` is the total duration in nanoseconds as the pipeline reports
/// it at the moment of the call, or `None` where it cannot tell. The target
/// is `duration * numerator / denominator`, rounded to the nearest
/// nanosecond.
pub fn seek(duration: Option<u64>, request: SeekRequest) -> (r: Result<Action, SeekError>)
    ensures
        r == seek_outcome(duration, request),
{
    match duration {
        None => Err(SeekError::DurationUnknown),
        Some(total) => {
            if request.denominator == 0 {
                Err(SeekError::ZeroDenominator)
            } else {
                match mul_div_round(total, request.numerator, request.denominator) {
                    Some(position) => Ok(Action::FlushSeek(position)),
                    None => Err(SeekError::PositionOverflow),
                }
            }
        },
    }
}

/// Tears the pipeline down and then stops the background run-loop.
pub fn shutdown() -> (r: Vec<Action>)
    ensures
        r@ == shutdown_actions(),
{
    let mut actions: Vec<Action> = Vec::new();
    actions.push(Action::SetState(PlaybackState::Null));
    actions.push(Action::QuitLoop);
    proof {
        assert(actions@ =~= shutdown_actions());
    }
    actions
}

/// The rounded position is a nearest integer to the exact quotient: it lies
/// within half a unit of `value * num / denom`.
pub proof fn lemma_scaled_round_is_nearest(value: u64, num: u64, denom: u64)
    requires
        denom != 0,
    ensures
        2 * (scaled_round(value, num, denom) * denom) <= 2 * (value * num) + denom,
        2 * (value * num) < 2 * (scaled_round(value, num, denom) * denom) + denom + 1,
{
    let a: int = (value as int) * (num as int) + (denom as int) / 2;
    let d: int = denom as int;
    let q: int = a / d;
    assert(q * d <= a && a < q * d + d) by (nonlinear_arith)
        requires
            d > 0,
            q == a / d,
    ;
    assert(scaled_round(value, num, denom) == q);
}

/// A fraction that is at most one lands within the media: the position is
/// at most the duration, so the seek is refused only where the duration is
/// unknown.
pub proof fn lemma_proper_fraction_stays_within(value: u64, request: SeekRequest)
    requires
        request.denominator != 0,
        request.numerator <= request.denominator,
    ensures
        scaled_round(value, request.numerator, request.denominator) <= value,
        seek_outcome(Some(value), request) == Ok::<Action, SeekError>(
            Action::FlushSeek(
                scaled_round(value, request.numerator, request.denominator) as u64,
            ),
        ),
{
    let v: int = value as int;
    let n: int = request.numerator as int;
    let d: int = request.denominator as int;
    let a: int = v * n + d / 2;
    assert(v * n <= v * d) by (nonlinear_arith)
        requires
            0 <= v,
            0 <= n <= d,
    ;
    assert(a / d <= v) by (nonlinear_arith)
        requires
            d > 0,
            a < v * d + d,
    ;
    assert(scaled_round(value, request.numerator, request.denominator) == a / d);
}

/// A shutdown issues the pipeline's `Null` command before the termination
/// signal.
pub proof fn lemma_shutdown_ordered()
    ensures
        crate::action::teardown_precedes_quit(shutdown_actions()),
{
    let actions = shutdown_actions();
    assert forall|i: int| 0 <= i < actions.len() && actions[i] == Action::QuitLoop implies exists|
        j: int,
    |
        0 <= j < i && #[trigger] actions[j] == Action::SetState(PlaybackState::Null) by {
        assert(actions[0] == Action::SetState(PlaybackState::Null));
        assert(i == 1);
    }
}

} // verus!
