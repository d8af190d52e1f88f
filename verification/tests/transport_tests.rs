use video_player::action::Action;
use video_player::state::PlaybackState;
use video_player::transport::{
    replay, seek, set_paused, set_playing, shutdown, toggle, SeekError, SeekRequest,
};

const SECOND: u64 = 1_000_000_000;

#[test]
fn quarter_of_two_minutes_is_thirty_seconds() {
    let request = SeekRequest { numerator: 1, denominator: 4 };
    assert_eq!(seek(Some(120 * SECOND), request), Ok(Action::FlushSeek(30 * SECOND)));
}

#[test]
fn seek_rounds_to_the_nearest_position() {
    let third = SeekRequest { numerator: 1, denominator: 3 };
    let two_thirds = SeekRequest { numerator: 2, denominator: 3 };
    let half = SeekRequest { numerator: 1, denominator: 2 };
    assert_eq!(seek(Some(10), third), Ok(Action::FlushSeek(3)));
    assert_eq!(seek(Some(10), two_thirds), Ok(Action::FlushSeek(7)));
    assert_eq!(seek(Some(5), half), Ok(Action::FlushSeek(3)));
    let three_sevenths = SeekRequest { numerator: 3, denominator: 7 };
    assert_eq!(seek(Some(7), three_sevenths), Ok(Action::FlushSeek(3)));
}

#[test]
fn seek_to_the_ends() {
    let start = SeekRequest { numerator: 0, denominator: 10 };
    let end = SeekRequest { numerator: 10, denominator: 10 };
    assert_eq!(seek(Some(120 * SECOND), start), Ok(Action::FlushSeek(0)));
    assert_eq!(seek(Some(120 * SECOND), end), Ok(Action::FlushSeek(120 * SECOND)));
    assert_eq!(seek(Some(0), end), Ok(Action::FlushSeek(0)));
}

#[test]
fn seek_handles_products_beyond_64_bits() {
    let request = SeekRequest { numerator: u64::MAX, denominator: u64::MAX };
    assert_eq!(seek(Some(u64::MAX), request), Ok(Action::FlushSeek(u64::MAX)));
    let half = SeekRequest { numerator: 1 << 62, denominator: 1 << 63 };
    assert_eq!(seek(Some(1 << 63), half), Ok(Action::FlushSeek(1 << 62)));
}

#[test]
fn seek_fails_when_duration_is_unknown() {
    let request = SeekRequest { numerator: 1, denominator: 4 };
    assert_eq!(seek(None, request), Err(SeekError::DurationUnknown));
    let zero = SeekRequest { numerator: 1, denominator: 0 };
    assert_eq!(seek(None, zero), Err(SeekError::DurationUnknown));
}

#[test]
fn seek_fails_on_zero_denominator() {
    let request = SeekRequest { numerator: 1, denominator: 0 };
    assert_eq!(seek(Some(120 * SECOND), request), Err(SeekError::ZeroDenominator));
}

#[test]
fn seek_fails_when_position_overflows() {
    let request = SeekRequest { numerator: 2, denominator: 1 };
    assert_eq!(seek(Some(u64::MAX), request), Err(SeekError::PositionOverflow));
    let just = SeekRequest { numerator: 3, denominator: 2 };
    assert_eq!(seek(Some(u64::MAX), just), Err(SeekError::PositionOverflow));
}

#[test]
fn seek_request_refuses_negative_numbers() {
    assert_eq!(SeekRequest::new(1, 4), Some(SeekRequest { numerator: 1, denominator: 4 }));
    assert_eq!(SeekRequest::new(0, 0), Some(SeekRequest { numerator: 0, denominator: 0 }));
    assert_eq!(
        SeekRequest::new(i32::MAX, i32::MAX),
        Some(SeekRequest { numerator: 2147483647, denominator: 2147483647 })
    );
    assert_eq!(SeekRequest::new(-1, 4), None);
    assert_eq!(SeekRequest::new(1, -4), None);
    assert_eq!(SeekRequest::new(i32::MIN, i32::MIN), None);
}

#[test]
fn toggle_pauses_a_playing_pipeline() {
    assert_eq!(toggle(PlaybackState::Playing), Some(Action::SetState(PlaybackState::Paused)));
}

#[test]
fn toggle_resumes_a_paused_pipeline() {
    assert_eq!(toggle(PlaybackState::Paused), Some(Action::SetState(PlaybackState::Playing)));
}

#[test]
fn toggle_does_nothing_before_media_is_loaded() {
    assert_eq!(toggle(PlaybackState::Ready), None);
    assert_eq!(toggle(PlaybackState::Null), None);
    assert_eq!(toggle(PlaybackState::Void), None);
}

#[test]
fn set_paused_only_from_playing() {
    assert_eq!(set_paused(PlaybackState::Playing), Some(Action::SetState(PlaybackState::Paused)));
    assert_eq!(set_paused(PlaybackState::Paused), None);
    assert_eq!(set_paused(PlaybackState::Ready), None);
    assert_eq!(set_paused(PlaybackState::Null), None);
    assert_eq!(set_paused(PlaybackState::Void), None);
}

#[test]
fn set_playing_only_from_paused() {
    assert_eq!(set_playing(PlaybackState::Paused), Some(Action::SetState(PlaybackState::Playing)));
    assert_eq!(set_playing(PlaybackState::Playing), None);
    assert_eq!(set_playing(PlaybackState::Ready), None);
    assert_eq!(set_playing(PlaybackState::Null), None);
    assert_eq!(set_playing(PlaybackState::Void), None);
}

#[test]
fn replay_seeks_to_zero() {
    assert_eq!(replay(), Action::FlushSeek(0));
}

#[test]
fn shutdown_tears_down_before_it_quits() {
    assert_eq!(shutdown(), vec![Action::SetState(PlaybackState::Null), Action::QuitLoop]);
}

#[test]
fn proper_fractions_stay_within_the_duration() {
    let duration = 97 * SECOND + 13;
    for denominator in 1..=12u64 {
        for numerator in 0..=denominator {
            match seek(Some(duration), SeekRequest { numerator, denominator }) {
                Ok(Action::FlushSeek(position)) => assert!(position <= duration),
                other => panic!("{numerator}/{denominator} gave {:?}", other),
            }
        }
    }
    let whole = SeekRequest { numerator: u64::MAX, denominator: u64::MAX };
    assert_eq!(seek(Some(u64::MAX), whole), Ok(Action::FlushSeek(u64::MAX)));
}
