use pseudo_cd_player::engine::{PlaybackEngine, TickPlan};
use pseudo_cd_player::playback::{PlayerCallbackEvent, PlayerCommand, PlayerResult, VOLUME_UNITY};
use pseudo_cd_player::Track;

fn sample_track() -> Track {
    Track { track_no: 2, session_no: 2, start_addr: 100, end_addr: 200, size: 100 }
}

fn playing_engine() -> PlaybackEngine {
    let mut engine = PlaybackEngine::new();
    engine.handle_command(PlayerCommand::Start);
    engine.handle_command(PlayerCommand::Goto(sample_track(), true));
    engine
}

#[test]
fn new_engine_is_paused_and_closed() {
    let engine = PlaybackEngine::new();
    let state = engine.state();
    assert!(state.paused);
    assert_eq!(state.cursor, None);
    assert_eq!(state.start_pos, 0);
    assert_eq!(state.end_pos, 0);
    assert_eq!(state.song_seconds, 0);
    assert_eq!(state.volume, VOLUME_UNITY);
    assert!(!state.stopped);
    assert!(!engine.is_stopped());
    assert_eq!(engine.position_millis(), 0);
    assert_eq!(engine.poll_tick(), TickPlan::Idle);
}

#[test]
fn start_opens_the_medium() {
    let mut engine = PlaybackEngine::new();
    let outcome = engine.handle_command(PlayerCommand::Start);
    assert!(outcome.open_medium);
    assert_eq!(outcome.seek_to, Some(0));
    assert!(outcome.events.is_empty());
    assert_eq!(outcome.reply, PlayerResult::Nothing);
    assert_eq!(engine.state().cursor, Some(0));
    assert!(engine.state().paused);
}

#[test]
fn start_after_goto_opens_at_the_track() {
    let mut engine = PlaybackEngine::new();
    engine.handle_command(PlayerCommand::Goto(sample_track(), false));
    let outcome = engine.handle_command(PlayerCommand::Start);
    assert!(outcome.open_medium);
    assert_eq!(outcome.seek_to, Some(204800));
    assert_eq!(engine.state().cursor, Some(204800));
}

#[test]
fn goto_with_autoplay_on_open_medium() {
    let mut engine = PlaybackEngine::new();
    engine.handle_command(PlayerCommand::Start);
    let outcome = engine.handle_command(PlayerCommand::Goto(sample_track(), true));
    assert!(!outcome.open_medium);
    assert_eq!(outcome.seek_to, Some(204800));
    assert_eq!(
        outcome.events,
        vec![PlayerCallbackEvent::Paused(false), PlayerCallbackEvent::Progress(0, 1)]
    );
    assert_eq!(outcome.reply, PlayerResult::Nothing);
    let state = engine.state();
    assert!(!state.paused);
    assert_eq!(state.cursor, Some(204800));
    assert_eq!(state.start_pos, 204800);
    assert_eq!(state.end_pos, 409600);
    assert_eq!(state.song_seconds, 1);
}

#[test]
fn goto_without_autoplay_keeps_pause() {
    let mut engine = PlaybackEngine::new();
    engine.handle_command(PlayerCommand::Start);
    let outcome = engine.handle_command(PlayerCommand::Goto(sample_track(), false));
    assert_eq!(outcome.events, vec![PlayerCallbackEvent::Progress(0, 1)]);
    assert!(engine.state().paused);
    engine.handle_command(PlayerCommand::Play);
    let again = engine.handle_command(PlayerCommand::Goto(sample_track(), false));
    assert_eq!(again.events, vec![PlayerCallbackEvent::Progress(0, 1)]);
    assert!(!engine.state().paused);
}

#[test]
fn goto_on_closed_medium_moves_no_cursor() {
    let mut engine = PlaybackEngine::new();
    let outcome = engine.handle_command(PlayerCommand::Goto(sample_track(), true));
    assert_eq!(outcome.seek_to, None);
    assert_eq!(
        outcome.events,
        vec![PlayerCallbackEvent::Paused(false), PlayerCallbackEvent::Progress(0, 1)]
    );
    assert_eq!(engine.state().cursor, None);
    assert!(!engine.state().paused);
    assert_eq!(engine.poll_tick(), TickPlan::Idle);
}

#[test]
fn goto_then_position_is_zero() {
    let tracks = [
        sample_track(),
        Track { track_no: 1, session_no: 1, start_addr: 0, end_addr: 0, size: 0 },
        Track { track_no: 3, session_no: 3, start_addr: 5000, end_addr: 90000, size: 85000 },
    ];
    for track in tracks {
        let mut engine = PlaybackEngine::new();
        engine.handle_command(PlayerCommand::Start);
        engine.handle_command(PlayerCommand::Goto(sample_track(), true));
        engine.on_sample([1, 0]);
        engine.on_sample([2, 0]);
        engine.handle_command(PlayerCommand::Goto(track, true));
        let reply = engine.handle_command(PlayerCommand::GetPosition).reply;
        assert_eq!(reply, PlayerResult::Position(0));
    }
    let mut closed = PlaybackEngine::new();
    closed.handle_command(PlayerCommand::Goto(sample_track(), true));
    assert_eq!(closed.handle_command(PlayerCommand::GetPosition).reply, PlayerResult::Position(0));
}

#[test]
fn seek_lands_on_even_sample() {
    let mut engine = playing_engine();
    let outcome = engine.handle_command(PlayerCommand::Seek(1000));
    assert_eq!(outcome.seek_to, Some(204800 + 176400));
    assert_eq!(outcome.events, vec![PlayerCallbackEvent::Progress(1, 1)]);
    assert_eq!(engine.state().cursor, Some(381200));
    assert_eq!(engine.position_millis(), 1000);

    let outcome = engine.handle_command(PlayerCommand::Seek(5));
    assert_eq!(outcome.seek_to, Some(204800 + 440 * 2));
    assert_eq!(outcome.events, vec![PlayerCallbackEvent::Progress(0, 1)]);
}

#[test]
fn seek_clamps_to_the_track() {
    let mut engine = playing_engine();
    let outcome = engine.handle_command(PlayerCommand::Seek(-5));
    assert_eq!(outcome.seek_to, Some(204800));
    assert_eq!(engine.state().cursor, Some(204800));

    let outcome = engine.handle_command(PlayerCommand::Seek(10_000_000));
    assert_eq!(outcome.seek_to, Some(409600 - 4));
    assert_eq!(outcome.events, vec![PlayerCallbackEvent::Progress(1, 1)]);
    assert_eq!(engine.poll_tick(), TickPlan::ReadSample);
}

#[test]
fn seek_without_medium_does_nothing() {
    let mut engine = PlaybackEngine::new();
    engine.handle_command(PlayerCommand::Goto(sample_track(), false));
    let outcome = engine.handle_command(PlayerCommand::Seek(1000));
    assert_eq!(outcome.seek_to, None);
    assert!(outcome.events.is_empty());
    assert_eq!(engine.state().cursor, None);
}

#[test]
fn pause_play_and_set_paused_emit_paused() {
    let mut engine = playing_engine();
    let outcome = engine.handle_command(PlayerCommand::Pause);
    assert_eq!(outcome.events, vec![PlayerCallbackEvent::Paused(true)]);
    assert!(engine.state().paused);
    assert_eq!(engine.poll_tick(), TickPlan::Idle);
    let outcome = engine.handle_command(PlayerCommand::Play);
    assert_eq!(outcome.events, vec![PlayerCallbackEvent::Paused(false)]);
    assert!(!engine.state().paused);
    let outcome = engine.handle_command(PlayerCommand::SetPaused(true));
    assert_eq!(outcome.events, vec![PlayerCallbackEvent::Paused(true)]);
    assert!(engine.state().paused);
    let outcome = engine.handle_command(PlayerCommand::SetPaused(false));
    assert_eq!(outcome.events, vec![PlayerCallbackEvent::Paused(false)]);
    assert!(!engine.state().paused);
    assert_eq!(outcome.reply, PlayerResult::Nothing);
    assert_eq!(outcome.seek_to, None);
}

#[test]
fn change_volume_clamps_and_scales() {
    let mut engine = playing_engine();
    let outcome = engine.handle_command(PlayerCommand::ChangeVolume(20000));
    assert!(outcome.events.is_empty());
    assert_eq!(engine.state().volume, 10000);
    engine.handle_command(PlayerCommand::ChangeVolume(-5));
    assert_eq!(engine.state().volume, 0);
    assert_eq!(engine.on_sample([0x10, 0x27]).map(|o| o.sample), Some(0));
    engine.handle_command(PlayerCommand::ChangeVolume(5000));
    assert_eq!(engine.state().volume, 5000);
    assert_eq!(engine.on_sample([0x10, 0x00]).map(|o| o.sample), Some(8));
    assert_eq!(engine.on_sample([0xf0, 0xff]).map(|o| o.sample), Some(-8));
}

#[test]
fn queries_are_answered() {
    let mut engine = playing_engine();
    let outcome = engine.handle_command(PlayerCommand::GetIsPaused);
    assert_eq!(outcome.reply, PlayerResult::IsPaused(false));
    assert!(outcome.events.is_empty());
    engine.handle_command(PlayerCommand::Pause);
    assert_eq!(engine.handle_command(PlayerCommand::GetIsPaused).reply, PlayerResult::IsPaused(true));
    engine.handle_command(PlayerCommand::Seek(500));
    assert_eq!(engine.handle_command(PlayerCommand::GetPosition).reply, PlayerResult::Position(500));
    let closed = PlaybackEngine::new().handle_command(PlayerCommand::GetPosition).reply;
    assert_eq!(closed, PlayerResult::Position(0));
}

#[test]
fn samples_are_read_little_endian() {
    let mut engine = playing_engine();
    assert_eq!(engine.on_sample([0x34, 0x12]).map(|o| o.sample), Some(0x1234));
    assert_eq!(engine.on_sample([0xff, 0xff]).map(|o| o.sample), Some(-1));
    assert_eq!(engine.on_sample([0x00, 0x80]).map(|o| o.sample), Some(-32768));
    assert_eq!(engine.on_sample([0xff, 0x7f]).map(|o| o.sample), Some(32767));
    assert_eq!(engine.on_sample([0x01, 0x00]).map(|o| o.sample), Some(1));
    assert_eq!(engine.on_sample([0x00, 0x01]).map(|o| o.sample), Some(256));
}

#[test]
fn sample_moves_the_cursor_by_two_bytes() {
    let mut engine = playing_engine();
    assert_eq!(engine.poll_tick(), TickPlan::ReadSample);
    engine.on_sample([0, 0]);
    assert_eq!(engine.state().cursor, Some(204802));
    engine.on_sample([0, 0]);
    assert_eq!(engine.state().cursor, Some(204804));
}

#[test]
fn no_sample_while_paused_or_closed() {
    let mut engine = PlaybackEngine::new();
    assert!(engine.on_sample([1, 2]).is_none());
    engine.handle_command(PlayerCommand::Start);
    engine.handle_command(PlayerCommand::Goto(sample_track(), false));
    assert_eq!(engine.poll_tick(), TickPlan::Idle);
    assert!(engine.on_sample([1, 2]).is_none());
    assert_eq!(engine.state().cursor, Some(204800));
}

#[test]
fn progress_fires_once_per_second() {
    let mut engine = playing_engine();
    let mut fired = Vec::new();
    let mut produced = 0u64;
    let mut last_second = 0u64;
    while engine.poll_tick() == TickPlan::ReadSample {
        let before = engine.state().cursor.unwrap() - 204800;
        let output = engine.on_sample([0, 0]).unwrap();
        if let Some(event) = output.progress {
            fired.push(event);
            assert_eq!(before % 176400, 0);
        }
        let second = before / 176400;
        assert!(second >= last_second);
        last_second = second;
        produced += 1;
    }
    assert_eq!(produced, 102400);
    assert_eq!(
        fired,
        vec![PlayerCallbackEvent::Progress(0, 1), PlayerCallbackEvent::Progress(1, 1)]
    );
}

#[test]
fn finished_at_track_end_reads_nothing() {
    let mut engine = playing_engine();
    engine.handle_command(PlayerCommand::Seek(i64::MAX));
    assert_eq!(engine.on_sample([0, 0]).map(|o| o.progress), Some(None));
    assert_eq!(engine.on_sample([0, 0]).map(|o| o.progress), Some(None));
    assert_eq!(engine.state().cursor, Some(409600));
    assert_eq!(engine.poll_tick(), TickPlan::Finished);
    assert!(engine.on_sample([9, 9]).is_none());
    assert_eq!(engine.state().cursor, Some(409600));
    assert_eq!(engine.poll_tick(), TickPlan::Finished);
}

#[test]
fn empty_track_finishes_at_once() {
    let mut engine = PlaybackEngine::new();
    engine.handle_command(PlayerCommand::Start);
    let empty = Track { track_no: 1, session_no: 1, start_addr: 3, end_addr: 3, size: 0 };
    let outcome = engine.handle_command(PlayerCommand::Goto(empty, true));
    assert_eq!(
        outcome.events,
        vec![PlayerCallbackEvent::Paused(false), PlayerCallbackEvent::Progress(0, 0)]
    );
    assert_eq!(engine.poll_tick(), TickPlan::Finished);
    let seek = engine.handle_command(PlayerCommand::Seek(1000));
    assert_eq!(seek.seek_to, Some(3 * 2048));
}

#[test]
fn goto_resets_progress_to_zero() {
    let mut engine = playing_engine();
    engine.handle_command(PlayerCommand::Seek(1000));
    assert_eq!(engine.position_millis(), 1000);
    let outcome = engine.handle_command(PlayerCommand::Goto(sample_track(), false));
    assert_eq!(outcome.events.last(), Some(&PlayerCallbackEvent::Progress(0, 1)));
    assert_eq!(engine.position_millis(), 0);
    assert_eq!(engine.on_sample([0, 0]).and_then(|o| o.progress), Some(PlayerCallbackEvent::Progress(0, 1)));
}

#[test]
fn stop_and_wait_is_terminal() {
    let mut engine = playing_engine();
    let outcome = engine.handle_command(PlayerCommand::StopAndWait);
    assert_eq!(outcome.reply, PlayerResult::Stopped);
    assert!(outcome.events.is_empty());
    assert!(engine.is_stopped());
    let frozen = engine.state();
    assert_eq!(engine.poll_tick(), TickPlan::Idle);
    assert!(engine.on_sample([1, 1]).is_none());
    let commands = [
        PlayerCommand::StopAndWait,
        PlayerCommand::Start,
        PlayerCommand::Goto(sample_track(), true),
        PlayerCommand::Seek(100),
        PlayerCommand::Pause,
        PlayerCommand::Play,
        PlayerCommand::SetPaused(true),
        PlayerCommand::ChangeVolume(1),
        PlayerCommand::GetPosition,
        PlayerCommand::GetIsPaused,
    ];
    for cmd in commands {
        let outcome = engine.handle_command(cmd);
        assert_eq!(outcome.reply, PlayerResult::Nothing);
        assert!(outcome.events.is_empty());
        assert!(!outcome.open_medium);
        assert_eq!(outcome.seek_to, None);
        let state = engine.state();
        assert_eq!(state.cursor, frozen.cursor);
        assert_eq!(state.paused, frozen.paused);
        assert_eq!(state.volume, frozen.volume);
        assert_eq!(state.start_pos, frozen.start_pos);
        assert!(state.stopped);
    }
}

#[test]
fn goto_reads_only_the_bounds_of_a_track() {
    let mut engine = PlaybackEngine::new();
    engine.handle_command(PlayerCommand::Start);
    let odd_size = Track { track_no: 1, session_no: 1, start_addr: 1, end_addr: 2, size: u64::MAX };
    assert!(odd_size.has_valid_bounds());
    let outcome = engine.handle_command(PlayerCommand::Goto(odd_size, true));
    assert_eq!(outcome.seek_to, Some(2048));
    assert_eq!(engine.state().end_pos, 4096);
}

#[test]
fn total_seconds_are_cut_to_32_bits() {
    let mut engine = PlaybackEngine::new();
    engine.handle_command(PlayerCommand::Start);
    let vast = Track { track_no: 1, session_no: 1, start_addr: 0, end_addr: 400_000_000_000, size: 0 };
    let outcome = engine.handle_command(PlayerCommand::Goto(vast, false));
    let bytes = 400_000_000_000u64 * 2048;
    assert_eq!(bytes / 176400, 4_643_990_929);
    assert_eq!(outcome.events, vec![PlayerCallbackEvent::Progress(0, (bytes / 176400) as u32)]);
    assert_eq!(outcome.events, vec![PlayerCallbackEvent::Progress(0, 349_023_633)]);
    // past 2^32 seconds into the track, the reported second has started again
    let far = ((1i64 << 32) + 5) * 1000;
    let seek = engine.handle_command(PlayerCommand::Seek(far));
    assert_eq!(seek.events, vec![PlayerCallbackEvent::Progress(5, 349_023_633)]);
}

#[test]
fn first_sample_after_goto_reports_second_zero() {
    let mut engine = playing_engine();
    engine.handle_command(PlayerCommand::Seek(1000));
    assert_eq!(
        engine.on_sample([0, 0]).and_then(|o| o.progress),
        Some(PlayerCallbackEvent::Progress(1, 1))
    );
    engine.handle_command(PlayerCommand::Goto(sample_track(), true));
    assert_eq!(engine.state().cursor, Some(204800));
    assert_eq!(
        engine.on_sample([0, 0]).and_then(|o| o.progress),
        Some(PlayerCallbackEvent::Progress(0, 1))
    );
    assert_eq!(engine.on_sample([0, 0]).and_then(|o| o.progress), None);
}
