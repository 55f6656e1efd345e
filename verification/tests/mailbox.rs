use pseudo_cd_player::engine::PlaybackEngine;
use pseudo_cd_player::mailbox::Mailbox;
use pseudo_cd_player::playback::{PlayerCallbackEvent, PlayerCommand, PlayerResult};
use pseudo_cd_player::Track;

fn sample_track() -> Track {
    Track { track_no: 1, session_no: 1, start_addr: 100, end_addr: 200, size: 100 }
}

#[test]
fn mailbox_holds_one_item() {
    let mut mailbox: Mailbox<u32> = Mailbox::new();
    assert!(!mailbox.is_full());
    assert_eq!(mailbox.try_recv(), None);
    assert_eq!(mailbox.try_send(7), Ok(()));
    assert!(mailbox.is_full());
    assert_eq!(mailbox.try_send(8), Err(8));
    assert!(mailbox.is_full());
    assert_eq!(mailbox.try_recv(), Some(7));
    assert!(!mailbox.is_full());
    assert_eq!(mailbox.try_recv(), None);
    assert_eq!(mailbox.try_send(9), Ok(()));
    assert_eq!(mailbox.try_recv(), Some(9));
}

#[test]
fn poll_of_empty_mailbox_changes_nothing() {
    let mut engine = PlaybackEngine::new();
    let mut commands: Mailbox<PlayerCommand> = Mailbox::new();
    assert!(engine.poll_command(&mut commands).is_none());
    assert_eq!(engine.state().cursor, None);
    assert!(engine.state().paused);
    assert!(!commands.is_full());
}

#[test]
fn poll_applies_the_waiting_command() {
    let mut engine = PlaybackEngine::new();
    let mut commands: Mailbox<PlayerCommand> = Mailbox::new();
    assert_eq!(commands.try_send(PlayerCommand::GetIsPaused), Ok(()));
    let outcome = engine.poll_command(&mut commands).unwrap();
    assert_eq!(outcome.reply, PlayerResult::IsPaused(true));
    assert!(!commands.is_full());
    assert!(engine.poll_command(&mut commands).is_none());
}

#[test]
fn burst_applies_start_before_goto() {
    let mut engine = PlaybackEngine::new();
    let mut commands: Mailbox<PlayerCommand> = Mailbox::new();
    let goto = PlayerCommand::Goto(sample_track(), true);

    assert_eq!(commands.try_send(PlayerCommand::Start), Ok(()));
    // the second command has to wait until the first was taken
    assert_eq!(commands.try_send(goto), Err(goto));
    assert_eq!(commands.try_send(goto), Err(goto));
    assert_eq!(engine.state().cursor, None);

    let first = engine.poll_command(&mut commands).unwrap();
    assert!(first.open_medium);
    assert_eq!(engine.state().cursor, Some(0));
    assert_eq!(engine.state().end_pos, 0);

    assert_eq!(commands.try_send(goto), Ok(()));
    assert_eq!(engine.state().end_pos, 0);
    let second = engine.poll_command(&mut commands).unwrap();
    assert_eq!(second.seek_to, Some(204800));
    assert_eq!(
        second.events,
        vec![PlayerCallbackEvent::Paused(false), PlayerCallbackEvent::Progress(0, 1)]
    );
    assert_eq!(engine.state().cursor, Some(204800));
    assert!(!engine.state().paused);
}

#[test]
fn commands_arrive_in_send_order() {
    let mut engine = PlaybackEngine::new();
    let mut direct = PlaybackEngine::new();
    let mut commands: Mailbox<PlayerCommand> = Mailbox::new();
    let burst = [
        PlayerCommand::Start,
        PlayerCommand::Goto(sample_track(), false),
        PlayerCommand::ChangeVolume(2500),
        PlayerCommand::Seek(700),
        PlayerCommand::Play,
        PlayerCommand::ChangeVolume(7500),
    ];
    let mut next = 0;
    let mut turn = 0;
    while next < burst.len() || commands.is_full() {
        // the engine polls on every third turn only
        if next < burst.len() && commands.try_send(burst[next]).is_ok() {
            next += 1;
        }
        if turn % 3 == 0 {
            engine.poll_command(&mut commands);
        }
        turn += 1;
    }
    for cmd in burst {
        direct.handle_command(cmd);
    }
    assert_eq!(engine.state().cursor, direct.state().cursor);
    assert_eq!(engine.state().volume, 7500);
    assert_eq!(engine.state().paused, false);
    assert_eq!(engine.state().cursor, Some(204800 + 61740 * 2));
}

#[test]
fn stopped_is_replied_exactly_once() {
    let mut engine = PlaybackEngine::new();
    let mut commands: Mailbox<PlayerCommand> = Mailbox::new();
    let sent = [
        PlayerCommand::Start,
        PlayerCommand::StopAndWait,
        PlayerCommand::Play,
        PlayerCommand::StopAndWait,
        PlayerCommand::GetPosition,
    ];
    let mut stopped_replies = 0;
    let mut events_after_stop = 0;
    for cmd in sent {
        assert_eq!(commands.try_send(cmd), Ok(()));
        let was_stopped = engine.is_stopped();
        let outcome = engine.poll_command(&mut commands).unwrap();
        if outcome.reply == PlayerResult::Stopped {
            stopped_replies += 1;
        }
        if was_stopped {
            events_after_stop += outcome.events.len();
            assert_eq!(outcome.reply, PlayerResult::Nothing);
        }
    }
    assert_eq!(stopped_replies, 1);
    assert_eq!(events_after_stop, 0);
}
