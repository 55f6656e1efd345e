//! What the player's screen decides: which key does what, how the song
//! indices wrap, where a seek by five seconds goes, and how a time reads.
//!
//! Nothing here draws or reads a key. A key arrives as a [`Key`], and what
//! it asks of the engine leaves as a [`Followup`].

use vstd::prelude::*;
use vstd::string::StringExecFns;

use crate::playback::{PlayerCallbackEvent, PlayerCommand, VOLUME_UNITY};
use crate::{song_track, MetaInfo, Track};

verus! {

/// How far one press of a seek key moves, in milliseconds.
pub const SEEK_STEP_MILLIS: u64 = 5000;

/// How far before its end a seek past a track's end lands, in milliseconds.
pub const SEEK_END_MARGIN_MILLIS: u64 = 1000;

/// How far one press of a volume key moves the level: one hundredth of full
/// volume.
pub const VOLUME_STEP: i32 = 100;

#[derive(Clone, Copy, Debug, Eq, PartialEq, Structural)]
pub enum AppUiState {
    /// Shows a starting centered text, indicating initialization
    Starting,
    Player,
    Error,
}

#[derive(Clone, Copy, Debug, Eq, PartialEq, Structural)]
pub enum PlayerState {
    Playing,
    Paused,
}

impl PlayerState {
    pub fn from_paused(paused: bool) -> (state: Self)
        ensures
            state == if paused {
                PlayerState::Paused
            } else {
                PlayerState::Playing
            },
    {
        match paused {
            true => PlayerState::Paused,
            false => PlayerState::Playing,
        }
    }
}

/// A key, as far as the player tells keys apart.
#[derive(Clone, Copy, Debug, Eq, PartialEq, Structural)]
pub enum Key {
    Char(char),
    Up,
    Down,
    Left,
    Right,
    Enter,
    Other,
}

/// One press of a key, with what came with it.
#[derive(Clone, Copy, Debug, Eq, PartialEq, Structural)]
pub struct KeyPress {
    pub key: Key,
    /// The control key was held.
    pub control: bool,
    /// The key went down (it was neither released nor repeated).
    pub pressed: bool,
}

/// What a key asks of the player.
#[derive(Clone, Copy, Debug, Eq, PartialEq, Structural)]
pub enum UiAction {
    Nothing,
    NextSong,
    PreviousSong,
    SelectionDown,
    SelectionUp,
    SeekBackward,
    SeekForward,
    PlaySelection,
    TogglePause,
    VolumeDown,
    VolumeUp,
}

/// The key bindings of the player screen:
///
/// <pre>
/// Space: Play/Pause
/// n: Next
/// p: Previous
/// j, ArrowDown: Selection moves down
/// k, ArrowUp: Selection moves up
/// h, ArrowLeft: Seek backwards 5 seconds
/// l, ArrowRight: Seek forward 5 seconds
/// Enter: Play the selection
/// ,: Volume down
/// .: Volume up
/// </pre>
pub open spec fn action_of_key(key: Key) -> UiAction {
    match key {
        Key::Char(c) => if c == 'n' {
            UiAction::NextSong
        } else if c == 'p' {
            UiAction::PreviousSong
        } else if c == 'j' {
            UiAction::SelectionDown
        } else if c == 'k' {
            UiAction::SelectionUp
        } else if c == 'h' {
            UiAction::SeekBackward
        } else if c == 'l' {
            UiAction::SeekForward
        } else if c == ' ' {
            UiAction::TogglePause
        } else if c == ',' {
            UiAction::VolumeDown
        } else if c == '.' {
            UiAction::VolumeUp
        } else {
            UiAction::Nothing
        },
        Key::Down => UiAction::SelectionDown,
        Key::Up => UiAction::SelectionUp,
        Key::Left => UiAction::SeekBackward,
        Key::Right => UiAction::SeekForward,
        Key::Enter => UiAction::PlaySelection,
        Key::Other => UiAction::Nothing,
    }
}

/// Whether a key press ends the program: Ctrl-C does, `q` pressed does, and
/// any key does once an error is on the screen.
pub open spec fn quits(press: KeyPress, any_key_to_exit: bool) -> bool {
    ||| press.control && press.key == Key::Char('c')
    ||| press.pressed && press.key == Key::Char('q')
    ||| any_key_to_exit
}

/// What one key press comes to.
#[derive(Clone, Copy, Debug, Eq, PartialEq, Structural)]
pub struct KeyOutcome {
    pub quit: bool,
    pub action: UiAction,
}

/// Reads one key press. Keys act on the player only while its screen shows.
pub fn read_key(press: KeyPress, ui_state: AppUiState, any_key_to_exit: bool) -> (outcome:
    KeyOutcome)
    ensures
        outcome.quit == quits(press, any_key_to_exit),
        outcome.action == if ui_state == AppUiState::Player {
            action_of_key(press.key)
        } else {
            UiAction::Nothing
        },
{
    let quit = (press.control && press.key == Key::Char('c')) || (press.pressed && press.key
        == Key::Char('q')) || any_key_to_exit;
    let action = if ui_state == AppUiState::Player {
        match press.key {
            Key::Char(c) => if c == 'n' {
                UiAction::NextSong
            } else if c == 'p' {
                UiAction::PreviousSong
            } else if c == 'j' {
                UiAction::SelectionDown
            } else if c == 'k' {
                UiAction::SelectionUp
            } else if c == 'h' {
                UiAction::SeekBackward
            } else if c == 'l' {
                UiAction::SeekForward
            } else if c == ' ' {
                UiAction::TogglePause
            } else if c == ',' {
                UiAction::VolumeDown
            } else if c == '.' {
                UiAction::VolumeUp
            } else {
                UiAction::Nothing
            },
            Key::Down => UiAction::SelectionDown,
            Key::Up => UiAction::SelectionUp,
            Key::Left => UiAction::SeekBackward,
            Key::Right => UiAction::SeekForward,
            Key::Enter => UiAction::PlaySelection,
            Key::Other => UiAction::Nothing,
        }
    } else {
        UiAction::Nothing
    };
    KeyOutcome { quit, action }
}

/// The index after `idx` among `count` songs; after the last comes the first.
pub open spec fn next_index(idx: int, count: int) -> int {
    if idx + 1 >= count {
        0
    } else {
        idx + 1
    }
}

/// The index before `idx` among `count` songs; before the first comes the
/// last.
pub open spec fn previous_index(idx: int, count: int) -> int {
    if idx == 0 {
        if count == 0 {
            0
        } else {
            count - 1
        }
    } else {
        idx - 1
    }
}

pub fn wrapping_next(idx: usize, count: usize) -> (next: usize)
    ensures
        next == next_index(idx as int, count as int),
        count > 0 ==> next < count,
{
    if idx >= count || idx + 1 >= count {
        0
    } else {
        idx + 1
    }
}

pub fn wrapping_prev(idx: usize, count: usize) -> (previous: usize)
    ensures
        previous == previous_index(idx as int, count as int),
        idx < count ==> previous < count,
{
    if idx == 0 {
        if count == 0 {
            0
        } else {
            count - 1
        }
    } else {
        idx - 1
    }
}

/// Where a seek key aims, in milliseconds into the track, from the position
/// `position` in a track that lasts `duration`. Backward it goes five seconds
/// back, and no further than the start. Forward it goes five seconds on, and
/// from the track's end or past it back to one second before the end.
pub open spec fn seek_aim(position: int, duration: int, forward: bool) -> int {
    if forward {
        if position + SEEK_STEP_MILLIS >= duration {
            duration - SEEK_END_MARGIN_MILLIS
        } else {
            position + SEEK_STEP_MILLIS
        }
    } else {
        if position < SEEK_STEP_MILLIS {
            0
        } else {
            position - SEEK_STEP_MILLIS
        }
    }
}

/// The command that a seek key sends. A time too large for the command is
/// sent as the largest there is.
pub fn seek_command(position: u64, duration: u64, forward: bool) -> (cmd: PlayerCommand)
    ensures
        cmd == PlayerCommand::Seek(
            if seek_aim(position as int, duration as int, forward) > i64::MAX {
                i64::MAX
            } else {
                seek_aim(position as int, duration as int, forward) as i64
            },
        ),
{
    let aim: i128 = if forward {
        if position as i128 + SEEK_STEP_MILLIS as i128 >= duration as i128 {
            duration as i128 - SEEK_END_MARGIN_MILLIS as i128
        } else {
            position as i128 + SEEK_STEP_MILLIS as i128
        }
    } else {
        if position < SEEK_STEP_MILLIS {
            0
        } else {
            position as i128 - SEEK_STEP_MILLIS as i128
        }
    };
    if aim > i64::MAX as i128 {
        PlayerCommand::Seek(i64::MAX)
    } else {
        PlayerCommand::Seek(aim as i64)
    }
}

/// The level one step below or above `level`, kept between 0 and full
/// volume.
pub open spec fn stepped_volume(level: int, up: bool) -> int {
    if up {
        if level + VOLUME_STEP >= VOLUME_UNITY {
            VOLUME_UNITY as int
        } else {
            level + VOLUME_STEP
        }
    } else {
        if level - VOLUME_STEP <= 0 {
            0
        } else {
            level - VOLUME_STEP
        }
    }
}

/// What the player screen shows of the playback.
#[derive(Clone, Copy, Debug)]
pub struct PlayerUi {
    pub player_state: PlayerState,
    pub selected_song_idx: usize,
    pub playing_song_idx: usize,
    /// Seconds played of the current song.
    pub current_position: u32,
    /// Seconds in the current song.
    pub total_duration: u32,
    /// From 0 to [`VOLUME_UNITY`].
    pub volume: i32,
}

/// What is to be asked of the engine after a key or an event.
#[derive(Clone, Copy, Debug, PartialEq, Eq, Structural)]
pub enum Followup {
    Nothing,
    /// Send this command.
    Send(PlayerCommand),
    /// Go to the song that now plays, with autoplay.
    GotoPlayingSong,
    /// Ask whether the engine is paused, and send [`toggle_command`] of the
    /// answer.
    TogglePause,
    /// Ask for the position, and send [`seek_command`] of the answer,
    /// forward or backward.
    Seek { forward: bool },
}

/// The screen after an action, and what the action asks of the engine.
pub open spec fn after_action(ui: PlayerUi, action: UiAction, song_count: int) -> (
    PlayerUi,
    Followup,
) {
    match action {
        UiAction::Nothing => (ui, Followup::Nothing),
        UiAction::NextSong => (
            PlayerUi {
                playing_song_idx: next_index(ui.playing_song_idx as int, song_count) as usize,
                ..ui
            },
            Followup::GotoPlayingSong,
        ),
        UiAction::PreviousSong => (
            PlayerUi {
                playing_song_idx: previous_index(ui.playing_song_idx as int, song_count) as usize,
                ..ui
            },
            Followup::GotoPlayingSong,
        ),
        UiAction::SelectionDown => (
            PlayerUi {
                selected_song_idx: next_index(ui.selected_song_idx as int, song_count) as usize,
                ..ui
            },
            Followup::Nothing,
        ),
        UiAction::SelectionUp => (
            PlayerUi {
                selected_song_idx: previous_index(ui.selected_song_idx as int, song_count) as usize,
                ..ui
            },
            Followup::Nothing,
        ),
        UiAction::SeekBackward => (ui, Followup::Seek { forward: false }),
        UiAction::SeekForward => (ui, Followup::Seek { forward: true }),
        UiAction::PlaySelection => (
            PlayerUi { playing_song_idx: ui.selected_song_idx, ..ui },
            Followup::GotoPlayingSong,
        ),
        UiAction::TogglePause => (ui, Followup::TogglePause),
        UiAction::VolumeDown => (
            PlayerUi { volume: stepped_volume(ui.volume as int, false) as i32, ..ui },
            Followup::Send(
                PlayerCommand::ChangeVolume(stepped_volume(ui.volume as int, false) as i32),
            ),
        ),
        UiAction::VolumeUp => (
            PlayerUi { volume: stepped_volume(ui.volume as int, true) as i32, ..ui },
            Followup::Send(
                PlayerCommand::ChangeVolume(stepped_volume(ui.volume as int, true) as i32),
            ),
        ),
    }
}

/// The screen after an event of the engine, and what the event asks of the
/// engine: when a song has finished, the next one plays.
pub open spec fn after_event(ui: PlayerUi, event: PlayerCallbackEvent, song_count: int) -> (
    PlayerUi,
    Followup,
) {
    match event {
        PlayerCallbackEvent::Finished => (
            PlayerUi {
                playing_song_idx: next_index(ui.playing_song_idx as int, song_count) as usize,
                ..ui
            },
            Followup::GotoPlayingSong,
        ),
        PlayerCallbackEvent::Paused(paused) => (
            PlayerUi {
                player_state: if paused {
                    PlayerState::Paused
                } else {
                    PlayerState::Playing
                },
                ..ui
            },
            Followup::Nothing,
        ),
        PlayerCallbackEvent::Progress(current, total) => (
            PlayerUi { current_position: current, total_duration: total, ..ui },
            Followup::Nothing,
        ),
    }
}

impl PlayerUi {
    /// The volume lies between 0 and full volume.
    pub open spec fn wf(self) -> bool {
        0 <= self.volume <= VOLUME_UNITY
    }

    /// The screen of a player that has just started: the first song, at full
    /// volume.
    pub fn new() -> (ui: Self)
        ensures
            ui.wf(),
            ui.player_state == PlayerState::Playing,
            ui.selected_song_idx == 0,
            ui.playing_song_idx == 0,
            ui.current_position == 0,
            ui.total_duration == 0,
            ui.volume == VOLUME_UNITY,
    {
        PlayerUi {
            player_state: PlayerState::Playing,
            selected_song_idx: 0,
            playing_song_idx: 0,
            current_position: 0,
            total_duration: 0,
            volume: VOLUME_UNITY,
        }
    }

    /// The index of the song after the one that plays.
    pub fn next_song_idx(&self, song_count: usize) -> (next: usize)
        ensures
            next == next_index(self.playing_song_idx as int, song_count as int),
    {
        wrapping_next(self.playing_song_idx, song_count)
    }

    /// Applies what a key asked for.
    pub fn apply_action(&mut self, action: UiAction, song_count: usize) -> (followup: Followup)
        requires
            old(self).wf(),
        ensures
            final(self).wf(),
            (*final(self), followup) == after_action(*old(self), action, song_count as int),
    {
        match action {
            UiAction::Nothing => Followup::Nothing,
            UiAction::NextSong => {
                self.playing_song_idx = wrapping_next(self.playing_song_idx, song_count);
                Followup::GotoPlayingSong
            },
            UiAction::PreviousSong => {
                self.playing_song_idx = wrapping_prev(self.playing_song_idx, song_count);
                Followup::GotoPlayingSong
            },
            UiAction::SelectionDown => {
                self.selected_song_idx = wrapping_next(self.selected_song_idx, song_count);
                Followup::Nothing
            },
            UiAction::SelectionUp => {
                self.selected_song_idx = wrapping_prev(self.selected_song_idx, song_count);
                Followup::Nothing
            },
            UiAction::SeekBackward => Followup::Seek { forward: false },
            UiAction::SeekForward => Followup::Seek { forward: true },
            UiAction::PlaySelection => {
                self.playing_song_idx = self.selected_song_idx;
                Followup::GotoPlayingSong
            },
            UiAction::TogglePause => Followup::TogglePause,
            UiAction::VolumeDown => {
                let level = if self.volume - VOLUME_STEP <= 0 {
                    0
                } else {
                    self.volume - VOLUME_STEP
                };
                self.volume = level;
                Followup::Send(PlayerCommand::ChangeVolume(level))
            },
            UiAction::VolumeUp => {
                let level = if self.volume + VOLUME_STEP >= VOLUME_UNITY {
                    VOLUME_UNITY
                } else {
                    self.volume + VOLUME_STEP
                };
                self.volume = level;
                Followup::Send(PlayerCommand::ChangeVolume(level))
            },
        }
    }

    /// Takes an event of the engine.
    pub fn on_event(&mut self, event: PlayerCallbackEvent, song_count: usize) -> (followup:
        Followup)
        requires
            old(self).wf(),
        ensures
            final(self).wf(),
            (*final(self), followup) == after_event(*old(self), event, song_count as int),
    {
        match event {
            PlayerCallbackEvent::Finished => {
                self.playing_song_idx = wrapping_next(self.playing_song_idx, song_count);
                Followup::GotoPlayingSong
            },
            PlayerCallbackEvent::Paused(paused) => {
                self.player_state = PlayerState::from_paused(paused);
                Followup::Nothing
            },
            PlayerCallbackEvent::Progress(current, total) => {
                self.current_position = current;
                self.total_duration = total;
                Followup::Nothing
            },
        }
    }

    /// The command that makes the engine play the song that the screen shows
    /// as playing; none where the medium has no such song or no track for it.
    pub fn goto_command(&self, meta: &MetaInfo, tracks: &Vec<Track>) -> (cmd: Option<
        PlayerCommand,
    >)
        ensures
            cmd == match song_track(*meta, tracks@, self.playing_song_idx as int) {
                Some(track) => Some(PlayerCommand::Goto(track, true)),
                None => None,
            },
    {
        match meta.track_of_song(tracks, self.playing_song_idx) {
            Some(track) => Some(PlayerCommand::Goto(track, true)),
            None => None,
        }
    }
}

/// The command that turns a paused engine to playing and a playing one to
/// paused.
pub fn toggle_command(paused: bool) -> (cmd: PlayerCommand)
    ensures
        cmd == PlayerCommand::SetPaused(!paused),
{
    PlayerCommand::SetPaused(!paused)
}

/// The character that writes the digit `d`.
pub open spec fn digit_char(d: int) -> char {
    if d == 0 {
        '0'
    } else if d == 1 {
        '1'
    } else if d == 2 {
        '2'
    } else if d == 3 {
        '3'
    } else if d == 4 {
        '4'
    } else if d == 5 {
        '5'
    } else if d == 6 {
        '6'
    } else if d == 7 {
        '7'
    } else if d == 8 {
        '8'
    } else {
        '9'
    }
}

/// `n` in base ten, without leading zeros.
pub open spec fn decimal_text(n: nat) -> Seq<char>
    decreases n,
{
    if n < 10 {
        seq![digit_char(n as int)]
    } else {
        decimal_text(n / 10).push(digit_char((n % 10) as int))
    }
}

/// `n` in base ten, in two digits or more.
pub open spec fn two_digits(n: nat) -> Seq<char> {
    if n < 10 {
        seq!['0'] + decimal_text(n)
    } else {
        decimal_text(n)
    }
}

/// A time in seconds as minutes and seconds, `MM:SS`.
pub open spec fn clock_text(seconds: nat) -> Seq<char> {
    two_digits(seconds / 60) + seq![':'] + two_digits(seconds % 60)
}

/// A position in a song and the song's length, `MM:SS/MM:SS`.
pub open spec fn duration_text(position: nat, total: nat) -> Seq<char> {
    clock_text(position) + seq!['/'] + clock_text(total)
}

fn digit_str(d: u32) -> (text: &'static str)
    requires
        d < 10,
    ensures
        text@ == seq![digit_char(d as int)],
{
    proof {
        reveal_strlit("0");
        reveal_strlit("1");
        reveal_strlit("2");
        reveal_strlit("3");
        reveal_strlit("4");
        reveal_strlit("5");
        reveal_strlit("6");
        reveal_strlit("7");
        reveal_strlit("8");
        reveal_strlit("9");
    }
    let text = if d == 0 {
        "0"
    } else if d == 1 {
        "1"
    } else if d == 2 {
        "2"
    } else if d == 3 {
        "3"
    } else if d == 4 {
        "4"
    } else if d == 5 {
        "5"
    } else if d == 6 {
        "6"
    } else if d == 7 {
        "7"
    } else if d == 8 {
        "8"
    } else {
        "9"
    };
    assert(text@ =~= seq![digit_char(d as int)]);
    text
}

fn push_decimal(out: &mut String, n: u32)
    ensures
        final(out)@ == old(out)@ + decimal_text(n as nat),
    decreases n,
{
    if n >= 10 {
        push_decimal(out, n / 10);
    }
    out.append(digit_str(n % 10));
    proof {
        assert(final(out)@ =~= old(out)@ + decimal_text(n as nat));
    }
}

fn push_two_digits(out: &mut String, n: u32)
    ensures
        final(out)@ == old(out)@ + two_digits(n as nat),
{
    if n < 10 {
        proof {
            reveal_strlit("0");
        }
        out.append("0");
    }
    push_decimal(out, n);
    proof {
        assert(final(out)@ =~= old(out)@ + two_digits(n as nat));
    }
}

fn push_clock(out: &mut String, seconds: u32)
    ensures
        final(out)@ == old(out)@ + clock_text(seconds as nat),
{
    push_two_digits(out, seconds / 60);
    proof {
        reveal_strlit(":");
    }
    out.append(":");
    push_two_digits(out, seconds % 60);
    proof {
        assert(final(out)@ =~= old(out)@ + clock_text(seconds as nat));
    }
}

/// See [`duration_text`]. The pair is a position and a total, in seconds.
pub fn duration_string(times: (u32, u32)) -> (text: String)
    ensures
        text@ == duration_text(times.0 as nat, times.1 as nat),
{
    let mut text = String::new();
    push_clock(&mut text, times.0);
    proof {
        reveal_strlit("/");
    }
    text.append("/");
    push_clock(&mut text, times.1);
    proof {
        assert(text@ =~= duration_text(times.0 as nat, times.1 as nat));
    }
    text
}

} // verus!
