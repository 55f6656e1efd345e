//! The playback engine: a state machine from commands and samples read to the
//! next state, the events to emit and the work to do on the medium.
//!
//! The engine never touches the medium or the audio device itself. Each
//! command yields a [`CommandOutcome`] that says whether to open the medium
//! and where to put its cursor; each tick yields a [`TickPlan`], and the bytes
//! of a sample read come back through [`PlaybackEngine::on_sample`].

use vstd::prelude::*;

use byteorder::ByteOrder;

use crate::playback::{
    clamp_volume, clamped_volume, elapsed_millis_from_bytes, millis_of_bytes, scale_sample,
    scaled_sample, seconds_from_bytes, seek_sample, seek_sample_index, whole_seconds,
    PlayerCallbackEvent, PlayerCommand, PlayerResult, BYTES_ONE_SEC, BYTES_PER_SAMPLE,
    VOLUME_UNITY,
};
use crate::{Track, SECTOR_SIZE};

verus! {

/// What the engine knows between two steps.
#[derive(Debug, Clone, Copy)]
pub struct EngineState {
    pub paused: bool,
    /// The byte offset of the medium's cursor; `None` while no medium is open.
    pub cursor: Option<u64>,
    /// Byte offsets of the current track.
    pub start_pos: u64,
    pub end_pos: u64,
    /// Whole seconds in the current track, as 32 bits hold them.
    pub song_seconds: u32,
    /// From 0 to [`VOLUME_UNITY`].
    pub volume: i32,
    /// Set by `StopAndWait`, and never cleared.
    pub stopped: bool,
}

impl EngineState {
    /// The track's bounds are sector-aligned and in order, the cursor lies
    /// within them on a whole sample, and the derived fields agree with them.
    pub open spec fn wf(self) -> bool {
        &&& self.start_pos <= self.end_pos
        &&& self.start_pos % SECTOR_SIZE == 0
        &&& self.end_pos % SECTOR_SIZE == 0
        &&& self.song_seconds == whole_seconds(self.end_pos - self.start_pos)
        &&& 0 <= self.volume <= VOLUME_UNITY
        &&& (self.cursor matches Some(c) ==> self.start_pos <= c <= self.end_pos && (c
            - self.start_pos) % 2 == 0)
    }

    /// A new engine: paused, no medium open, an empty track at offset 0, full
    /// volume.
    pub open spec fn initial() -> EngineState {
        EngineState {
            paused: true,
            cursor: None,
            start_pos: 0,
            end_pos: 0,
            song_seconds: 0,
            volume: VOLUME_UNITY,
            stopped: false,
        }
    }

    /// Bytes played of the current track; 0 while no medium is open.
    pub open spec fn position_bytes(self) -> int {
        match self.cursor {
            Some(c) => c - self.start_pos,
            None => 0,
        }
    }

    /// The whole second that the cursor is in, as the engine reports it.
    pub open spec fn current_second(self) -> int {
        whole_seconds(self.position_bytes())
    }
}

/// What one command does: the state after it, the work on the medium, the
/// events for the listener in the order they fire, and the answer.
pub struct Transition {
    pub next: EngineState,
    pub open_medium: bool,
    pub seek_to: Option<u64>,
    pub events: Seq<PlayerCallbackEvent>,
    pub reply: PlayerResult,
}

/// A command that changes nothing and says nothing.
pub open spec fn quiet(s: EngineState) -> Transition {
    Transition {
        next: s,
        open_medium: false,
        seek_to: None,
        events: Seq::empty(),
        reply: PlayerResult::Nothing,
    }
}

pub open spec fn set_paused(s: EngineState, paused: bool) -> Transition {
    Transition {
        next: EngineState { paused, ..s },
        events: seq![PlayerCallbackEvent::Paused(paused)],
        ..quiet(s)
    }
}

pub open spec fn goto_track(s: EngineState, track: Track, autoplay: bool) -> Transition {
    let start = (track.start_addr * SECTOR_SIZE) as u64;
    let end = (track.end_addr * SECTOR_SIZE) as u64;
    let seconds = whole_seconds(end - start) as u32;
    let progress = PlayerCallbackEvent::Progress(0, seconds);
    Transition {
        next: EngineState {
            paused: if autoplay {
                false
            } else {
                s.paused
            },
            cursor: if s.cursor is Some {
                Some(start)
            } else {
                None
            },
            start_pos: start,
            end_pos: end,
            song_seconds: seconds,
            ..s
        },
        open_medium: false,
        seek_to: if s.cursor is Some {
            Some(start)
        } else {
            None
        },
        events: if autoplay {
            seq![PlayerCallbackEvent::Paused(false), progress]
        } else {
            seq![progress]
        },
        reply: PlayerResult::Nothing,
    }
}

/// The byte offset at which a seek to `millis` lands.
pub open spec fn seek_target(s: EngineState, millis: int) -> int {
    s.start_pos + seek_sample(s.end_pos - s.start_pos, millis) * BYTES_PER_SAMPLE
}

pub open spec fn seek_within(s: EngineState, millis: i64) -> Transition {
    if s.cursor is Some {
        let target = seek_target(s, millis as int) as u64;
        Transition {
            next: EngineState { cursor: Some(target), ..s },
            seek_to: Some(target),
            events: seq![
                PlayerCallbackEvent::Progress(
                    whole_seconds(target - s.start_pos) as u32,
                    s.song_seconds,
                ),
            ],
            ..quiet(s)
        }
    } else {
        quiet(s)
    }
}

/// What the engine does with one command. A stopped engine does nothing.
pub open spec fn apply_command(s: EngineState, cmd: PlayerCommand) -> Transition {
    if s.stopped {
        quiet(s)
    } else {
        match cmd {
            PlayerCommand::Start => Transition {
                next: EngineState { cursor: Some(s.start_pos), ..s },
                open_medium: true,
                seek_to: Some(s.start_pos),
                ..quiet(s)
            },
            PlayerCommand::Goto(track, autoplay) => goto_track(s, track, autoplay),
            PlayerCommand::Seek(millis) => seek_within(s, millis),
            PlayerCommand::Pause => set_paused(s, true),
            PlayerCommand::Play => set_paused(s, false),
            PlayerCommand::SetPaused(p) => set_paused(s, p),
            PlayerCommand::ChangeVolume(level) => Transition {
                next: EngineState { volume: clamped_volume(level as int) as i32, ..s },
                ..quiet(s)
            },
            PlayerCommand::GetIsPaused => Transition {
                reply: PlayerResult::IsPaused(s.paused),
                ..quiet(s)
            },
            PlayerCommand::GetPosition => Transition {
                reply: PlayerResult::Position(millis_of_bytes(s.position_bytes()) as u64),
                ..quiet(s)
            },
            PlayerCommand::StopAndWait => Transition {
                next: EngineState { stopped: true, ..s },
                reply: PlayerResult::Stopped,
                ..quiet(s)
            },
        }
    }
}

/// The commands that the engine takes: the bounds of a track to go to are
/// well-formed.
pub open spec fn command_wf(cmd: PlayerCommand) -> bool {
    cmd matches PlayerCommand::Goto(track, _) ==> track.bounds_wf()
}

/// The state after a run of commands, applied in order.
pub open spec fn run_commands(s: EngineState, cmds: Seq<PlayerCommand>) -> EngineState
    decreases cmds.len(),
{
    if cmds.len() == 0 {
        s
    } else {
        apply_command(run_commands(s, cmds.drop_last()), cmds.last()).next
    }
}

/// What to do on the medium and for the listener after one command.
pub struct CommandOutcome {
    /// Open the medium, before anything else.
    pub open_medium: bool,
    /// Then put the medium's cursor at this byte offset.
    pub seek_to: Option<u64>,
    /// Then hand these to the listener, in order.
    pub events: Vec<PlayerCallbackEvent>,
    /// Then answer with this, unless it is [`PlayerResult::Nothing`].
    pub reply: PlayerResult,
}

impl CommandOutcome {
    pub open spec fn reports(self, t: Transition) -> bool {
        &&& self.open_medium == t.open_medium
        &&& self.seek_to == t.seek_to
        &&& self.events@ =~= t.events
        &&& self.reply == t.reply
    }
}

/// What the engine wants of one tick.
#[derive(Debug, Clone, Copy, PartialEq, Eq, Structural)]
pub enum TickPlan {
    /// Nothing: paused, stopped, or no medium open.
    Idle,
    /// The cursor is at the track's end: tell the listener `Finished`, and
    /// read nothing.
    Finished,
    /// Read the sample under the cursor and hand its bytes to
    /// [`PlaybackEngine::on_sample`].
    ReadSample,
}

pub open spec fn tick_plan(s: EngineState) -> TickPlan {
    if s.stopped || s.paused {
        TickPlan::Idle
    } else {
        match s.cursor {
            None => TickPlan::Idle,
            Some(c) => if c >= s.end_pos {
                TickPlan::Finished
            } else {
                TickPlan::ReadSample
            },
        }
    }
}

/// One sample on its way to the output queue.
#[derive(Debug, Clone, Copy)]
pub struct SampleOutput {
    /// The sample with the volume applied.
    pub sample: i16,
    /// The `Progress` event to emit after the sample is queued, if the sample
    /// starts a whole second of the track.
    pub progress: Option<PlayerCallbackEvent>,
}

/// The value of two bytes read as a little-endian signed 16-bit integer.
pub open spec fn le_i16(lo: u8, hi: u8) -> int {
    let unsigned = lo + 256 * hi;
    if unsigned >= 32768 {
        unsigned - 65536
    } else {
        unsigned
    }
}

/// The state after the sample under the cursor was read.
pub open spec fn after_sample(s: EngineState) -> EngineState {
    if tick_plan(s) == TickPlan::ReadSample {
        EngineState { cursor: Some((s.cursor->0 + BYTES_PER_SAMPLE) as u64), ..s }
    } else {
        s
    }
}

/// Whether the sample under the cursor starts a whole second of the track.
pub open spec fn starts_second(s: EngineState) -> bool {
    tick_plan(s) == TickPlan::ReadSample && s.position_bytes() % (BYTES_ONE_SEC as int) == 0
}

/// What becomes of the sample read under the cursor.
pub open spec fn sample_output(s: EngineState, raw: int) -> SampleOutput {
    SampleOutput {
        sample: scaled_sample(raw, s.volume as int) as i16,
        progress: if starts_second(s) {
            Some(PlayerCallbackEvent::Progress(s.current_second() as u32, s.song_seconds))
        } else {
            None
        },
    }
}

/// The state after `n` ticks with no command between them.
pub open spec fn after_samples(s: EngineState, n: nat) -> EngineState
    decreases n,
{
    if n == 0 {
        s
    } else {
        after_sample(after_samples(s, (n - 1) as nat))
    }
}

/// A sector-aligned offset falls on a whole sample.
pub proof fn lemma_sector_aligned_is_even(offset: int)
    requires
        offset % (SECTOR_SIZE as int) == 0,
    ensures
        offset % 2 == 0,
{
    assert(offset == 2048 * (offset / 2048));
    assert(offset == 2 * (1024 * (offset / 2048)));
}

/// `byteorder::LittleEndian::read_i16` on two bytes: the first is the low
/// byte, the second the high byte, and the sixteen bits are read as a signed
/// integer in two's complement.
#[verifier::external_body]
fn read_sample_le(bytes: &[u8; 2]) -> (sample: i16)
    ensures
        sample == le_i16(bytes[0], bytes[1]),
{
    byteorder::LittleEndian::read_i16(bytes)
}

pub struct PlaybackEngine {
    state: EngineState,
}

impl View for PlaybackEngine {
    type V = EngineState;

    closed spec fn view(&self) -> EngineState {
        self.state
    }
}

impl PlaybackEngine {
    pub fn new() -> (engine: Self)
        ensures
            engine@ == EngineState::initial(),
            engine@.wf(),
    {
        PlaybackEngine {
            state: EngineState {
                paused: true,
                cursor: None,
                start_pos: 0,
                end_pos: 0,
                song_seconds: 0,
                volume: VOLUME_UNITY,
                stopped: false,
            },
        }
    }

    /// A copy of the engine's state.
    pub fn state(&self) -> (state: EngineState)
        ensures
            state == self@,
    {
        self.state
    }

    /// Whether `StopAndWait` was applied.
    pub fn is_stopped(&self) -> (stopped: bool)
        ensures
            stopped == self@.stopped,
    {
        self.state.stopped
    }

    /// Milliseconds played of the current track; 0 while no medium is open.
    pub fn position_millis(&self) -> (millis: u64)
        requires
            self@.wf(),
        ensures
            millis == millis_of_bytes(self@.position_bytes()),
    {
        match self.state.cursor {
            Some(c) => elapsed_millis_from_bytes(c - self.state.start_pos),
            None => 0,
        }
    }

    /// Applies one command.
    pub fn handle_command(&mut self, cmd: PlayerCommand) -> (outcome: CommandOutcome)
        requires
            old(self)@.wf(),
            command_wf(cmd),
        ensures
            final(self)@ == apply_command(old(self)@, cmd).next,
            final(self)@.wf(),
            outcome.reports(apply_command(old(self)@, cmd)),
    {
        let s = self.state;
        let mut outcome = CommandOutcome {
            open_medium: false,
            seek_to: None,
            events: Vec::new(),
            reply: PlayerResult::Nothing,
        };
        if s.stopped {
            return outcome;
        }
        match cmd {
            PlayerCommand::Start => {
                self.state.cursor = Some(s.start_pos);
                outcome.open_medium = true;
                outcome.seek_to = Some(s.start_pos);
            },
            PlayerCommand::Goto(track, autoplay) => {
                assert(track.start_addr * SECTOR_SIZE <= track.end_addr * SECTOR_SIZE)
                    by (nonlinear_arith)
                    requires
                        track.start_addr <= track.end_addr,
                ;
                let start = track.start_offset();
                let end = track.end_offset();
                let seconds = seconds_from_bytes(end - start);
                if s.cursor.is_some() {
                    self.state.cursor = Some(start);
                    outcome.seek_to = Some(start);
                }
                self.state.start_pos = start;
                self.state.end_pos = end;
                self.state.song_seconds = seconds;
                if autoplay {
                    self.state.paused = false;
                    outcome.events.push(PlayerCallbackEvent::Paused(false));
                }
                outcome.events.push(PlayerCallbackEvent::Progress(0, seconds));
            },
            PlayerCommand::Seek(millis) => {
                if s.cursor.is_some() {
                    let index = seek_sample_index(s.end_pos - s.start_pos, millis);
                    let target = s.start_pos + index * BYTES_PER_SAMPLE;
                    self.state.cursor = Some(target);
                    outcome.seek_to = Some(target);
                    outcome.events.push(
                        PlayerCallbackEvent::Progress(
                            seconds_from_bytes(target - s.start_pos),
                            s.song_seconds,
                        ),
                    );
                }
            },
            PlayerCommand::Pause => {
                self.state.paused = true;
                outcome.events.push(PlayerCallbackEvent::Paused(true));
            },
            PlayerCommand::Play => {
                self.state.paused = false;
                outcome.events.push(PlayerCallbackEvent::Paused(false));
            },
            PlayerCommand::SetPaused(p) => {
                self.state.paused = p;
                outcome.events.push(PlayerCallbackEvent::Paused(p));
            },
            PlayerCommand::ChangeVolume(level) => {
                self.state.volume = clamp_volume(level);
            },
            PlayerCommand::GetIsPaused => {
                outcome.reply = PlayerResult::IsPaused(s.paused);
            },
            PlayerCommand::GetPosition => {
                outcome.reply = PlayerResult::Position(self.position_millis());
            },
            PlayerCommand::StopAndWait => {
                self.state.stopped = true;
                outcome.reply = PlayerResult::Stopped;
            },
        }
        outcome
    }

    /// What this tick asks for.
    pub fn poll_tick(&self) -> (plan: TickPlan)
        ensures
            plan == tick_plan(self@),
    {
        if self.state.stopped || self.state.paused {
            TickPlan::Idle
        } else {
            match self.state.cursor {
                None => TickPlan::Idle,
                Some(c) => if c >= self.state.end_pos {
                    TickPlan::Finished
                } else {
                    TickPlan::ReadSample
                },
            }
        }
    }

    /// Takes the two bytes read under the cursor. While the engine plays and
    /// the cursor is before the track's end, the cursor moves on by one
    /// sample and the sample comes back with the volume applied; otherwise
    /// nothing changes and nothing comes back.
    pub fn on_sample(&mut self, bytes: [u8; 2]) -> (output: Option<SampleOutput>)
        requires
            old(self)@.wf(),
        ensures
            final(self)@ == after_sample(old(self)@),
            final(self)@.wf(),
            tick_plan(old(self)@) == TickPlan::ReadSample ==> output == Some(
                sample_output(old(self)@, le_i16(bytes[0], bytes[1])),
            ),
            tick_plan(old(self)@) != TickPlan::ReadSample ==> output is None,
    {
        match self.poll_tick() {
            TickPlan::ReadSample => {
                let s = self.state;
                let pos: u64 = match s.cursor {
                    Some(c) => c,
                    None => 0,
                };
                let raw = read_sample_le(&bytes);
                let sample = scale_sample(raw, s.volume);
                proof {
                    lemma_sector_aligned_is_even(s.start_pos as int);
                    lemma_sector_aligned_is_even(s.end_pos as int);
                    assert(pos + 2 <= s.end_pos);
                }
                self.state.cursor = Some(pos + BYTES_PER_SAMPLE);
                let played: u64 = pos - s.start_pos;
                let progress = if played % BYTES_ONE_SEC == 0 {
                    Some(PlayerCallbackEvent::Progress(seconds_from_bytes(played), s.song_seconds))
                } else {
                    None
                };
                Some(SampleOutput { sample, progress })
            },
            _ => None,
        }
    }
}

} // verus!
