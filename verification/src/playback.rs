//! The audio format, the messages that cross the engine's boundary, and the
//! exact integer arithmetic between bytes, samples, milliseconds and volume.
//!
//! Time crosses the boundary in whole milliseconds and volume in
//! ten-thousandths of full scale; each conversion says how it rounds.

use vstd::prelude::*;

use crate::Track;

verus! {

pub const AUDIO_SAMPLE_RATE: u32 = 44100;

pub const AUDIO_BIT_DEPTH: u32 = 16;

pub const AUDIO_CHANNELS: u32 = 2;

/// Interleaved samples per second of audio, both channels counted.
pub const SAMPLES_ONE_SEC: u64 = 88200;

/// Bytes per second of audio.
pub const BYTES_ONE_SEC: u64 = 176400;

/// Bytes that one 16-bit sample takes.
pub const BYTES_PER_SAMPLE: u64 = 2;

pub const MILLIS_ONE_SEC: u64 = 1000;

/// The sample value that is silence.
pub const EQUILIBRIUM: i16 = 0;

/// The volume level that leaves samples unchanged.
pub const VOLUME_UNITY: i32 = 10000;

#[derive(Debug, Clone, Copy, PartialEq, Eq, Structural)]
pub enum PlayerCommand {
    /// Go to a track
    ///
    /// The second parameter indicates autoplay
    Goto(Track, bool),
    /// Seek to a position in the current track, in milliseconds from its start
    Seek(i64),
    /// Open the medium and start playing
    Start,
    Pause,
    Play,
    /// equivalent to [`PlayerCommand::Play`] on `false`
    /// and [`PlayerCommand::Pause`] on `true`
    SetPaused(bool),
    /// Volume level, from 0 to [`VOLUME_UNITY`]
    ChangeVolume(i32),
    /// Get the current position in milliseconds, rounded down
    GetPosition,
    /// Get if in paused state
    GetIsPaused,
    /// Stops the engine, which answers [`PlayerResult::Stopped`] and then
    /// does nothing more.
    StopAndWait,
}

#[derive(Debug, Clone, Copy, PartialEq, Eq, Structural)]
pub enum PlayerCallbackEvent {
    Finished,
    Paused(bool),
    /// (current, total), in seconds
    Progress(u32, u32),
}

#[derive(Debug, Clone, Copy, PartialEq, Eq, Structural)]
pub enum PlayerResult {
    /// No answer: the command was not a query.
    Nothing,
    IsPaused(bool),
    /// Current position in milliseconds, rounded down
    Position(u64),
    Stopped,
}

/// The kinds of answer that the engine gives.
#[derive(Debug, Clone, Copy, PartialEq, Eq, Structural)]
pub enum ReplyKind {
    Nothing,
    IsPaused,
    Position,
    Stopped,
}

/// An answer of another kind than the one that was asked for.
#[derive(Debug, Clone, Copy, PartialEq, Eq, Structural)]
pub struct ResultMismatch {
    pub expected: ReplyKind,
    pub found: ReplyKind,
}

impl PlayerCommand {
    /// The kind of answer that a running engine gives to this command.
    pub open spec fn expected_reply(self) -> ReplyKind {
        match self {
            PlayerCommand::GetPosition => ReplyKind::Position,
            PlayerCommand::GetIsPaused => ReplyKind::IsPaused,
            PlayerCommand::StopAndWait => ReplyKind::Stopped,
            _ => ReplyKind::Nothing,
        }
    }

    /// See [`PlayerCommand::expected_reply`].
    pub fn reply_kind(&self) -> (kind: ReplyKind)
        ensures
            kind == self.expected_reply(),
    {
        match self {
            PlayerCommand::GetPosition => ReplyKind::Position,
            PlayerCommand::GetIsPaused => ReplyKind::IsPaused,
            PlayerCommand::StopAndWait => ReplyKind::Stopped,
            _ => ReplyKind::Nothing,
        }
    }

    /// Whether the sender has to wait for an answer.
    pub fn is_query(&self) -> (query: bool)
        ensures
            query == (self.expected_reply() != ReplyKind::Nothing),
    {
        match self {
            PlayerCommand::GetPosition | PlayerCommand::GetIsPaused | PlayerCommand::StopAndWait => true,
            _ => false,
        }
    }
}

impl PlayerResult {
    pub open spec fn spec_kind(self) -> ReplyKind {
        match self {
            PlayerResult::Nothing => ReplyKind::Nothing,
            PlayerResult::IsPaused(_) => ReplyKind::IsPaused,
            PlayerResult::Position(_) => ReplyKind::Position,
            PlayerResult::Stopped => ReplyKind::Stopped,
        }
    }

    pub fn kind(&self) -> (kind: ReplyKind)
        ensures
            kind == self.spec_kind(),
    {
        match self {
            PlayerResult::Nothing => ReplyKind::Nothing,
            PlayerResult::IsPaused(_) => ReplyKind::IsPaused,
            PlayerResult::Position(_) => ReplyKind::Position,
            PlayerResult::Stopped => ReplyKind::Stopped,
        }
    }

    /// The position that answers `GetPosition`, in milliseconds; a mismatch
    /// for any other answer.
    pub fn position(self) -> (position: Result<u64, ResultMismatch>)
        ensures
            position == match self {
                PlayerResult::Position(millis) => Ok::<u64, ResultMismatch>(millis),
                _ => Err::<u64, ResultMismatch>(
                    ResultMismatch { expected: ReplyKind::Position, found: self.spec_kind() },
                ),
            },
    {
        match self {
            PlayerResult::Position(millis) => Ok(millis),
            _ => Err(ResultMismatch { expected: ReplyKind::Position, found: self.kind() }),
        }
    }

    /// The flag that answers `GetIsPaused`; a mismatch for any other answer.
    pub fn is_paused(self) -> (paused: Result<bool, ResultMismatch>)
        ensures
            paused == match self {
                PlayerResult::IsPaused(p) => Ok::<bool, ResultMismatch>(p),
                _ => Err::<bool, ResultMismatch>(
                    ResultMismatch { expected: ReplyKind::IsPaused, found: self.spec_kind() },
                ),
            },
    {
        match self {
            PlayerResult::IsPaused(p) => Ok(p),
            _ => Err(ResultMismatch { expected: ReplyKind::IsPaused, found: self.kind() }),
        }
    }

    /// `Ok` for the answer to `StopAndWait`; a mismatch for any other answer.
    pub fn stopped(self) -> (stopped: Result<(), ResultMismatch>)
        ensures
            stopped == match self {
                PlayerResult::Stopped => Ok::<(), ResultMismatch>(()),
                _ => Err::<(), ResultMismatch>(
                    ResultMismatch { expected: ReplyKind::Stopped, found: self.spec_kind() },
                ),
            },
    {
        match self {
            PlayerResult::Stopped => Ok(()),
            _ => Err(ResultMismatch { expected: ReplyKind::Stopped, found: self.kind() }),
        }
    }
}

/// Whole seconds of audio in `bytes`, rounded down, as 32 bits hold them:
/// from 2^32 seconds on the count starts again at 0.
pub open spec fn whole_seconds(bytes: int) -> int {
    (bytes / (BYTES_ONE_SEC as int)) % 0x1_0000_0000
}

/// Whole milliseconds of audio in `bytes`, rounded down: the result is exact
/// or less than one millisecond short, `0 <= bytes * 1000 - millis * 176400 <
/// 176400`.
pub open spec fn millis_of_bytes(bytes: int) -> int {
    bytes * 5 / 882
}

/// The length of `bytes` of audio in milliseconds, rounded to the nearest
/// millisecond, halves up: the result is at most half a millisecond off,
/// `-88200 <= bytes * 1000 - millis * 176400 < 88200`.
pub open spec fn nearest_millis_of_bytes(bytes: int) -> int {
    (bytes * 10 + 882) / 1764
}

/// The sample index that lies `millis` into the audio, rounded down.
pub open spec fn samples_of_millis(millis: int) -> int {
    millis * 441 / 5
}

/// Where a seek to `millis` lands in a track of `track_bytes` bytes, as an
/// index of samples: never before the start, never on or after the end of a
/// track that holds a sample, and always on a left-channel sample.
pub open spec fn seek_sample(track_bytes: int, millis: int) -> int {
    let total = track_bytes / (BYTES_PER_SAMPLE as int);
    let wanted = if millis < 0 {
        0
    } else {
        samples_of_millis(millis)
    };
    let held = if total == 0 {
        0
    } else if wanted >= total {
        total - 1
    } else {
        wanted
    };
    held - held % 2
}

/// The level that a requested volume stands for.
pub open spec fn clamped_volume(level: int) -> int {
    if level < 0 {
        0
    } else if level > VOLUME_UNITY {
        VOLUME_UNITY as int
    } else {
        level
    }
}

/// `sample * level / VOLUME_UNITY`, rounded to the nearest integer, halves
/// away from zero.
pub open spec fn scaled_sample(sample: int, level: int) -> int {
    let product = sample * level;
    if product >= 0 {
        (2 * product + VOLUME_UNITY) / (2 * VOLUME_UNITY)
    } else {
        -((VOLUME_UNITY - 2 * product) / (2 * VOLUME_UNITY))
    }
}

/// Cutting a count of seconds to 32 bits leaves its remainder by 2^32.
pub proof fn lemma_whole_seconds_are_truncated(bytes: u64)
    ensures
        whole_seconds(bytes as int) == (bytes / BYTES_ONE_SEC) as u32,
        bytes / BYTES_ONE_SEC <= u32::MAX ==> whole_seconds(bytes as int) == bytes
            / BYTES_ONE_SEC,
{
    let seconds: u64 = bytes / BYTES_ONE_SEC;
    assert(seconds % 0x1_0000_0000 == seconds as u32) by (bit_vector);
}

/// See [`whole_seconds`].
pub fn seconds_from_bytes(bytes: u64) -> (seconds: u32)
    ensures
        seconds == whole_seconds(bytes as int),
        seconds == (bytes / BYTES_ONE_SEC) as u32,
        bytes / BYTES_ONE_SEC <= u32::MAX ==> seconds == bytes / BYTES_ONE_SEC,
{
    proof {
        lemma_whole_seconds_are_truncated(bytes);
    }
    let seconds: u64 = bytes / BYTES_ONE_SEC;
    (seconds % 0x1_0000_0000) as u32
}

/// See [`millis_of_bytes`]: the time that `bytes` of audio take, in whole
/// milliseconds, rounded down.
pub fn elapsed_millis_from_bytes(bytes: u64) -> (millis: u64)
    ensures
        millis == millis_of_bytes(bytes as int),
        0 <= bytes * 1000 - millis * BYTES_ONE_SEC < BYTES_ONE_SEC,
{
    let wide: u128 = bytes as u128 * 5 / 882;
    wide as u64
}

/// See [`nearest_millis_of_bytes`]: the length of `bytes` of audio, to the
/// nearest millisecond.
pub fn duration_millis_from_bytes(bytes: u64) -> (millis: u64)
    ensures
        millis == nearest_millis_of_bytes(bytes as int),
        -88200 <= bytes * 1000 - millis * BYTES_ONE_SEC < 88200,
{
    let wide: u128 = (bytes as u128 * 10 + 882) / 1764;
    wide as u64
}

/// See [`seek_sample`].
pub fn seek_sample_index(track_bytes: u64, millis: i64) -> (index: u64)
    ensures
        index == seek_sample(track_bytes as int, millis as int),
        index % 2 == 0,
        index * BYTES_PER_SAMPLE <= track_bytes,
        track_bytes >= BYTES_PER_SAMPLE ==> index * BYTES_PER_SAMPLE < track_bytes,
{
    let total: u64 = track_bytes / BYTES_PER_SAMPLE;
    let wanted: u128 = if millis < 0 {
        0
    } else {
        millis as u128 * 441 / 5
    };
    let held: u64 = if total == 0 {
        0
    } else if wanted >= total as u128 {
        total - 1
    } else {
        wanted as u64
    };
    held - held % 2
}

/// See [`clamped_volume`].
pub fn clamp_volume(level: i32) -> (clamped: i32)
    ensures
        clamped == clamped_volume(level as int),
        0 <= clamped <= VOLUME_UNITY,
{
    if level < 0 {
        0
    } else if level > VOLUME_UNITY {
        VOLUME_UNITY
    } else {
        level
    }
}

/// A scaled sample is no further from zero than the sample itself.
pub proof fn lemma_scaled_sample_bounded(sample: int, level: int)
    requires
        0 <= level <= VOLUME_UNITY,
    ensures
        sample >= 0 ==> 0 <= scaled_sample(sample, level) <= sample,
        sample <= 0 ==> sample <= scaled_sample(sample, level) <= 0,
{
    let product = sample * level;
    if sample >= 0 {
        assert(0 <= product <= sample * 10000) by (nonlinear_arith)
            requires
                product == sample * level,
                0 <= level <= 10000,
                sample >= 0,
        ;
    } else {
        assert(sample * 10000 <= product <= 0) by (nonlinear_arith)
            requires
                product == sample * level,
                0 <= level <= 10000,
                sample < 0,
        ;
        let magnitude = (10000 - 2 * product) / 20000;
        assert(0 <= magnitude <= -sample);
        assert(scaled_sample(sample, level) == -magnitude);
    }
}

/// Applies a volume level to one sample.
pub fn scale_sample(sample: i16, level: i32) -> (scaled: i16)
    requires
        0 <= level <= VOLUME_UNITY,
    ensures
        scaled == scaled_sample(sample as int, level as int),
{
    proof {
        lemma_scaled_sample_bounded(sample as int, level as int);
    }
    let s: i64 = sample as i64;
    let l: i64 = level as i64;
    assert(-32768 * 10000 <= s * l <= 32767 * 10000) by (nonlinear_arith)
        requires
            -32768 <= s <= 32767,
            0 <= l <= 10000,
    ;
    let product: i64 = s * l;
    let unity: i64 = VOLUME_UNITY as i64;
    if product >= 0 {
        ((2 * product + unity) / (2 * unity)) as i16
    } else {
        let magnitude: i64 = (unity - 2 * product) / (2 * unity);
        (-magnitude) as i16
    }
}

} // verus!
