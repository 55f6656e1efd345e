//! What holds of the engine on every state and every command.

use vstd::prelude::*;

use crate::engine::{
    after_sample, after_samples, apply_command, command_wf, quiet, run_commands, sample_output,
    seek_target, starts_second, tick_plan, EngineState, TickPlan,
};
use crate::playback::{
    clamped_volume, lemma_whole_seconds_are_truncated, scaled_sample, seek_sample,
    samples_of_millis, whole_seconds,
    PlayerCallbackEvent, PlayerCommand, PlayerResult, BYTES_ONE_SEC, BYTES_PER_SAMPLE,
    VOLUME_UNITY,
};
use crate::engine::lemma_sector_aligned_is_even;
use crate::{Track, SECTOR_SIZE};

verus! {

/// Every command leaves a well-formed engine well-formed.
pub proof fn law_commands_keep_wf(s: EngineState, cmd: PlayerCommand)
    requires
        s.wf(),
        command_wf(cmd),
    ensures
        apply_command(s, cmd).next.wf(),
{
    if !s.stopped {
        match cmd {
            PlayerCommand::Goto(track, autoplay) => {
                assert(track.start_addr * SECTOR_SIZE <= track.end_addr * SECTOR_SIZE)
                    by (nonlinear_arith)
                    requires
                        track.start_addr <= track.end_addr,
                ;
                assert((track.start_addr * SECTOR_SIZE) % (SECTOR_SIZE as int) == 0)
                    by (nonlinear_arith);
                assert((track.end_addr * SECTOR_SIZE) % (SECTOR_SIZE as int) == 0)
                    by (nonlinear_arith);
            },
            PlayerCommand::Seek(millis) => {
                lemma_seek_lands_within(s, millis as int);
            },
            _ => {},
        }
    }
}

/// A seek lands inside the track, on a sample of the left channel.
pub proof fn lemma_seek_lands_within(s: EngineState, millis: int)
    requires
        s.wf(),
    ensures
        s.start_pos <= seek_target(s, millis) <= s.end_pos,
        s.start_pos < s.end_pos ==> seek_target(s, millis) < s.end_pos,
        (seek_target(s, millis) - s.start_pos) % 4 == 0,
        seek_sample(s.end_pos - s.start_pos, millis) % 2 == 0,
{
    lemma_sector_aligned_is_even(s.start_pos as int);
    lemma_sector_aligned_is_even(s.end_pos as int);
}

/// After `Goto` with autoplay, the position asked for next is 0, for every
/// track and every engine that has not been stopped.
pub proof fn law_goto_then_position_is_zero(s: EngineState, track: Track)
    requires
        s.wf(),
        track.bounds_wf(),
        !s.stopped,
    ensures
        apply_command(
            apply_command(s, PlayerCommand::Goto(track, true)).next,
            PlayerCommand::GetPosition,
        ).reply == PlayerResult::Position(0),
{
}

/// A seek on an open medium puts the cursor on an even sample index of the
/// track. A negative time lands on the first sample. A time at or past the
/// track's length lands one sample period (a left and a right sample) before
/// its end.
pub proof fn law_seek_lands_on_even_sample(s: EngineState, millis: i64)
    requires
        s.wf(),
        !s.stopped,
        s.cursor is Some,
    ensures
        ({
            let after = apply_command(s, PlayerCommand::Seek(millis)).next;
            let total = (s.end_pos - s.start_pos) / (BYTES_PER_SAMPLE as int);
            let index = after.position_bytes() / (BYTES_PER_SAMPLE as int);
            &&& after.cursor is Some
            &&& after.position_bytes() == index * BYTES_PER_SAMPLE
            &&& index == seek_sample(s.end_pos - s.start_pos, millis as int)
            &&& index % 2 == 0
            &&& 0 <= index <= total
            &&& millis < 0 ==> index == 0
            &&& total > 0 && samples_of_millis(millis as int) >= total ==> index == total - 2
            &&& 0 <= millis && samples_of_millis(millis as int) < total ==> index
                == samples_of_millis(millis as int) - samples_of_millis(millis as int) % 2
        }),
{
    lemma_seek_lands_within(s, millis as int);
    lemma_sector_aligned_is_even(s.start_pos as int);
    lemma_sector_aligned_is_even(s.end_pos as int);
    let bytes = s.end_pos - s.start_pos;
    assert(bytes % 2048 == 0);
    assert(bytes == 2048 * (bytes / 2048));
    let total = bytes / 2;
    assert(total == 1024 * (bytes / 2048));
    assert(total % 2 == 0);
}

/// Volume scales linearly: at full volume a sample is unchanged, at zero it
/// is silence, and in between it is the nearest integer to
/// `sample * level / VOLUME_UNITY`.
pub proof fn law_volume_scales_linearly(sample: int, level: int)
    requires
        0 <= level <= VOLUME_UNITY,
    ensures
        scaled_sample(sample, VOLUME_UNITY as int) == sample,
        scaled_sample(sample, 0) == 0,
        -VOLUME_UNITY <= 2 * (scaled_sample(sample, level) * VOLUME_UNITY - sample * level)
            <= VOLUME_UNITY,
{
    assert(scaled_sample(sample, 10000) == sample) by {
        if sample >= 0 {
            assert((20000 * sample + 10000) / 20000 == sample);
        } else {
            assert((10000 - 20000 * sample) / 20000 == -sample);
        }
    }
    assert(sample * 0 == 0);
    let product = sample * level;
    if product >= 0 {
        let q = (2 * product + 10000) / 20000;
        assert(2 * product + 10000 == 20000 * q + (2 * product + 10000) % 20000);
    } else {
        let q = (10000 - 2 * product) / 20000;
        assert(10000 - 2 * product == 20000 * q + (10000 - 2 * product) % 20000);
    }
}

/// A volume outside the range is taken as the nearest bound, and one inside
/// it is taken as it is.
pub proof fn law_volume_clamps(s: EngineState, level: i32)
    requires
        !s.stopped,
    ensures
        ({
            let after = apply_command(s, PlayerCommand::ChangeVolume(level)).next;
            &&& after.volume == clamped_volume(level as int)
            &&& level < 0 ==> after.volume == 0
            &&& level > VOLUME_UNITY ==> after.volume == VOLUME_UNITY
            &&& 0 <= level <= VOLUME_UNITY ==> after.volume == level
            &&& after == (EngineState { volume: after.volume, ..s })
        }),
{
}

/// A running engine answers each command in the kind that the command asks
/// for: the three queries each in their own, every other command not at all.
pub proof fn law_replies_match_queries(s: EngineState, cmd: PlayerCommand)
    requires
        !s.stopped,
    ensures
        apply_command(s, cmd).reply.spec_kind() == cmd.expected_reply(),
        cmd == PlayerCommand::GetIsPaused ==> apply_command(s, cmd).reply
            == PlayerResult::IsPaused(s.paused),
{
}

/// `StopAndWait` on an engine that runs is answered with `Stopped`, and
/// stops it.
pub proof fn law_stop_is_answered(s: EngineState)
    requires
        !s.stopped,
    ensures
        apply_command(s, PlayerCommand::StopAndWait).reply == PlayerResult::Stopped,
        apply_command(s, PlayerCommand::StopAndWait).next.stopped,
        apply_command(s, PlayerCommand::StopAndWait).events.len() == 0,
{
}

/// A stopped engine stays stopped whatever it is sent: no command changes
/// it, none is answered, no event fires, and no tick asks for anything.
pub proof fn law_stopped_is_terminal(s: EngineState, cmd: PlayerCommand)
    requires
        s.stopped,
    ensures
        apply_command(s, cmd) == quiet(s),
        apply_command(s, cmd).events.len() == 0,
        apply_command(s, cmd).reply == PlayerResult::Nothing,
        tick_plan(s) == TickPlan::Idle,
        after_sample(s) == s,
{
}

/// Once stopped, a run of commands leaves the engine as it was.
pub proof fn lemma_stopped_run(s: EngineState, cmds: Seq<PlayerCommand>)
    requires
        s.stopped,
    ensures
        run_commands(s, cmds) == s,
    decreases cmds.len(),
{
    if cmds.len() > 0 {
        lemma_stopped_run(s, cmds.drop_last());
    }
}

/// A run of commands is the run of its first part followed by the rest.
pub proof fn lemma_run_splits(s: EngineState, cmds: Seq<PlayerCommand>, k: int)
    requires
        0 <= k <= cmds.len(),
    ensures
        run_commands(s, cmds) == run_commands(run_commands(s, cmds.take(k)), cmds.skip(k)),
    decreases cmds.len(),
{
    if k == cmds.len() {
        assert(cmds.take(k) =~= cmds);
        assert(cmds.skip(k).len() == 0);
    } else {
        let shorter = cmds.drop_last();
        lemma_run_splits(s, shorter, k);
        assert(shorter.take(k) =~= cmds.take(k));
        assert(cmds.skip(k).drop_last() =~= shorter.skip(k));
        assert(cmds.skip(k).last() == cmds.last());
    }
}

/// In any run of commands, once one of them was answered with `Stopped`, no
/// later one is answered at all, none fires an event, and none changes the
/// engine: `Stopped` is said exactly once.
pub proof fn law_stopped_is_said_once(s: EngineState, cmds: Seq<PlayerCommand>, i: int, j: int)
    requires
        0 <= i < j < cmds.len(),
        apply_command(run_commands(s, cmds.take(i)), cmds[i]).reply == PlayerResult::Stopped,
    ensures
        ({
            let before = run_commands(s, cmds.take(j));
            &&& before.stopped
            &&& apply_command(before, cmds[j]) == quiet(before)
            &&& apply_command(before, cmds[j]).reply == PlayerResult::Nothing
            &&& apply_command(before, cmds[j]).events.len() == 0
            &&& tick_plan(before) == TickPlan::Idle
        }),
{
    let at_i = run_commands(s, cmds.take(i));
    let after_i = apply_command(at_i, cmds[i]).next;
    assert(after_i.stopped);
    let upto = cmds.take(j);
    assert(upto.take(i + 1).drop_last() =~= cmds.take(i));
    assert(upto.take(i + 1).last() == cmds[i]);
    assert(run_commands(s, upto.take(i + 1)) == after_i);
    lemma_run_splits(s, upto, i + 1);
    lemma_stopped_run(after_i, upto.skip(i + 1));
}

/// Ticks never move the cursor backwards, and they keep the engine
/// well-formed and on its track.
pub proof fn lemma_samples_advance(s: EngineState, i: nat, j: nat)
    requires
        s.wf(),
        i <= j,
    ensures
        after_samples(s, i).wf(),
        after_samples(s, j).wf(),
        after_samples(s, j).start_pos == s.start_pos,
        after_samples(s, j).end_pos == s.end_pos,
        after_samples(s, j).song_seconds == s.song_seconds,
        after_samples(s, i).position_bytes() <= after_samples(s, j).position_bytes(),
        i < j && tick_plan(after_samples(s, i)) == TickPlan::ReadSample ==> after_samples(
            s,
            i,
        ).position_bytes() < after_samples(s, j).position_bytes(),
    decreases j,
{
    if j == 0 {
    } else if i == j {
        lemma_samples_advance(s, (j - 1) as nat, (j - 1) as nat);
        lemma_tick_keeps_wf(after_samples(s, (j - 1) as nat));
    } else {
        lemma_samples_advance(s, i, (j - 1) as nat);
        lemma_tick_keeps_wf(after_samples(s, (j - 1) as nat));
    }
}

/// One tick keeps the engine well-formed and does not move the cursor back.
pub proof fn lemma_tick_keeps_wf(s: EngineState)
    requires
        s.wf(),
    ensures
        after_sample(s).wf(),
        after_sample(s).position_bytes() >= s.position_bytes(),
        tick_plan(s) == TickPlan::ReadSample ==> after_sample(s).position_bytes()
            == s.position_bytes() + BYTES_PER_SAMPLE,
{
    lemma_sector_aligned_is_even(s.start_pos as int);
    lemma_sector_aligned_is_even(s.end_pos as int);
}

/// While the engine plays with no command between ticks, `Progress` fires
/// at most once per whole second of the track. A tick fires it exactly when
/// its sample stands a whole number of seconds into the track, and then with
/// that number, as 32 bits hold it, and the track's total. Two ticks that
/// both fire it lie in different seconds, the later tick in the later
/// second. On a track shorter than 2^32 seconds the second that the engine
/// reports is the second that the cursor is in, and it never decreases.
pub proof fn law_progress_once_per_second(s: EngineState, i: nat, j: nat, raw: int)
    requires
        s.wf(),
        i < j,
    ensures
        ({
            let at_i = after_samples(s, i);
            let at_j = after_samples(s, j);
            let second_i = at_i.position_bytes() / (BYTES_ONE_SEC as int);
            let second_j = at_j.position_bytes() / (BYTES_ONE_SEC as int);
            &&& sample_output(at_i, raw).progress == if tick_plan(at_i) == TickPlan::ReadSample
                && at_i.position_bytes() == second_i * BYTES_ONE_SEC {
                Some(
                    PlayerCallbackEvent::Progress(
                        (second_i % 0x1_0000_0000) as u32,
                        s.song_seconds,
                    ),
                )
            } else {
                None
            }
            &&& second_i <= second_j
            &&& starts_second(at_i) && starts_second(at_j) ==> second_i < second_j
            &&& (s.end_pos - s.start_pos) / (BYTES_ONE_SEC as int) <= u32::MAX ==> {
                &&& at_i.current_second() == second_i
                &&& at_j.current_second() == second_j
                &&& at_i.current_second() <= at_j.current_second()
            }
        }),
{
    lemma_samples_advance(s, i, i);
    lemma_samples_advance(s, i, j);
    let a = after_samples(s, i).position_bytes();
    let b = after_samples(s, j).position_bytes();
    assert(0 <= a <= b <= s.end_pos - s.start_pos);
    assert(a == 176400 * (a / 176400) + a % 176400);
    assert(b == 176400 * (b / 176400) + b % 176400);
}

/// Every `Goto` sets the reported second back to 0: the last event it fires
/// is `Progress(0, total)`, and the engine's position is 0. The total is the
/// track's length in whole seconds, rounded down, as 32 bits hold it.
pub proof fn law_goto_resets_progress(s: EngineState, track: Track, autoplay: bool)
    requires
        s.wf(),
        track.bounds_wf(),
        !s.stopped,
    ensures
        ({
            let t = apply_command(s, PlayerCommand::Goto(track, autoplay));
            let bytes = track.end_addr * SECTOR_SIZE - track.start_addr * SECTOR_SIZE;
            &&& t.events.len() > 0
            &&& t.events.last() == PlayerCallbackEvent::Progress(0, t.next.song_seconds)
            &&& t.next.current_second() == 0
            &&& t.next.position_bytes() == 0
            &&& t.next.song_seconds == whole_seconds(bytes)
            &&& t.next.song_seconds == ((bytes as u64) / BYTES_ONE_SEC) as u32
            &&& bytes / (BYTES_ONE_SEC as int) <= u32::MAX ==> t.next.song_seconds == bytes / (
            BYTES_ONE_SEC as int)
            &&& autoplay ==> !t.next.paused && t.events =~= seq![
                PlayerCallbackEvent::Paused(false),
                PlayerCallbackEvent::Progress(0, t.next.song_seconds),
            ]
            &&& !autoplay ==> t.next.paused == s.paused && t.events =~= seq![
                PlayerCallbackEvent::Progress(0, t.next.song_seconds),
            ]
        }),
{
    assert(track.start_addr * SECTOR_SIZE <= track.end_addr * SECTOR_SIZE) by (nonlinear_arith)
        requires
            track.start_addr <= track.end_addr,
    ;
    let bytes = track.end_addr * SECTOR_SIZE - track.start_addr * SECTOR_SIZE;
    lemma_whole_seconds_are_truncated(bytes as u64);
}

/// After a `Goto` on an open medium that leaves the engine playing a track
/// that holds a sample, the next tick reads the sample at the track's start
/// and fires `Progress(0, total)`: the count of seconds starts again from 0.
pub proof fn law_progress_restarts_after_goto(
    s: EngineState,
    track: Track,
    autoplay: bool,
    raw: int,
)
    requires
        s.wf(),
        track.bounds_wf(),
        !s.stopped,
        s.cursor is Some,
        autoplay || !s.paused,
        track.start_addr < track.end_addr,
    ensures
        ({
            let after = apply_command(s, PlayerCommand::Goto(track, autoplay)).next;
            &&& after.cursor == Some((track.start_addr * SECTOR_SIZE) as u64)
            &&& tick_plan(after) == TickPlan::ReadSample
            &&& sample_output(after, raw).progress == Some(
                PlayerCallbackEvent::Progress(0, after.song_seconds),
            )
        }),
{
    assert(track.start_addr * SECTOR_SIZE < track.end_addr * SECTOR_SIZE) by (nonlinear_arith)
        requires
            track.start_addr < track.end_addr,
    ;
}

} // verus!
