//! The single-slot mailboxes between the controller and the engine, and the
//! order in which commands sent through one reach the engine.
//!
//! A mailbox never blocks. A sender that finds it full keeps its item and
//! waits for its turn outside; a receiver that finds it empty goes on.

use vstd::prelude::*;

use crate::engine::{
    apply_command, command_wf, run_commands, tick_plan, CommandOutcome, EngineState,
    PlaybackEngine, TickPlan,
};
use crate::engine_laws::law_commands_keep_wf;
use crate::playback::{whole_seconds, PlayerCallbackEvent, PlayerCommand};
use crate::{Track, SECTOR_SIZE};

verus! {

/// A mailbox that holds at most one item.
pub struct Mailbox<T> {
    slot: Option<T>,
}

impl<T> View for Mailbox<T> {
    type V = Option<T>;

    closed spec fn view(&self) -> Option<T> {
        self.slot
    }
}

impl<T> Mailbox<T> {
    pub fn new() -> (mailbox: Self)
        ensures
            mailbox@ is None,
    {
        Mailbox { slot: None }
    }

    pub fn is_full(&self) -> (full: bool)
        ensures
            full == (self@ is Some),
    {
        self.slot.is_some()
    }

    /// Puts `item` into an empty mailbox. A full mailbox stays as it is and
    /// hands `item` back.
    pub fn try_send(&mut self, item: T) -> (sent: Result<(), T>)
        ensures
            old(self)@ is None ==> sent is Ok && final(self)@ == Some(item),
            old(self)@ is Some ==> sent == Err::<(), T>(item) && final(self)@ == old(self)@,
    {
        if self.slot.is_some() {
            Err(item)
        } else {
            self.slot = Some(item);
            Ok(())
        }
    }

    /// Takes the item out, if there is one.
    pub fn try_recv(&mut self) -> (item: Option<T>)
        ensures
            item == old(self)@,
            final(self)@ is None,
    {
        self.slot.take()
    }
}

impl PlaybackEngine {
    /// The first half of one turn of the engine's loop: takes the command
    /// that waits in `commands`, if any, and applies it.
    pub fn poll_command(&mut self, commands: &mut Mailbox<PlayerCommand>) -> (outcome: Option<
        CommandOutcome,
    >)
        requires
            old(self)@.wf(),
            old(commands)@ matches Some(cmd) ==> command_wf(cmd),
        ensures
            final(commands)@ is None,
            final(self)@.wf(),
            final(self)@ == link_step(link_of(old(self)@, old(commands)@), LinkStep::Poll).engine,
            match old(commands)@ {
                Some(cmd) => outcome matches Some(o) && o.reports(apply_command(old(self)@, cmd)),
                None => outcome is None,
            },
    {
        match commands.try_recv() {
            Some(cmd) => Some(self.handle_command(cmd)),
            None => None,
        }
    }
}

/// One thing that happens at the command mailbox.
pub enum LinkStep {
    /// The controller tries to send a command.
    Send(PlayerCommand),
    /// The engine polls the mailbox.
    Poll,
}

/// The command mailbox, the engine behind it, and what went through so far.
pub struct LinkState {
    pub slot: Option<PlayerCommand>,
    pub engine: EngineState,
    /// The commands that the mailbox took, in the order it took them.
    pub accepted: Seq<PlayerCommand>,
    /// The commands that the engine applied, in the order it applied them.
    pub applied: Seq<PlayerCommand>,
}

/// A link with nothing sent yet.
pub open spec fn link_of(engine: EngineState, slot: Option<PlayerCommand>) -> LinkState {
    LinkState {
        slot,
        engine,
        accepted: match slot {
            Some(cmd) => seq![cmd],
            None => Seq::empty(),
        },
        applied: Seq::empty(),
    }
}

/// A send into a full mailbox changes nothing: the sender has to try again.
/// A poll of an empty mailbox changes nothing either.
pub open spec fn link_step(st: LinkState, step: LinkStep) -> LinkState {
    match step {
        LinkStep::Send(cmd) => match st.slot {
            None => LinkState { slot: Some(cmd), accepted: st.accepted.push(cmd), ..st },
            Some(_) => st,
        },
        LinkStep::Poll => match st.slot {
            Some(cmd) => LinkState {
                slot: None,
                engine: apply_command(st.engine, cmd).next,
                applied: st.applied.push(cmd),
                ..st
            },
            None => st,
        },
    }
}

/// The link after `steps`, taken in order.
pub open spec fn link_run(st: LinkState, steps: Seq<LinkStep>) -> LinkState
    decreases steps.len(),
{
    if steps.len() == 0 {
        st
    } else {
        link_step(link_run(st, steps.drop_last()), steps.last())
    }
}

/// The command that waits in the mailbox, as a sequence of at most one.
pub open spec fn waiting(slot: Option<PlayerCommand>) -> Seq<PlayerCommand> {
    match slot {
        Some(cmd) => seq![cmd],
        None => Seq::empty(),
    }
}

/// However sends and polls interleave, the engine applies the commands in
/// the order in which the mailbox took them, and it has applied all of them
/// but the one that still waits. So a command is taken only after every
/// command sent before it was applied in full.
pub proof fn law_commands_apply_in_send_order(engine: EngineState, steps: Seq<LinkStep>)
    ensures
        ({
            let st = link_run(link_of(engine, None), steps);
            &&& st.accepted == st.applied + waiting(st.slot)
            &&& st.engine == run_commands(engine, st.applied)
        }),
    decreases steps.len(),
{
    let st = link_run(link_of(engine, None), steps);
    if steps.len() == 0 {
        assert(st.accepted =~= st.applied + waiting(st.slot));
    } else {
        law_commands_apply_in_send_order(engine, steps.drop_last());
        let before = link_run(link_of(engine, None), steps.drop_last());
        assert(before.accepted =~= before.applied + waiting(before.slot));
        match steps.last() {
            LinkStep::Send(cmd) => {
                assert(st.accepted =~= st.applied + waiting(st.slot));
            },
            LinkStep::Poll => {
                assert(st.accepted =~= st.applied + waiting(st.slot));
                if before.slot is Some {
                    assert(st.applied.drop_last() =~= before.applied);
                }
            },
        }
    }
}

/// A burst of two commands: whenever the mailbox has taken the second, the
/// engine has applied the first, and nothing else.
pub proof fn law_burst_keeps_order(
    engine: EngineState,
    steps: Seq<LinkStep>,
    first: PlayerCommand,
    second: PlayerCommand,
)
    requires
        link_run(link_of(engine, None), steps).accepted == seq![first, second],
    ensures
        ({
            let st = link_run(link_of(engine, None), steps);
            let after_first = apply_command(engine, first).next;
            ||| st.slot == Some(second) && st.applied == seq![first] && st.engine == after_first
            ||| st.slot is None && st.applied == seq![first, second] && st.engine == apply_command(
                after_first,
                second,
            ).next
        }),
{
    law_commands_apply_in_send_order(engine, steps);
    let st = link_run(link_of(engine, None), steps);
    let both = seq![first, second];
    assert(both.len() == 2);
    assert(both[0] == first && both[1] == second);
    match st.slot {
        Some(cmd) => {
            assert(st.applied.len() == 1);
            assert(st.applied[0] == both[0]);
            assert(waiting(st.slot)[0] == both[1]);
            assert(st.applied =~= seq![first]);
            assert(st.applied.drop_last() =~= Seq::<PlayerCommand>::empty());
            assert(run_commands(engine, st.applied.drop_last()) == engine);
        },
        None => {
            assert(st.applied =~= both);
            assert(both.drop_last() =~= seq![first]);
            assert(seq![first].drop_last() =~= Seq::<PlayerCommand>::empty());
            assert(run_commands(engine, seq![first].drop_last()) == engine);
            assert(run_commands(engine, seq![first]) == apply_command(engine, first).next);
        },
    }
}

/// The burst `Start`, `Goto(track, true)` sent to a new engine: once the
/// mailbox has taken both and is empty again, the engine has opened the
/// medium first and gone to the track on the opened medium. `Goto` moved the
/// cursor to the track's start and fired `Paused(false)`, then
/// `Progress(0, total)`, and the engine plays from the track's start.
pub proof fn law_start_then_goto_plays_the_track(steps: Seq<LinkStep>, track: Track)
    requires
        track.bounds_wf(),
        link_run(link_of(EngineState::initial(), None), steps).accepted == seq![
            PlayerCommand::Start,
            PlayerCommand::Goto(track, true),
        ],
        link_run(link_of(EngineState::initial(), None), steps).slot is None,
    ensures
        ({
            let st = link_run(link_of(EngineState::initial(), None), steps);
            let started = apply_command(EngineState::initial(), PlayerCommand::Start);
            let gone = apply_command(started.next, PlayerCommand::Goto(track, true));
            let start = (track.start_addr * SECTOR_SIZE) as u64;
            let bytes = track.end_addr * SECTOR_SIZE - track.start_addr * SECTOR_SIZE;
            &&& st.applied == seq![PlayerCommand::Start, PlayerCommand::Goto(track, true)]
            &&& started.open_medium && started.next.cursor is Some
            &&& st.engine == gone.next
            &&& gone.seek_to == Some(start)
            &&& gone.events =~= seq![
                PlayerCallbackEvent::Paused(false),
                PlayerCallbackEvent::Progress(0, whole_seconds(bytes) as u32),
            ]
            &&& st.engine.cursor == Some(start)
            &&& !st.engine.paused
            &&& st.engine.song_seconds == whole_seconds(bytes)
            &&& st.engine.wf()
            &&& track.start_addr < track.end_addr ==> tick_plan(st.engine) == TickPlan::ReadSample
        }),
{
    law_burst_keeps_order(
        EngineState::initial(),
        steps,
        PlayerCommand::Start,
        PlayerCommand::Goto(track, true),
    );
    let started = apply_command(EngineState::initial(), PlayerCommand::Start);
    law_commands_keep_wf(EngineState::initial(), PlayerCommand::Start);
    law_commands_keep_wf(started.next, PlayerCommand::Goto(track, true));
    assert(track.start_addr * SECTOR_SIZE <= track.end_addr * SECTOR_SIZE) by (nonlinear_arith)
        requires
            track.start_addr <= track.end_addr,
    ;
    if track.start_addr < track.end_addr {
        assert(track.start_addr * SECTOR_SIZE < track.end_addr * SECTOR_SIZE)
            by (nonlinear_arith)
            requires
                track.start_addr < track.end_addr,
        ;
    }
}

} // verus!
