//! Whole operations of the supervisor, as the composition of their steps,
//! and what holds of them.
//!
//! A caller that follows each step's instruction, and hands each outcome to
//! the step that the instruction names, takes the supervisor from one state
//! to the next as the functions here say. What the system answers along the
//! way is gathered in a "world"; of a world only the answers to the
//! questions that are actually asked matter.

use vstd::prelude::*;
use crate::config::ConfigView;
use crate::error::SidecarErrorView;
use crate::gateway::{GatewayInfoView, GatewayStatusView, not_running, session_info};
use crate::token::{lemma_tokens_differ_in_our_time, token_text};
use crate::supervisor::{
    PollOutcome,
    SidecarStateView,
    StartStepView,
    StatusStepView,
    has_credential,
    reply_after_spawn,
    start_after_config,
    start_after_locate,
    start_after_poll,
    start_entry,
    state_after_kill,
    state_after_spawn,
    state_after_stop_entry,
    state_after_stop_poll,
    status_entry,
    stop_after_kill,
    stop_after_poll,
    stop_entry,
};

verus! {

/// What the system would answer during one start request.
pub struct StartWorld<H> {
    /// What a poll of the held child finds.
    pub poll: PollOutcome,
    /// The settings as read, or the sentence for why they cannot be read.
    pub loaded: Result<ConfigView, Seq<char>>,
    /// The token that the clock yields.
    pub token: Seq<char>,
    /// The path of the gateway executable, if the search finds one.
    pub program: Option<Seq<char>>,
    /// The child that a launch yields, or the system's refusal.
    pub spawned: Result<H, Seq<char>>,
}

/// How a start request ends.
pub struct StartOutcome<H> {
    /// The supervisor's state afterwards.
    pub state: SidecarStateView<H>,
    /// The answer to the caller.
    pub reply: Result<GatewayInfoView, SidecarErrorView>,
    /// How many processes were launched on the way.
    pub launches: nat,
}

/// The state in which a start request decides what to do: the state it
/// found, reconciled with a poll where a child was held.
pub open spec fn start_reconciled<H>(
    state: SidecarStateView<H>,
    world: StartWorld<H>,
) -> SidecarStateView<H> {
    if start_entry(state) is Poll {
        state.reconciled(world.poll)
    } else {
        state
    }
}

/// A start request from `state` in `world`, step by step.
pub open spec fn start_outcome<H>(state: SidecarStateView<H>, world: StartWorld<H>) -> StartOutcome<
    H,
> {
    let settled = start_reconciled(state, world);
    let polled = if start_entry(state) is Poll {
        start_after_poll(settled)
    } else {
        StartStepView::LoadConfig
    };
    if polled is Done {
        StartOutcome { state: settled, reply: polled->Done_0, launches: 0 }
    } else {
        match start_after_config(world.loaded, world.token) {
            StartStepView::Locate(pending) => match start_after_locate(pending, world.program) {
                StartStepView::Spawn(plan) => StartOutcome {
                    state: state_after_spawn(settled, plan.info, world.spawned),
                    reply: reply_after_spawn(plan.info, world.spawned),
                    launches: if world.spawned is Ok {
                        1
                    } else {
                        0
                    },
                },
                located => StartOutcome { state: settled, reply: located->Done_0, launches: 0 },
            },
            configured => StartOutcome { state: settled, reply: configured->Done_0, launches: 0 },
        }
    }
}

/// What the system would answer during one stop request.
pub struct StopWorld {
    /// What a poll of the held child finds.
    pub poll: PollOutcome,
    /// Whether the system terminates the child, or its refusal.
    pub killed: Result<(), Seq<char>>,
}

/// How a stop request ends.
pub struct StopOutcome<H> {
    /// The supervisor's state afterwards.
    pub state: SidecarStateView<H>,
    /// The answer to the caller.
    pub reply: Result<(), SidecarErrorView>,
    /// Whether the child was told to terminate.
    pub killed: bool,
    /// Whether the child's end was awaited.
    pub waited: bool,
}

/// A stop request from `state` in `world`, step by step.
pub open spec fn stop_outcome<H>(state: SidecarStateView<H>, world: StopWorld) -> StopOutcome<H> {
    let entry = stop_entry(state);
    let entered = state_after_stop_entry(state);
    let polled = stop_after_poll(entered.reconciled(world.poll));
    let settled = state_after_stop_poll(entered, world.poll);
    let killed = stop_after_kill(world.killed);
    let terminated = state_after_kill(settled, world.killed);
    if entry is Done {
        StopOutcome { state: entered, reply: entry->Done_0, killed: false, waited: false }
    } else if polled is Done {
        StopOutcome { state: settled, reply: polled->Done_0, killed: false, waited: false }
    } else if killed is Done {
        StopOutcome { state: terminated, reply: killed->Done_0, killed: true, waited: false }
    } else {
        StopOutcome {
            state: SidecarStateView::<H>::idle(),
            reply: Ok(()),
            killed: true,
            waited: true,
        }
    }
}

/// How a status query ends.
pub struct StatusOutcome<H> {
    /// The supervisor's state afterwards.
    pub state: SidecarStateView<H>,
    /// The answer to the caller.
    pub status: GatewayStatusView,
}

/// A status query from `state` where a poll would find `poll`, step by step.
pub open spec fn status_outcome<H>(state: SidecarStateView<H>, poll: PollOutcome) -> StatusOutcome<
    H,
> {
    let entry = status_entry(state);
    if entry is Done {
        StatusOutcome { state, status: entry->Done_0 }
    } else {
        StatusOutcome {
            state: state.reconciled(poll),
            status: state.reconciled(poll).snapshot(),
        }
    }
}

/// What a start request comes to, case by case. A live child answers the
/// request and nothing else happens. Otherwise the request fails, in this
/// order, on unreadable settings, on a missing credential, on a missing
/// executable and on a refused launch, each time without a child being
/// held afterwards; and where none of these stands in the way, exactly one
/// process is launched and held, reachable on the configured port with the
/// token that was issued.
pub proof fn lemma_start_outcome<H>(state: SidecarStateView<H>, world: StartWorld<H>)
    requires
        state.wf(),
    ensures
        ({
            let end = start_outcome(state, world);
            if state.child is Some && world.poll == PollOutcome::Alive {
                end == (StartOutcome { state, reply: Ok(state.info->Some_0), launches: 0 })
            } else {
                match world.loaded {
                    Err(text) => end == (StartOutcome {
                        state: SidecarStateView::<H>::idle(),
                        reply: Err(SidecarErrorView::ConfigUnreadable(text)),
                        launches: 0,
                    }),
                    Ok(config) => match (config.anthropic_api_key, world.program, world.spawned) {
                        (None, _, _) => end == (StartOutcome {
                            state: SidecarStateView::<H>::idle(),
                            reply: Err(SidecarErrorView::ConfigurationMissing),
                            launches: 0,
                        }),
                        (Some(_), None, _) => end == (StartOutcome {
                            state: SidecarStateView::<H>::idle(),
                            reply: Err(SidecarErrorView::ExecutableNotFound),
                            launches: 0,
                        }),
                        (Some(_), Some(_), Err(text)) => end == (StartOutcome {
                            state: SidecarStateView::<H>::idle(),
                            reply: Err(SidecarErrorView::SpawnFailure(text)),
                            launches: 0,
                        }),
                        (Some(_), Some(_), Ok(child)) => end == (StartOutcome {
                            state: SidecarStateView::running(
                                child,
                                session_info(config.gateway_port, world.token),
                            ),
                            reply: Ok(session_info(config.gateway_port, world.token)),
                            launches: 1,
                        }),
                    },
                }
            }
        }),
{
}

/// Starting twice in a row, with the process alive in between, gives the
/// same connection info both times; the second request changes nothing and
/// launches nothing, so that from an idle supervisor exactly one process
/// has been launched.
pub proof fn lemma_start_twice<H>(
    state: SidecarStateView<H>,
    first: StartWorld<H>,
    second: StartWorld<H>,
)
    requires
        state.wf(),
        start_outcome(state, first).reply is Ok,
        second.poll == PollOutcome::Alive,
    ensures
        start_outcome(start_outcome(state, first).state, second).reply == start_outcome(
            state,
            first,
        ).reply,
        start_outcome(start_outcome(state, first).state, second).state == start_outcome(
            state,
            first,
        ).state,
        start_outcome(start_outcome(state, first).state, second).launches == 0,
        state == SidecarStateView::<H>::idle() ==> start_outcome(state, first).launches == 1,
{
    lemma_start_outcome(state, first);
    lemma_start_outcome(start_outcome(state, first).state, second);
}

/// After a stop request the supervisor holds nothing, whatever it held
/// before and however the termination went; a status query then reports
/// that nothing runs, and asks the system nothing.
pub proof fn lemma_stop_clears<H>(state: SidecarStateView<H>, world: StopWorld, poll: PollOutcome)
    ensures
        stop_outcome(state, world).state == SidecarStateView::<H>::idle(),
        status_entry(stop_outcome(state, world).state) == StatusStepView::Done(not_running()),
        status_outcome(stop_outcome(state, world).state, poll) == (StatusOutcome {
            state: SidecarStateView::<H>::idle(),
            status: not_running(),
        }),
{
}

/// What a stop request comes to, case by case. Only a child that is held
/// and found alive is told to terminate, and only after it was terminated
/// is its end awaited. The request fails only where the system refuses
/// to terminate a live child, with that refusal as the reason.
pub proof fn lemma_stop_outcome<H>(state: SidecarStateView<H>, world: StopWorld)
    ensures
        ({
            let end = stop_outcome(state, world);
            let live = state.child is Some && world.poll == PollOutcome::Alive;
            &&& end.killed == live
            &&& end.waited == (live && world.killed is Ok)
            &&& end.reply == (if live && world.killed is Err {
                Err::<(), SidecarErrorView>(
                    SidecarErrorView::TerminationFailure(world.killed->Err_0),
                )
            } else {
                Ok(())
            })
        }),
{
}

/// A process that ended on its own is noticed by the next query: status
/// reports that nothing runs, and the supervisor holds nothing afterwards.
/// The same holds where the system cannot tell whether the process lives.
pub proof fn lemma_exit_is_noticed<H>(state: SidecarStateView<H>, poll: PollOutcome)
    requires
        state.child is Some,
        poll != PollOutcome::Alive,
    ensures
        status_outcome(state, poll) == (StatusOutcome {
            state: SidecarStateView::<H>::idle(),
            status: not_running(),
        }),
{
}

/// After a process ended on its own, a start request that meets no
/// obstacle launches a new process and answers with the token issued for
/// it: where that token differs from the one of the process that ended, so
/// does the answer from the info held before.
pub proof fn lemma_restart_after_exit<H>(state: SidecarStateView<H>, world: StartWorld<H>)
    requires
        state.wf(),
        state.child is Some,
        world.poll != PollOutcome::Alive,
        has_credential(world.loaded),
        world.program is Some,
        world.spawned is Ok,
    ensures
        start_outcome(state, world).launches == 1,
        start_outcome(state, world).reply is Ok,
        start_outcome(state, world).reply->Ok_0.token == world.token,
        start_outcome(state, world).state == SidecarStateView::running(
            world.spawned->Ok_0,
            start_outcome(state, world).reply->Ok_0,
        ),
        world.token != state.info->Some_0.token ==> start_outcome(state, world).reply->Ok_0
            != state.info->Some_0,
{
    lemma_start_outcome(state, world);
}

/// Without a credential in the settings a start request from a supervisor
/// that holds no live process fails for that reason, launches nothing and
/// leaves the supervisor idle; status then reports that nothing runs.
pub proof fn lemma_start_without_credential<H>(
    state: SidecarStateView<H>,
    world: StartWorld<H>,
    poll: PollOutcome,
)
    requires
        state.wf(),
        !(state.child is Some && world.poll == PollOutcome::Alive),
        world.loaded is Ok,
        world.loaded->Ok_0.anthropic_api_key is None,
    ensures
        start_outcome(state, world) == (StartOutcome {
            state: SidecarStateView::<H>::idle(),
            reply: Err(SidecarErrorView::ConfigurationMissing),
            launches: 0,
        }),
        status_outcome(start_outcome(state, world).state, poll).status == not_running(),
{
    lemma_start_outcome(state, world);
}

/// With a credential but without an executable a start request from a
/// supervisor that holds no live process fails for that reason, launches
/// nothing and leaves the supervisor idle.
pub proof fn lemma_start_without_executable<H>(state: SidecarStateView<H>, world: StartWorld<H>)
    requires
        state.wf(),
        !(state.child is Some && world.poll == PollOutcome::Alive),
        has_credential(world.loaded),
        world.program is None,
    ensures
        start_outcome(state, world) == (StartOutcome {
            state: SidecarStateView::<H>::idle(),
            reply: Err(SidecarErrorView::ExecutableNotFound),
            launches: 0,
        }),
{
    lemma_start_outcome(state, world);
}

/// A refused launch leaves the supervisor idle, so that the caller may
/// simply ask again.
pub proof fn lemma_start_refused<H>(state: SidecarStateView<H>, world: StartWorld<H>)
    requires
        state.wf(),
        start_outcome(state, world).reply is Err,
    ensures
        start_outcome(state, world).state == SidecarStateView::<H>::idle(),
{
    lemma_start_outcome(state, world);
}

/// The child's handle and the connection info are held together or not at
/// all: every step of every operation keeps it so, hence every operation
/// as a whole, and a status answer never shows one without the other.
pub proof fn lemma_pair_is_kept<H>(
    state: SidecarStateView<H>,
    poll: PollOutcome,
    info: GatewayInfoView,
    spawned: Result<H, Seq<char>>,
    start: StartWorld<H>,
    stop: StopWorld,
)
    requires
        state.wf(),
    ensures
        SidecarStateView::<H>::idle().wf(),
        state.reconciled(poll).wf(),
        state_after_spawn(state, info, spawned).wf(),
        start_outcome(state, start).state.wf(),
        stop_outcome(state, stop).state.wf(),
        status_outcome(state, poll).state.wf(),
        status_outcome(state, poll).status.running <==> status_outcome(
            state,
            poll,
        ).status.info is Some,
        state.snapshot().running <==> state.snapshot().info is Some,
{
    lemma_start_outcome(state, start);
}

/// Start, stop, start again: each start that meets no obstacle launches a
/// process of its own and answers with the token issued for it, so that
/// the two answers differ wherever the two tokens do.
pub proof fn lemma_start_stop_start<H>(first: StartWorld<H>, stop: StopWorld, second: StartWorld<H>)
    requires
        start_outcome(SidecarStateView::<H>::idle(), first).reply is Ok,
        start_outcome(SidecarStateView::<H>::idle(), second).reply is Ok,
    ensures
        ({
            let started = start_outcome(SidecarStateView::<H>::idle(), first);
            let stopped = stop_outcome(started.state, stop);
            let restarted = start_outcome(stopped.state, second);
            &&& started.launches == 1
            &&& started.reply->Ok_0.token == first.token
            &&& restarted.launches == 1
            &&& restarted.reply is Ok
            &&& restarted.reply->Ok_0.token == second.token
            &&& first.token != second.token ==> started.reply != restarted.reply
        }),
{
    let idle = SidecarStateView::<H>::idle();
    lemma_start_outcome(idle, first);
    lemma_start_outcome(idle, second);
}

/// Start, stop, start again, with the two tokens issued from two different
/// readings of the clock between the years 1978 and 2106: the two answers
/// carry different tokens.
pub proof fn lemma_restart_changes_token<H>(
    first: StartWorld<H>,
    stop: StopWorld,
    second: StartWorld<H>,
    first_reading: (u64, u32),
    second_reading: (u64, u32),
)
    requires
        start_outcome(SidecarStateView::<H>::idle(), first).reply is Ok,
        start_outcome(SidecarStateView::<H>::idle(), second).reply is Ok,
        first.token == token_text(first_reading.0 as nat, first_reading.1 as nat),
        second.token == token_text(second_reading.0 as nat, second_reading.1 as nat),
        0x1000_0000 <= first_reading.0 <= 0xffff_ffff,
        0x1000_0000 <= second_reading.0 <= 0xffff_ffff,
        first_reading != second_reading,
    ensures
        ({
            let started = start_outcome(SidecarStateView::<H>::idle(), first);
            let stopped = stop_outcome(started.state, stop);
            let restarted = start_outcome(stopped.state, second);
            &&& restarted.reply is Ok
            &&& started.reply->Ok_0.token != restarted.reply->Ok_0.token
        }),
{
    lemma_start_stop_start(first, stop, second);
    lemma_tokens_differ_in_our_time(
        first_reading.0,
        first_reading.1,
        second_reading.0,
        second_reading.1,
    );
}

} // verus!
