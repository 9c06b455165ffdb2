//! The supervisor of the gateway process.
//!
//! The supervisor owns the handle of at most one child process together with
//! the connection info of that process. It never touches the system itself:
//! each operation is a short sequence of steps, and between two steps the
//! caller does what the last step asked for (poll the child, read the
//! settings, look for the executable, launch, terminate) and hands the
//! outcome to the next step. The caller keeps the supervisor to itself for
//! the whole of one operation, so operations never interleave.

use vstd::prelude::*;
use vstd::string::*;
use crate::config::{Config, ConfigError, ConfigView, loaded_view};
use crate::error::{SidecarError, SidecarErrorView};
use crate::gateway::{
    GatewayInfo,
    GatewayInfoView,
    GatewayStatus,
    GatewayStatusView,
    info_view,
    session_info,
};
use crate::launch::{LaunchSpec, LaunchSpecView, gateway_launch};
use crate::text::text_view;
use crate::token::{generate_token, is_session_token, token_text};

verus! {

/// What a non-blocking poll of the child process found.
#[derive(Debug, PartialEq, Eq, Clone, Copy)]
pub enum PollOutcome {
    /// The process has terminated.
    Exited,
    /// The process is still running.
    Alive,
    /// The system could not tell.
    Failed,
}

/// The supervisor's record of the gateway process: the handle of the child,
/// of whatever type the caller's platform uses for one, and the connection
/// info issued when that child was launched.
#[derive(Debug)]
pub struct SidecarState<H> {
    pub child: Option<H>,
    pub info: Option<GatewayInfo>,
}

/// What a `SidecarState` holds, as plain values.
pub struct SidecarStateView<H> {
    pub child: Option<H>,
    pub info: Option<GatewayInfoView>,
}

impl<H> View for SidecarState<H> {
    type V = SidecarStateView<H>;

    open spec fn view(&self) -> SidecarStateView<H> {
        SidecarStateView { child: self.child, info: info_view(self.info) }
    }
}

impl<H> SidecarStateView<H> {
    /// The handle and the info come and go together.
    pub open spec fn wf(self) -> bool {
        self.child is Some <==> self.info is Some
    }

    /// No process is held.
    pub open spec fn idle() -> Self {
        SidecarStateView { child: None, info: None }
    }

    /// The process `child` is held and reachable as `info` says.
    pub open spec fn running(child: H, info: GatewayInfoView) -> Self {
        SidecarStateView { child: Some(child), info: Some(info) }
    }

    /// The state after a poll of the held child found `outcome`: a child
    /// that is gone, or of which the system cannot tell, is forgotten
    /// together with its info; a live one stays. Without a child there is
    /// nothing to poll and nothing changes.
    pub open spec fn reconciled(self, outcome: PollOutcome) -> Self {
        if self.child is Some && outcome != PollOutcome::Alive {
            Self::idle()
        } else {
            self
        }
    }

    /// What a status query reports of this state.
    pub open spec fn snapshot(self) -> GatewayStatusView {
        GatewayStatusView { running: self.child is Some, info: self.info }
    }
}

impl<H> SidecarState<H> {
    /// Whether the handle and the info are both present or both absent.
    pub open spec fn wf(&self) -> bool {
        self@.wf()
    }

    /// Forgets the child and its info.
    pub fn clear(&mut self)
        ensures
            final(self)@ == SidecarStateView::<H>::idle(),
            final(self).wf(),
    {
        self.child = None;
        self.info = None;
    }

    /// Applies the outcome of a poll of the held child.
    pub fn reconcile(&mut self, outcome: PollOutcome)
        ensures
            final(self)@ == old(self)@.reconciled(outcome),
            old(self).wf() ==> final(self).wf(),
    {
        if self.child.is_some() {
            match outcome {
                PollOutcome::Alive => {},
                PollOutcome::Exited | PollOutcome::Failed => {
                    self.clear();
                },
            }
        }
    }
}

impl<H> Default for SidecarState<H> {
    fn default() -> (state: Self)
        ensures
            state@ == SidecarStateView::<H>::idle(),
            state.wf(),
    {
        SidecarState { child: None, info: None }
    }
}

/// What has been settled of a launch once the settings are read: the
/// credential, the port and the token of the session to come.
#[derive(Debug, PartialEq, Eq)]
pub struct PendingLaunch {
    pub api_key: String,
    pub port: u16,
    pub token: String,
}

/// What a `PendingLaunch` holds, as plain values.
pub struct PendingLaunchView {
    pub api_key: Seq<char>,
    pub port: u16,
    pub token: Seq<char>,
}

impl View for PendingLaunch {
    type V = PendingLaunchView;

    open spec fn view(&self) -> PendingLaunchView {
        PendingLaunchView { api_key: self.api_key@, port: self.port, token: self.token@ }
    }
}

/// A launch that is ready to be carried out, and the connection info that
/// holds of the process if the launch succeeds.
#[derive(Debug, PartialEq, Eq)]
pub struct LaunchPlan {
    pub command: LaunchSpec,
    pub info: GatewayInfo,
}

/// What a `LaunchPlan` holds, as plain values.
pub struct LaunchPlanView {
    pub command: LaunchSpecView,
    pub info: GatewayInfoView,
}

impl View for LaunchPlan {
    type V = LaunchPlanView;

    open spec fn view(&self) -> LaunchPlanView {
        LaunchPlanView { command: self.command@, info: self.info@ }
    }
}

/// What the caller does next while starting the gateway.
#[derive(Debug, PartialEq, Eq)]
pub enum StartStep {
    /// Poll the held child without blocking; continue with `start_polled`.
    Poll,
    /// Read the settings; continue with `start_configured`.
    LoadConfig,
    /// Look for the gateway executable; continue with `start_located`.
    Locate(PendingLaunch),
    /// Launch the process as planned; continue with `start_spawned`.
    Spawn(LaunchPlan),
    /// The operation is over with this answer.
    Done(Result<GatewayInfo, SidecarError>),
}

/// What a `StartStep` holds, as plain values.
pub enum StartStepView {
    Poll,
    LoadConfig,
    Locate(PendingLaunchView),
    Spawn(LaunchPlanView),
    Done(Result<GatewayInfoView, SidecarErrorView>),
}

/// The view of the answer to a start request.
pub open spec fn start_reply_view(reply: Result<GatewayInfo, SidecarError>) -> Result<
    GatewayInfoView,
    SidecarErrorView,
> {
    match reply {
        Ok(info) => Ok(info@),
        Err(error) => Err(error@),
    }
}

impl View for StartStep {
    type V = StartStepView;

    open spec fn view(&self) -> StartStepView {
        match self {
            StartStep::Poll => StartStepView::Poll,
            StartStep::LoadConfig => StartStepView::LoadConfig,
            StartStep::Locate(pending) => StartStepView::Locate(pending@),
            StartStep::Spawn(plan) => StartStepView::Spawn(plan@),
            StartStep::Done(reply) => StartStepView::Done(start_reply_view(*reply)),
        }
    }
}

/// What the caller does next while stopping the gateway.
#[derive(Debug, PartialEq, Eq)]
pub enum StopStep {
    /// Poll the held child without blocking; continue with `stop_polled`.
    Poll,
    /// Terminate the held child by force; continue with `stop_killed`.
    Kill,
    /// Wait until the held child is gone; continue with `stop_waited`.
    Wait,
    /// The operation is over with this answer.
    Done(Result<(), SidecarError>),
}

/// What a `StopStep` holds, as plain values.
pub enum StopStepView {
    Poll,
    Kill,
    Wait,
    Done(Result<(), SidecarErrorView>),
}

/// The view of the answer to a stop request.
pub open spec fn stop_reply_view(reply: Result<(), SidecarError>) -> Result<
    (),
    SidecarErrorView,
> {
    match reply {
        Ok(done) => Ok(done),
        Err(error) => Err(error@),
    }
}

impl View for StopStep {
    type V = StopStepView;

    open spec fn view(&self) -> StopStepView {
        match self {
            StopStep::Poll => StopStepView::Poll,
            StopStep::Kill => StopStepView::Kill,
            StopStep::Wait => StopStepView::Wait,
            StopStep::Done(reply) => StopStepView::Done(stop_reply_view(*reply)),
        }
    }
}

/// What the caller does next while answering a status query.
#[derive(Debug, PartialEq, Eq)]
pub enum StatusStep {
    /// Poll the held child without blocking; continue with `status_polled`.
    Poll,
    /// The query is answered.
    Done(GatewayStatus),
}

/// What a `StatusStep` holds, as plain values.
pub enum StatusStepView {
    Poll,
    Done(GatewayStatusView),
}

impl View for StatusStep {
    type V = StatusStepView;

    open spec fn view(&self) -> StatusStepView {
        match self {
            StatusStep::Poll => StatusStepView::Poll,
            StatusStep::Done(status) => StatusStepView::Done(status@),
        }
    }
}

/// How a start request begins: a held child is polled first; without one
/// the settings are read.
pub open spec fn start_entry<H>(state: SidecarStateView<H>) -> StartStepView {
    if state.child is Some {
        StartStepView::Poll
    } else {
        StartStepView::LoadConfig
    }
}

/// How a start request goes on from the reconciled state: a child that is
/// still held answers the request with its info as it stands; otherwise the
/// settings are read.
pub open spec fn start_after_poll<H>(state: SidecarStateView<H>) -> StartStepView {
    if state.child is Some && state.info is Some {
        StartStepView::Done(Ok(state.info->Some_0))
    } else {
        StartStepView::LoadConfig
    }
}

/// How a start request goes on once the settings are read and `token` is
/// issued: unreadable settings and a missing credential end it; otherwise
/// the executable is looked for.
pub open spec fn start_after_config(
    loaded: Result<ConfigView, Seq<char>>,
    token: Seq<char>,
) -> StartStepView {
    match loaded {
        Err(text) => StartStepView::Done(Err(SidecarErrorView::ConfigUnreadable(text))),
        Ok(config) => match config.anthropic_api_key {
            None => StartStepView::Done(Err(SidecarErrorView::ConfigurationMissing)),
            Some(api_key) => StartStepView::Locate(
                PendingLaunchView { api_key, port: config.gateway_port, token },
            ),
        },
    }
}

/// Whether a start request that has read `loaded` goes on to a launch.
pub open spec fn has_credential(loaded: Result<ConfigView, Seq<char>>) -> bool {
    loaded matches Ok(config) && config.anthropic_api_key is Some
}

/// How a start request goes on once the executable has been looked for:
/// without one it ends; with one the launch is planned.
pub open spec fn start_after_locate(
    pending: PendingLaunchView,
    program: Option<Seq<char>>,
) -> StartStepView {
    match program {
        None => StartStepView::Done(Err(SidecarErrorView::ExecutableNotFound)),
        Some(path) => StartStepView::Spawn(
            LaunchPlanView {
                command: gateway_launch(path, pending.port, pending.api_key, pending.token),
                info: session_info(pending.port, pending.token),
            },
        ),
    }
}

/// The state after a launch attempt: a launched child is held together with
/// the planned info; a refused launch changes nothing.
pub open spec fn state_after_spawn<H>(
    state: SidecarStateView<H>,
    info: GatewayInfoView,
    spawned: Result<H, Seq<char>>,
) -> SidecarStateView<H> {
    match spawned {
        Ok(child) => SidecarStateView::running(child, info),
        Err(_) => state,
    }
}

/// The answer to a start request after a launch attempt.
pub open spec fn reply_after_spawn<H>(
    info: GatewayInfoView,
    spawned: Result<H, Seq<char>>,
) -> Result<GatewayInfoView, SidecarErrorView> {
    match spawned {
        Ok(_) => Ok(info),
        Err(text) => Err(SidecarErrorView::SpawnFailure(text)),
    }
}

/// The view of a launch attempt's outcome.
pub open spec fn spawned_view<H>(spawned: Result<H, String>) -> Result<H, Seq<char>> {
    match spawned {
        Ok(child) => Ok(child),
        Err(text) => Err(text@),
    }
}

/// How a stop request begins: a held child is polled first; without one the
/// request is answered at once.
pub open spec fn stop_entry<H>(state: SidecarStateView<H>) -> StopStepView {
    if state.child is Some {
        StopStepView::Poll
    } else {
        StopStepView::Done(Ok(()))
    }
}

/// The state after the first step of a stop request: without a child the
/// state is cleared at once; a held child stays until it has been dealt
/// with.
pub open spec fn state_after_stop_entry<H>(state: SidecarStateView<H>) -> SidecarStateView<H> {
    if state.child is Some {
        state
    } else {
        SidecarStateView::idle()
    }
}

/// How a stop request goes on from the reconciled state: a child that is
/// still held is terminated; otherwise the request is answered.
pub open spec fn stop_after_poll<H>(state: SidecarStateView<H>) -> StopStepView {
    if state.child is Some {
        StopStepView::Kill
    } else {
        StopStepView::Done(Ok(()))
    }
}

/// The state of a stop request after the poll found `outcome`: a child that
/// is still held stays until it has been terminated; otherwise the state is
/// cleared.
pub open spec fn state_after_stop_poll<H>(
    state: SidecarStateView<H>,
    outcome: PollOutcome,
) -> SidecarStateView<H> {
    if state.reconciled(outcome).child is Some {
        state
    } else {
        SidecarStateView::idle()
    }
}

/// How a stop request goes on after the attempt to terminate the child: a
/// refusal ends it with that error; otherwise the child's end is awaited.
pub open spec fn stop_after_kill(killed: Result<(), Seq<char>>) -> StopStepView {
    match killed {
        Ok(_) => StopStepView::Wait,
        Err(text) => StopStepView::Done(Err(SidecarErrorView::TerminationFailure(text))),
    }
}

/// The state of a stop request after the attempt to terminate the child:
/// a terminated child stays until its end has been awaited; after a refusal
/// the state is cleared.
pub open spec fn state_after_kill<H>(
    state: SidecarStateView<H>,
    killed: Result<(), Seq<char>>,
) -> SidecarStateView<H> {
    if killed is Ok {
        state
    } else {
        SidecarStateView::idle()
    }
}

/// The view of a termination attempt's outcome.
pub open spec fn killed_view(killed: Result<(), String>) -> Result<(), Seq<char>> {
    match killed {
        Ok(done) => Ok(done),
        Err(text) => Err(text@),
    }
}

/// How a status query begins: a held child is polled first; without one the
/// query is answered from the state as it stands.
pub open spec fn status_entry<H>(state: SidecarStateView<H>) -> StatusStepView {
    if state.child is Some {
        StatusStepView::Poll
    } else {
        StatusStepView::Done(state.snapshot())
    }
}

/// The supervisor: the one owner of the gateway process's handle.
#[derive(Debug)]
pub struct SidecarManager<H> {
    pub state: SidecarState<H>,
}

impl<H> View for SidecarManager<H> {
    type V = SidecarStateView<H>;

    open spec fn view(&self) -> SidecarStateView<H> {
        self.state@
    }
}

impl<H> Default for SidecarManager<H> {
    fn default() -> (manager: Self)
        ensures
            manager@ == SidecarStateView::<H>::idle(),
            manager.state.wf(),
    {
        SidecarManager { state: SidecarState::default() }
    }
}

impl<H> SidecarManager<H> {
    /// Begins a start request.
    pub fn start(&self) -> (step: StartStep)
        ensures
            step@ == start_entry(self@),
    {
        if self.state.child.is_some() {
            StartStep::Poll
        } else {
            StartStep::LoadConfig
        }
    }

    /// Continues a start request with the outcome of the poll. A child that
    /// is still alive makes the request a no-op that answers with the info
    /// already held.
    pub fn start_polled(&mut self, outcome: PollOutcome) -> (step: StartStep)
        ensures
            final(self)@ == old(self)@.reconciled(outcome),
            step@ == start_after_poll(final(self)@),
            old(self).state.wf() ==> final(self).state.wf(),
    {
        self.state.reconcile(outcome);
        if self.state.child.is_some() {
            match &self.state.info {
                Some(info) => StartStep::Done(Ok(info.clone())),
                None => StartStep::LoadConfig,
            }
        } else {
            StartStep::LoadConfig
        }
    }

    /// Continues a start request with the settings as read and the token
    /// issued for the session.
    pub fn start_with_token(loaded: Result<Config, ConfigError>, token: String) -> (step:
        StartStep)
        ensures
            step@ == start_after_config(loaded_view(loaded), token@),
    {
        match loaded {
            Err(error) => StartStep::Done(Err(SidecarError::ConfigUnreadable(error.message()))),
            Ok(config) => match config.anthropic_api_key {
                None => StartStep::Done(Err(SidecarError::ConfigurationMissing)),
                Some(api_key) => StartStep::Locate(
                    PendingLaunch { api_key, port: config.gateway_port, token },
                ),
            },
        }
    }

    /// Continues a start request with the settings as read. Where they hold
    /// a credential, a token is issued from the clock for the session.
    pub fn start_configured(loaded: Result<Config, ConfigError>) -> (step: StartStep)
        ensures
            exists|token: Seq<char>|
                is_session_token(token) && step@ == #[trigger] start_after_config(
                    loaded_view(loaded),
                    token,
                ),
    {
        let launches = match &loaded {
            Ok(config) => config.anthropic_api_key.is_some(),
            Err(_) => false,
        };
        if launches {
            let token = generate_token();
            let ghost issued = token@;
            let step = Self::start_with_token(loaded, token);
            assert(step@ == start_after_config(loaded_view(loaded), issued));
            step
        } else {
            let step = Self::start_with_token(loaded, String::new());
            proof {
                let issued = token_text(0, 0);
                assert(issued == token_text(0u64 as nat, 0u32 as nat));
                assert(is_session_token(issued));
                assert(step@ == start_after_config(loaded_view(loaded), issued));
            }
            step
        }
    }

    /// Continues a start request with the path of the gateway executable,
    /// if one was found.
    pub fn start_located(pending: PendingLaunch, program: Option<String>) -> (step: StartStep)
        ensures
            step@ == start_after_locate(pending@, text_view(program)),
    {
        match program {
            None => StartStep::Done(Err(SidecarError::ExecutableNotFound)),
            Some(path) => {
                let info = GatewayInfo::for_session(pending.port, pending.token.clone());
                let command = LaunchSpec::gateway(
                    path,
                    pending.port,
                    pending.api_key,
                    pending.token,
                );
                StartStep::Spawn(LaunchPlan { command, info })
            },
        }
    }

    /// Ends a start request with the outcome of the launch. A launched
    /// child is taken into the state together with `info`, and `info` is
    /// the answer; a refused launch leaves the state as it was.
    pub fn start_spawned(&mut self, info: GatewayInfo, spawned: Result<H, String>) -> (reply:
        Result<GatewayInfo, SidecarError>)
        ensures
            final(self)@ == state_after_spawn(old(self)@, info@, spawned_view(spawned)),
            start_reply_view(reply) == reply_after_spawn(info@, spawned_view(spawned)),
            old(self).state.wf() ==> final(self).state.wf(),
    {
        match spawned {
            Ok(child) => {
                let reply = info.clone();
                self.state.child = Some(child);
                self.state.info = Some(info);
                Ok(reply)
            },
            Err(text) => Err(SidecarError::SpawnFailure(text)),
        }
    }

    /// Begins a stop request. Without a child the state is cleared and the
    /// request is answered.
    pub fn stop(&mut self) -> (step: StopStep)
        ensures
            step@ == stop_entry(old(self)@),
            final(self)@ == state_after_stop_entry(old(self)@),
            old(self).state.wf() ==> final(self).state.wf(),
    {
        if self.state.child.is_some() {
            StopStep::Poll
        } else {
            self.state.clear();
            StopStep::Done(Ok(()))
        }
    }

    /// Continues a stop request with the outcome of the poll. A child that
    /// is already gone leaves nothing to terminate: the state is cleared
    /// and the request is answered.
    pub fn stop_polled(&mut self, outcome: PollOutcome) -> (step: StopStep)
        ensures
            step@ == stop_after_poll(old(self)@.reconciled(outcome)),
            final(self)@ == state_after_stop_poll(old(self)@, outcome),
            old(self).state.wf() ==> final(self).state.wf(),
    {
        self.state.reconcile(outcome);
        if self.state.child.is_some() {
            StopStep::Kill
        } else {
            self.state.clear();
            StopStep::Done(Ok(()))
        }
    }

    /// Continues a stop request with the outcome of the termination. A
    /// refusal is reported, and the state is cleared all the same.
    pub fn stop_killed(&mut self, killed: Result<(), String>) -> (step: StopStep)
        ensures
            step@ == stop_after_kill(killed_view(killed)),
            final(self)@ == state_after_kill(old(self)@, killed_view(killed)),
            old(self).state.wf() ==> final(self).state.wf(),
    {
        match killed {
            Ok(_) => StopStep::Wait,
            Err(text) => {
                self.state.clear();
                StopStep::Done(Err(SidecarError::TerminationFailure(text)))
            },
        }
    }

    /// Ends a stop request once the child is gone: the state is cleared.
    pub fn stop_waited(&mut self) -> (reply: Result<(), SidecarError>)
        ensures
            reply is Ok,
            final(self)@ == SidecarStateView::<H>::idle(),
    {
        self.state.clear();
        Ok(())
    }

    /// Begins a status query.
    pub fn status(&self) -> (step: StatusStep)
        ensures
            step@ == status_entry(self@),
    {
        if self.state.child.is_some() {
            StatusStep::Poll
        } else {
            let info = match &self.state.info {
                Some(info) => Some(info.clone()),
                None => None,
            };
            StatusStep::Done(GatewayStatus { running: false, info })
        }
    }

    /// Answers a status query with the outcome of the poll.
    pub fn status_polled(&mut self, outcome: PollOutcome) -> (status: GatewayStatus)
        ensures
            final(self)@ == old(self)@.reconciled(outcome),
            status@ == final(self)@.snapshot(),
            old(self).state.wf() ==> final(self).state.wf(),
    {
        self.state.reconcile(outcome);
        let info = match &self.state.info {
            Some(info) => Some(info.clone()),
            None => None,
        };
        GatewayStatus { running: self.state.child.is_some(), info }
    }
}

} // verus!
