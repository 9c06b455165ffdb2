use simplestclaw::config::{Config, ConfigError};
use simplestclaw::error::SidecarError;
use simplestclaw::gateway::{GatewayInfo, GatewayStatus};
use simplestclaw::launch::LaunchSpec;
use simplestclaw::supervisor::{
    LaunchPlan, PendingLaunch, PollOutcome, SidecarManager, SidecarState, StartStep, StatusStep,
    StopStep,
};

/// What the system answers while the supervisor is driven. Children are
/// numbered in the order of their launch.
struct System {
    poll: PollOutcome,
    loaded: Result<Config, ConfigError>,
    token: String,
    program: Option<String>,
    spawn_error: Option<String>,
    kill_error: Option<String>,
    launched: u32,
    polls: u32,
    kills: u32,
    waits: u32,
    commands: Vec<LaunchSpec>,
}

fn config(key: Option<&str>, port: u16) -> Config {
    Config {
        anthropic_api_key: key.map(|k| k.to_string()),
        gateway_port: port,
        auto_start_gateway: true,
    }
}

fn healthy() -> System {
    System {
        poll: PollOutcome::Alive,
        loaded: Ok(config(Some("sk-ant-1"), 18789)),
        token: "sclw-aa01".to_string(),
        program: Some("/usr/local/bin/openclaw".to_string()),
        spawn_error: None,
        kill_error: None,
        launched: 0,
        polls: 0,
        kills: 0,
        waits: 0,
        commands: Vec::new(),
    }
}

fn paired(manager: &SidecarManager<u32>) -> bool {
    manager.state.child.is_some() == manager.state.info.is_some()
}

fn start(manager: &mut SidecarManager<u32>, system: &mut System) -> Result<GatewayInfo, SidecarError> {
    let mut step = manager.start();
    loop {
        assert!(paired(manager));
        step = match step {
            StartStep::Poll => {
                assert!(manager.state.child.is_some());
                system.polls += 1;
                manager.start_polled(system.poll)
            }
            StartStep::LoadConfig => {
                SidecarManager::<u32>::start_with_token(system.loaded.clone_result(), system.token.clone())
            }
            StartStep::Locate(pending) => {
                SidecarManager::<u32>::start_located(pending, system.program.clone())
            }
            StartStep::Spawn(plan) => {
                system.commands.push(plan.command);
                let spawned = match &system.spawn_error {
                    Some(text) => Err(text.clone()),
                    None => {
                        system.launched += 1;
                        Ok(system.launched)
                    }
                };
                let reply = manager.start_spawned(plan.info, spawned);
                assert!(paired(manager));
                return reply;
            }
            StartStep::Done(reply) => return reply,
        }
    }
}

fn stop(manager: &mut SidecarManager<u32>, system: &mut System) -> Result<(), SidecarError> {
    let mut step = manager.stop();
    loop {
        assert!(paired(manager));
        step = match step {
            StopStep::Poll => {
                system.polls += 1;
                manager.stop_polled(system.poll)
            }
            StopStep::Kill => {
                assert!(manager.state.child.is_some());
                system.kills += 1;
                manager.stop_killed(match &system.kill_error {
                    Some(text) => Err(text.clone()),
                    None => Ok(()),
                })
            }
            StopStep::Wait => {
                assert!(manager.state.child.is_some());
                system.waits += 1;
                let reply = manager.stop_waited();
                assert!(paired(manager));
                return reply;
            }
            StopStep::Done(reply) => return reply,
        }
    }
}

fn status(manager: &mut SidecarManager<u32>, system: &mut System) -> GatewayStatus {
    let answer = match manager.status() {
        StatusStep::Poll => {
            system.polls += 1;
            manager.status_polled(system.poll)
        }
        StatusStep::Done(answer) => answer,
    };
    assert!(paired(manager));
    assert_eq!(answer.running, answer.info.is_some());
    answer
}

trait CloneResult {
    fn clone_result(&self) -> Self;
}

impl CloneResult for Result<Config, ConfigError> {
    fn clone_result(&self) -> Self {
        match self {
            Ok(config) => Ok(config.clone()),
            Err(ConfigError::NoConfigDir) => Err(ConfigError::NoConfigDir),
            Err(ConfigError::Io(text)) => Err(ConfigError::Io(text.clone())),
            Err(ConfigError::Json(text)) => Err(ConfigError::Json(text.clone())),
        }
    }
}

fn not_running() -> GatewayStatus {
    GatewayStatus { running: false, info: None }
}

#[test]
fn a_new_supervisor_is_idle() {
    let manager: SidecarManager<u32> = SidecarManager::default();
    assert!(manager.state.child.is_none());
    assert!(manager.state.info.is_none());
    let state: SidecarState<u32> = SidecarState::default();
    assert!(state.child.is_none());
    assert!(state.info.is_none());
}

#[test]
fn start_from_idle_launches_the_gateway_and_reports_how_to_reach_it() {
    let mut manager: SidecarManager<u32> = SidecarManager::default();
    let mut system = healthy();
    let info = start(&mut manager, &mut system).unwrap();
    assert_eq!(
        info,
        GatewayInfo {
            url: "ws://localhost:18789".to_string(),
            port: 18789,
            token: "sclw-aa01".to_string(),
        }
    );
    assert_eq!(system.launched, 1);
    assert_eq!(system.polls, 0);
    assert_eq!(manager.state.child, Some(1));
    assert_eq!(manager.state.info, Some(info));
    assert_eq!(
        system.commands,
        vec![LaunchSpec::gateway(
            "/usr/local/bin/openclaw".to_string(),
            18789,
            "sk-ant-1".to_string(),
            "sclw-aa01".to_string(),
        )]
    );
}

#[test]
fn the_address_follows_the_configured_port() {
    let mut manager: SidecarManager<u32> = SidecarManager::default();
    let mut system = healthy();
    system.loaded = Ok(config(Some("k"), 8080));
    let info = start(&mut manager, &mut system).unwrap();
    assert_eq!(info.url, "ws://localhost:8080");
    assert_eq!(info.port, 8080);
    assert_eq!(GatewayInfo::for_session(0, String::new()).url, "ws://localhost:0");
    assert_eq!(GatewayInfo::for_session(65535, String::new()).url, "ws://localhost:65535");
}

#[test]
fn start_twice_gives_the_same_info_and_one_process() {
    let mut manager: SidecarManager<u32> = SidecarManager::default();
    let mut system = healthy();
    let first = start(&mut manager, &mut system).unwrap();
    system.token = "sclw-bb02".to_string();
    system.loaded = Ok(config(Some("other"), 9999));
    let second = start(&mut manager, &mut system).unwrap();
    assert_eq!(first, second);
    assert_eq!(system.launched, 1);
    assert_eq!(system.commands.len(), 1);
    assert_eq!(manager.state.child, Some(1));
}

#[test]
fn stop_clears_a_running_supervisor() {
    let mut manager: SidecarManager<u32> = SidecarManager::default();
    let mut system = healthy();
    start(&mut manager, &mut system).unwrap();
    assert_eq!(stop(&mut manager, &mut system), Ok(()));
    assert_eq!(system.kills, 1);
    assert_eq!(system.waits, 1);
    assert_eq!(manager.state.child, None);
    assert_eq!(manager.state.info, None);
    assert_eq!(status(&mut manager, &mut system), not_running());
}

#[test]
fn stop_of_an_idle_supervisor_succeeds_and_asks_nothing() {
    let mut manager: SidecarManager<u32> = SidecarManager::default();
    let mut system = healthy();
    assert_eq!(manager.stop(), StopStep::Done(Ok(())));
    assert_eq!(stop(&mut manager, &mut system), Ok(()));
    assert_eq!(system.polls, 0);
    assert_eq!(system.kills, 0);
    assert_eq!(system.waits, 0);
    assert_eq!(status(&mut manager, &mut system), not_running());
}

#[test]
fn stop_of_a_process_that_is_gone_terminates_nothing() {
    let mut manager: SidecarManager<u32> = SidecarManager::default();
    let mut system = healthy();
    start(&mut manager, &mut system).unwrap();
    system.poll = PollOutcome::Exited;
    assert_eq!(stop(&mut manager, &mut system), Ok(()));
    assert_eq!(system.kills, 0);
    assert_eq!(system.waits, 0);
    assert_eq!(manager.state.child, None);
    assert_eq!(status(&mut manager, &mut system), not_running());
}

#[test]
fn a_refused_termination_is_reported_and_the_state_is_cleared_all_the_same() {
    let mut manager: SidecarManager<u32> = SidecarManager::default();
    let mut system = healthy();
    start(&mut manager, &mut system).unwrap();
    system.kill_error = Some("operation not permitted".to_string());
    assert_eq!(
        stop(&mut manager, &mut system),
        Err(SidecarError::TerminationFailure("operation not permitted".to_string()))
    );
    assert_eq!(system.kills, 1);
    assert_eq!(system.waits, 0);
    assert_eq!(manager.state.child, None);
    assert_eq!(manager.state.info, None);
    assert_eq!(status(&mut manager, &mut system), not_running());
}

#[test]
fn status_of_an_idle_supervisor_reports_nothing_running_without_a_poll() {
    let mut manager: SidecarManager<u32> = SidecarManager::default();
    let mut system = healthy();
    assert_eq!(manager.status(), StatusStep::Done(not_running()));
    assert_eq!(status(&mut manager, &mut system), not_running());
    assert_eq!(system.polls, 0);
}

#[test]
fn status_of_a_live_process_reports_it_with_its_info() {
    let mut manager: SidecarManager<u32> = SidecarManager::default();
    let mut system = healthy();
    let info = start(&mut manager, &mut system).unwrap();
    assert_eq!(manager.status(), StatusStep::Poll);
    assert_eq!(
        status(&mut manager, &mut system),
        GatewayStatus { running: true, info: Some(info) }
    );
    assert_eq!(system.polls, 1);
    assert_eq!(manager.state.child, Some(1));
}

#[test]
fn a_process_that_ended_on_its_own_is_noticed_by_status() {
    let mut manager: SidecarManager<u32> = SidecarManager::default();
    let mut system = healthy();
    start(&mut manager, &mut system).unwrap();
    system.poll = PollOutcome::Exited;
    assert_eq!(status(&mut manager, &mut system), not_running());
    assert_eq!(manager.state.child, None);
    assert_eq!(manager.state.info, None);
}

#[test]
fn a_poll_that_fails_counts_as_an_exit() {
    let mut manager: SidecarManager<u32> = SidecarManager::default();
    let mut system = healthy();
    start(&mut manager, &mut system).unwrap();
    system.poll = PollOutcome::Failed;
    assert_eq!(status(&mut manager, &mut system), not_running());
    assert_eq!(manager.state.child, None);
    assert_eq!(manager.state.info, None);
}

#[test]
fn start_after_an_exit_launches_a_new_process_with_a_new_token() {
    let mut manager: SidecarManager<u32> = SidecarManager::default();
    let mut system = healthy();
    let first = start(&mut manager, &mut system).unwrap();
    system.poll = PollOutcome::Exited;
    system.token = "sclw-bb02".to_string();
    let second = start(&mut manager, &mut system).unwrap();
    assert_eq!(system.launched, 2);
    assert_eq!(second.token, "sclw-bb02");
    assert_ne!(first.token, second.token);
    assert_eq!(manager.state.child, Some(2));
    assert_eq!(manager.state.info, Some(second));
}

#[test]
fn start_stop_start_gives_two_tokens_that_differ() {
    let mut manager: SidecarManager<u32> = SidecarManager::default();
    let mut system = healthy();
    let first = start(&mut manager, &mut system).unwrap();
    stop(&mut manager, &mut system).unwrap();
    system.token = "sclw-bb02".to_string();
    let second = start(&mut manager, &mut system).unwrap();
    assert_ne!(first.token, second.token);
    assert_eq!(system.launched, 2);
}

#[test]
fn start_without_a_credential_fails_and_stays_idle() {
    let mut manager: SidecarManager<u32> = SidecarManager::default();
    let mut system = healthy();
    system.loaded = Ok(config(None, 18789));
    assert_eq!(
        start(&mut manager, &mut system),
        Err(SidecarError::ConfigurationMissing)
    );
    assert_eq!(system.launched, 0);
    assert_eq!(manager.state.child, None);
    assert_eq!(manager.state.info, None);
    assert_eq!(status(&mut manager, &mut system), not_running());
}

#[test]
fn start_without_an_executable_fails_and_stays_idle() {
    let mut manager: SidecarManager<u32> = SidecarManager::default();
    let mut system = healthy();
    system.program = None;
    assert_eq!(
        start(&mut manager, &mut system),
        Err(SidecarError::ExecutableNotFound)
    );
    assert_eq!(system.launched, 0);
    assert_eq!(manager.state.child, None);
    assert_eq!(manager.state.info, None);
    assert_eq!(status(&mut manager, &mut system), not_running());
}

#[test]
fn a_missing_credential_is_reported_before_a_missing_executable() {
    let mut manager: SidecarManager<u32> = SidecarManager::default();
    let mut system = healthy();
    system.loaded = Ok(config(None, 18789));
    system.program = None;
    assert_eq!(
        start(&mut manager, &mut system),
        Err(SidecarError::ConfigurationMissing)
    );
}

#[test]
fn start_with_unreadable_settings_fails_with_their_sentence() {
    let mut manager: SidecarManager<u32> = SidecarManager::default();
    let mut system = healthy();
    system.loaded = Err(ConfigError::Io("permission denied".to_string()));
    assert_eq!(
        start(&mut manager, &mut system),
        Err(SidecarError::ConfigUnreadable("IO error: permission denied".to_string()))
    );
    assert_eq!(manager.state.child, None);
}

#[test]
fn a_refused_launch_is_reported_and_may_be_tried_again() {
    let mut manager: SidecarManager<u32> = SidecarManager::default();
    let mut system = healthy();
    system.spawn_error = Some("No such file or directory (os error 2)".to_string());
    assert_eq!(
        start(&mut manager, &mut system),
        Err(SidecarError::SpawnFailure("No such file or directory (os error 2)".to_string()))
    );
    assert_eq!(manager.state.child, None);
    assert_eq!(manager.state.info, None);
    system.spawn_error = None;
    let info = start(&mut manager, &mut system).unwrap();
    assert_eq!(info.token, "sclw-aa01");
    assert_eq!(manager.state.child, Some(1));
}

#[test]
fn each_step_of_start_names_the_next() {
    let manager: SidecarManager<u32> = SidecarManager::default();
    assert_eq!(manager.start(), StartStep::LoadConfig);
    assert_eq!(
        SidecarManager::<u32>::start_with_token(Ok(config(Some("key"), 7)), "tok".to_string()),
        StartStep::Locate(PendingLaunch {
            api_key: "key".to_string(),
            port: 7,
            token: "tok".to_string(),
        })
    );
    let pending = PendingLaunch { api_key: "key".to_string(), port: 7, token: "tok".to_string() };
    assert_eq!(
        SidecarManager::<u32>::start_located(pending, Some("/bin/openclaw".to_string())),
        StartStep::Spawn(LaunchPlan {
            command: LaunchSpec::gateway(
                "/bin/openclaw".to_string(),
                7,
                "key".to_string(),
                "tok".to_string(),
            ),
            info: GatewayInfo {
                url: "ws://localhost:7".to_string(),
                port: 7,
                token: "tok".to_string(),
            },
        })
    );
}

#[test]
fn start_with_a_held_child_polls_first() {
    let mut manager: SidecarManager<u32> = SidecarManager::default();
    let mut system = healthy();
    let info = start(&mut manager, &mut system).unwrap();
    assert_eq!(manager.start(), StartStep::Poll);
    assert_eq!(manager.start_polled(PollOutcome::Alive), StartStep::Done(Ok(info)));
    assert_eq!(manager.start_polled(PollOutcome::Exited), StartStep::LoadConfig);
    assert_eq!(manager.state.child, None);
    assert_eq!(manager.state.info, None);
}

#[test]
fn start_issues_a_token_from_the_clock_where_a_credential_is_stored() {
    match SidecarManager::<u32>::start_configured(Ok(config(Some("key"), 18789))) {
        StartStep::Locate(pending) => {
            assert_eq!(pending.api_key, "key");
            assert_eq!(pending.port, 18789);
            assert!(pending.token.starts_with("sclw-"));
            assert!(pending.token.len() > "sclw-".len());
        }
        other => panic!("unexpected step {:?}", other),
    }
    assert_eq!(
        SidecarManager::<u32>::start_configured(Ok(config(None, 18789))),
        StartStep::Done(Err(SidecarError::ConfigurationMissing))
    );
    assert_eq!(
        SidecarManager::<u32>::start_configured(Err(ConfigError::NoConfigDir)),
        StartStep::Done(Err(SidecarError::ConfigUnreadable(
            "Failed to get config directory".to_string()
        )))
    );
}

#[test]
fn reconcile_forgets_a_child_that_is_gone_and_keeps_a_live_one() {
    let info = GatewayInfo::for_session(1, "t".to_string());
    let mut state: SidecarState<u32> = SidecarState { child: Some(9), info: Some(info.clone()) };
    state.reconcile(PollOutcome::Alive);
    assert_eq!(state.child, Some(9));
    assert_eq!(state.info, Some(info));
    state.reconcile(PollOutcome::Exited);
    assert_eq!(state.child, None);
    assert_eq!(state.info, None);
    state.reconcile(PollOutcome::Failed);
    assert_eq!(state.child, None);
    assert_eq!(state.info, None);
}

#[test]
fn the_unavailable_status_reports_nothing_running() {
    assert_eq!(GatewayStatus::unavailable(), not_running());
}

#[test]
fn each_error_has_its_sentence() {
    assert_eq!(
        SidecarError::ConfigUnreadable("JSON error: bad".to_string()).message(),
        "Failed to load config: JSON error: bad"
    );
    assert_eq!(
        SidecarError::ConfigurationMissing.message(),
        "No API key configured. Please enter your Anthropic API key."
    );
    assert_eq!(
        SidecarError::ExecutableNotFound.message(),
        "OpenClaw not found. Please install it with: npm install -g openclaw\nSee: https://docs.clawd.bot/install"
    );
    assert_eq!(
        SidecarError::SpawnFailure("denied".to_string()).message(),
        "Failed to spawn gateway: denied"
    );
    assert_eq!(
        SidecarError::TerminationFailure("denied".to_string()).message(),
        "Failed to stop gateway: denied"
    );
    assert_eq!(
        SidecarError::LockFailure("poisoned lock: another task failed inside".to_string())
            .message(),
        "poisoned lock: another task failed inside"
    );
}
