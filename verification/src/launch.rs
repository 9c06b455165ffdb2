//! The command line, environment and stream wiring of the gateway process.

use vstd::prelude::*;
use vstd::string::*;
use crate::text::{decimal, to_decimal};

verus! {

/// What a standard stream of the launched process is connected to.
#[derive(Debug, PartialEq, Eq, Clone, Copy)]
pub enum StreamMode {
    /// Connected to nothing: reads end at once.
    Null,
    /// Connected to a pipe that the supervisor holds.
    Piped,
}

/// Everything the system needs to launch a process.
#[derive(Debug, PartialEq, Eq)]
pub struct LaunchSpec {
    /// Path of the executable.
    pub program: String,
    /// Arguments after the program's name, in order.
    pub args: Vec<String>,
    /// Variables added to the process's environment, as name and value.
    pub env: Vec<(String, String)>,
    pub stdin: StreamMode,
    pub stdout: StreamMode,
    pub stderr: StreamMode,
}

/// What a `LaunchSpec` holds, as plain values.
pub struct LaunchSpecView {
    pub program: Seq<char>,
    pub args: Seq<Seq<char>>,
    pub env: Seq<(Seq<char>, Seq<char>)>,
    pub stdin: StreamMode,
    pub stdout: StreamMode,
    pub stderr: StreamMode,
}

impl View for LaunchSpec {
    type V = LaunchSpecView;

    open spec fn view(&self) -> LaunchSpecView {
        LaunchSpecView {
            program: self.program@,
            args: self.args.deep_view(),
            env: self.env.deep_view(),
            stdin: self.stdin,
            stdout: self.stdout,
            stderr: self.stderr,
        }
    }
}

/// How the gateway is launched: in gateway mode on the given port, excused
/// from having a configuration file of its own. The credential and the
/// session token travel in the environment and never among the arguments.
/// Input is closed; both output streams are captured.
pub open spec fn gateway_launch(
    program: Seq<char>,
    port: u16,
    api_key: Seq<char>,
    token: Seq<char>,
) -> LaunchSpecView {
    LaunchSpecView {
        program,
        args: seq!["gateway"@, "--port"@, decimal(port as nat), "--allow-unconfigured"@],
        env: seq![("ANTHROPIC_API_KEY"@, api_key), ("OPENCLAW_GATEWAY_TOKEN"@, token)],
        stdin: StreamMode::Null,
        stdout: StreamMode::Piped,
        stderr: StreamMode::Piped,
    }
}

impl LaunchSpec {
    /// The launch of the gateway executable at `program` on `port`, with the
    /// credential `api_key` and the session token `token`.
    pub fn gateway(program: String, port: u16, api_key: String, token: String) -> (spec:
        LaunchSpec)
        ensures
            spec@ == gateway_launch(program@, port, api_key@, token@),
    {
        let mut args: Vec<String> = Vec::new();
        args.push(String::from_str("gateway"));
        args.push(String::from_str("--port"));
        args.push(to_decimal(port as u64));
        args.push(String::from_str("--allow-unconfigured"));
        let mut env: Vec<(String, String)> = Vec::new();
        env.push((String::from_str("ANTHROPIC_API_KEY"), api_key));
        env.push((String::from_str("OPENCLAW_GATEWAY_TOKEN"), token));
        let spec = LaunchSpec {
            program,
            args,
            env,
            stdin: StreamMode::Null,
            stdout: StreamMode::Piped,
            stderr: StreamMode::Piped,
        };
        assert(spec@.args =~= gateway_launch(program@, port, api_key@, token@).args);
        assert(spec@.env =~= gateway_launch(program@, port, api_key@, token@).env);
        spec
    }
}

} // verus!
