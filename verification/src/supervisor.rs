//! The engine supervisor's decisions: the full launch argument vector with
//! the session files appended, the private configuration file for the proxy
//! password, the bounded initial-connect retry, and the idempotent orderly
//! shutdown.
//!
//! The runtime performs the file writes, spawns the process — and must then
//! retain the child handle for the life of the program, since releasing it
//! terminates the engine — and drives the retry schedule with real sleeps.

use vstd::prelude::*;
use crate::config::{spec_aria2_args, views_of, AppConfig};
use crate::rpc::{plain_request_is, RpcRequest};

verus! {

/// How often the initial connection to a freshly spawned engine is tried.
pub const INIT_CONNECT_ATTEMPTS: u64 = 10;

/// The fixed pause before each initial connection attempt.
pub const INIT_CONNECT_DELAY_MILLIS: u64 = 500;

/// Where the engine keeps its resumable state, all under the application's
/// data directory.
pub struct EnginePaths {
    pub session: String,
    pub conf: String,
    pub dht: String,
    pub dht6: String,
}

/// Everything the runtime needs to start the engine: the argument vector,
/// and the content of the private configuration file when one is needed.
pub struct LaunchPlan {
    pub args: Vec<String>,
    /// Written to the configuration file path before the spawn; absent when
    /// no secret-bearing option is set, in which case the arguments disable
    /// any default configuration file instead.
    pub conf_file: Option<String>,
}

/// The arguments that persist the session and the routing table.
pub open spec fn spec_session_args(p: EnginePaths) -> Seq<Seq<char>> {
    seq![
        "--save-session="@ + p.session@,
        "--input-file="@ + p.session@,
        "--save-session-interval=10"@,
        "--dht-file-path="@ + p.dht@,
        "--dht-file-path6="@ + p.dht6@,
    ]
}

/// Whether a secret-bearing option must travel in the private configuration
/// file: only when the proxy is enabled and a password is set.
pub open spec fn spec_wants_conf_file(c: AppConfig) -> bool {
    c.proxy_enabled && c.proxy_password@.len() > 0
}

/// What the private configuration file holds: exactly the proxy password
/// option, which never appears on the command line because arguments are
/// visible in process listings.
pub open spec fn spec_conf_content(c: AppConfig) -> Seq<char> {
    "all-proxy-passwd="@ + c.proxy_password@ + "\n"@
}

/// Builds the launch plan: the configuration's argument vector, then the
/// session arguments, then either the pointer to the private configuration
/// file carrying the proxy password, or the switch that disables any
/// default configuration file.
pub fn build_launch_plan(c: &AppConfig, paths: &EnginePaths) -> (r: LaunchPlan)
    ensures
        spec_wants_conf_file(*c) ==> {
            &&& (r.conf_file matches Some(content) && content@ == spec_conf_content(*c))
            &&& views_of(r.args@) == spec_aria2_args(*c) + spec_session_args(*paths) + seq![
                "--conf-path="@ + paths.conf@,
            ]
        },
        !spec_wants_conf_file(*c) ==> {
            &&& r.conf_file is None
            &&& views_of(r.args@) == spec_aria2_args(*c) + spec_session_args(*paths) + seq![
                "--no-conf"@,
            ]
        },
{
    let mut args = c.to_aria2_args();
    push_path_arg(&mut args, "--save-session=", paths.session.as_str());
    push_path_arg(&mut args, "--input-file=", paths.session.as_str());
    push_flag_arg(&mut args, "--save-session-interval=10");
    push_path_arg(&mut args, "--dht-file-path=", paths.dht.as_str());
    push_path_arg(&mut args, "--dht-file-path6=", paths.dht6.as_str());
    proof {
        assert(views_of(args@) =~= spec_aria2_args(*c) + spec_session_args(*paths));
    }
    if c.proxy_enabled && c.proxy_password.as_str().unicode_len() > 0 {
        let mut content = String::new();
        content.append("all-proxy-passwd=");
        content.append(c.proxy_password.as_str());
        content.append("\n");
        push_path_arg(&mut args, "--conf-path=", paths.conf.as_str());
        proof {
            assert(content@ =~= spec_conf_content(*c));
            assert(views_of(args@) =~= spec_aria2_args(*c) + spec_session_args(*paths) + seq![
                "--conf-path="@ + paths.conf@,
            ]);
        }
        LaunchPlan { args, conf_file: Some(content) }
    } else {
        push_flag_arg(&mut args, "--no-conf");
        proof {
            assert(views_of(args@) =~= spec_aria2_args(*c) + spec_session_args(*paths) + seq![
                "--no-conf"@,
            ]);
        }
        LaunchPlan { args, conf_file: None }
    }
}

/// Appends one `prefix=path` argument.
fn push_path_arg(args: &mut Vec<String>, prefix: &str, path: &str)
    ensures
        views_of(final(args)@) == views_of(old(args)@).push(prefix@ + path@),
{
    let mut s = String::new();
    s.append(prefix);
    s.append(path);
    let ghost prevv = args@;
    args.push(s);
    proof {
        assert(views_of(args@) =~= views_of(prevv).push(prefix@ + path@));
    }
}

/// Appends one fixed argument.
fn push_flag_arg(args: &mut Vec<String>, flag: &str)
    ensures
        views_of(final(args)@) == views_of(old(args)@).push(flag@),
{
    let mut s = String::new();
    s.append(flag);
    let ghost prevv = args@;
    args.push(s);
    proof {
        assert(views_of(args@) =~= views_of(prevv).push(flag@));
    }
}

/// What the runtime does after one initial connection attempt.
#[derive(Debug, Clone, Copy, PartialEq, Eq, Structural)]
pub enum InitStep {
    /// Connected: initialization proceeds.
    Proceed,
    /// Not yet reachable: wait the fixed delay, then try again.
    RetryAfterDelay,
    /// The attempt budget is spent: initialization fails with the last
    /// error, and nothing retries it further.
    Fail,
}

/// After the spawn the engine's endpoint need not be ready: each connection
/// attempt either succeeds, schedules a retry while attempts remain, or —
/// on the last allowed attempt — fails initialization for good.
pub fn init_connect_step(attempt: u64, connected: bool) -> (r: InitStep)
    requires
        1 <= attempt <= INIT_CONNECT_ATTEMPTS,
    ensures
        connected ==> r == InitStep::Proceed,
        !connected && attempt < INIT_CONNECT_ATTEMPTS ==> r == InitStep::RetryAfterDelay,
        !connected && attempt == INIT_CONNECT_ATTEMPTS ==> r == InitStep::Fail,
{
    if connected {
        InitStep::Proceed
    } else if attempt < INIT_CONNECT_ATTEMPTS {
        InitStep::RetryAfterDelay
    } else {
        InitStep::Fail
    }
}

/// The two requests of an orderly shutdown, in the order they must go out:
/// persist the session first, so resumable state survives an intentional
/// exit, then ask the engine to exit. The process handle is released after
/// both.
pub struct ShutdownPlan {
    pub save: RpcRequest,
    pub quit: RpcRequest,
}

/// Makes the orderly shutdown idempotent: it runs on every exit path —
/// normal quit, forced quit, fatal error — and only its first invocation
/// yields the plan; later ones find the work already done.
pub struct ShutdownGuard {
    pub done: bool,
}

impl ShutdownGuard {
    /// A guard with the shutdown still ahead.
    pub fn new() -> (r: Self)
        ensures
            !r.done,
    {
        ShutdownGuard { done: false }
    }

    /// The first call yields the ordered shutdown plan and marks the work
    /// done; every later call yields nothing.
    pub fn begin(&mut self) -> (r: Option<ShutdownPlan>)
        ensures
            final(self).done,
            !old(self).done ==> (r matches Some(p) && plain_request_is(p.save, "saveSession"@)
                && plain_request_is(p.quit, "shutdown"@)),
            old(self).done ==> r is None,
    {
        if self.done {
            None
        } else {
            self.done = true;
            Some(
                ShutdownPlan {
                    save: crate::rpc::save_session(),
                    quit: crate::rpc::shutdown(),
                },
            )
        }
    }
}

} // verus!
