//! What the agent does at startup: which mode the command line asks for,
//! what a configuration has it run, and which errors end the process.

use crate::config::{
    apply_overrides, config_issue, overridden, uri_accepts, validate, Config, ConfigInvalid,
    ConfigView, DEFAULT_PORT,
};
use vstd::prelude::*;

verus! {

/// The options of the command line.
#[derive(Debug)]
pub struct CliOptions {
    /// Run the setup and leave.
    pub setup: bool,
    /// The key for the service, needed for setup.
    pub api_key: Option<String>,
    /// Another interval between two pushes, in seconds.
    pub interval: Option<u64>,
    /// Serve the pull endpoint only.
    pub legacy: bool,
    /// Push to the developer's own machine.
    pub dev: bool,
}

/// What the agent is started to do.
#[derive(Clone, Copy, Debug, PartialEq, Eq, Structural)]
pub enum RunMode {
    /// Ask for the device's name and write its configuration.
    Setup,
    /// Serve the pull endpoint and push nothing.
    PullOnly,
    /// Run as the stored configuration says.
    Monitor,
}

/// Why the command line cannot be followed.
#[derive(Clone, Copy, Debug, PartialEq, Eq, Structural)]
pub enum UsageError {
    /// Setup was asked for without a key.
    ApiKeyRequired,
}

/// The mode that the options ask for: setup before all else, which needs a
/// key; then the pull endpoint alone; else monitoring.
pub open spec fn mode_of(setup: bool, has_api_key: bool, legacy: bool) -> Result<
    RunMode,
    UsageError,
> {
    if setup {
        if has_api_key {
            Ok(RunMode::Setup)
        } else {
            Err(UsageError::ApiKeyRequired)
        }
    } else if legacy {
        Ok(RunMode::PullOnly)
    } else {
        Ok(RunMode::Monitor)
    }
}

/// Reads the mode off the options of the command line.
pub fn select_mode(options: &CliOptions) -> (r: Result<RunMode, UsageError>)
    ensures
        r == mode_of(options.setup, options.api_key is Some, options.legacy),
{
    if options.setup {
        if options.api_key.is_some() {
            Ok(RunMode::Setup)
        } else {
            Err(UsageError::ApiKeyRequired)
        }
    } else if options.legacy {
        Ok(RunMode::PullOnly)
    } else {
        Ok(RunMode::Monitor)
    }
}

/// What is to run: the push loop with its interval in seconds, the pull
/// endpoint with its port, both or neither.
#[derive(Clone, Copy, Debug, PartialEq, Eq, Structural)]
pub struct RunPlan {
    pub push_interval: Option<u64>,
    pub pull_port: Option<u16>,
}

/// What a configuration has the agent run: the push loop only if pushing is
/// switched on, the pull endpoint only if it is.
pub open spec fn plan_of(config: ConfigView) -> RunPlan {
    RunPlan {
        push_interval: if config.push_enabled {
            Some(config.interval)
        } else {
            None
        },
        pull_port: if config.prometheus_enabled {
            Some(config.prometheus_port)
        } else {
            None
        },
    }
}

/// What runs without a configuration: the pull endpoint on its default
/// port, and no push loop.
pub open spec fn pull_only_plan() -> RunPlan {
    RunPlan { push_interval: None, pull_port: Some(DEFAULT_PORT) }
}

/// The plan for serving the pull endpoint alone.
pub fn legacy_plan() -> (r: RunPlan)
    ensures
        r == pull_only_plan(),
{
    RunPlan { push_interval: None, pull_port: Some(DEFAULT_PORT) }
}

/// The plan for a configuration, or the first rule that it breaks.
pub open spec fn planned(config: ConfigView) -> Result<RunPlan, ConfigInvalid> {
    match config_issue(config, uri_accepts(config.endpoint)) {
        Some(issue) => Err(issue),
        None => Ok(plan_of(config)),
    }
}

/// Plans the run for `config`. A configuration that breaks a rule gives no
/// plan, so that nothing is started with it; a push loop that is planned
/// has an interval above zero.
pub fn plan(config: &Config) -> (r: Result<RunPlan, ConfigInvalid>)
    ensures
        r == planned(config@),
        r is Ok <==> config@.is_valid(),
        r matches Ok(p) ==> p.push_interval != Some(0u64),
{
    match validate(config) {
        Ok(()) => Ok(
            RunPlan {
                push_interval: if config.push_enabled {
                    Some(config.interval)
                } else {
                    None
                },
                pull_port: if config.prometheus_enabled {
                    Some(config.prometheus_port)
                } else {
                    None
                },
            },
        ),
        Err(issue) => Err(issue),
    }
}

/// Prepares monitoring: applies the overrides of the command line to the
/// stored configuration, then plans the run for the result. It gives the
/// configuration to run with and the plan, or the first rule that the
/// configuration breaks once the overrides are applied.
pub fn prepare(stored: Config, options: &CliOptions) -> (r: Result<(Config, RunPlan), ConfigInvalid>)
    ensures
        match r {
            Ok(ready) => ready.0@ == overridden(stored@, options.interval, options.dev) && Ok::<
                RunPlan,
                ConfigInvalid,
            >(ready.1) == planned(ready.0@),
            Err(issue) => Err::<RunPlan, ConfigInvalid>(issue) == planned(
                overridden(stored@, options.interval, options.dev),
            ),
        },
{
    let config = apply_overrides(stored, options.interval, options.dev);
    match plan(&config) {
        Ok(p) => Ok((config, p)),
        Err(issue) => Err(issue),
    }
}

/// The kinds of error that the agent meets.
#[derive(Clone, Copy, Debug, PartialEq, Eq, Structural)]
pub enum ErrorKind {
    /// A metric source could not be read.
    SourceUnavailable,
    /// A push met a network error or an answer that is no success.
    TransportFailure,
    /// The configuration is missing or breaks a rule.
    ConfigInvalid,
    /// The pull endpoint could not take its port.
    BindFailure,
}

impl ErrorKind {
    /// Whether an error of this kind ends the process. Errors of a tick or
    /// of a request are contained where they happen; only those of startup
    /// reach the exit.
    pub open spec fn fatal(self) -> bool {
        self == ErrorKind::ConfigInvalid || self == ErrorKind::BindFailure
    }

    /// Decides whether an error of this kind ends the process.
    pub fn is_fatal(self) -> (b: bool)
        ensures
            b == self.fatal(),
    {
        match self {
            ErrorKind::ConfigInvalid | ErrorKind::BindFailure => true,
            ErrorKind::SourceUnavailable | ErrorKind::TransportFailure => false,
        }
    }

    /// The status that the process exits with on an error of this kind:
    /// one that is not zero for a fatal error, none for the others.
    pub fn exit_status(self) -> (status: Option<u8>)
        ensures
            status == (if self.fatal() {
                Some(1u8)
            } else {
                None::<u8>
            }),
    {
        if self.is_fatal() {
            Some(1)
        } else {
            None
        }
    }
}

} // verus!
