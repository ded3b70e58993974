use vstd::prelude::*;

use crate::duplicity::DuplicityMode;
use crate::restic::ResticMode;

verus! {

/// What the command line asked for, before validation: the subcommand, the
/// engine mode where a known one was given, and the flags that were
/// present.
#[derive(Debug, Clone, PartialEq, Eq)]
pub enum CliCommand {
    Duplicity {
        mode: Option<DuplicityMode>,
        root: Option<String>,
        key: Option<String>,
        target: Option<String>,
    },
    Restic { mode: Option<ResticMode>, root: Option<String>, password_file: Option<String> },
    List { root: Option<String> },
    NoCommand,
}

/// A configuration fault in the command line: a missing required flag, or a
/// missing or unknown (sub)command. Found before any scan or invocation
/// begins.
#[derive(Clone, Copy, PartialEq, Eq, Structural, Debug)]
pub enum ConfigError {
    MissingRoot,
    MissingKey,
    MissingTarget,
    MissingPasswordFile,
    UnknownCommand,
}

impl ConfigError {
    /// The name of the command-line element that is missing or unknown.
    pub fn element(&self) -> (r: &'static str)
        ensures
            *self == ConfigError::MissingRoot ==> r@ == "root"@,
            *self == ConfigError::MissingKey ==> r@ == "key"@,
            *self == ConfigError::MissingTarget ==> r@ == "target"@,
            *self == ConfigError::MissingPasswordFile ==> r@ == "password-file"@,
            *self == ConfigError::UnknownCommand ==> r@ == "command"@,
    {
        match self {
            ConfigError::MissingRoot => "root",
            ConfigError::MissingKey => "key",
            ConfigError::MissingTarget => "target",
            ConfigError::MissingPasswordFile => "password-file",
            ConfigError::UnknownCommand => "command",
        }
    }
}

/// A validated run: every value it needs is present.
#[derive(Debug, Clone, PartialEq, Eq)]
pub enum Action {
    RunDuplicity { mode: DuplicityMode, root: String, key: String, target: String },
    RunRestic { mode: ResticMode, root: String, password_file: String },
    ListPaths { root: String },
}

/// What validation must make of a command line: the first missing required
/// flag (the root first, then the credential, then the target), else the
/// missing or unknown mode, else the action carrying the given values
/// unchanged.
pub open spec fn plan_matches(cmd: CliCommand, r: Result<Action, ConfigError>) -> bool {
    match cmd {
        CliCommand::Duplicity { mode, root, key, target } => match root {
            Option::None => r == Err::<Action, ConfigError>(ConfigError::MissingRoot),
            Option::Some(ro) => match key {
                Option::None => r == Err::<Action, ConfigError>(ConfigError::MissingKey),
                Option::Some(k) => match target {
                    Option::None => r == Err::<Action, ConfigError>(ConfigError::MissingTarget),
                    Option::Some(t) => match mode {
                        Option::None => r == Err::<Action, ConfigError>(
                            ConfigError::UnknownCommand,
                        ),
                        Option::Some(m) => r == Ok::<Action, ConfigError>(
                            Action::RunDuplicity { mode: m, root: ro, key: k, target: t },
                        ),
                    },
                },
            },
        },
        CliCommand::Restic { mode, root, password_file } => match root {
            Option::None => r == Err::<Action, ConfigError>(ConfigError::MissingRoot),
            Option::Some(ro) => match password_file {
                Option::None => r == Err::<Action, ConfigError>(ConfigError::MissingPasswordFile),
                Option::Some(p) => match mode {
                    Option::None => r == Err::<Action, ConfigError>(ConfigError::UnknownCommand),
                    Option::Some(m) => r == Ok::<Action, ConfigError>(
                        Action::RunRestic { mode: m, root: ro, password_file: p },
                    ),
                },
            },
        },
        CliCommand::List { root } => match root {
            Option::None => r == Err::<Action, ConfigError>(ConfigError::MissingRoot),
            Option::Some(ro) => r == Ok::<Action, ConfigError>(Action::ListPaths { root: ro }),
        },
        CliCommand::NoCommand => r == Err::<Action, ConfigError>(ConfigError::UnknownCommand),
    }
}

/// Validate a command line into the action it asks for, or the first
/// configuration fault found. Nothing is read from the filesystem here.
pub fn plan(cmd: CliCommand) -> (r: Result<Action, ConfigError>)
    ensures
        plan_matches(cmd, r),
{
    match cmd {
        CliCommand::Duplicity { mode, root, key, target } => match root {
            Option::None => Err(ConfigError::MissingRoot),
            Option::Some(ro) => match key {
                Option::None => Err(ConfigError::MissingKey),
                Option::Some(k) => match target {
                    Option::None => Err(ConfigError::MissingTarget),
                    Option::Some(t) => match mode {
                        Option::None => Err(ConfigError::UnknownCommand),
                        Option::Some(m) => Ok(
                            Action::RunDuplicity { mode: m, root: ro, key: k, target: t },
                        ),
                    },
                },
            },
        },
        CliCommand::Restic { mode, root, password_file } => match root {
            Option::None => Err(ConfigError::MissingRoot),
            Option::Some(ro) => match password_file {
                Option::None => Err(ConfigError::MissingPasswordFile),
                Option::Some(p) => match mode {
                    Option::None => Err(ConfigError::UnknownCommand),
                    Option::Some(m) => Ok(
                        Action::RunRestic { mode: m, root: ro, password_file: p },
                    ),
                },
            },
        },
        CliCommand::List { root } => match root {
            Option::None => Err(ConfigError::MissingRoot),
            Option::Some(ro) => Ok(Action::ListPaths { root: ro }),
        },
        CliCommand::NoCommand => Err(ConfigError::UnknownCommand),
    }
}

}
