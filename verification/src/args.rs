//! The command surface: what a run was asked to do, and the global
//! presentation switches.

use vstd::prelude::*;
use crate::config::BuildCommand;

verus! {

/// Whether logs are colored.
#[derive(Clone, Copy, Debug)]
pub enum LogColor {
    Auto,
    No,
    Yes,
}

/// Which progress renderer runs.
#[derive(Clone, Copy, Debug)]
pub enum ProgressStyle {
    Auto,
    Fancy,
    Plain,
}

/// The configuration-inspection subcommands: print the effective
/// configuration, or the built-in defaults.
#[derive(Clone, Copy, Debug)]
pub enum ConfigCommand {
    Current,
    Default,
}

impl ConfigCommand {
    /// The displayed (quoted, lower-case) name of the subcommand.
    pub fn display_string(&self) -> (r: String)
        ensures
            match self {
                ConfigCommand::Current => r@ == "\"current\""@,
                ConfigCommand::Default => r@ == "\"default\""@,
            },
    {
        match self {
            ConfigCommand::Current => String::from_str("\"current\""),
            ConfigCommand::Default => String::from_str("\"default\""),
        }
    }
}

/// What one invocation does: build parsers, inspect the configuration, or
/// replace the running binary with the latest release.
#[derive(Clone, Debug)]
pub enum Command {
    Build(BuildCommand),
    Config { command: ConfigCommand },
    Selfupdate,
}

impl Command {
    /// The build configuration, when this is a build command.
    pub fn as_build(&self) -> (r: Option<&BuildCommand>)
        ensures
            match self {
                Command::Build(b) => r == Some(b),
                _ => r is None,
            },
    {
        if let Command::Build(build) = self {
            Some(build)
        } else {
            None
        }
    }

    /// The configuration subcommand, when this is a config command.
    pub fn as_config(&self) -> (r: Option<&ConfigCommand>)
        ensures
            match self {
                Command::Config { command } => r == Some(command),
                _ => r is None,
            },
    {
        if let Command::Config { command } = self {
            Some(command)
        } else {
            None
        }
    }
}

} // verus!
