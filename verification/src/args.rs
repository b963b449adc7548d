//! What the command line asked for, as plain values.

use vstd::prelude::*;

verus! {

/// The arguments of one run. A flag that takes a value holds the empty string where it
/// was not given.
#[derive(Debug, Clone, PartialEq, Eq)]
pub struct Args {
    /// The value of `-u`.
    pub username: String,
    /// The value of `-i`.
    pub icon_emoji: String,
    /// The value of `-c`.
    pub channel: String,
    /// The value of `<message>`.
    pub message: String,
    /// Whether `-` was given: the message is read from standard input.
    pub stdin: bool,
    /// Whether `--configure` was given.
    pub configure: bool,
    /// Whether `--debug` was given.
    pub debug: bool,
    /// Whether `-h` was given.
    pub h: bool,
    /// Whether `--help` was given.
    pub help: bool,
    /// Whether `--version` was given.
    pub version: bool,
}

/// What a run is to do.
#[derive(Clone, Copy, Debug, PartialEq, Eq, Structural)]
pub enum Command {
    /// Show the usage.
    Help,
    /// Show the version.
    Version,
    /// Ask for the settings and store them.
    Configure,
    /// Post a message.
    Message,
}

impl Args {
    /// What these arguments ask for: help before the version, the version before the
    /// dialogue, and a message where none of them is asked for.
    pub open spec fn asks_for(self) -> Command {
        if self.h || self.help {
            Command::Help
        } else if self.version {
            Command::Version
        } else if self.configure {
            Command::Configure
        } else {
            Command::Message
        }
    }

    /// Whether the usage is asked for.
    pub fn is_help_command(&self) -> (b: bool)
        ensures
            b == (self.h || self.help),
    {
        self.h || self.help
    }

    /// Whether the version is asked for.
    pub fn is_version_command(&self) -> (b: bool)
        ensures
            b == self.version,
    {
        self.version
    }

    /// Whether the dialogue is asked for.
    pub fn is_configure_command(&self) -> (b: bool)
        ensures
            b == self.configure,
    {
        self.configure
    }

    /// Whether diagnostics are asked for.
    pub fn is_debug_mode(&self) -> (b: bool)
        ensures
            b == self.debug,
    {
        self.debug
    }

    /// What these arguments ask for.
    pub fn command(&self) -> (command: Command)
        ensures
            command == self.asks_for(),
    {
        if self.is_help_command() {
            Command::Help
        } else if self.is_version_command() {
            Command::Version
        } else if self.is_configure_command() {
            Command::Configure
        } else {
            Command::Message
        }
    }
}

} // verus!
