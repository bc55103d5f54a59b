//! What the command line selects.

use vstd::prelude::*;

verus! {

/// How much the monitor logs, from the most talkative level to the least.
#[derive(Debug, Clone, Copy, PartialEq, Eq, PartialOrd, Ord, Structural)]
pub enum Verbosity {
    Debug,
    Info,
    Warn,
    Error,
}

impl Verbosity {
    /// The level's name as it is written in a log filter.
    pub open spec fn spec_name(self) -> Seq<char> {
        match self {
            Verbosity::Debug => "Debug"@,
            Verbosity::Info => "Info"@,
            Verbosity::Warn => "Warn"@,
            Verbosity::Error => "Error"@,
        }
    }

    /// The level's name.
    pub fn name(&self) -> (text: &'static str)
        ensures
            text@ == self.spec_name(),
    {
        match self {
            Verbosity::Debug => "Debug",
            Verbosity::Info => "Info",
            Verbosity::Warn => "Warn",
            Verbosity::Error => "Error",
        }
    }

    /// The level's name as an owned string.
    pub fn to_string(&self) -> (text: String)
        ensures
            text@ == self.spec_name(),
    {
        self.name().to_owned()
    }
}

/// The options of the command line.
#[derive(Debug, Clone, Copy, PartialEq, Eq, Structural)]
pub struct Cli {
    pub verbosity: Verbosity,
}

impl Default for Cli {
    /// With no option given the monitor logs at `Debug`.
    fn default() -> (cli: Cli)
        ensures
            cli.verbosity == Verbosity::Debug,
    {
        Cli { verbosity: Verbosity::Debug }
    }
}

} // verus!
