//! The command-line surface as plain data, and the verbosity resolution the
//! startup path performs on it. Parsing the actual command line is the
//! unverified shell's job; it hands these records over.
use vstd::prelude::*;

verus! {

/// The parsed command line: a configuration path, a repeatable verbosity
/// flag, and the subcommand.
pub struct Cli {
    pub config: Option<String>,
    pub debug: u8,
    pub command: Commands,
}

/// The subcommands the program knows.
pub enum Commands {
    Query(Query),
}

/// The one-shot query subcommand: a query name, an optional server name, and
/// `key=value` substitution pairs.
pub struct Query {
    pub query: Option<String>,
    pub server: Option<String>,
    pub eval: Vec<String>,
}

/// The log verbosity levels, least verbose first.
#[derive(Clone, Copy, PartialEq, Eq, Structural, Debug)]
pub enum LogLevel {
    Warn,
    Info,
    Debug,
}

/// The effective verbosity number: the command line's flag count when it
/// exceeds the configured level, the configured level otherwise.
pub fn resolve_log_level(cli_debug: u8, cfg_level: u8) -> (r: u8)
    ensures
        r == if cli_debug > cfg_level {
            cli_debug
        } else {
            cfg_level
        },
{
    if cli_debug > cfg_level {
        cli_debug
    } else {
        cfg_level
    }
}

/// The level a verbosity number selects: 0 warns, 1 informs, anything higher
/// gives debug output.
pub fn log_level_of(level: u8) -> (r: LogLevel)
    ensures
        r == if level == 0 {
            LogLevel::Warn
        } else if level == 1 {
            LogLevel::Info
        } else {
            LogLevel::Debug
        },
{
    if level == 0 {
        LogLevel::Warn
    } else if level == 1 {
        LogLevel::Info
    } else {
        LogLevel::Debug
    }
}

} // verus!
