//! The command line: the options and the two commands.
use vstd::prelude::*;
use crate::text::{cat, decimal_digits, u64_text};

verus! {

/// The parsed command line.
#[derive(Debug, Clone)]
pub struct Cli {
    /// Path of the configuration file.
    pub config: String,
    /// A log level that overrides the configured one.
    pub log_level: Option<String>,
    /// What to do.
    pub cmd: Cmd,
}

/// The commands.
#[derive(Debug, Clone, Copy, PartialEq, Eq, Structural)]
pub enum Cmd {
    /// Run the daemon.
    Run,
    /// Check the configuration file and exit.
    Validate,
}

/// The default path of the configuration file.
pub fn default_config_path() -> (r: String)
    ensures
        r@ == "workdup.toml"@,
{
    String::from_str("workdup.toml")
}

/// The line `validate` prints when the configuration is sound.
pub open spec fn validation_report_of(count: usize) -> Seq<char> {
    "ok: "@ + decimal_digits(count as nat) + " namespace(s)"@
}

/// `ok: <count> namespace(s)`.
pub fn validation_report(count: usize) -> (r: String)
    ensures
        r@ == validation_report_of(count),
{
    let digits = u64_text(count as u64);
    let mut s = cat("ok: ", digits.as_str());
    s.append(" namespace(s)");
    s
}

} // verus!
