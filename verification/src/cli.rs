//! Where the configuration comes from.

use vstd::prelude::*;
use vstd::string::*;

use crate::config::Config;

verus! {

/// Whether `arg` names the config-file option (`--config` or `-c`).
pub open spec fn is_config_flag(arg: Seq<char>) -> bool {
    arg == "--config"@ || arg == "-c"@
}

/// Whether `args[i]` is the config-file option and a path follows it.
pub open spec fn config_flag_at(args: Seq<String>, i: int) -> bool {
    0 <= i && i + 1 < args.len() && is_config_flag(args[i]@)
}

/// The position of the config file's path on a command line: right after
/// the first `--config` or `-c` that has an argument after it.
pub fn config_path_arg(args: &Vec<String>) -> (r: Option<usize>)
    ensures
        r matches Some(p) ==> p >= 1 && config_flag_at(args@, p - 1) && forall|j: int|
            0 <= j < p - 1 ==> !#[trigger] config_flag_at(args@, j),
        r is None ==> forall|j: int| !#[trigger] config_flag_at(args@, j),
{
    let long = String::from_str("--config");
    let short = String::from_str("-c");
    let n = args.len();
    for i in 0..n
        invariant
            n == args@.len(),
            long@ == "--config"@,
            short@ == "-c"@,
            forall|j: int| 0 <= j < i ==> !#[trigger] config_flag_at(args@, j),
    {
        if (args[i] == long || args[i] == short) && i + 1 < n {
            return Some(i + 1);
        }
    }
    assert forall|j: int| !#[trigger] config_flag_at(args@, j) by {}
    None
}

/// What becomes of a config file that was read.
pub enum LoadOutcome {
    /// Use the loaded configuration.
    Use(Config),
    /// Report the error and stop (the file was named on the command line).
    Abort(String),
    /// Warn about the error and go on with the built-in sample.
    FallBack(String),
}

/// The outcome of loading a config file: a loaded configuration is used;
/// a file named on the command line that fails to load stops the program,
/// and the default file failing to load falls back to the sample.
pub fn load_outcome(loaded: Result<Config, String>, from_command_line: bool) -> (r: LoadOutcome)
    ensures
        match loaded {
            Ok(c) => r == LoadOutcome::Use(c),
            Err(e) => if from_command_line {
                r == LoadOutcome::Abort(e)
            } else {
                r == LoadOutcome::FallBack(e)
            },
        },
{
    match loaded {
        Ok(c) => LoadOutcome::Use(c),
        Err(e) => if from_command_line {
            LoadOutcome::Abort(e)
        } else {
            LoadOutcome::FallBack(e)
        },
    }
}

} // verus!
