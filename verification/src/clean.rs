//! Cleaning up the temporary files of a compilation.

use vstd::prelude::*;
use crate::compile::{in_directory, run_in_directory, ShellJob};
use crate::error::{check_exit, Failure, Tool};
use crate::opts::{CleanArgs, Config};
use crate::utils::{replace_path_placeholders, with_placeholders};

verus! {

/// Plans the clean-up for the main file given in `args`, or else for the
/// configured one: the configured clean command, with its placeholders filled in,
/// run in the root directory of the document.
pub fn clean(config: &Config, args: &CleanArgs) -> (r: ShellJob)
    ensures
        r.main_file@ == match args.main_file {
            Some(f) => f@,
            None => config@.main_file,
        },
        r.command@ == in_directory(
            config@.root,
            with_placeholders(config@.clean_cmd, r.main_file@),
        ),
{
    let main_file = match &args.main_file {
        Some(s) => s.clone(),
        None => config.main_file.clone(),
    };
    let cmd = replace_path_placeholders(config.clean_cmd.as_str(), main_file.as_str());
    let command = run_in_directory(config.root.as_str(), cmd.as_str());
    ShellJob { command, main_file }
}

/// Judges how the clean command ended.
pub fn cleaned(code: Option<i32>) -> (r: Result<(), Failure>)
    ensures
        match code {
            Some(c) => if c == 0 {
                r is Ok
            } else {
                r == Err::<(), Failure>(Failure::ProcessFailed { tool: Tool::Cleaner, code: c })
            },
            None => r == Err::<(), Failure>(Failure::ProcessStopped { tool: Tool::Cleaner }),
        },
{
    check_exit(Tool::Cleaner, code)
}

} // verus!
