//! Compiling the document.

use vstd::prelude::*;
use crate::error::{check_exit, Failure, Tool};
use crate::opts::{CompileArgs, Config};
use crate::text::appended;
use crate::utils::{replace_path_placeholders, with_placeholders};

verus! {

/// The shell command line that runs `cmd` in the directory `root`.
pub open spec fn in_directory(root: Seq<char>, cmd: Seq<char>) -> Seq<char> {
    "cd \""@ + root + "\""@ + " && "@ + cmd
}

/// Builds the shell command line that runs `cmd` in the directory `root`.
pub fn run_in_directory(root: &str, cmd: &str) -> (r: String)
    ensures
        r@ == in_directory(root@, cmd@),
{
    let mut line = appended("cd \"", root);
    line.append("\"");
    line.append(" && ");
    line.append(cmd);
    line
}

/// What a run of an external command needs: the shell command line, and the main
/// file it is about.
#[derive(Debug, PartialEq, Eq)]
pub struct ShellJob {
    pub command: String,
    pub main_file: String,
}

/// Plans the compilation of the document: of the main file given in `args`, or
/// else of the configured one.
pub fn compile(config: &Config, args: &CompileArgs) -> (r: ShellJob)
    ensures
        r.main_file@ == match args.main_file {
            Some(f) => f@,
            None => config@.main_file,
        },
        r.command@ == in_directory(
            config@.root,
            with_placeholders(config@.compile_cmd, r.main_file@),
        ),
{
    let main_file = match &args.main_file {
        Some(f) => f.clone(),
        None => config.main_file.clone(),
    };
    compile_file(config, main_file)
}

/// Plans the compilation of `main_file`: the configured compile command, with its
/// placeholders filled in, run in the root directory of the document.
pub fn compile_file(config: &Config, main_file: String) -> (r: ShellJob)
    ensures
        r.main_file@ == main_file@,
        r.command@ == in_directory(
            config@.root,
            with_placeholders(config@.compile_cmd, main_file@),
        ),
{
    let cmd = replace_path_placeholders(config.compile_cmd.as_str(), main_file.as_str());
    let command = run_in_directory(config.root.as_str(), cmd.as_str());
    ShellJob { command, main_file }
}

/// Judges how the compiler ended.
pub fn compiled(code: Option<i32>) -> (r: Result<(), Failure>)
    ensures
        match code {
            Some(c) => if c == 0 {
                r is Ok
            } else {
                r == Err::<(), Failure>(Failure::ProcessFailed { tool: Tool::Compiler, code: c })
            },
            None => r == Err::<(), Failure>(Failure::ProcessStopped { tool: Tool::Compiler }),
        },
{
    check_exit(Tool::Compiler, code)
}

} // verus!
