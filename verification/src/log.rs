//! Finding the log of the last compilation.

use vstd::prelude::*;
use crate::error::Failure;
use crate::opts::{Config, LogArgs};
use crate::paths::{extension_replaced, join, joined, with_extension};

verus! {

/// The log that the compilation of `main_file` in `root` leaves behind: the main
/// file with `log` for its extension.
pub open spec fn log_file_of(root: Seq<char>, main_file: Seq<char>) -> Seq<char> {
    extension_replaced(joined(root, main_file), "log"@)
}

/// Finds the log of the compilation of `main_file` in `root`. `is_file` says whether
/// a regular file lies at the path that [`log_file`] gives; a log that is not there
/// is a failure.
pub fn print_log(root: &str, main_file: &str, is_file: bool) -> (r: Result<String, Failure>)
    ensures
        match r {
            Ok(path) => is_file && path@ == log_file_of(root@, main_file@),
            Err(e) => !is_file && e@ == (crate::error::FailureView::LogNotFound {
                path: log_file_of(root@, main_file@),
            }),
        },
{
    let path = log_file(root, main_file);
    if is_file {
        Ok(path)
    } else {
        Err(Failure::LogNotFound { path })
    }
}

/// The path of the log for `main_file` in `root`.
pub fn log_file(root: &str, main_file: &str) -> (r: String)
    ensures
        r@ == log_file_of(root@, main_file@),
{
    let full = join(root, main_file);
    with_extension(full.as_str(), "log")
}

/// The file whose log is asked for: the one given in `args`, or else the
/// configured main file.
pub fn log_subject(config: &Config, args: &LogArgs) -> (r: String)
    ensures
        r@ == match args.log_file {
            Some(f) => f@,
            None => config@.main_file,
        },
{
    match &args.log_file {
        Some(s) => s.clone(),
        None => config.main_file.clone(),
    }
}

} // verus!
