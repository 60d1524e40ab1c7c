//! Command templates and the fetching of repositories.

use vstd::prelude::*;
use crate::error::{check_exit, Failure, Tool};
use crate::paths::{join, joined, parent, parent_of};
use crate::plan::{action_views, Action, ActionView};
use crate::text::{chars_of, has_suffix, matches_at, occurs_at, text_views};

verus! {

/// `s` with every occurrence of `pattern` replaced by `value`, the occurrences
/// taken from left to right without overlap. For the empty pattern, which occurs
/// before and after every character, `value` is put at each of those places.
pub open spec fn replaced(s: Seq<char>, pattern: Seq<char>, value: Seq<char>) -> Seq<char>
    decreases s.len(),
{
    if pattern.len() == 0 {
        if s.len() == 0 {
            value
        } else {
            value + seq![s[0]] + replaced(s.skip(1), pattern, value)
        }
    } else if s.len() < pattern.len() {
        s
    } else if occurs_at(s, 0, pattern) {
        value + replaced(s.skip(pattern.len() as int), pattern, value)
    } else {
        seq![s[0]] + replaced(s.skip(1), pattern, value)
    }
}

/// Replaces every occurrence of `pattern` in `s` by `value`.
pub fn replace_text(s: &str, pattern: &str, value: &str) -> (r: String)
    ensures
        r@ == replaced(s@, pattern@, value@),
{
    let text = chars_of(s);
    let pat = chars_of(pattern);
    let mut out = String::new();
    let mut i: usize = 0;
    assert(s@.skip(0) =~= s@);
    if pat.len() == 0 {
        while i < text.len()
            invariant
                i <= text.len(),
                text@ == s@,
                pattern@.len() == 0,
                replaced(s@, pattern@, value@) == out@ + replaced(
                    s@.skip(i as int),
                    pattern@,
                    value@,
                ),
            decreases text.len() - i,
        {
            let ghost rest = s@.skip(i as int);
            assert(rest.skip(1) =~= s@.skip(i + 1));
            assert(s@.subrange(i as int, i + 1) =~= seq![rest[0]]);
            out.append(value);
            out.append(s.substring_char(i, i + 1));
            i += 1;
            assert(out@ + replaced(s@.skip(i as int), pattern@, value@) =~= replaced(
                s@,
                pattern@,
                value@,
            ));
        }
        out.append(value);
        assert(out@ =~= replaced(s@, pattern@, value@));
        return out;
    }
    while i < text.len() && pat.len() <= text.len() - i
        invariant
            i <= text.len(),
            text@ == s@,
            pat@ == pattern@,
            pat.len() > 0,
            replaced(s@, pattern@, value@) == out@ + replaced(s@.skip(i as int), pattern@, value@),
        decreases text.len() - i,
    {
        let ghost rest = s@.skip(i as int);
        let ghost before = out@;
        if matches_at(&text, i, &pat) {
            assert(rest.subrange(0, pat.len() as int) =~= s@.subrange(
                i as int,
                i + pat.len(),
            ));
            assert(rest.skip(pat.len() as int) =~= s@.skip(i + pat.len()));
            out.append(value);
            i += pat.len();
            assert(out@ + replaced(s@.skip(i as int), pattern@, value@) =~= before + (value@
                + replaced(rest.skip(pat.len() as int), pattern@, value@)));
        } else {
            assert(rest.subrange(0, pat.len() as int) =~= s@.subrange(
                i as int,
                i + pat.len(),
            ));
            assert(rest.skip(1) =~= s@.skip(i + 1));
            assert(s@.subrange(i as int, i + 1) =~= seq![rest[0]]);
            out.append(s.substring_char(i, i + 1));
            i += 1;
            assert(out@ + replaced(s@.skip(i as int), pattern@, value@) =~= before + (seq![
                rest[0],
            ] + replaced(rest.skip(1), pattern@, value@)));
        }
    }
    assert(s@.subrange(i as int, text.len() as int) =~= s@.skip(i as int));
    out.append(s.substring_char(i, text.len()));
    out
}

/// The token of a command template that stands for the main file.
pub const MAIN_FILE_PLACEHOLDER: &'static str = "<main-file>";

/// The token of a command template that stands for the main file without a final
/// `.tex`.
pub const MAIN_STEM_PLACEHOLDER: &'static str = "<main-stem>";

/// `main_file` without a final `.tex`.
pub open spec fn main_stem(main_file: Seq<char>) -> Seq<char> {
    if has_suffix(main_file, ".tex"@) {
        main_file.take(main_file.len() - 4)
    } else {
        main_file
    }
}

/// A command template made concrete: `<main-file>` becomes `main_file`, and then
/// `<main-stem>` becomes `main_file` without a final `.tex`.
pub open spec fn with_placeholders(s: Seq<char>, main_file: Seq<char>) -> Seq<char> {
    replaced(
        replaced(s, MAIN_FILE_PLACEHOLDER@, main_file),
        MAIN_STEM_PLACEHOLDER@,
        main_stem(main_file),
    )
}

/// Fills the placeholders of the command template `s` for the main file
/// `main_file`.
pub fn replace_path_placeholders(s: &str, main_file: &str) -> (r: String)
    ensures
        r@ == with_placeholders(s@, main_file@),
{
    let out = replace_text(s, MAIN_FILE_PLACEHOLDER, main_file);
    let chars = chars_of(main_file);
    let suffix = chars_of(".tex");
    proof {
        reveal_strlit(".tex");
    }
    let stem = if chars.len() >= 4 && matches_at(&chars, chars.len() - 4, &suffix) {
        assert(main_file@.subrange(0, chars.len() - 4) =~= main_file@.take(chars.len() - 4));
        main_file.substring_char(0, chars.len() - 4)
    } else {
        main_file
    };
    replace_text(out.as_str(), MAIN_STEM_PLACEHOLDER, stem)
}

/// Name of the directory, below the temporary directory, into which repositories
/// are cloned. It is emptied before every clone, so two clones must not share a
/// temporary directory at the same time.
pub const CLONE_DIR: &'static str = "cloned_repo";

/// How to fetch a repository: the operations that wipe the scratch directory and
/// create it anew, and the program to run with its arguments.
#[derive(Debug, PartialEq, Eq)]
pub struct CloneJob {
    pub scratch: String,
    pub prepare: Vec<Action>,
    pub program: String,
    pub arguments: Vec<String>,
}

/// The arguments of the shallow clone of `url` into `scratch`, of the branch
/// `branch` if one is given.
pub open spec fn clone_arguments(scratch: Seq<char>, url: Seq<char>, branch: Option<Seq<char>>) -> Seq<
    Seq<char>,
> {
    match branch {
        Some(b) => seq!["-C"@, scratch, "clone"@, "--depth"@, "1"@, "--branch"@, b, url],
        None => seq!["-C"@, scratch, "clone"@, "--depth"@, "1"@, url],
    }
}

/// The operations that leave an empty scratch directory at `scratch`.
pub open spec fn scratch_preparation(scratch: Seq<char>, exists: bool) -> Seq<ActionView> {
    if exists {
        seq![
            ActionView::RemoveDirectory { path: scratch },
            ActionView::CreateDirectory { path: scratch },
        ]
    } else {
        seq![ActionView::CreateDirectory { path: scratch }]
    }
}

/// What a clone job holds, for the repository at `url` fetched below `tmp_dir`.
pub open spec fn is_clone_job(
    job: CloneJob,
    tmp_dir: Seq<char>,
    url: Seq<char>,
    branch: Option<Seq<char>>,
    exists: bool,
) -> bool {
    &&& job.scratch@ == joined(tmp_dir, CLONE_DIR@)
    &&& action_views(job.prepare@) == scratch_preparation(job.scratch@, exists)
    &&& job.program@ == "git"@
    &&& text_views(job.arguments@) == clone_arguments(job.scratch@, url, branch)
}

/// The scratch directory below `tmp_dir`.
pub fn scratch_dir(tmp_dir: &str) -> (r: String)
    ensures
        r@ == joined(tmp_dir@, CLONE_DIR@),
{
    join(tmp_dir, CLONE_DIR)
}

/// Plans the fetch of the repository at `url`: the scratch directory below
/// `tmp_dir` is removed if it exists (`exists` says so) and created anew, and git
/// makes a shallow clone into it, pinned to `branch` if one is given.
pub fn clone_repo(tmp_dir: &str, url: &str, branch: Option<&String>, exists: bool) -> (r: CloneJob)
    ensures
        is_clone_job(
            r,
            tmp_dir@,
            url@,
            match branch {
                Some(b) => Some(b@),
                None => None,
            },
            exists,
        ),
{
    let scratch = scratch_dir(tmp_dir);
    let mut prepare: Vec<Action> = Vec::new();
    if exists {
        prepare.push(Action::RemoveDirectory { path: scratch.clone() });
    }
    prepare.push(Action::CreateDirectory { path: scratch.clone() });
    let mut arguments: Vec<String> = Vec::new();
    arguments.push(String::from_str("-C"));
    arguments.push(scratch.clone());
    arguments.push(String::from_str("clone"));
    arguments.push(String::from_str("--depth"));
    arguments.push(String::from_str("1"));
    if let Some(b) = branch {
        arguments.push(String::from_str("--branch"));
        arguments.push(b.clone());
    }
    arguments.push(url.to_owned());
    let job = CloneJob { scratch, prepare, program: String::from_str("git"), arguments };
    assert(action_views(job.prepare@) =~= scratch_preparation(job.scratch@, exists));
    assert(text_views(job.arguments@) =~= clone_arguments(
        job.scratch@,
        url@,
        match branch {
            Some(b) => Some(b@),
            None => None,
        },
    ));
    job
}

/// The root of the cloned repository, once git has ended with `code` and the
/// scratch directory holds the entries named `entries`, in the order in which it
/// lists them: the first entry, provided that git succeeded. After a clone into an
/// empty scratch directory that is the only entry; a scratch directory that is
/// still empty is a failure.
pub fn cloned_root(scratch: &str, code: Option<i32>, entries: &Vec<String>) -> (r: Result<
    String,
    Failure,
>)
    ensures
        match code {
            None => r == Err::<String, Failure>(Failure::ProcessStopped { tool: Tool::Git }),
            Some(c) => if c != 0 {
                r == Err::<String, Failure>(Failure::ProcessFailed { tool: Tool::Git, code: c })
            } else if entries.len() == 0 {
                r == Err::<String, Failure>(Failure::RepositoryNotFound)
            } else {
                r matches Ok(root) && root@ == joined(scratch@, entries[0]@)
            },
        },
{
    match check_exit(Tool::Git, code) {
        Err(e) => Err(e),
        Ok(()) => if entries.len() == 0 {
            Err(Failure::RepositoryNotFound)
        } else {
            Ok(join(scratch, entries[0].as_str()))
        },
    }
}

/// The directory above `path`; a path without one is a failure.
pub fn parrent(path: &str) -> (r: Result<String, Failure>)
    ensures
        match parent_of(path@) {
            Some(dir) => r matches Ok(d) && d@ == dir,
            None => r matches Err(e) && e@ == (crate::error::FailureView::NoParent {
                path: path@,
            }),
        },
{
    match parent(path) {
        Some(dir) => Ok(dir),
        None => Err(Failure::NoParent { path: path.to_owned() }),
    }
}

} // verus!
