//! Writing configuration files.

use vstd::prelude::*;
use crate::error::{Failure, FailureView};
use crate::opts::{Config, ConfigCreateArgs, ConfigView, LOCAL_CONFIG_FILE};
use crate::paths::{join, joined, parent, parent_of};
use crate::plan::{Action, ActionView, Plan, PlanView};
use crate::text::appended;

verus! {

/// The comment at the head of a local configuration file.
pub const LOCAL_HEADER: &'static str =
    "# This is your local configuration for this document.\n# Options here will override global ones.\n";

/// The comment at the head of the global configuration file.
pub const GLOBAL_HEADER: &'static str =
    "\n# This is your global configuration file. Options here will always get\n# read, but may be overridden by local config files. If you delete\n# options, they will simply be set to their default value.\n";

/// What follows the last setting of a local configuration file.
pub const LOCAL_FOOTER: &'static str = "\"\n                                ";

/// The text of a local configuration file with the settings of `c`.
pub open spec fn local_configuration(c: ConfigView) -> Seq<char> {
    LOCAL_HEADER@ + "\nmain_file = \""@ + c.main_file + "\"\ncompile_cmd = \""@ + c.compile_cmd
        + "\"\nclean_cmd = \""@ + c.clean_cmd + LOCAL_FOOTER@
}

/// The text of the global configuration file, given the settings written out as
/// TOML, or `None` where they could not be written out.
pub open spec fn global_configuration(serialized: Option<Seq<char>>) -> Seq<char> {
    match serialized {
        Some(s) => GLOBAL_HEADER@ + s,
        None => GLOBAL_HEADER@,
    }
}

/// Writes out the text of a local configuration file: the main file and the two
/// commands of `config`.
pub fn create_local_configuration_string(config: &Config) -> (r: String)
    ensures
        r@ == local_configuration(config@),
{
    let mut out = appended(LOCAL_HEADER, "\nmain_file = \"");
    out.append(config.main_file.as_str());
    out.append("\"\ncompile_cmd = \"");
    out.append(config.compile_cmd.as_str());
    out.append("\"\nclean_cmd = \"");
    out.append(config.clean_cmd.as_str());
    out.append(LOCAL_FOOTER);
    out
}

/// Writes out the text of the global configuration file around the settings in
/// TOML.
pub fn create_global_configuration_string(serialized: Option<&str>) -> (r: String)
    ensures
        r@ == global_configuration(
            match serialized {
                Some(s) => Some(s@),
                None => None,
            },
        ),
{
    match serialized {
        Some(s) => appended(GLOBAL_HEADER, s),
        None => {
            proof {
                reveal_strlit("");
                assert(GLOBAL_HEADER@ + ""@ =~= GLOBAL_HEADER@);
            }
            appended(GLOBAL_HEADER, "")
        },
    }
}

/// Where a configuration file is written: the global one at `global_file`, a
/// local one under its fixed name in `cwd`.
pub open spec fn configuration_path(cwd: Seq<char>, global: bool, global_file: Seq<char>) -> Seq<
    char,
> {
    if global {
        global_file
    } else {
        joined(cwd, LOCAL_CONFIG_FILE@)
    }
}

/// The path at which [`create`] writes.
pub fn destination(cwd: &str, global: bool, global_file: &str) -> (r: String)
    ensures
        r@ == configuration_path(cwd@, global, global_file@),
{
    if global {
        global_file.to_owned()
    } else {
        join(cwd, LOCAL_CONFIG_FILE)
    }
}

/// The plan for writing a configuration file: nothing but a failure where a file
/// exists and may not be replaced, or where the path has no directory above it;
/// else the directory is created and the text written.
pub open spec fn creation(
    cwd: Seq<char>,
    global: bool,
    force: bool,
    config: ConfigView,
    global_file: Seq<char>,
    serialized: Option<Seq<char>>,
    exists: bool,
) -> PlanView {
    let path = configuration_path(cwd, global, global_file);
    let contents = if global {
        global_configuration(serialized)
    } else {
        local_configuration(config)
    };
    if !force && exists {
        PlanView { actions: Seq::empty(), failure: Some(FailureView::FileExists { path }) }
    } else {
        match parent_of(path) {
            None => PlanView {
                actions: Seq::empty(),
                failure: Some(FailureView::NoParent { path }),
            },
            Some(dir) => PlanView {
                actions: seq![
                    ActionView::CreateDirectories { path: dir },
                    ActionView::Write { path, contents },
                ],
                failure: None,
            },
        }
    }
}

/// Plans the writing of a configuration file with the settings of `config`: the
/// global file, whose place is `global_file`, or a local one in `cwd`.
/// `serialized` holds the settings as TOML, for the global file; `exists` says
/// whether a file already lies at the destination.
pub fn create(
    cwd: &str,
    global: bool,
    args: &ConfigCreateArgs,
    config: &Config,
    global_file: &str,
    serialized: Option<&str>,
    exists: bool,
) -> (r: Plan)
    ensures
        r@ == creation(
            cwd@,
            global,
            args.force,
            config@,
            global_file@,
            match serialized {
                Some(s) => Some(s@),
                None => None,
            },
            exists,
        ),
{
    let toml = if global {
        create_global_configuration_string(serialized)
    } else {
        create_local_configuration_string(config)
    };
    let dest = destination(cwd, global, global_file);
    if !args.force && exists {
        let plan = Plan { actions: Vec::new(), failure: Some(Failure::FileExists { path: dest }) };
        assert(plan@.actions =~= Seq::empty());
        return plan;
    }
    let config_dir = match parent(dest.as_str()) {
        Some(d) => d,
        None => {
            let plan = Plan {
                actions: Vec::new(),
                failure: Some(Failure::NoParent { path: dest }),
            };
            assert(plan@.actions =~= Seq::empty());
            return plan;
        },
    };
    let mut actions: Vec<Action> = Vec::new();
    actions.push(Action::CreateDirectories { path: config_dir });
    actions.push(Action::Write { path: dest, contents: toml });
    let plan = Plan { actions, failure: None };
    assert(plan@.actions =~= seq![
        ActionView::CreateDirectories { path: config_dir@ },
        ActionView::Write { path: dest@, contents: toml@ },
    ]);
    plan
}

} // verus!
