//! Configuration layering and template acquisition for LaTeX document projects.
//!
//! The crate decides; it never touches the file system or starts a process. Callers
//! hand in what they observed (file contents, directory listings, exit codes) and get
//! back effective configurations, template listings and plans of file operations.

pub mod clean;
pub mod compile;
pub mod config;
pub mod document;
pub mod error;
pub mod init;
pub mod log;
pub mod opts;
pub mod paths;
pub mod plan;
pub mod templates;
pub mod text;
pub mod utils;


use vstd::prelude::*;
use crate::clean::clean;
use crate::compile::{compile, in_directory, ShellJob};
use crate::error::Failure;
use crate::log::log_subject;
use crate::opts::{
    Command, ConfigCommand, InitArgs, Opts, TemplateAddArgs, TemplateAddRepoArgs, TemplateCommand,
};
use crate::paths::joined;
use crate::templates::add_paths;
use crate::utils::with_placeholders;

verus! {

/// What a command asks for, ready to be carried out.
#[derive(Debug)]
pub enum Task {
    /// Start a document from a template.
    Init(InitArgs),
    /// Run the compiler.
    Compile(ShellJob),
    /// Run the clean command.
    Clean(ShellJob),
    /// Show what the log of the compilation of this file holds.
    Log { main_file: String },
    /// Add each of `sources`, already resolved against the working directory, as a
    /// template.
    Add { sources: Vec<String>, args: TemplateAddArgs },
    /// Fetch a repository and add what it holds as a template.
    AddRepo(TemplateAddRepoArgs),
    /// List the templates.
    List,
    /// Write a configuration file.
    CreateConfig { global: bool, force: bool },
    /// Print the configuration.
    ShowConfig { global: bool },
}

/// The request to add templates that a command makes, if it is one.
pub open spec fn addition(command: Command) -> Option<TemplateAddArgs> {
    match command {
        Command::Add(a) => Some(a),
        Command::Template(t) => match t.template_command {
            TemplateCommand::Add(a) => Some(a),
            _ => None,
        },
        _ => None,
    }
}

/// Turns the command in `opts` into the task to carry out. The only request that
/// is turned down here is one that adds several templates under one new name.
pub fn run(opts: Opts) -> (r: Result<Task, Failure>)
    ensures
        match opts.args.command {
            Command::Init(a) => r matches Ok(Task::Init(b)) && b == a,
            Command::Compile(a) => r matches Ok(Task::Compile(job)) && {
                &&& job.main_file@ == match a.main_file {
                    Some(f) => f@,
                    None => opts.config@.main_file,
                }
                &&& job.command@ == in_directory(
                    opts.config@.root,
                    with_placeholders(opts.config@.compile_cmd, job.main_file@),
                )
            },
            Command::Clean(a) => r matches Ok(Task::Clean(job)) && {
                &&& job.main_file@ == match a.main_file {
                    Some(f) => f@,
                    None => opts.config@.main_file,
                }
                &&& job.command@ == in_directory(
                    opts.config@.root,
                    with_placeholders(opts.config@.clean_cmd, job.main_file@),
                )
            },
            Command::Log(a) => r matches Ok(Task::Log { main_file }) && main_file@
                == match a.log_file {
                Some(f) => f@,
                None => opts.config@.main_file,
            },
            Command::Config(c) => match c.config_command {
                ConfigCommand::Create(x) => r matches Ok(Task::CreateConfig { global, force })
                    && global == c.global && force == x.force,
                ConfigCommand::Show => r matches Ok(Task::ShowConfig { global }) && global
                    == c.global,
            },
            Command::Template(t) => match t.template_command {
                TemplateCommand::Add(a) => true,
                TemplateCommand::AddRepo(a) => r matches Ok(Task::AddRepo(b)) && b == a,
                TemplateCommand::List => r matches Ok(Task::List),
            },
            Command::Add(a) => true,
        },
        addition(opts.args.command) matches Some(a) ==> match r {
            Ok(Task::Add { sources, args }) => {
                &&& args == a
                &&& a.rename is None || a.paths.len() == 1
                &&& sources.len() == a.paths.len()
                &&& forall|i: int|
                    0 <= i < sources.len() ==> sources[i]@ == joined(opts.cwd@, a.paths[i]@)
            },
            Ok(_) => false,
            Err(e) => a.rename is Some && a.paths.len() != 1 && e == Failure::RenameMany,
        },
{
    match opts.args.command {
        Command::Init(args) => Ok(Task::Init(args)),
        Command::Compile(args) => Ok(Task::Compile(compile(&opts.config, &args))),
        Command::Clean(args) => Ok(Task::Clean(clean(&opts.config, &args))),
        Command::Log(args) => Ok(Task::Log { main_file: log_subject(&opts.config, &args) }),
        Command::Add(args) => match add_paths(opts.cwd.as_str(), &args) {
            Ok(sources) => Ok(Task::Add { sources, args }),
            Err(e) => Err(e),
        },
        Command::Template(t) => match t.template_command {
            TemplateCommand::Add(args) => match add_paths(opts.cwd.as_str(), &args) {
                Ok(sources) => Ok(Task::Add { sources, args }),
                Err(e) => Err(e),
            },
            TemplateCommand::AddRepo(args) => Ok(Task::AddRepo(args)),
            TemplateCommand::List => Ok(Task::List),
        },
        Command::Config(c) => match c.config_command {
            ConfigCommand::Create(x) => Ok(
                Task::CreateConfig { global: c.global, force: x.force },
            ),
            ConfigCommand::Show => Ok(Task::ShowConfig { global: c.global }),
        },
    }
}

} // verus!
