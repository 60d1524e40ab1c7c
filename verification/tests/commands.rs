use blatex::clean::{clean, cleaned};
use blatex::compile::{compile, compile_file, compiled, run_in_directory};
use blatex::config::{
    create, create_global_configuration_string, create_local_configuration_string, destination,
};
use blatex::error::{check_exit, Failure, FailureKind, Tool};
use blatex::init::{
    clone_remote_template, copy_directory, init, instantiate, main_file_choices, main_file_rows,
    picked_main_file, picked_template, remote_template_root, setup, template_rows,
    template_source, Setup, Start, TemplateSource,
};
use blatex::log::{log_file, log_subject, print_log};
use blatex::opts::{
    AppDirs, Args, CleanArgs, Command, CompileArgs, Config, ConfigArgs, ConfigCommand,
    ConfigCreateArgs, InitArgs, LogArgs, Opts, RemoteTemplate, TemplateAddArgs,
    TemplateAddRepoArgs, TemplateArgs, TemplateCommand,
};
use blatex::plan::{Action, PathKind};
use blatex::templates::{add_repo, Entry, Template};
use blatex::text::{chars_of, appended, digits_of, matches_at, same_text, to_decimal};
use blatex::utils::{
    clone_repo, cloned_root, parrent, replace_path_placeholders, replace_text, scratch_dir,
};
use blatex::{run, Task};

fn settings() -> Config {
    let dirs = AppDirs {
        data_dir: "/data".to_string(),
        config_dir: "/etc/blatex".to_string(),
        cache_dir: "/cache".to_string(),
    };
    Config::from_dirs("/doc".to_string(), &dirs)
}

fn strings(items: &[&str]) -> Vec<String> {
    items.iter().map(|s| s.to_string()).collect()
}

#[test]
fn replace_text_replaces_every_occurrence() {
    assert_eq!(replace_text("a-b-c", "-", "+"), "a+b+c");
    assert_eq!(replace_text("aaa", "aa", "b"), "ba");
    assert_eq!(replace_text("abc", "x", "y"), "abc");
    assert_eq!(replace_text("", "x", "y"), "");
    assert_eq!(replace_text("xx", "x", ""), "");
    assert_eq!(replace_text("x", "xyz", "q"), "x");
    assert_eq!(replace_text("<a><a>", "<a>", "<a><a>"), "<a><a><a><a>");
    assert_eq!(replace_text("héllo wörld", "ö", "o"), "héllo world");
}

#[test]
fn replace_text_with_an_empty_pattern_puts_the_value_everywhere() {
    assert_eq!(replace_text("abc", "", "-"), "-a-b-c-");
    assert_eq!(replace_text("", "", "-"), "-");
}

#[test]
fn placeholders_are_filled_in() {
    assert_eq!(
        replace_path_placeholders("pdflatex <main-file>", "main.tex"),
        "pdflatex main.tex"
    );
    assert_eq!(
        replace_path_placeholders("rm <main-stem>.aux <main-stem>.log", "main.tex"),
        "rm main.aux main.log"
    );
    assert_eq!(
        replace_path_placeholders("x <main-file> <main-stem>", "notes.txt"),
        "x notes.txt notes.txt"
    );
    assert_eq!(replace_path_placeholders("x <main-stem>", ".tex"), "x ");
    assert_eq!(replace_path_placeholders("x <main-stem>", "tex"), "x tex");
    assert_eq!(replace_path_placeholders("nothing", "main.tex"), "nothing");
    // The file name is put in first, so a stem placeholder within it is filled too.
    assert_eq!(
        replace_path_placeholders("<main-file>", "<main-stem>.tex"),
        "<main-stem>.tex"
    );
}

#[test]
fn compile_command_runs_in_the_root() {
    let c = settings();
    let job = compile(&c, &CompileArgs { main_file: None });
    assert_eq!(job.main_file, "main.tex");
    assert_eq!(
        job.command,
        "cd \"/doc\" && pdflatex -shell-escape -interaction=nonstopmode main.tex"
    );
    let job = compile(&c, &CompileArgs { main_file: Some("other.tex".to_string()) });
    assert_eq!(job.main_file, "other.tex");
    assert_eq!(
        job.command,
        "cd \"/doc\" && pdflatex -shell-escape -interaction=nonstopmode other.tex"
    );
    let job = compile_file(&c, "sub/x.tex".to_string());
    assert_eq!(
        job.command,
        "cd \"/doc\" && pdflatex -shell-escape -interaction=nonstopmode sub/x.tex"
    );
    assert_eq!(run_in_directory("/a b", "ls"), "cd \"/a b\" && ls");
}

#[test]
fn clean_command_uses_the_stem() {
    let c = settings();
    let job = clean(&c, &CleanArgs { main_file: None });
    assert_eq!(job.command, "cd \"/doc\" && f=main.tex && rm ${f%.tex}.aux ${f%.tex}.log");
    let job = clean(&c, &CleanArgs { main_file: Some("paper.tex".to_string()) });
    assert_eq!(job.main_file, "paper.tex");
    assert_eq!(job.command, "cd \"/doc\" && f=paper.tex && rm ${f%.tex}.aux ${f%.tex}.log");
}

#[test]
fn exit_codes_are_judged() {
    assert_eq!(check_exit(Tool::Git, Some(0)), Ok(()));
    assert_eq!(
        check_exit(Tool::Git, Some(128)),
        Err(Failure::ProcessFailed { tool: Tool::Git, code: 128 })
    );
    assert_eq!(check_exit(Tool::Git, None), Err(Failure::ProcessStopped { tool: Tool::Git }));
    assert_eq!(compiled(Some(0)), Ok(()));
    assert_eq!(
        compiled(Some(1)),
        Err(Failure::ProcessFailed { tool: Tool::Compiler, code: 1 })
    );
    assert_eq!(compiled(None), Err(Failure::ProcessStopped { tool: Tool::Compiler }));
    assert_eq!(cleaned(Some(0)), Ok(()));
    assert_eq!(
        cleaned(Some(-1)),
        Err(Failure::ProcessFailed { tool: Tool::Cleaner, code: -1 })
    );
    assert_eq!(cleaned(None), Err(Failure::ProcessStopped { tool: Tool::Cleaner }));
    assert_eq!(compiled(Some(2)).unwrap_err().kind(), FailureKind::Process);
}

#[test]
fn failures_fall_into_classes() {
    assert_eq!(Failure::RenameMany.kind(), FailureKind::Usage);
    assert_eq!(Failure::SymlinkUnsupported.kind(), FailureKind::Usage);
    assert_eq!(Failure::NotAnArchive.kind(), FailureKind::Usage);
    assert_eq!(Failure::NoFileName { path: "x".to_string() }.kind(), FailureKind::Usage);
    assert_eq!(Failure::TemplateNotFound { name: "x".to_string() }.kind(), FailureKind::NotFound);
    assert_eq!(Failure::RepositoryNotFound.kind(), FailureKind::NotFound);
    assert_eq!(Failure::LogNotFound { path: "x".to_string() }.kind(), FailureKind::NotFound);
    assert_eq!(Failure::TemplateExists { name: "x".to_string() }.kind(), FailureKind::Conflict);
    assert_eq!(Failure::FileExists { path: "x".to_string() }.kind(), FailureKind::Conflict);
    assert_eq!(Failure::ProcessStopped { tool: Tool::Git }.kind(), FailureKind::Process);
    assert_eq!(Failure::Parse { message: "x".to_string() }.kind(), FailureKind::Parse);
    assert_eq!(Failure::RepositoryNotText.kind(), FailureKind::Parse);
    assert_eq!(Failure::Io { message: "x".to_string() }.kind(), FailureKind::Io);
}

#[test]
fn clone_is_shallow_and_pinned_to_the_branch() {
    let job = clone_repo("/cache/tmp", "https://example.org/r.git", None, false);
    assert_eq!(job.scratch, "/cache/tmp/cloned_repo");
    assert_eq!(job.scratch, scratch_dir("/cache/tmp"));
    assert_eq!(
        job.prepare,
        vec![Action::CreateDirectory { path: "/cache/tmp/cloned_repo".to_string() }]
    );
    assert_eq!(job.program, "git");
    assert_eq!(
        job.arguments,
        strings(&["-C", "/cache/tmp/cloned_repo", "clone", "--depth", "1", "https://example.org/r.git"])
    );
    let branch = "main".to_string();
    let job = clone_repo("/cache/tmp/", "https://example.org/r.git", Some(&branch), true);
    assert_eq!(job.scratch, "/cache/tmp/cloned_repo");
    assert_eq!(
        job.prepare,
        vec![
            Action::RemoveDirectory { path: "/cache/tmp/cloned_repo".to_string() },
            Action::CreateDirectory { path: "/cache/tmp/cloned_repo".to_string() },
        ]
    );
    assert_eq!(
        job.arguments,
        strings(&[
            "-C",
            "/cache/tmp/cloned_repo",
            "clone",
            "--depth",
            "1",
            "--branch",
            "main",
            "https://example.org/r.git"
        ])
    );
}

#[test]
fn cloned_root_is_the_first_entry() {
    let scratch = "/cache/tmp/cloned_repo";
    assert_eq!(
        cloned_root(scratch, Some(0), &strings(&["r"])),
        Ok("/cache/tmp/cloned_repo/r".to_string())
    );
    assert_eq!(cloned_root(scratch, Some(0), &vec![]), Err(Failure::RepositoryNotFound));
    assert_eq!(
        cloned_root(scratch, Some(0), &strings(&["a", "b"])),
        Ok("/cache/tmp/cloned_repo/a".to_string())
    );
    assert_eq!(
        cloned_root(scratch, Some(1), &vec![]),
        Err(Failure::ProcessFailed { tool: Tool::Git, code: 1 })
    );
    assert_eq!(
        cloned_root(scratch, Some(128), &strings(&["r"])),
        Err(Failure::ProcessFailed { tool: Tool::Git, code: 128 })
    );
    assert_eq!(
        cloned_root(scratch, None, &strings(&["r"])),
        Err(Failure::ProcessStopped { tool: Tool::Git })
    );
}

#[test]
fn archive_of_a_remote_template_is_named_after_branch_and_repository() {
    let c = settings();
    let root = "/cache/tmp/cloned_repo/Latex-Templates";
    let args = TemplateAddRepoArgs {
        url: "https://example.org/Latex-Templates".to_string(),
        branch: Some("main".to_string()),
        path: None,
        rename: None,
        force: false,
    };
    let m = add_repo(&c, root, &args, PathKind::Directory).unwrap();
    assert_eq!(m.archive, "/cache/tmp/main@Latex-Templates.zip");
    assert_eq!(
        m.actions,
        vec![Action::Archive { directory: root.to_string(), archive: m.archive.clone() }]
    );
    let args = TemplateAddRepoArgs { branch: None, ..args };
    let m = add_repo(&c, root, &args, PathKind::Directory).unwrap();
    assert_eq!(m.archive, "/cache/tmp/Latex-Templates.zip");
    assert_eq!(blatex::paths::file_name(&m.archive), Some("Latex-Templates.zip".to_string()));
    // A dot in the branch or in the name of the repository stays.
    let args = TemplateAddRepoArgs { branch: Some("v1.0".to_string()), ..args };
    let m = add_repo(&c, "/cache/tmp/cloned_repo/repo", &args, PathKind::Directory).unwrap();
    assert_eq!(m.archive, "/cache/tmp/v1.0@repo.zip");
    let args = TemplateAddRepoArgs { branch: None, ..args };
    let m = add_repo(&c, "/cache/tmp/cloned_repo/my.repo", &args, PathKind::Directory).unwrap();
    assert_eq!(m.archive, "/cache/tmp/my.repo.zip");
}

#[test]
fn path_within_a_repository() {
    let c = settings();
    let root = "/cache/tmp/cloned_repo/blatex";
    let zip = TemplateAddRepoArgs {
        url: "https://example.org/blatex".to_string(),
        branch: Some("dev".to_string()),
        path: Some("templates/basic.zip".to_string()),
        rename: None,
        force: false,
    };
    // A zip archive is taken as it is, whatever lies there.
    let m = add_repo(&c, root, &zip, PathKind::File).unwrap();
    assert_eq!(m.archive, "/cache/tmp/cloned_repo/blatex/templates/basic.zip");
    assert!(m.actions.is_empty());
    let m = add_repo(&c, root, &zip, PathKind::Missing).unwrap();
    assert_eq!(m.archive, "/cache/tmp/cloned_repo/blatex/templates/basic.zip");
    // A directory is packed.
    let dir = TemplateAddRepoArgs { path: Some("tests".to_string()), ..zip };
    let m = add_repo(&c, root, &dir, PathKind::Directory).unwrap();
    assert_eq!(m.archive, "/cache/tmp/dev@tests.zip");
    assert_eq!(
        m.actions,
        vec![Action::Archive {
            directory: "/cache/tmp/cloned_repo/blatex/tests".to_string(),
            archive: "/cache/tmp/dev@tests.zip".to_string()
        }]
    );
    // Anything else is turned down.
    assert_eq!(
        add_repo(&c, root, &dir, PathKind::File),
        Err(Failure::InvalidRepositoryPath {
            path: "tests".to_string(),
            url: "https://example.org/blatex".to_string()
        })
    );
    assert!(add_repo(&c, root, &dir, PathKind::Missing).is_err());
    // A repository root without a name cannot name a template.
    let whole = TemplateAddRepoArgs { path: None, ..dir };
    assert_eq!(
        add_repo(&c, "/", &whole, PathKind::Directory),
        Err(Failure::NoFileName { path: "/".to_string() })
    );
}

#[test]
fn local_configuration_text() {
    let c = settings();
    assert_eq!(
        create_local_configuration_string(&c),
        "# This is your local configuration for this document.\n# Options here will override global ones.\n\nmain_file = \"main.tex\"\ncompile_cmd = \"pdflatex -shell-escape -interaction=nonstopmode <main-file>\"\nclean_cmd = \"f=<main-file> && rm ${f%.tex}.aux ${f%.tex}.log\"\n                                "
    );
}

#[test]
fn global_configuration_text() {
    assert_eq!(
        create_global_configuration_string(Some("main_file = \"main.tex\"\n")),
        "\n# This is your global configuration file. Options here will always get\n# read, but may be overridden by local config files. If you delete\n# options, they will simply be set to their default value.\nmain_file = \"main.tex\"\n"
    );
    assert_eq!(
        create_global_configuration_string(None),
        "\n# This is your global configuration file. Options here will always get\n# read, but may be overridden by local config files. If you delete\n# options, they will simply be set to their default value.\n"
    );
}

#[test]
fn configuration_file_is_written_unless_it_exists() {
    let c = settings();
    let keep = ConfigCreateArgs { force: false };
    let force = ConfigCreateArgs { force: true };
    assert_eq!(destination("/doc/sub", false, "/etc/blatex/blatex.toml"), "/doc/sub/.blatex.toml");
    assert_eq!(destination("/doc/sub", true, "/etc/blatex/blatex.toml"), "/etc/blatex/blatex.toml");

    let plan = create("/doc/sub", false, &keep, &c, "/etc/blatex/blatex.toml", None, false);
    assert_eq!(plan.failure, None);
    assert_eq!(
        plan.actions,
        vec![
            Action::CreateDirectories { path: "/doc/sub".to_string() },
            Action::Write {
                path: "/doc/sub/.blatex.toml".to_string(),
                contents: create_local_configuration_string(&c)
            },
        ]
    );
    let plan = create("/doc/sub", false, &keep, &c, "/etc/blatex/blatex.toml", None, true);
    assert!(plan.actions.is_empty());
    assert_eq!(
        plan.failure,
        Some(Failure::FileExists { path: "/doc/sub/.blatex.toml".to_string() })
    );
    let plan = create("/doc/sub", false, &force, &c, "/etc/blatex/blatex.toml", None, true);
    assert_eq!(plan.failure, None);
    assert_eq!(plan.actions.len(), 2);

    let plan = create("/doc", true, &keep, &c, "/etc/blatex/blatex.toml", Some("x = 1\n"), false);
    assert_eq!(
        plan.actions,
        vec![
            Action::CreateDirectories { path: "/etc/blatex".to_string() },
            Action::Write {
                path: "/etc/blatex/blatex.toml".to_string(),
                contents: create_global_configuration_string(Some("x = 1\n"))
            },
        ]
    );
    let plan = create("/doc", true, &keep, &c, "/", None, false);
    assert!(plan.actions.is_empty());
    assert_eq!(plan.failure, Some(Failure::NoParent { path: "/".to_string() }));
}

#[test]
fn log_lies_beside_the_main_file() {
    let c = settings();
    assert_eq!(log_file("/doc", "main.tex"), "/doc/main.log");
    assert_eq!(log_file("/doc", "sub/paper.tex"), "/doc/sub/paper.log");
    assert_eq!(log_file("/doc", "/abs/paper"), "/abs/paper.log");
    assert_eq!(print_log("/doc", "main.tex", true), Ok("/doc/main.log".to_string()));
    assert_eq!(
        print_log("/doc", "main.tex", false),
        Err(Failure::LogNotFound { path: "/doc/main.log".to_string() })
    );
    assert_eq!(log_subject(&c, &LogArgs { log_file: None }), "main.tex");
    assert_eq!(log_subject(&c, &LogArgs { log_file: Some("x.log".to_string()) }), "x.log");
    assert_eq!(parrent("/doc/main.log"), Ok("/doc".to_string()));
    assert_eq!(parrent(""), Err(Failure::NoParent { path: "".to_string() }));
}

#[test]
fn initialization_starts_by_what_is_there() {
    assert_eq!(init(true, 0), Start::AlreadyInitialized);
    assert_eq!(init(true, 5), Start::AlreadyInitialized);
    assert_eq!(init(false, 0), Start::FromTemplate);
    assert_eq!(init(false, 1), Start::FromFiles);
    assert_eq!(setup(true, false, true), Setup::Keep);
    assert_eq!(setup(true, true, false), Setup::Keep);
    assert_eq!(setup(false, true, true), Setup::Write);
    assert_eq!(setup(false, false, false), Setup::Write);
    assert_eq!(setup(false, false, true), Setup::PickMainFile);
}

#[test]
fn rows_shown_by_the_picker() {
    assert_eq!(template_rows(3, None), 8);
    assert_eq!(template_rows(100, None), 8);
    assert_eq!(template_rows(3, Some(50)), 3);
    assert_eq!(template_rows(100, Some(50)), 30);
    assert_eq!(template_rows(100, Some(4)), 0);
    assert_eq!(template_rows(100, Some(24)), 12);
    assert_eq!(template_rows(0, Some(24)), 0);
    // The counts wrap.
    assert_eq!(template_rows(1000, Some(300)), -76);
    assert_eq!(template_rows(65536 + 2, Some(50)), 2);
    assert_eq!(main_file_rows(0), 0);
    assert_eq!(main_file_rows(5), 5);
    assert_eq!(main_file_rows(8), 8);
    assert_eq!(main_file_rows(9), 8);
    assert_eq!(main_file_rows(127), 8);
    assert_eq!(main_file_rows(128), -128);
    assert_eq!(main_file_rows(256), 0);
}

#[test]
fn remote_template_brings_its_own_configuration() {
    let c = settings();
    let mut own = settings();
    own.main_file = "main1.tex".to_string();
    own.temp_dir = "/other/tmp".to_string();
    let remote = RemoteTemplate {
        url: "https://example.org/blatex".to_string(),
        path: Some("tests".to_string()),
        branch: Some("main".to_string()),
        config: own,
    };
    let job = clone_remote_template("/cache/tmp", &remote, false);
    assert_eq!(job.scratch, "/cache/tmp/cloned_repo");
    assert_eq!(
        job.arguments,
        strings(&[
            "-C",
            "/cache/tmp/cloned_repo",
            "clone",
            "--depth",
            "1",
            "--branch",
            "main",
            "https://example.org/blatex"
        ])
    );
    assert_eq!(remote_template_root("/cache/tmp/cloned_repo/blatex", &remote), "/cache/tmp/cloned_repo/blatex/tests");
    let template =
        Template::Remote { name: "test-template".to_string(), remote: Box::new(remote) };
    let (config, source) = template_source(&template, c);
    assert_eq!(config.main_file, "main1.tex");
    match source {
        TemplateSource::Repository { remote } => {
            assert_eq!(remote.url, "https://example.org/blatex");
            assert_eq!(remote.branch, Some("main".to_string()));
            assert_eq!(remote.path, Some("tests".to_string()));
            assert_eq!(remote.config, config);
            let job = clone_remote_template(&config.temp_dir, &remote, true);
            assert_eq!(job.scratch, "/other/tmp/cloned_repo");
        }
        other => panic!("unexpected source: {:?}", other),
    }
    let whole = RemoteTemplate::from_url("u".to_string(), settings());
    assert_eq!(remote_template_root("/r", &whole), "/r");
}

#[test]
fn directories_are_copied_entry_by_entry() {
    let tree = vec![
        ("a.tex".to_string(), Entry::File),
        (
            "img".to_string(),
            Entry::Directory(vec![
                ("x.png".to_string(), Entry::File),
                ("odd".to_string(), Entry::Other),
                ("deep".to_string(), Entry::Directory(vec![])),
            ]),
        ),
        ("pipe".to_string(), Entry::Other),
    ];
    let copy = |s: &str, d: &str| Action::Copy { source: s.to_string(), destination: d.to_string() };
    let make = |p: &str| Action::CreateDirectory { path: p.to_string() };
    assert_eq!(
        copy_directory("/src", "/dst", &tree),
        vec![
            make("/dst"),
            copy("/src/a.tex", "/dst/a.tex"),
            make("/dst/img"),
            copy("/src/img/x.png", "/dst/img/x.png"),
            make("/dst/img/deep"),
        ]
    );
    assert_eq!(
        instantiate("/src", "/dst", PathKind::Directory, &tree),
        vec![
            copy("/src/a.tex", "/dst/a.tex"),
            make("/dst/img"),
            copy("/src/img/x.png", "/dst/img/x.png"),
            make("/dst/img/deep"),
            copy("/src/pipe", "/dst/pipe"),
        ]
    );
    assert_eq!(
        instantiate("/t/a.zip", "/dst", PathKind::File, &tree),
        vec![Action::Extract { archive: "/t/a.zip".to_string(), directory: "/dst".to_string() }]
    );
    assert_eq!(main_file_choices(&tree), vec!["a.tex"]);
    assert!(main_file_choices(&vec![]).is_empty());
}

#[test]
fn commands_become_tasks() {
    let opts = |command: Command| {
        Opts::create_mock(Args { command, config_path: None }, settings(), "/doc/sub".to_string())
    };
    let add = || TemplateAddArgs {
        paths: strings(&["a.zip", "/abs/b"]),
        symlink: false,
        rename: None,
        force: true,
    };
    match run(opts(Command::Add(add()))) {
        Ok(Task::Add { sources, args }) => {
            assert_eq!(sources, strings(&["/doc/sub/a.zip", "/abs/b"]));
            assert!(args.force);
        }
        other => panic!("unexpected task: {:?}", other),
    }
    match run(opts(Command::Template(TemplateArgs { template_command: TemplateCommand::Add(add()) }))) {
        Ok(Task::Add { sources, .. }) => assert_eq!(sources.len(), 2),
        other => panic!("unexpected task: {:?}", other),
    }
    let renamed = TemplateAddArgs { rename: Some("x".to_string()), ..add() };
    assert!(matches!(run(opts(Command::Add(renamed))), Err(Failure::RenameMany)));
    match run(opts(Command::Log(LogArgs { log_file: None }))) {
        Ok(Task::Log { main_file }) => assert_eq!(main_file, "main.tex"),
        other => panic!("unexpected task: {:?}", other),
    }
    match run(opts(Command::Log(LogArgs { log_file: Some("other.tex".to_string()) }))) {
        Ok(Task::Log { main_file }) => assert_eq!(main_file, "other.tex"),
        other => panic!("unexpected task: {:?}", other),
    }
    match run(opts(Command::Clean(CleanArgs { main_file: None }))) {
        Ok(Task::Clean(job)) => assert_eq!(job.command, "cd \"/doc\" && f=main.tex && rm ${f%.tex}.aux ${f%.tex}.log"),
        other => panic!("unexpected task: {:?}", other),
    }
    match run(opts(Command::Init(InitArgs { template: Some("t".to_string()), main: None }))) {
        Ok(Task::Init(args)) => assert_eq!(args.template, Some("t".to_string())),
        other => panic!("unexpected task: {:?}", other),
    }
    let repo = TemplateAddRepoArgs {
        url: "https://example.org/r".to_string(),
        branch: None,
        path: None,
        rename: None,
        force: false,
    };
    match run(opts(Command::Template(TemplateArgs { template_command: TemplateCommand::AddRepo(repo) }))) {
        Ok(Task::AddRepo(repo)) => assert_eq!(repo.url, "https://example.org/r"),
        other => panic!("unexpected task: {:?}", other),
    }
    assert!(matches!(
        run(opts(Command::Template(TemplateArgs { template_command: TemplateCommand::List }))),
        Ok(Task::List)
    ));
    assert!(matches!(
        run(opts(Command::Config(ConfigArgs {
            config_command: ConfigCommand::Create(ConfigCreateArgs { force: true }),
            global: true
        }))),
        Ok(Task::CreateConfig { global: true, force: true })
    ));
    assert!(matches!(
        run(opts(Command::Config(ConfigArgs { config_command: ConfigCommand::Show, global: false }))),
        Ok(Task::ShowConfig { global: false })
    ));
}

#[test]
fn messages_name_what_went_wrong() {
    let text = |s: &str| s.to_string();
    assert_eq!(
        Failure::RenameMany.message(),
        "Cannot rename when adding more than one file or directory."
    );
    assert_eq!(
        Failure::SymlinkUnsupported.message(),
        "You can only use symlinks om UNIX systems."
    );
    assert_eq!(
        Failure::NoFileName { path: text("/a/..") }.message(),
        "Cannot find file name for path '/a/..'."
    );
    assert_eq!(Failure::NotAnArchive.message(), "Templates should be zip files or directories.");
    assert_eq!(
        Failure::NotFileOrDirectory { path: text("/x") }.message(),
        "File `/x` is neither a file or directory."
    );
    assert_eq!(
        Failure::InvalidRepositoryPath { path: text("p"), url: text("u") }.message(),
        "Path `p` is not a directory, or zip archive, within repository at `u`."
    );
    assert_eq!(
        Failure::TemplateNotFound { name: text("thesis") }.message(),
        "Could not find template 'thesis'."
    );
    assert_eq!(
        Failure::RepositoryNotFound.message(),
        "Could not find cloned repository directory."
    );
    assert_eq!(
        Failure::NoProjectDirectories.message(),
        "Could not determine application directories."
    );
    assert_eq!(
        Failure::LogNotFound { path: text("/doc/main.log") }.message(),
        "Cannot find log file `/doc/main.log`."
    );
    assert_eq!(Failure::NoParent { path: text("/") }.message(), "Could not get parrent of '/'");
    assert_eq!(Failure::NoTemplateChosen.message(), "No template chosen.");
    assert_eq!(Failure::NoFileChosen.message(), "\nNo file chosen.");
    assert_eq!(
        Failure::TemplateExists { name: text("basic.zip") }.message(),
        "Template `basic.zip` already exists. Use --force to override."
    );
    assert_eq!(
        Failure::FileExists { path: text("/doc/.blatex.toml") }.message(),
        "File `/doc/.blatex.toml` already exists. Run with --force to override."
    );
    assert_eq!(Failure::Parse { message: text("expected value") }.message(), "expected value");
    assert_eq!(Failure::RepositoryNotText.message(), "ERROR: Repository url must be string.");
    assert_eq!(
        Failure::RepositoryMissing { name: text("r") }.message(),
        "ERROR: Repository for 'r' is not defined."
    );
    assert_eq!(
        Failure::MalformedRemote { name: text("r") }.message(),
        "Error in remote template 'r'. Must be string or table of options."
    );
    assert_eq!(Failure::Io { message: text("disk full") }.message(), "disk full");
}

#[test]
fn messages_echo_the_exit_code() {
    assert_eq!(
        Failure::ProcessFailed { tool: Tool::Git, code: 128 }.message(),
        "Git failed to clone repo. Exit code was 128."
    );
    assert_eq!(
        Failure::ProcessFailed { tool: Tool::Compiler, code: 1 }.message(),
        "\nCompilation process exited with non-zero exit code: 1"
    );
    assert_eq!(
        Failure::ProcessFailed { tool: Tool::Cleaner, code: -7 }.message(),
        "\nCleaning process exited with non-zero exit code: -7"
    );
    assert_eq!(
        Failure::ProcessStopped { tool: Tool::Git }.message(),
        "Git process stopped unexpectedly"
    );
    assert_eq!(
        Failure::ProcessStopped { tool: Tool::Compiler }.message(),
        "Compilation process stopped unexpectedly"
    );
    assert_eq!(
        Failure::ProcessStopped { tool: Tool::Cleaner }.message(),
        "Cleaning process stopped unexpectedly"
    );
}

#[test]
fn numbers_are_written_in_decimal() {
    assert_eq!(to_decimal(0), "0");
    assert_eq!(to_decimal(7), "7");
    assert_eq!(to_decimal(10), "10");
    assert_eq!(to_decimal(255), "255");
    assert_eq!(to_decimal(-1), "-1");
    assert_eq!(to_decimal(i32::MAX), "2147483647");
    assert_eq!(to_decimal(i32::MIN), "-2147483648");
    assert_eq!(digits_of(18446744073709551615), "18446744073709551615");
    assert_eq!(digits_of(1000), "1000");
}

#[test]
fn text_helpers() {
    assert_eq!(chars_of("añb"), vec!['a', 'ñ', 'b']);
    assert_eq!(appended("ab", "cd"), "abcd");
    assert!(same_text("x", "x"));
    assert!(!same_text("x", "y"));
    let s = chars_of("hello");
    assert!(matches_at(&s, 1, &chars_of("ell")));
    assert!(!matches_at(&s, 3, &chars_of("lox")));
    assert!(!matches_at(&s, 9, &chars_of("")));
    assert!(matches_at(&s, 5, &chars_of("")));
}

#[test]
fn nothing_picked_is_a_failure() {
    let t = Template::Local("a.zip".to_string());
    assert!(matches!(picked_template(Some(&t)), Ok(Template::Local(p)) if p == "a.zip"));
    assert!(matches!(picked_template(None), Err(Failure::NoTemplateChosen)));
    assert_eq!(picked_main_file(Some("x.tex".to_string())), Ok("x.tex".to_string()));
    assert_eq!(picked_main_file(None), Err(Failure::NoFileChosen));
    assert_eq!(Failure::NoFileChosen.kind(), FailureKind::Usage);
}

#[test]
fn refused_operations_are_reported_with_the_cause() {
    let text = |s: &str| s.to_string();
    let io = |m: &str| Failure::Io { message: m.to_string() };
    assert_eq!(
        Action::RemoveDirectory { path: text("/t/a.zip") }.refused("denied"),
        io("Could not remove directory with its children '/t/a.zip': denied")
    );
    assert_eq!(
        Action::RemoveFile { path: text("/t/a.zip") }.refused("denied"),
        io("Could not remove file '/t/a.zip': denied")
    );
    assert_eq!(
        Action::CreateDirectory { path: text("/t") }.refused("exists"),
        io("Could not create directory '/t': exists")
    );
    assert_eq!(
        Action::CreateDirectories { path: text("/t") }.refused("denied"),
        io("Could not create directory and its parrents '/t': denied")
    );
    assert_eq!(
        Action::Archive { directory: text("/src"), archive: text("/tmp/src.zip") }.refused("full"),
        io("Could not create zip archive from directory '/src': full")
    );
    assert_eq!(
        Action::Extract { archive: text("/t/a.zip"), directory: text("/doc") }.refused("bad"),
        io("Could not extract zip archive '/t/a.zip' to '/doc': bad")
    );
    assert_eq!(
        Action::Link { source: text("/a"), destination: text("/b") }.refused("no"),
        io("Could not create symling from '/a' to '/b': no")
    );
    assert_eq!(
        Action::Copy { source: text("/a"), destination: text("/b") }.refused("no"),
        io("Could not copy '/a' to '/b': no")
    );
    assert_eq!(
        Action::Write { path: text("/a"), contents: text("x") }.refused("no"),
        io("Could not write to file '/a': no")
    );
    assert_eq!(io("x").kind(), FailureKind::Io);
}
