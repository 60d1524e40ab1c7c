use blatex::error::{Failure, FailureKind};
use blatex::opts::{AppDirs, Config, TemplateAddArgs};
use blatex::templates::{get_templates, search_templates, Entry, Template};
use blatex::plan::{Action, PathKind};
use blatex::templates::{add_path, add_paths, add_target};

const TEST_DIR: &str = "/work/__tmp_test_dir__/";

fn setup() -> (Config, String) {
    let cwd = format!("{}cwd/", TEST_DIR);
    let dirs = AppDirs {
        data_dir: "/home/user/.local/share/blatex".to_string(),
        config_dir: "/home/user/.config/blatex".to_string(),
        cache_dir: "/home/user/.cache/blatex".to_string(),
    };
    let mut config = Config::from_dirs(cwd.clone(), &dirs);
    config.data_dir = format!("{}data_dir/", TEST_DIR);
    config.config_file = format!("{}config_dir/config.toml", TEST_DIR);
    config.templates_dir = format!("{}templates_dir/", TEST_DIR);
    config.temp_dir = format!("{}temp_dir/", TEST_DIR);
    config.compile_cmd = format!("{} > /dev/null", config.compile_cmd);
    config.clean_cmd = format!("{} > /dev/null", config.clean_cmd);
    (config, cwd)
}

fn destinations(actions: &Vec<Action>) -> Vec<String> {
    let mut out = Vec::new();
    for a in actions {
        match a {
            Action::Copy { destination, .. } => out.push(destination.clone()),
            Action::Link { destination, .. } => out.push(destination.clone()),
            _ => {}
        }
    }
    out
}

#[test]
fn rename_add_templates() {
    let (config, cwd) = setup();

    // Rename file
    let args = TemplateAddArgs {
        paths: vec!["../../templates/basic.zip".to_string()],
        symlink: false,
        rename: Some("template_file".to_string()),
        force: false,
    };
    let sources = add_paths(&cwd, &args).unwrap();
    assert_eq!(sources.len(), 1);
    let plan = add_path(
        &cwd,
        &config,
        &sources[0],
        args.symlink,
        args.force,
        args.rename.as_ref(),
        true,
        PathKind::File,
        PathKind::Missing,
    );
    assert_eq!(plan.failure, None);
    let written = destinations(&plan.actions);
    assert!(written.contains(&format!("{}template_file.zip", config.templates_dir)));
    assert!(!written.contains(&format!("{}basic.zip", config.templates_dir)));

    // Rename file to file within new directory
    let args = TemplateAddArgs {
        paths: vec!["../../templates/basic.zip".to_string()],
        symlink: false,
        rename: Some("dir/within/dir/awesome_template".to_string()),
        force: false,
    };
    let sources = add_paths(&cwd, &args).unwrap();
    let plan = add_path(
        &cwd,
        &config,
        &sources[0],
        args.symlink,
        args.force,
        args.rename.as_ref(),
        true,
        PathKind::File,
        PathKind::Missing,
    );
    assert_eq!(plan.failure, None);
    let written = destinations(&plan.actions);
    assert!(written.contains(&format!(
        "{}dir/within/dir/awesome_template.zip",
        config.templates_dir
    )));
    assert_eq!(
        plan.actions,
        vec![
            Action::CreateDirectories { path: config.templates_dir.clone() },
            Action::CreateDirectories {
                path: format!("{}dir/within/dir", config.templates_dir)
            },
            Action::Copy {
                source: format!("{}../../templates/basic.zip", cwd),
                destination: format!("{}dir/within/dir/awesome_template.zip", config.templates_dir),
            },
        ]
    );
    let target = add_target(&cwd, &config, "../../templates/basic.zip", args.rename.as_ref());
    assert_eq!(
        target,
        Some((
            format!("{}../../templates/basic.zip", cwd),
            format!("{}dir/within/dir/awesome_template.zip", config.templates_dir)
        ))
    );
}

fn plan_for(
    path: &str,
    symlink: bool,
    force: bool,
    rename: Option<&str>,
    can_link: bool,
    source: PathKind,
    destination: PathKind,
) -> blatex::plan::Plan {
    let (config, cwd) = setup();
    let rename = rename.map(|s| s.to_string());
    add_path(&cwd, &config, path, symlink, force, rename.as_ref(), can_link, source, destination)
}

fn templates_dir() -> String {
    format!("{}templates_dir/", TEST_DIR)
}

#[test]
fn adding_an_archive_copies_it_under_its_own_name() {
    let plan = plan_for("/src/basic.zip", false, false, None, true, PathKind::File, PathKind::Missing);
    assert_eq!(plan.failure, None);
    assert_eq!(
        plan.actions,
        vec![
            Action::CreateDirectories { path: templates_dir() },
            Action::CreateDirectories { path: format!("{}templates_dir", TEST_DIR) },
            Action::Copy {
                source: "/src/basic.zip".to_string(),
                destination: format!("{}basic.zip", templates_dir()),
            },
        ]
    );
}

#[test]
fn adding_a_directory_archives_it_first() {
    let plan =
        plan_for("/src/my.template/", false, false, None, true, PathKind::Directory, PathKind::Missing);
    assert_eq!(plan.failure, None);
    let archive = format!("{}temp_dir/my.zip", TEST_DIR);
    assert_eq!(
        plan.actions,
        vec![
            Action::CreateDirectories { path: templates_dir() },
            Action::Archive { directory: "/src/my.template/".to_string(), archive: archive.clone() },
            Action::CreateDirectories { path: format!("{}templates_dir", TEST_DIR) },
            Action::Copy { source: archive, destination: format!("{}my.zip", templates_dir()) },
        ]
    );
}

#[test]
fn added_directory_is_found_under_its_name() {
    let (config, cwd) = setup();
    let plan = add_path(
        &cwd,
        &config,
        "report",
        false,
        false,
        None,
        true,
        PathKind::Directory,
        PathKind::Missing,
    );
    let stored = match plan.actions.last() {
        Some(Action::Copy { destination, .. }) => destination.clone(),
        other => panic!("unexpected action: {:?}", other),
    };
    assert_eq!(stored, format!("{}report.zip", config.templates_dir));
    let listing = vec![("report.zip".to_string(), Entry::File)];
    let templates = get_templates(&config, &listing);
    match search_templates(&"report".to_string(), &templates) {
        Some(Template::Local(p)) => assert_eq!(p, "report.zip"),
        other => panic!("unexpected result: {:?}", other),
    }
}

#[test]
fn existing_template_is_a_conflict_without_force() {
    for kind in [PathKind::File, PathKind::Directory, PathKind::Other] {
        let plan = plan_for("/src/basic.zip", false, false, None, true, PathKind::File, kind);
        assert!(plan.actions.is_empty());
        assert_eq!(plan.failure, Some(Failure::TemplateExists { name: "basic.zip".to_string() }));
        assert_eq!(plan.failure.unwrap().kind(), FailureKind::Conflict);
    }
}

#[test]
fn force_removes_what_is_there_and_repeats_the_addition() {
    let first = plan_for("/src/basic.zip", false, true, None, true, PathKind::File, PathKind::Missing);
    let second = plan_for("/src/basic.zip", false, true, None, true, PathKind::File, PathKind::File);
    assert_eq!(first.failure, None);
    assert_eq!(second.failure, None);
    let dest = format!("{}basic.zip", templates_dir());
    assert_eq!(second.actions[0], Action::RemoveFile { path: dest.clone() });
    assert_eq!(second.actions[1..], first.actions[..]);
    let third = plan_for("/src/basic.zip", false, true, None, true, PathKind::File, PathKind::File);
    assert_eq!(third, second);
    let over_dir =
        plan_for("/src/basic.zip", false, true, None, true, PathKind::File, PathKind::Directory);
    assert_eq!(over_dir.actions[0], Action::RemoveDirectory { path: dest });
    assert_eq!(over_dir.actions[1..], first.actions[..]);
}

#[test]
fn rename_with_several_paths_fails_before_anything_is_done() {
    let (_, cwd) = setup();
    let args = TemplateAddArgs {
        paths: vec!["a.zip".to_string(), "b.zip".to_string()],
        symlink: false,
        rename: Some("x".to_string()),
        force: true,
    };
    assert_eq!(add_paths(&cwd, &args), Err(Failure::RenameMany));
    assert_eq!(Failure::RenameMany.kind(), FailureKind::Usage);
    let none = TemplateAddArgs { paths: vec![], ..args };
    assert_eq!(add_paths(&cwd, &none), Err(Failure::RenameMany));
    let several = TemplateAddArgs {
        paths: vec!["a.zip".to_string(), "/abs/b.zip".to_string()],
        symlink: false,
        rename: None,
        force: false,
    };
    assert_eq!(
        add_paths(&cwd, &several),
        Ok(vec![format!("{}a.zip", cwd), "/abs/b.zip".to_string()])
    );
    let empty = TemplateAddArgs { paths: vec![], ..several };
    assert_eq!(add_paths(&cwd, &empty), Ok(vec![]));
}

#[test]
fn links_are_made_only_where_they_can_be() {
    let plan = plan_for("/src/basic.zip", true, false, None, false, PathKind::File, PathKind::Missing);
    assert!(plan.actions.is_empty());
    assert_eq!(plan.failure, Some(Failure::SymlinkUnsupported));
    let plan = plan_for("/src/basic.zip", true, false, None, true, PathKind::File, PathKind::Missing);
    assert_eq!(plan.failure, None);
    assert_eq!(
        plan.actions.last(),
        Some(&Action::Link {
            source: "/src/basic.zip".to_string(),
            destination: format!("{}basic.zip", templates_dir()),
        })
    );
    let plan = plan_for("/src/dir", true, false, None, true, PathKind::Directory, PathKind::Missing);
    assert_eq!(
        plan.actions.last(),
        Some(&Action::Link {
            source: format!("{}temp_dir/dir.zip", TEST_DIR),
            destination: format!("{}dir.zip", templates_dir()),
        })
    );
}

#[test]
fn sources_that_cannot_be_templates_are_turned_down() {
    let plan = plan_for("/src/notes.txt", false, false, None, true, PathKind::File, PathKind::Missing);
    assert_eq!(plan.failure, Some(Failure::NotAnArchive));
    assert_eq!(plan.actions, vec![Action::CreateDirectories { path: templates_dir() }]);
    let plan = plan_for("/src/gone.zip", false, false, None, true, PathKind::Missing, PathKind::Missing);
    assert_eq!(
        plan.failure,
        Some(Failure::NotFileOrDirectory { path: "/src/gone.zip".to_string() })
    );
    let plan = plan_for("/src/fifo", false, true, None, true, PathKind::Other, PathKind::File);
    assert_eq!(plan.failure, Some(Failure::NotFileOrDirectory { path: "/src/fifo".to_string() }));
    assert_eq!(
        plan.actions,
        vec![
            Action::RemoveFile { path: format!("{}fifo.zip", templates_dir()) },
            Action::CreateDirectories { path: templates_dir() },
        ]
    );
    let plan = plan_for("/", false, false, None, true, PathKind::Directory, PathKind::Missing);
    assert!(plan.actions.is_empty());
    assert_eq!(plan.failure, Some(Failure::NoFileName { path: "/".to_string() }));
    let plan = plan_for("..", false, false, None, true, PathKind::Directory, PathKind::Missing);
    assert_eq!(
        plan.failure,
        Some(Failure::NoFileName { path: format!("{}cwd/..", TEST_DIR) })
    );
    let (config, cwd) = setup();
    assert_eq!(add_target(&cwd, &config, "..", None), None);
}

#[test]
fn new_name_gets_zip_appended() {
    let plan =
        plan_for("/src/basic.zip", false, false, Some("v1.2"), true, PathKind::File, PathKind::Missing);
    assert_eq!(
        plan.actions.last(),
        Some(&Action::Copy {
            source: "/src/basic.zip".to_string(),
            destination: format!("{}v1.2.zip", templates_dir()),
        })
    );
}

#[test]
fn current_directory_is_added_under_its_own_name() {
    let plan = plan_for(".", false, false, None, true, PathKind::Directory, PathKind::Missing);
    assert_eq!(plan.failure, None);
    let archive = format!("{}temp_dir/cwd.zip", TEST_DIR);
    assert_eq!(
        plan.actions,
        vec![
            Action::CreateDirectories { path: templates_dir() },
            Action::Archive { directory: format!("{}cwd/.", TEST_DIR), archive: archive.clone() },
            Action::CreateDirectories { path: format!("{}templates_dir", TEST_DIR) },
            Action::Copy { source: archive, destination: format!("{}cwd.zip", templates_dir()) },
        ]
    );
}
