//! The registry of templates: listing it, finding a template by name, and planning
//! the file operations that add one.

use vstd::prelude::*;
use crate::error::{Failure, FailureView};
use crate::opts::{
    remotes_view, text_view, Config, ConfigView, RemoteTemplate, RemoteTemplateView,
    TemplateAddArgs, TemplateAddRepoArgs,
};
use crate::plan::{action_views, Action, ActionView, PathKind, Plan, PlanView};
use crate::paths::{
    archive_name, bare_len, file_name, file_name_of, has_zip_extension, is_component,
    is_zip_path, join,
    joined, lemma_relative_to_joined, parent, parent_of, relative_to, to_archive_name,
};
use crate::text::{appended, same_text, text_views};

verus! {

/// A template that can be instantiated.
#[derive(Debug)]
pub enum Template {
    /// An archive in the templates directory, by its path relative to that directory.
    Local(String),
    /// A template declared in the configuration, fetched when it is used.
    Remote { name: String, remote: Box<RemoteTemplate> },
}

/// What a [`Template`] holds, as mathematical values.
pub enum TemplateView {
    Local(Seq<char>),
    Remote { name: Seq<char>, remote: RemoteTemplateView },
}

impl View for Template {
    type V = TemplateView;

    open spec fn view(&self) -> TemplateView {
        match *self {
            Template::Local(p) => TemplateView::Local(p@),
            Template::Remote { name, remote } => TemplateView::Remote {
                name: name@,
                remote: (*remote)@,
            },
        }
    }
}

/// How a template is shown in a listing: a local one by its path, a remote one by
/// its name followed by ` (remote)`.
pub open spec fn label_of(t: TemplateView) -> Seq<char> {
    match t {
        TemplateView::Local(p) => p,
        TemplateView::Remote { name, remote } => name + " (remote)"@,
    }
}

impl Template {
    /// The text under which this template is shown in a listing.
    pub fn to_string(&self) -> (r: String)
        ensures
            r@ == label_of(self@),
    {
        match self {
            Template::Local(p) => p.clone(),
            Template::Remote { name, remote: _ } => appended(name.as_str(), " (remote)"),
        }
    }
}

/// What a directory holds under one name.
#[derive(Debug)]
pub enum Entry {
    /// A regular file.
    File,
    /// A directory, with its own entries in the order in which it lists them.
    Directory(Vec<(String, Entry)>),
    /// Anything else.
    Other,
}

/// The paths of all regular files below a directory at `dir` that holds `entries`,
/// in the order of a walk that descends into each directory as it comes to it.
pub open spec fn files_below(dir: Seq<char>, entries: Seq<(String, Entry)>) -> Seq<Seq<char>>
    decreases entries,
{
    if entries.len() == 0 {
        Seq::empty()
    } else {
        files_below(dir, entries.drop_last()) + files_at(dir, entries.last())
    }
}

/// The paths of the regular files that one entry of a directory at `dir` stands for.
pub open spec fn files_at(dir: Seq<char>, entry: (String, Entry)) -> Seq<Seq<char>>
    decreases entry,
{
    match entry.1 {
        Entry::File => seq![joined(dir, entry.0@)],
        Entry::Directory(inner) => files_below(joined(dir, entry.0@), inner@),
        Entry::Other => Seq::empty(),
    }
}

/// Collects the paths of all regular files below the directory `templates_dir`,
/// whose entries are `entries`.
pub fn get_local_templates(templates_dir: &str, entries: &Vec<(String, Entry)>) -> (r: Vec<String>)
    ensures
        text_views(r@) == files_below(templates_dir@, entries@),
    decreases entries,
{
    let mut templates: Vec<String> = Vec::new();
    let mut i: usize = 0;
    assert(entries@.take(0) =~= Seq::empty());
    assert(text_views(templates@) =~= Seq::empty());
    while i < entries.len()
        invariant
            i <= entries.len(),
            text_views(templates@) == files_below(templates_dir@, entries@.take(i as int)),
        decreases entries.len() - i,
    {
        let ghost before = templates@;
        let ghost entry = entries@[i as int];
        proof {
            assert(entries@.take(i + 1).drop_last() =~= entries@.take(i as int));
            assert(entries@.take(i + 1).last() == entry);
        }
        match &entries[i].1 {
            Entry::File => {
                templates.push(join(templates_dir, entries[i].0.as_str()));
                assert(text_views(templates@) =~= text_views(before) + files_at(templates_dir@, entry));
            },
            Entry::Directory(inner) => {
                let path = join(templates_dir, entries[i].0.as_str());
                let mut found = get_local_templates(path.as_str(), inner);
                let ghost added = found@;
                templates.append(&mut found);
                assert(text_views(templates@) =~= text_views(before) + text_views(added));
            },
            Entry::Other => {
                assert(text_views(templates@) =~= text_views(before) + files_at(templates_dir@, entry));
            },
        }
        i += 1;
    }
    assert(entries@.take(entries.len() as int) =~= entries@);
    templates
}

/// The registry for a templates directory that holds `entries`, with the remote
/// templates `remotes`: one local template for each regular file, named by its path
/// relative to the templates directory, followed by the remote templates.
pub open spec fn registry(
    entries: Seq<(String, Entry)>,
    remotes: Seq<(Seq<char>, RemoteTemplateView)>,
) -> Seq<TemplateView> {
    files_below(Seq::empty(), entries).map_values(|p: Seq<char>| TemplateView::Local(p))
        + remotes.map_values(
        |r: (Seq<char>, RemoteTemplateView)| TemplateView::Remote { name: r.0, remote: r.1 },
    )
}

/// The views of the templates in `list`.
pub open spec fn template_views(list: Seq<Template>) -> Seq<TemplateView> {
    Seq::new(list.len(), |i: int| list[i]@)
}

/// Lists the templates: the local ones, found in the walk of the templates
/// directory whose entries are `entries`, before the remote ones that `config`
/// declares. A templates directory that does not exist has no entries.
pub fn get_templates(config: &Config, entries: &Vec<(String, Entry)>) -> (r: Vec<Template>)
    ensures
        template_views(r@) == registry(entries@, config@.remote_templates),
{
    let files = get_local_templates("", entries);
    proof {
        reveal_strlit("");
        assert(""@ =~= Seq::<char>::empty());
    }
    let ghost local_paths = files_below(Seq::empty(), entries@);
    let mut templates: Vec<Template> = Vec::new();
    let mut i: usize = 0;
    while i < files.len()
        invariant
            i <= files.len(),
            text_views(files@) == local_paths,
            templates.len() == i,
            forall|j: int| 0 <= j < i ==> templates[j]@ == TemplateView::Local(local_paths[j]),
        decreases files.len() - i,
    {
        assert(text_views(files@)[i as int] == files@[i as int]@);
        templates.push(Template::Local(files[i].clone()));
        i += 1;
    }
    let ghost remotes = config@.remote_templates;
    let mut k: usize = 0;
    while k < config.remote_templates.len()
        invariant
            k <= config.remote_templates.len(),
            remotes == remotes_view(config.remote_templates@),
            text_views(files@) == local_paths,
            templates.len() == files.len() + k,
            forall|j: int|
                0 <= j < files.len() ==> templates[j]@ == TemplateView::Local(local_paths[j]),
            forall|j: int|
                0 <= j < k ==> templates[files.len() + j]@ == (TemplateView::Remote {
                    name: remotes[j].0,
                    remote: remotes[j].1,
                }),
        decreases config.remote_templates.len() - k,
    {
        let entry = &config.remote_templates[k];
        templates.push(
            Template::Remote { name: entry.0.clone(), remote: Box::new(entry.1.clone()) },
        );
        k += 1;
    }
    assert(template_views(templates@) =~= registry(entries@, config@.remote_templates));
    templates
}

/// Whether a template goes by `name`: a local one if its path is `name` followed by
/// `.zip`, a remote one if it is declared under exactly that name.
pub open spec fn answers_to(t: TemplateView, name: Seq<char>) -> bool {
    match t {
        TemplateView::Local(p) => p == name + ".zip"@,
        TemplateView::Remote { name: n, remote } => n == name,
    }
}

/// Position of the first template of `list` that goes by `name`, if there is one.
pub open spec fn found_at(list: Seq<Template>, name: Seq<char>) -> Option<int>
    decreases list.len(),
{
    if list.len() == 0 {
        None
    } else if answers_to(list[0]@, name) {
        Some(0)
    } else {
        match found_at(list.skip(1), name) {
            Some(i) => Some(i + 1),
            None => None,
        }
    }
}

/// `found_at` finds the first template that goes by the name and nothing else.
pub proof fn lemma_found_at(list: Seq<Template>, name: Seq<char>)
    ensures
        match found_at(list, name) {
            Some(i) => 0 <= i < list.len() && answers_to(list[i]@, name) && forall|j: int|
                0 <= j < i ==> !answers_to(#[trigger] list[j]@, name),
            None => forall|j: int| 0 <= j < list.len() ==> !answers_to(#[trigger] list[j]@, name),
        },
    decreases list.len(),
{
    if list.len() > 0 && !answers_to(list[0]@, name) {
        let rest = list.skip(1);
        lemma_found_at(rest, name);
        match found_at(rest, name) {
            Some(i) => {
                assert(rest[i] == list[i + 1]);
                assert forall|j: int| 0 <= j < i + 1 implies !answers_to(
                    #[trigger] list[j]@,
                    name,
                ) by {
                    if j > 0 {
                        assert(rest[j - 1] == list[j]);
                    }
                }
            },
            None => {
                assert forall|j: int| 0 <= j < list.len() implies !answers_to(
                    #[trigger] list[j]@,
                    name,
                ) by {
                    if j > 0 {
                        assert(rest[j - 1] == list[j]);
                    }
                }
            },
        }
    }
}

/// Whether `template` goes by `name`.
pub fn goes_by(template: &Template, name: &str) -> (r: bool)
    ensures
        r == answers_to(template@, name@),
{
    match template {
        Template::Local(p) => {
            let archive = appended(name, ".zip");
            same_text(p.as_str(), archive.as_str())
        },
        Template::Remote { name: n, remote: _ } => same_text(n.as_str(), name),
    }
}

/// Searches for the template that goes by `name`: the first one in `templates` that
/// does.
pub fn search_templates<'a>(name: &String, templates: &'a Vec<Template>) -> (r: Option<
    &'a Template,
>)
    ensures
        match found_at(templates@, name@) {
            Some(i) => r is Some && *r->0 == templates[i],
            None => r is None,
        },
{
    let mut i: usize = 0;
    while i < templates.len()
        invariant
            i <= templates.len(),
            forall|j: int| 0 <= j < i ==> !answers_to(#[trigger] templates[j]@, name@),
        decreases templates.len() - i,
    {
        if goes_by(&templates[i], name.as_str()) {
            proof {
                lemma_found_at(templates@, name@);
                assert(answers_to(templates@[i as int]@, name@));
            }
            return Some(&templates[i]);
        }
        i += 1;
    }
    proof {
        lemma_found_at(templates@, name@);
        if found_at(templates@, name@) is Some {
            assert(answers_to(templates@[found_at(templates@, name@)->0]@, name@));
        }
    }
    None
}

/// A local template stored under `name` followed by `.zip` is what a search for
/// `name` returns, also where a remote template is declared under the same name:
/// in a registry the local templates come first.
pub proof fn lemma_local_template_found(
    list: Seq<Template>,
    entries: Seq<(String, Entry)>,
    remotes: Seq<(Seq<char>, RemoteTemplateView)>,
    name: Seq<char>,
    k: int,
)
    requires
        template_views(list) == registry(entries, remotes),
        0 <= k < files_below(Seq::empty(), entries).len(),
        files_below(Seq::empty(), entries)[k] == name + ".zip"@,
    ensures
        found_at(list, name) matches Some(i) && list[i]@ == TemplateView::Local(name + ".zip"@),
{
    lemma_found_at(list, name);
    let views = template_views(list);
    let files = files_below(Seq::empty(), entries);
    let locals = files.map_values(|p: Seq<char>| TemplateView::Local(p));
    assert(views.len() == list.len());
    assert(locals.len() == files.len());
    assert(views.len() >= locals.len());
    assert(views[k] == list[k]@);
    assert(views[k] == locals[k]);
    assert(answers_to(list[k]@, name));
    let i = found_at(list, name)->0;
    if i > k {
        assert(!answers_to(list[k]@, name));
    }
    assert(views[i] == list[i]@);
    assert(views[i] == locals[i]);
}

/// The name under which a template is stored: the new name if one is given, else
/// the stem of the source's file name; either way followed by `.zip`.
pub open spec fn template_key(name: Seq<char>, rename: Option<Seq<char>>) -> Seq<char> {
    match rename {
        Some(new_name) => new_name + ".zip"@,
        None => archive_name(name),
    }
}

/// The operations that clear the way for a template at `destination` and make sure
/// that the templates directory exists.
pub open spec fn clearing(templates_dir: Seq<char>, destination: Seq<char>, kind: PathKind) -> Seq<
    ActionView,
> {
    let make = seq![ActionView::CreateDirectories { path: templates_dir }];
    match kind {
        PathKind::Missing => make,
        PathKind::Directory => seq![ActionView::RemoveDirectory { path: destination }] + make,
        _ => seq![ActionView::RemoveFile { path: destination }] + make,
    }
}

/// The operations that put the archive `file` in place at `destination`.
pub open spec fn writing(symlink: bool, file: Seq<char>, destination: Seq<char>) -> Seq<
    ActionView,
> {
    seq![
        ActionView::CreateDirectories { path: parent_of(destination)->0 },
        if symlink {
            ActionView::Link { source: file, destination }
        } else {
            ActionView::Copy { source: file, destination }
        },
    ]
}

/// The plan for adding the source at `path` as a template.
///
/// The path is resolved against `cwd` first. A source without a file name, or a
/// request for a link where `can_link` is false, fails before anything is done; so
/// does a destination that is taken (`destination` is not `Missing`) unless `force`
/// is set. Otherwise the destination is cleared, and then the source decides: a
/// directory is packed into an archive in the temporary directory and that archive
/// is stored; a file is stored as it is if it is a zip archive; anything else is a
/// failure, reported after the destination was cleared.
pub open spec fn add_plan(
    cwd: Seq<char>,
    config: ConfigView,
    path: Seq<char>,
    symlink: bool,
    force: bool,
    rename: Option<Seq<char>>,
    can_link: bool,
    source: PathKind,
    destination: PathKind,
) -> PlanView {
    let from = joined(cwd, path);
    match file_name_of(from) {
        None => PlanView {
            actions: Seq::empty(),
            failure: Some(FailureView::NoFileName { path: from }),
        },
        Some(name) => {
            let to = joined(config.templates_dir, template_key(name, rename));
            if symlink && !can_link {
                PlanView { actions: Seq::empty(), failure: Some(FailureView::SymlinkUnsupported) }
            } else if destination != PathKind::Missing && !force {
                PlanView {
                    actions: Seq::empty(),
                    failure: Some(FailureView::TemplateExists { name }),
                }
            } else {
                let clear = clearing(config.templates_dir, to, destination);
                match source {
                    PathKind::Directory => {
                        let archive = joined(config.temp_dir, archive_name(name));
                        PlanView {
                            actions: clear + seq![
                                ActionView::Archive { directory: from, archive },
                            ] + writing(symlink, archive, to),
                            failure: None,
                        }
                    },
                    PathKind::File => if is_zip_path(from) {
                        PlanView { actions: clear + writing(symlink, from, to), failure: None }
                    } else {
                        PlanView { actions: clear, failure: Some(FailureView::NotAnArchive) }
                    },
                    _ => PlanView {
                        actions: clear,
                        failure: Some(FailureView::NotFileOrDirectory { path: from }),
                    },
                }
            }
        },
    }
}

/// A path that ends in a template key has a parent.
pub proof fn lemma_destination_has_parent(dir: Seq<char>, name: Seq<char>, rename: Option<Seq<char>>)
    ensures
        parent_of(joined(dir, template_key(name, rename))) is Some,
{
    reveal_strlit(".zip");
    let key = template_key(name, rename);
    let to = joined(dir, key);
    assert(key.last() == 'p');
    assert(to.last() == 'p');
    assert(bare_len(to) == to.len());
}

/// Where the template for the source at `path` is stored, and the source itself
/// resolved against `cwd`: what to look at before the plan is made.
pub fn add_target(cwd: &str, config: &Config, path: &str, rename: Option<&String>) -> (r: Option<
    (String, String),
>)
    ensures
        match file_name_of(joined(cwd@, path@)) {
            Some(name) => r matches Some(found) && found.0@ == joined(cwd@, path@) && found.1@
                == joined(
                config@.templates_dir,
                template_key(
                    name,
                    match rename {
                        Some(n) => Some(n@),
                        None => None,
                    },
                ),
            ),
            None => r is None,
        },
{
    let from = join(cwd, path);
    match file_name(from.as_str()) {
        Some(name) => {
            let key = match rename {
                Some(new_name) => appended(new_name.as_str(), ".zip"),
                None => to_archive_name(name.as_str()),
            };
            let to = join(config.templates_dir.as_str(), key.as_str());
            Some((from, to))
        },
        None => None,
    }
}

/// Plans the addition of the source at `path` as a template. `source` and
/// `destination` say what lies at the two paths that [`add_target`] gives.
pub fn add_path(
    cwd: &str,
    config: &Config,
    path: &str,
    symlink: bool,
    force: bool,
    rename: Option<&String>,
    can_link: bool,
    source: PathKind,
    destination: PathKind,
) -> (r: Plan)
    ensures
        r@ == add_plan(
            cwd@,
            config@,
            path@,
            symlink,
            force,
            match rename {
                Some(n) => Some(n@),
                None => None,
            },
            can_link,
            source,
            destination,
        ),
{
    let ghost new_name = match rename {
        Some(n) => Some(n@),
        None => None,
    };
    let ghost expected = add_plan(
        cwd@,
        config@,
        path@,
        symlink,
        force,
        new_name,
        can_link,
        source,
        destination,
    );
    let from = join(cwd, path);
    let name = match file_name(from.as_str()) {
        Some(n) => n,
        None => {
            let plan = Plan {
                actions: Vec::new(),
                failure: Some(Failure::NoFileName { path: from }),
            };
            assert(plan@.actions =~= expected.actions);
            return plan;
        },
    };
    if symlink && !can_link {
        let plan = Plan { actions: Vec::new(), failure: Some(Failure::SymlinkUnsupported) };
        assert(plan@.actions =~= expected.actions);
        return plan;
    }
    let key = match rename {
        Some(new_name) => appended(new_name.as_str(), ".zip"),
        None => to_archive_name(name.as_str()),
    };
    let to = join(config.templates_dir.as_str(), key.as_str());
    if destination != PathKind::Missing && !force {
        let plan = Plan { actions: Vec::new(), failure: Some(Failure::TemplateExists { name }) };
        assert(plan@.actions =~= expected.actions);
        return plan;
    }
    let mut actions: Vec<Action> = Vec::new();
    match destination {
        PathKind::Missing => {},
        PathKind::Directory => {
            actions.push(Action::RemoveDirectory { path: to.clone() });
        },
        _ => {
            actions.push(Action::RemoveFile { path: to.clone() });
        },
    }
    actions.push(Action::CreateDirectories { path: config.templates_dir.clone() });
    let ghost clear = clearing(config@.templates_dir, to@, destination);
    assert(action_views(actions@) =~= clear);
    let file = match source {
        PathKind::Directory => {
            let archive = join(config.temp_dir.as_str(), to_archive_name(name.as_str()).as_str());
            actions.push(Action::Archive { directory: from, archive: archive.clone() });
            archive
        },
        PathKind::File => {
            if !has_zip_extension(from.as_str()) {
                let plan = Plan { actions, failure: Some(Failure::NotAnArchive) };
                assert(plan@.actions =~= expected.actions);
                return plan;
            }
            from
        },
        _ => {
            let plan = Plan { actions, failure: Some(Failure::NotFileOrDirectory { path: from }) };
            assert(plan@.actions =~= expected.actions);
            return plan;
        },
    };
    proof {
        lemma_destination_has_parent(config@.templates_dir, name@, new_name);
    }
    let above = match parent(to.as_str()) {
        Some(dir) => dir,
        None => String::new(),
    };
    actions.push(Action::CreateDirectories { path: above });
    if symlink {
        actions.push(Action::Link { source: file, destination: to });
    } else {
        actions.push(Action::Copy { source: file, destination: to });
    }
    let plan = Plan { actions, failure: None };
    assert(plan@.actions =~= expected.actions);
    plan
}

/// Checks a request to add several sources at once and resolves each of its paths
/// against `cwd`, before anything is done for any of them. A new name can only be
/// given for a single source.
pub fn add_paths(cwd: &str, args: &TemplateAddArgs) -> (r: Result<Vec<String>, Failure>)
    ensures
        match r {
            Ok(sources) => (args.rename is None || args.paths.len() == 1) && sources.len()
                == args.paths.len() && forall|i: int|
                0 <= i < sources.len() ==> sources[i]@ == joined(cwd@, args.paths[i]@),
            Err(e) => args.rename is Some && args.paths.len() != 1 && e == Failure::RenameMany,
        },
{
    if args.rename.is_some() && args.paths.len() != 1 {
        return Err(Failure::RenameMany);
    }
    let mut sources: Vec<String> = Vec::new();
    let mut i: usize = 0;
    while i < args.paths.len()
        invariant
            i <= args.paths.len(),
            sources.len() == i,
            forall|j: int| 0 <= j < i ==> sources[j]@ == joined(cwd@, args.paths[j]@),
        decreases args.paths.len() - i,
    {
        sources.push(join(cwd, args.paths[i].as_str()));
        i += 1;
    }
    Ok(sources)
}

/// The name that a template taken from a repository gets: the name of what was
/// taken, marked with the branch if one was asked for.
pub open spec fn remote_name(name: Seq<char>, branch: Option<Seq<char>>) -> Seq<char> {
    match branch {
        Some(b) => b + "@"@ + name,
        None => name,
    }
}

/// What becomes of a cloned repository: the operations that turn it into an
/// archive, and the path of that archive.
#[derive(Debug, PartialEq, Eq)]
pub struct Materialized {
    pub actions: Vec<Action>,
    pub archive: String,
}

/// How the template in the repository cloned to `root` is turned into an archive.
///
/// The template is the repository itself or what lies at `path` within it. A zip
/// archive at `path` is used as it is. Otherwise the template must be a directory
/// (`target` says what lies there) and is packed into an archive in the temporary
/// directory, whose name is the name of the directory, marked with the branch,
/// followed by `.zip`.
pub open spec fn materialized(
    config: ConfigView,
    root: Seq<char>,
    url: Seq<char>,
    branch: Option<Seq<char>>,
    path: Option<Seq<char>>,
    target: PathKind,
) -> Result<(Seq<ActionView>, Seq<char>), FailureView> {
    let from = match path {
        Some(sub) => joined(root, sub),
        None => root,
    };
    let is_zip = path is Some && is_zip_path(from);
    if path is Some && target != PathKind::Directory && !is_zip {
        Err(FailureView::InvalidRepositoryPath { path: path->0, url })
    } else {
        match file_name_of(from) {
            None => Err(FailureView::NoFileName { path: from }),
            Some(name) => if is_zip {
                Ok((Seq::empty(), from))
            } else {
                let archive = joined(config.temp_dir, remote_name(name, branch) + ".zip"@);
                Ok((seq![ActionView::Archive { directory: from, archive }], archive))
            },
        }
    }
}

/// Plans how the template in the repository cloned to `root` becomes an archive.
/// The archive is then added like any local source, under `args.rename` and
/// `args.force`.
pub fn add_repo(config: &Config, root: &str, args: &TemplateAddRepoArgs, target: PathKind) -> (r:
    Result<Materialized, Failure>)
    ensures
        match materialized(
            config@,
            root@,
            args.url@,
            text_view(args.branch),
            text_view(args.path),
            target,
        ) {
            Ok(outcome) => r matches Ok(m) && action_views(m.actions@) == outcome.0 && m.archive@
                == outcome.1,
            Err(e) => r matches Err(f) && f@ == e,
        },
{
    let mut is_zip = false;
    let from = match &args.path {
        Some(sub) => {
            let p = join(root, sub.as_str());
            is_zip = has_zip_extension(p.as_str());
            if target != PathKind::Directory && !is_zip {
                return Err(
                    Failure::InvalidRepositoryPath { path: sub.clone(), url: args.url.clone() },
                );
            }
            p
        },
        None => root.to_owned(),
    };
    let name = match file_name(from.as_str()) {
        Some(n) => match &args.branch {
            Some(b) => {
                let marked = appended(b.as_str(), "@");
                appended(marked.as_str(), n.as_str())
            },
            None => n,
        },
        None => {
            return Err(Failure::NoFileName { path: from });
        },
    };
    if is_zip {
        let m = Materialized { actions: Vec::new(), archive: from };
        assert(action_views(m.actions@) =~= Seq::empty());
        Ok(m)
    } else {
        let archive = join(config.temp_dir.as_str(), appended(name.as_str(), ".zip").as_str());
        let mut actions: Vec<Action> = Vec::new();
        actions.push(Action::Archive { directory: from, archive: archive.clone() });
        let m = Materialized { actions, archive };
        assert(action_views(m.actions@) =~= seq![
            ActionView::Archive { directory: from@, archive: m.archive@ },
        ]);
        Ok(m)
    }
}

/// Adding without `force` where a template is already stored changes nothing and
/// reports the conflict.
pub proof fn lemma_conflict_changes_nothing(
    cwd: Seq<char>,
    config: ConfigView,
    path: Seq<char>,
    symlink: bool,
    rename: Option<Seq<char>>,
    can_link: bool,
    source: PathKind,
    destination: PathKind,
)
    requires
        destination != PathKind::Missing,
        file_name_of(joined(cwd, path)) is Some,
        symlink ==> can_link,
    ensures
        add_plan(cwd, config, path, symlink, false, rename, can_link, source, destination)
            == (PlanView {
            actions: Seq::empty(),
            failure: Some(
                FailureView::TemplateExists { name: file_name_of(joined(cwd, path))->0 },
            ),
        }),
{
}

/// Adding the same source a second time with `force` does what the first addition
/// did, after removing what the first addition stored: the same archive is written
/// from the same source to the same place.
pub proof fn lemma_forced_add_repeats(
    cwd: Seq<char>,
    config: ConfigView,
    path: Seq<char>,
    symlink: bool,
    rename: Option<Seq<char>>,
    can_link: bool,
    source: PathKind,
)
    ensures
        ({
            let first = add_plan(
                cwd,
                config,
                path,
                symlink,
                true,
                rename,
                can_link,
                source,
                PathKind::Missing,
            );
            let second = add_plan(
                cwd,
                config,
                path,
                symlink,
                true,
                rename,
                can_link,
                source,
                PathKind::File,
            );
            &&& second.failure == first.failure
            &&& first.failure is None ==> second.actions == seq![
                ActionView::RemoveFile {
                    path: joined(
                        config.templates_dir,
                        template_key(file_name_of(joined(cwd, path))->0, rename),
                    ),
                },
            ] + first.actions
        }),
{
    let from = joined(cwd, path);
    if file_name_of(from) is Some && !(symlink && !can_link) {
        let name = file_name_of(from)->0;
        let to = joined(config.templates_dir, template_key(name, rename));
        let first = add_plan(
            cwd,
            config,
            path,
            symlink,
            true,
            rename,
            can_link,
            source,
            PathKind::Missing,
        );
        let second = add_plan(
            cwd,
            config,
            path,
            symlink,
            true,
            rename,
            can_link,
            source,
            PathKind::File,
        );
        if first.failure is None {
            assert(second.actions =~= seq![ActionView::RemoveFile { path: to }] + first.actions);
        }
    }
}

/// A directory added as a template is packed into an archive, and that archive is
/// stored in the templates directory under the name followed by `.zip`.
pub proof fn lemma_added_directory_is_archived(
    cwd: Seq<char>,
    config: ConfigView,
    path: Seq<char>,
    symlink: bool,
    force: bool,
    rename: Option<Seq<char>>,
    can_link: bool,
    destination: PathKind,
)
    requires
        add_plan(
            cwd,
            config,
            path,
            symlink,
            force,
            rename,
            can_link,
            PathKind::Directory,
            destination,
        ).failure is None,
    ensures
        ({
            let plan = add_plan(
                cwd,
                config,
                path,
                symlink,
                force,
                rename,
                can_link,
                PathKind::Directory,
                destination,
            );
            let name = file_name_of(joined(cwd, path))->0;
            let key = match rename {
                Some(n) => n,
                None => crate::paths::stem_of(name),
            };
            let to = joined(config.templates_dir, key + ".zip"@);
            let archive = joined(config.temp_dir, archive_name(name));
            &&& plan.actions.len() >= 3
            &&& plan.actions[plan.actions.len() - 3] == (ActionView::Archive {
                directory: joined(cwd, path),
                archive,
            })
            &&& plan.actions.last() == if symlink {
                ActionView::Link { source: archive, destination: to }
            } else {
                ActionView::Copy { source: archive, destination: to }
            }
        }),
{
}

/// The lines of a listing of the templates: the label of each, in order.
pub fn list_templates(config: &Config, entries: &Vec<(String, Entry)>) -> (r: Vec<String>)
    ensures
        text_views(r@) == registry(entries@, config@.remote_templates).map_values(
            |t: TemplateView| label_of(t),
        ),
{
    let templates = get_templates(config, entries);
    let ghost listed = registry(entries@, config@.remote_templates);
    let mut lines: Vec<String> = Vec::new();
    let mut i: usize = 0;
    while i < templates.len()
        invariant
            i <= templates.len(),
            template_views(templates@) == listed,
            lines.len() == i,
            forall|j: int| 0 <= j < i ==> lines[j]@ == label_of(listed[j]),
        decreases templates.len() - i,
    {
        assert(template_views(templates@)[i as int] == templates@[i as int]@);
        lines.push(templates[i].to_string());
        i += 1;
    }
    assert(text_views(lines@) =~= listed.map_values(|t: TemplateView| label_of(t)));
    lines
}

/// Every name in the listing, all the way down, is a single component of a path,
/// as the names that a directory gives to its entries are.
pub open spec fn plain_listing(entries: Seq<(String, Entry)>) -> bool
    decreases entries,
{
    forall|i: int| 0 <= i < entries.len() ==> plain_entry(#[trigger] entries[i])
}

/// The name of the entry, and every name below it, is a single component of a path.
pub open spec fn plain_entry(entry: (String, Entry)) -> bool
    decreases entry,
{
    is_component(entry.0@) && match entry.1 {
        Entry::Directory(inner) => plain_listing(inner@),
        _ => true,
    }
}

/// A relative path that can itself serve as a directory: not empty, with no
/// separator at either end.
pub open spec fn is_relative_dir(p: Seq<char>) -> bool {
    p.len() > 0 && p[0] != '/' && p.last() != '/'
}

/// Going down by a component from a relative directory inside `dir` is the same as
/// going into `dir` by the longer relative path.
pub proof fn lemma_joined_twice(dir: Seq<char>, sub: Seq<char>, name: Seq<char>)
    requires
        is_relative_dir(sub),
        is_component(name),
    ensures
        joined(joined(dir, sub), name) == joined(dir, joined(sub, name)),
        is_relative_dir(joined(sub, name)),
{
    let inner = joined(sub, name);
    assert(inner =~= sub + seq!['/'] + name);
    assert(inner[0] == sub[0]);
    assert(inner.last() == name.last());
    let outer = joined(dir, sub);
    assert(outer.last() == sub.last());
    assert(joined(outer, name) =~= joined(dir, inner));
}

/// The files below a relative directory inside `dir` are the files below that
/// relative directory, each joined to `dir`.
pub proof fn lemma_files_below_nested(dir: Seq<char>, sub: Seq<char>, entries: Seq<(String, Entry)>)
    requires
        is_relative_dir(sub),
        plain_listing(entries),
    ensures
        files_below(joined(dir, sub), entries).len() == files_below(sub, entries).len(),
        forall|k: int|
            0 <= k < files_below(sub, entries).len() ==> {
                &&& (#[trigger] files_below(joined(dir, sub), entries)[k]) == joined(
                    dir,
                    files_below(sub, entries)[k],
                )
                &&& is_relative_dir(files_below(sub, entries)[k])
            },
    decreases entries, 1nat,
{
    if entries.len() > 0 {
        let front = entries.drop_last();
        let entry = entries.last();
        assert(plain_entry(entries[entries.len() - 1]));
        assert forall|i: int| 0 <= i < front.len() implies plain_entry(#[trigger] front[i]) by {
            assert(front[i] == entries[i]);
        }
        lemma_files_below_nested(dir, sub, front);
        lemma_files_at_nested(dir, sub, entry);
    }
}

/// The files that an entry of a relative directory inside `dir` stands for are the
/// files it stands for in that relative directory, each joined to `dir`.
pub proof fn lemma_files_at_nested(dir: Seq<char>, sub: Seq<char>, entry: (String, Entry))
    requires
        is_relative_dir(sub),
        plain_entry(entry),
    ensures
        files_at(joined(dir, sub), entry).len() == files_at(sub, entry).len(),
        forall|k: int|
            0 <= k < files_at(sub, entry).len() ==> {
                &&& (#[trigger] files_at(joined(dir, sub), entry)[k]) == joined(
                    dir,
                    files_at(sub, entry)[k],
                )
                &&& is_relative_dir(files_at(sub, entry)[k])
            },
    decreases entry, 0nat,
{
    lemma_joined_twice(dir, sub, entry.0@);
    match entry.1 {
        Entry::Directory(inner) => {
            lemma_files_below_nested(dir, joined(sub, entry.0@), inner@);
        },
        _ => {},
    }
}

/// The files found below a directory, seen from that directory, are the files
/// found when the walk starts from the empty path: the registry names each local
/// template by its path relative to the templates directory.
pub proof fn lemma_local_templates_are_relative(dir: Seq<char>, entries: Seq<(String, Entry)>)
    requires
        plain_listing(entries),
    ensures
        files_below(dir, entries).len() == files_below(Seq::empty(), entries).len(),
        forall|k: int|
            0 <= k < files_below(dir, entries).len() ==> {
                &&& relative_to(#[trigger] files_below(dir, entries)[k], dir) == Some(
                    files_below(Seq::empty(), entries)[k],
                )
                &&& is_relative_dir(files_below(Seq::empty(), entries)[k])
            },
    decreases entries.len(),
{
    if entries.len() > 0 {
        let front = entries.drop_last();
        let entry = entries.last();
        let name = entry.0@;
        let none = Seq::<char>::empty();
        assert(plain_entry(entries[entries.len() - 1]));
        assert forall|i: int| 0 <= i < front.len() implies plain_entry(#[trigger] front[i]) by {
            assert(front[i] == entries[i]);
        }
        lemma_local_templates_are_relative(dir, front);
        assert(joined(none, name) =~= name);
        assert(is_relative_dir(name));
        let here = files_at(dir, entry);
        let plain = files_at(none, entry);
        match entry.1 {
            Entry::Directory(inner) => {
                lemma_files_below_nested(dir, name, inner@);
            },
            _ => {},
        }
        assert(here.len() == plain.len());
        assert forall|k: int| 0 <= k < here.len() implies relative_to(#[trigger] here[k], dir)
            == Some(plain[k]) && is_relative_dir(plain[k]) by {
            lemma_relative_to_joined(dir, plain[k]);
        }
        let before = files_below(dir, front);
        assert forall|k: int| 0 <= k < files_below(dir, entries).len() implies {
            &&& relative_to(#[trigger] files_below(dir, entries)[k], dir) == Some(
                files_below(none, entries)[k],
            )
            &&& is_relative_dir(files_below(none, entries)[k])
        } by {
            if k >= before.len() {
                assert(files_below(dir, entries)[k] == here[k - before.len()]);
                assert(files_below(none, entries)[k] == plain[k - before.len()]);
            } else {
                assert(files_below(dir, entries)[k] == before[k]);
            }
        }
    }
}

/// Round trip: once a directory has been added under a name, a search for that
/// name in the registry returns the local template stored as the name followed by
/// `.zip`. The archive that the plan wrote is the file that the walk of the
/// templates directory comes to at position `k`.
pub proof fn lemma_added_template_is_found(
    cwd: Seq<char>,
    config: ConfigView,
    path: Seq<char>,
    symlink: bool,
    force: bool,
    rename: Option<Seq<char>>,
    can_link: bool,
    destination: PathKind,
    list: Seq<Template>,
    entries: Seq<(String, Entry)>,
    k: int,
)
    requires
        add_plan(
            cwd,
            config,
            path,
            symlink,
            force,
            rename,
            can_link,
            PathKind::Directory,
            destination,
        ).failure is None,
        !crate::paths::is_absolute(template_key(file_name_of(joined(cwd, path))->0, rename)),
        plain_listing(entries),
        template_views(list) == registry(entries, config.remote_templates),
        0 <= k < files_below(config.templates_dir, entries).len(),
        files_below(config.templates_dir, entries)[k] == joined(
            config.templates_dir,
            template_key(file_name_of(joined(cwd, path))->0, rename),
        ),
    ensures
        ({
            let name = match rename {
                Some(n) => n,
                None => crate::paths::stem_of(file_name_of(joined(cwd, path))->0),
            };
            found_at(list, name) matches Some(i) && list[i]@ == TemplateView::Local(
                name + ".zip"@,
            )
        }),
{
    reveal_strlit(".zip");
    let key = template_key(file_name_of(joined(cwd, path))->0, rename);
    let name = match rename {
        Some(n) => n,
        None => crate::paths::stem_of(file_name_of(joined(cwd, path))->0),
    };
    assert(key == name + ".zip"@);
    assert(key.len() >= 4);
    lemma_local_templates_are_relative(config.templates_dir, entries);
    lemma_relative_to_joined(config.templates_dir, key);
    lemma_local_template_found(list, entries, config.remote_templates, name, k);
}

} // verus!
