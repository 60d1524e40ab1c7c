//! Starting a document from a template.

use vstd::prelude::*;
use crate::error::{Failure, FailureView};
use crate::opts::{Config, RemoteTemplate};
use crate::paths::{join, joined};
use crate::plan::{action_views, Action, ActionView, PathKind};
use crate::templates::{found_at, search_templates, Entry, Template};
use crate::text::text_views;
use crate::utils::{clone_repo, is_clone_job, CloneJob};

verus! {

/// Where the files of a template come from.
#[derive(Debug, PartialEq, Eq)]
pub enum TemplateSource {
    /// The archive at this path, to be unpacked.
    Archive { path: String },
    /// The repository of this remote template, to be cloned.
    Repository { remote: RemoteTemplate },
}

/// Picks the template to start from when its name is given: a name that no
/// template goes by is a failure.
pub fn select_template<'a>(name: &String, templates: &'a Vec<Template>) -> (r: Result<
    &'a Template,
    Failure,
>)
    ensures
        match found_at(templates@, name@) {
            Some(i) => r matches Ok(t) && *t == templates[i],
            None => r matches Err(e) && e@ == (FailureView::TemplateNotFound { name: name@ }),
        },
{
    match search_templates(name, templates) {
        Some(t) => Ok(t),
        None => Err(Failure::TemplateNotFound { name: name.clone() }),
    }
}

/// Takes the template that was picked from those offered; that none was picked is
/// a failure.
pub fn picked_template<'a>(choice: Option<&'a Template>) -> (r: Result<&'a Template, Failure>)
    ensures
        match choice {
            Some(t) => r == Ok::<&Template, Failure>(t),
            None => r == Err::<&Template, Failure>(Failure::NoTemplateChosen),
        },
{
    match choice {
        Some(t) => Ok(t),
        None => Err(Failure::NoTemplateChosen),
    }
}

/// Takes the main file that was picked from those offered; that none was picked is
/// a failure.
pub fn picked_main_file(choice: Option<String>) -> (r: Result<String, Failure>)
    ensures
        match choice {
            Some(name) => r == Ok::<String, Failure>(name),
            None => r == Err::<String, Failure>(Failure::NoFileChosen),
        },
{
    match choice {
        Some(name) => Ok(name),
        None => Err(Failure::NoFileChosen),
    }
}

/// Plans the fetch of the remote template `remote` into the scratch directory
/// below `tmp_dir`; `exists` says whether that directory exists.
pub fn clone_remote_template(tmp_dir: &str, remote: &RemoteTemplate, exists: bool) -> (r:
    CloneJob)
    ensures
        is_clone_job(r, tmp_dir@, remote@.url, remote@.branch, exists),
{
    clone_repo(tmp_dir, remote.url.as_str(), remote.branch.as_ref(), exists)
}

/// Where the remote template lies once its repository is cloned to `root`.
pub fn remote_template_root(root: &str, remote: &RemoteTemplate) -> (r: String)
    ensures
        r@ == match remote@.path {
            Some(p) => joined(root@, p),
            None => root@,
        },
{
    match &remote.path {
        Some(path) => join(root, path.as_str()),
        None => root.to_owned(),
    }
}

/// Decides how `template` is instantiated under `config`. A local template is the
/// archive of that name in the templates directory, and the configuration stays. A
/// remote template brings its own configuration, which takes the place of `config`,
/// and is to be cloned below that configuration's temporary directory.
pub fn template_source(template: &Template, config: Config) -> (r: (Config, TemplateSource))
    ensures
        match *template {
            Template::Local(p) => {
                &&& r.0@ == config@
                &&& r.1 matches TemplateSource::Archive { path } && path@ == joined(
                    config@.templates_dir,
                    p@,
                )
            },
            Template::Remote { name, remote } => {
                &&& r.0@ == remote@.config
                &&& r.1 matches TemplateSource::Repository { remote: fetched } && fetched@
                    == remote@
            },
        },
{
    match template {
        Template::Local(p) => {
            let path = join(config.templates_dir.as_str(), p.as_str());
            (config, TemplateSource::Archive { path })
        },
        Template::Remote { name: _, remote } => {
            let fetched: RemoteTemplate = (**remote).clone();
            (remote.config.clone(), TemplateSource::Repository { remote: fetched })
        },
    }
}

/// How many templates to show at once when one is to be picked from `items` of
/// them: three fifths of the rows of the terminal, but no more than there are
/// items; 8 where the size of the terminal is not known. The counts wrap as 16-bit
/// and then 8-bit numbers.
pub fn template_rows(items: usize, terminal_rows: Option<u16>) -> (r: i8)
    ensures
        r == match terminal_rows {
            Some(rows) => {
                let most = (rows / 5 * 3) as u16;
                (if (items as u16) <= most {
                    items as u16
                } else {
                    most
                }) as i8
            },
            None => 8i8,
        },
{
    match terminal_rows {
        Some(rows) => {
            let most: u16 = rows / 5 * 3;
            let count: u16 = #[verifier::truncate]
            (items as u16);
            let shown: u16 = if count <= most {
                count
            } else {
                most
            };
            #[verifier::truncate]
            (shown as i8)
        },
        None => 8,
    }
}

/// How many files to show at once when the main file is to be picked from
/// `files` of them: all of them, but no more than 8. The count wraps as an 8-bit
/// number.
pub fn main_file_rows(files: usize) -> (r: i8)
    ensures
        r == if (files as i8) <= 8 {
            files as i8
        } else {
            8i8
        },
{
    let count: i8 = #[verifier::truncate]
    (files as i8);
    if count <= 8 {
        count
    } else {
        8
    }
}

/// How the initialization of a document begins.
#[derive(Debug, Clone, Copy, PartialEq, Eq, Structural)]
pub enum Start {
    /// The document has its configuration file already: nothing is to be done.
    AlreadyInitialized,
    /// The root directory is empty: it is filled from a template first.
    FromTemplate,
    /// The root directory holds files: they are kept, and no template is used.
    FromFiles,
}

/// Decides how the initialization begins. `initialized` says whether the local
/// configuration file exists in the root directory, `entries` how many entries
/// that directory holds.
pub fn init(initialized: bool, entries: usize) -> (r: Start)
    ensures
        r == if initialized {
            Start::AlreadyInitialized
        } else if entries == 0 {
            Start::FromTemplate
        } else {
            Start::FromFiles
        },
{
    if initialized {
        Start::AlreadyInitialized
    } else if entries == 0 {
        Start::FromTemplate
    } else {
        Start::FromFiles
    }
}

/// What is done about the local configuration file once the files of the document
/// are in place.
#[derive(Debug, Clone, Copy, PartialEq, Eq, Structural)]
pub enum Setup {
    /// The file exists and is kept.
    Keep,
    /// The file is written with the settings as they are.
    Write,
    /// The configured main file does not exist: another is picked among the files
    /// of the root directory, and then the file is written.
    PickMainFile,
}

/// Decides what is done about the local configuration file. `configured` says
/// whether it exists, `main_file_exists` whether the configured main file does,
/// and `listable` whether the root directory can be read.
pub fn setup(configured: bool, main_file_exists: bool, listable: bool) -> (r: Setup)
    ensures
        r == if configured {
            Setup::Keep
        } else if !main_file_exists && listable {
            Setup::PickMainFile
        } else {
            Setup::Write
        },
{
    if configured {
        Setup::Keep
    } else if !main_file_exists && listable {
        Setup::PickMainFile
    } else {
        Setup::Write
    }
}

/// The names of the regular files among `entries`, in order.
pub open spec fn file_names(entries: Seq<(String, Entry)>) -> Seq<Seq<char>>
    decreases entries.len(),
{
    if entries.len() == 0 {
        Seq::empty()
    } else {
        file_names(entries.drop_last()) + match entries.last().1 {
            Entry::File => seq![entries.last().0@],
            _ => Seq::empty(),
        }
    }
}

/// The files in the root directory, which holds `entries`, among which the main
/// file can be picked when the configured one does not exist.
pub fn main_file_choices(entries: &Vec<(String, Entry)>) -> (r: Vec<String>)
    ensures
        text_views(r@) == file_names(entries@),
{
    let mut names: Vec<String> = Vec::new();
    let mut i: usize = 0;
    assert(entries@.take(0) =~= Seq::empty());
    assert(text_views(names@) =~= Seq::empty());
    while i < entries.len()
        invariant
            i <= entries.len(),
            text_views(names@) == file_names(entries@.take(i as int)),
        decreases entries.len() - i,
    {
        let ghost before = text_views(names@);
        proof {
            assert(entries@.take(i + 1).drop_last() =~= entries@.take(i as int));
            assert(entries@.take(i + 1).last() == entries@[i as int]);
        }
        match &entries[i].1 {
            Entry::File => {
                names.push(entries[i].0.clone());
                assert(text_views(names@) =~= before + seq![entries@[i as int].0@]);
            },
            _ => {
                assert(text_views(names@) =~= before + Seq::empty());
            },
        }
        i += 1;
    }
    assert(entries@.take(entries.len() as int) =~= entries@);
    names
}

/// The operations that copy a directory at `src`, holding `entries`, to a new
/// directory at `dest`: the directory is made, then each regular file is copied
/// and each directory within is copied in the same way, in order. What is neither
/// is left out.
pub open spec fn directory_copy(src: Seq<char>, dest: Seq<char>, entries: Seq<(String, Entry)>) -> Seq<
    ActionView,
> {
    seq![ActionView::CreateDirectory { path: dest }] + entries_copy(src, dest, entries)
}

/// The operations that copy the entries of the directory at `src` into the
/// directory at `dest`.
pub open spec fn entries_copy(src: Seq<char>, dest: Seq<char>, entries: Seq<(String, Entry)>) -> Seq<
    ActionView,
>
    decreases entries,
{
    if entries.len() == 0 {
        Seq::empty()
    } else {
        entries_copy(src, dest, entries.drop_last()) + entry_copy(src, dest, entries.last())
    }
}

/// The operations that copy one entry of the directory at `src` into the directory
/// at `dest`.
pub open spec fn entry_copy(src: Seq<char>, dest: Seq<char>, entry: (String, Entry)) -> Seq<
    ActionView,
>
    decreases entry,
{
    match entry.1 {
        Entry::File => seq![
            ActionView::Copy {
                source: joined(src, entry.0@),
                destination: joined(dest, entry.0@),
            },
        ],
        Entry::Directory(inner) => seq![
            ActionView::CreateDirectory { path: joined(dest, entry.0@) },
        ] + entries_copy(joined(src, entry.0@), joined(dest, entry.0@), inner@),
        Entry::Other => Seq::empty(),
    }
}

/// Plans the copy of the directory at `src`, which holds `entries`, to a new
/// directory at `dest`.
pub fn copy_directory(src: &str, dest: &str, entries: &Vec<(String, Entry)>) -> (r: Vec<Action>)
    ensures
        action_views(r@) == directory_copy(src@, dest@, entries@),
    decreases entries,
{
    let mut actions: Vec<Action> = Vec::new();
    actions.push(Action::CreateDirectory { path: dest.to_owned() });
    let mut i: usize = 0;
    assert(entries@.take(0) =~= Seq::empty());
    assert(action_views(actions@) =~= seq![ActionView::CreateDirectory { path: dest@ }]
        + entries_copy(src@, dest@, entries@.take(0)));
    while i < entries.len()
        invariant
            i <= entries.len(),
            action_views(actions@) == seq![ActionView::CreateDirectory { path: dest@ }]
                + entries_copy(src@, dest@, entries@.take(i as int)),
        decreases entries.len() - i,
    {
        let ghost before = action_views(actions@);
        let ghost entry = entries@[i as int];
        proof {
            assert(entries@.take(i + 1).drop_last() =~= entries@.take(i as int));
            assert(entries@.take(i + 1).last() == entry);
        }
        match &entries[i].1 {
            Entry::File => {
                actions.push(
                    Action::Copy {
                        source: join(src, entries[i].0.as_str()),
                        destination: join(dest, entries[i].0.as_str()),
                    },
                );
                assert(action_views(actions@) =~= before + entry_copy(src@, dest@, entry));
            },
            Entry::Directory(inner) => {
                let from = join(src, entries[i].0.as_str());
                let to = join(dest, entries[i].0.as_str());
                let mut below = copy_directory(from.as_str(), to.as_str(), inner);
                let ghost added = action_views(below@);
                actions.append(&mut below);
                assert(action_views(actions@) =~= before + added);
            },
            Entry::Other => {
                assert(action_views(actions@) =~= before + entry_copy(src@, dest@, entry));
            },
        }
        i += 1;
    }
    assert(entries@.take(entries.len() as int) =~= entries@);
    actions
}

/// The operations that bring the contents of the directory at `src` into the
/// existing directory at `dest`: each directory is copied whole, and everything
/// else is copied as a file.
pub open spec fn contents_copy(src: Seq<char>, dest: Seq<char>, entries: Seq<(String, Entry)>) -> Seq<
    ActionView,
>
    decreases entries.len(),
{
    if entries.len() == 0 {
        Seq::empty()
    } else {
        let entry = entries.last();
        contents_copy(src, dest, entries.drop_last()) + match entry.1 {
            Entry::Directory(inner) => directory_copy(
                joined(src, entry.0@),
                joined(dest, entry.0@),
                inner@,
            ),
            _ => seq![
                ActionView::Copy {
                    source: joined(src, entry.0@),
                    destination: joined(dest, entry.0@),
                },
            ],
        }
    }
}

/// The operations that put the files of a template into the directory `cwd`: an
/// archive is unpacked there; a directory, holding `entries`, has its contents
/// copied there.
pub open spec fn instantiation(
    template: Seq<char>,
    cwd: Seq<char>,
    kind: PathKind,
    entries: Seq<(String, Entry)>,
) -> Seq<ActionView> {
    if kind == PathKind::File {
        seq![ActionView::Extract { archive: template, directory: cwd }]
    } else {
        contents_copy(template, cwd, entries)
    }
}

/// Plans how the files of the template at `template` get into the directory `cwd`.
/// `kind` says what lies at `template`, and `entries` what it holds if it is a
/// directory.
pub fn instantiate(template: &str, cwd: &str, kind: PathKind, entries: &Vec<(String, Entry)>) -> (r:
    Vec<Action>)
    ensures
        action_views(r@) == instantiation(template@, cwd@, kind, entries@),
{
    let mut actions: Vec<Action> = Vec::new();
    if kind == PathKind::File {
        actions.push(Action::Extract { archive: template.to_owned(), directory: cwd.to_owned() });
        assert(action_views(actions@) =~= instantiation(template@, cwd@, kind, entries@));
        return actions;
    }
    let mut i: usize = 0;
    assert(entries@.take(0) =~= Seq::empty());
    assert(action_views(actions@) =~= Seq::empty());
    while i < entries.len()
        invariant
            i <= entries.len(),
            action_views(actions@) == contents_copy(template@, cwd@, entries@.take(i as int)),
        decreases entries.len() - i,
    {
        let ghost before = action_views(actions@);
        proof {
            assert(entries@.take(i + 1).drop_last() =~= entries@.take(i as int));
            assert(entries@.take(i + 1).last() == entries@[i as int]);
        }
        let from = join(template, entries[i].0.as_str());
        let to = join(cwd, entries[i].0.as_str());
        match &entries[i].1 {
            Entry::Directory(inner) => {
                let mut below = copy_directory(from.as_str(), to.as_str(), inner);
                let ghost added = action_views(below@);
                actions.append(&mut below);
                assert(action_views(actions@) =~= before + added);
            },
            _ => {
                actions.push(Action::Copy { source: from, destination: to });
                assert(action_views(actions@) =~= before + seq![
                    ActionView::Copy { source: from@, destination: to@ },
                ]);
            },
        }
        i += 1;
    }
    assert(entries@.take(entries.len() as int) =~= entries@);
    actions
}

} // verus!
