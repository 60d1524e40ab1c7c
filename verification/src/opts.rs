//! Options of a run: the command-line arguments and the configuration they act on.

use vstd::prelude::*;
use crate::document::{
    get, lookup, table_view, text_at, toml_document, Table, TableView, TomlValue, TomlValueView,
};
use crate::error::{Failure, FailureView};
use crate::paths::{
    is_component, is_plain_dir, join, joined, lemma_parent_of_joined, lemma_parent_shorter, parent,
    parent_of,
};
use crate::text::{contains, occurs_at, same_text, text_views};
use crate::utils::MAIN_FILE_PLACEHOLDER;

verus! {

/// Name of the local configuration file, whose place marks the root of a document.
pub const LOCAL_CONFIG_FILE: &'static str = ".blatex.toml";

/// Key of the table of remote templates in the global configuration file.
pub const REMOTE_TEMPLATES_OPTION: &'static str = "remote_templates";

/// The main file of a document unless a configuration file names another.
pub const DEFAULT_MAIN_FILE: &'static str = "main.tex";

/// The command that compiles a document unless a configuration file gives another.
pub const DEFAULT_COMPILE_CMD: &'static str =
    "pdflatex -shell-escape -interaction=nonstopmode <main-file>";

/// The command that cleans up after a compilation unless a configuration file
/// gives another: it removes the `.aux` and `.log` files that stand beside the main
/// file, whose names the shell makes from the main file's by cutting off `.tex`.
pub const DEFAULT_CLEAN_CMD: &'static str = "f=<main-file> && rm ${f%.tex}.aux ${f%.tex}.log";

/// The directories that the platform sets aside for this application.
#[derive(Debug)]
pub struct AppDirs {
    pub data_dir: String,
    pub config_dir: String,
    pub cache_dir: String,
}

/// The qualifier under which the platform knows this application.
pub const QUALIFIER: &'static str = "com";

/// The organization under which the platform knows this application.
pub const ORGANIZATION: &'static str = "blatex";

/// The name under which the platform knows this application.
pub const APPLICATION: &'static str = "blatex";

/// The identity under which the platform is asked for this application's
/// directories: qualifier, organization and application name.
pub fn application_identity() -> (r: (String, String, String))
    ensures
        r.0@ == QUALIFIER@,
        r.1@ == ORGANIZATION@,
        r.2@ == APPLICATION@,
{
    (String::from_str(QUALIFIER), String::from_str(ORGANIZATION), String::from_str(APPLICATION))
}

/// `directories::ProjectDirs::from`, with the data, configuration and cache
/// directories it reports copied out as text. It is asked for this application
/// only. The outcome depends on the environment of the process, so nothing is
/// claimed of it.
#[verifier::external_body]
fn project_dirs(qualifier: &str, organization: &str, application: &str) -> Option<AppDirs>
    requires
        qualifier@ == QUALIFIER@,
        organization@ == ORGANIZATION@,
        application@ == APPLICATION@,
{
    directories::ProjectDirs::from(qualifier, organization, application).map(
        |dirs|
            AppDirs {
                data_dir: dirs.data_dir().to_string_lossy().into_owned(),
                config_dir: dirs.config_dir().to_string_lossy().into_owned(),
                cache_dir: dirs.cache_dir().to_string_lossy().into_owned(),
            },
    )
}

/// Settings that configuration files can change.
#[derive(Debug, PartialEq, Eq)]
pub struct Config {
    /// The root directory of the document: the directory that holds the local
    /// configuration file.
    pub root: String,
    /// The main entry point for the latex compiler.
    pub main_file: String,
    /// Command for compiling the document; `<main-file>` stands for `main_file`, and
    /// `<main-stem>` for `main_file` without a final `.tex`.
    pub compile_cmd: String,
    /// Command for cleaning temporary files, with the same placeholders.
    pub clean_cmd: String,
    /// Directory for application data.
    pub data_dir: String,
    /// Directory in which templates are stored.
    pub templates_dir: String,
    /// Location of the global configuration file.
    pub config_file: String,
    /// Directory for temporary files.
    pub temp_dir: String,
    /// Remote templates by name. No name occurs twice.
    pub remote_templates: Vec<(String, RemoteTemplate)>,
}

/// A template that lives in a git repository.
#[derive(Debug, PartialEq, Eq)]
pub struct RemoteTemplate {
    pub url: String,
    /// Path of the template within the repository.
    pub path: Option<String>,
    pub branch: Option<String>,
    /// Configuration that takes effect when the template is instantiated.
    pub config: Config,
}

/// What a [`Config`] holds, as mathematical values.
pub struct ConfigView {
    pub root: Seq<char>,
    pub main_file: Seq<char>,
    pub compile_cmd: Seq<char>,
    pub clean_cmd: Seq<char>,
    pub data_dir: Seq<char>,
    pub templates_dir: Seq<char>,
    pub config_file: Seq<char>,
    pub temp_dir: Seq<char>,
    pub remote_templates: Seq<(Seq<char>, RemoteTemplateView)>,
}

/// What a [`RemoteTemplate`] holds, as mathematical values.
pub struct RemoteTemplateView {
    pub url: Seq<char>,
    pub path: Option<Seq<char>>,
    pub branch: Option<Seq<char>>,
    pub config: ConfigView,
}

/// The view of an optional text.
pub open spec fn text_view(s: Option<String>) -> Option<Seq<char>> {
    match s {
        Some(t) => Some(t@),
        None => None,
    }
}

pub open spec fn config_view(c: Config) -> ConfigView
    decreases c,
{
    ConfigView {
        root: c.root@,
        main_file: c.main_file@,
        compile_cmd: c.compile_cmd@,
        clean_cmd: c.clean_cmd@,
        data_dir: c.data_dir@,
        templates_dir: c.templates_dir@,
        config_file: c.config_file@,
        temp_dir: c.temp_dir@,
        remote_templates: remotes_view(c.remote_templates@),
    }
}

/// What a list of named remote templates holds, as mathematical values.
pub open spec fn remotes_view(list: Seq<(String, RemoteTemplate)>) -> Seq<
    (Seq<char>, RemoteTemplateView),
>
    decreases list,
{
    Seq::new(
        list.len(),
        |i: int|
            if 0 <= i < list.len() {
                (list[i].0@, remote_view(list[i].1))
            } else {
                arbitrary()
            },
    )
}

pub open spec fn remote_view(r: RemoteTemplate) -> RemoteTemplateView
    decreases r,
{
    RemoteTemplateView {
        url: r.url@,
        path: text_view(r.path),
        branch: text_view(r.branch),
        config: config_view(r.config),
    }
}

impl View for Config {
    type V = ConfigView;

    open spec fn view(&self) -> ConfigView {
        config_view(*self)
    }
}

impl View for RemoteTemplate {
    type V = RemoteTemplateView;

    open spec fn view(&self) -> RemoteTemplateView {
        remote_view(*self)
    }
}

/// A copy of an optional text.
pub fn clone_text(s: &Option<String>) -> (r: Option<String>)
    ensures
        text_view(r) == text_view(*s),
{
    match s {
        Some(t) => Some(t.clone()),
        None => None,
    }
}

impl Clone for Config {
    fn clone(&self) -> (r: Self)
        ensures
            r@ == self@,
        decreases *self,
    {
        let mut remotes: Vec<(String, RemoteTemplate)> = Vec::new();
        let mut i: usize = 0;
        while i < self.remote_templates.len()
            invariant
                i <= self.remote_templates.len(),
                remotes.len() == i,
                forall|j: int|
                    0 <= j < i ==> remotes[j].0@ == self.remote_templates[j].0@ && remotes[j].1@
                        == self.remote_templates[j].1@,
            decreases self.remote_templates.len() - i,
        {
            let entry = &self.remote_templates[i];
            remotes.push((entry.0.clone(), entry.1.clone()));
            i += 1;
        }
        let r = Config {
            root: self.root.clone(),
            main_file: self.main_file.clone(),
            compile_cmd: self.compile_cmd.clone(),
            clean_cmd: self.clean_cmd.clone(),
            data_dir: self.data_dir.clone(),
            templates_dir: self.templates_dir.clone(),
            config_file: self.config_file.clone(),
            temp_dir: self.temp_dir.clone(),
            remote_templates: remotes,
        };
        assert(r@.remote_templates =~= self@.remote_templates);
        r
    }
}

impl Clone for RemoteTemplate {
    fn clone(&self) -> (r: Self)
        ensures
            r@ == self@,
        decreases *self,
    {
        RemoteTemplate {
            url: self.url.clone(),
            path: clone_text(&self.path),
            branch: clone_text(&self.branch),
            config: self.config.clone(),
        }
    }
}

/// The built-in configuration of a document rooted at `root` on a platform with the
/// given application directories.
pub open spec fn default_config(
    root: Seq<char>,
    data_dir: Seq<char>,
    config_dir: Seq<char>,
    cache_dir: Seq<char>,
) -> ConfigView {
    ConfigView {
        root,
        main_file: DEFAULT_MAIN_FILE@,
        compile_cmd: DEFAULT_COMPILE_CMD@,
        clean_cmd: DEFAULT_CLEAN_CMD@,
        data_dir,
        templates_dir: joined(data_dir, "templates"@),
        config_file: joined(config_dir, "blatex.toml"@),
        temp_dir: joined(cache_dir, "tmp"@),
        remote_templates: Seq::empty(),
    }
}

/// Both commands of the built-in configuration name the main file by its
/// placeholder.
pub proof fn lemma_default_commands_name_the_main_file(
    root: Seq<char>,
    data_dir: Seq<char>,
    config_dir: Seq<char>,
    cache_dir: Seq<char>,
)
    ensures
        contains(
            default_config(root, data_dir, config_dir, cache_dir).compile_cmd,
            MAIN_FILE_PLACEHOLDER@,
        ),
        contains(
            default_config(root, data_dir, config_dir, cache_dir).clean_cmd,
            MAIN_FILE_PLACEHOLDER@,
        ),
{
    reveal_strlit("<main-file>");
    reveal_strlit("pdflatex -shell-escape -interaction=nonstopmode <main-file>");
    reveal_strlit("f=<main-file> && rm ${f%.tex}.aux ${f%.tex}.log");
    assert(DEFAULT_COMPILE_CMD@.subrange(48, 59) =~= MAIN_FILE_PLACEHOLDER@);
    assert(occurs_at(DEFAULT_COMPILE_CMD@, 48, MAIN_FILE_PLACEHOLDER@));
    assert(DEFAULT_CLEAN_CMD@.subrange(2, 13) =~= MAIN_FILE_PLACEHOLDER@);
    assert(occurs_at(DEFAULT_CLEAN_CMD@, 2, MAIN_FILE_PLACEHOLDER@));
}

/// `current`, unless `table` holds a string under `key`: then that string.
pub open spec fn picked(table: TableView, key: Seq<char>, current: Seq<char>) -> Seq<char> {
    match text_at(table, key) {
        Some(s) => s,
        None => current,
    }
}

/// `c` with the settings that `table` gives as strings put in place of its own.
/// The root and the remote templates are never taken from a table this way.
pub open spec fn overridden(c: ConfigView, table: TableView) -> ConfigView {
    ConfigView {
        root: c.root,
        main_file: picked(table, "main_file"@, c.main_file),
        compile_cmd: picked(table, "compile_cmd"@, c.compile_cmd),
        clean_cmd: picked(table, "clean_cmd"@, c.clean_cmd),
        data_dir: picked(table, "data_dir"@, c.data_dir),
        templates_dir: picked(table, "templates_dir"@, c.templates_dir),
        config_file: picked(table, "config_file"@, c.config_file),
        temp_dir: picked(table, "temp_dir"@, c.temp_dir),
        remote_templates: c.remote_templates,
    }
}

impl Config {
    /// No two remote templates share a name.
    pub open spec fn well_formed(&self) -> bool {
        unique_names(self@.remote_templates)
    }

    /// The built-in configuration for a document rooted at `root`.
    pub fn from_dirs(root: String, dirs: &AppDirs) -> (r: Config)
        ensures
            r@ == default_config(root@, dirs.data_dir@, dirs.config_dir@, dirs.cache_dir@),
            r.well_formed(),
            contains(r@.compile_cmd, MAIN_FILE_PLACEHOLDER@),
            contains(r@.clean_cmd, MAIN_FILE_PLACEHOLDER@),
    {
        proof {
            lemma_default_commands_name_the_main_file(
                root@,
                dirs.data_dir@,
                dirs.config_dir@,
                dirs.cache_dir@,
            );
        }
        let r = Config {
            root,
            main_file: String::from_str(DEFAULT_MAIN_FILE),
            compile_cmd: String::from_str(DEFAULT_COMPILE_CMD),
            clean_cmd: String::from_str(DEFAULT_CLEAN_CMD),
            data_dir: dirs.data_dir.clone(),
            templates_dir: join(dirs.data_dir.as_str(), "templates"),
            config_file: join(dirs.config_dir.as_str(), "blatex.toml"),
            temp_dir: join(dirs.cache_dir.as_str(), "tmp"),
            remote_templates: Vec::new(),
        };
        assert(r@.remote_templates =~= Seq::empty());
        r
    }

    /// The built-in configuration for a document rooted at `root`, given what the
    /// platform reports of its directories: without them there is none.
    pub fn from_platform(root: String, dirs: Option<AppDirs>) -> (r: Result<Config, Failure>)
        ensures
            match dirs {
                Some(d) => r matches Ok(c) && {
                    &&& c.well_formed()
                    &&& c@ == default_config(root@, d.data_dir@, d.config_dir@, d.cache_dir@)
                    &&& contains(c@.compile_cmd, MAIN_FILE_PLACEHOLDER@)
                    &&& contains(c@.clean_cmd, MAIN_FILE_PLACEHOLDER@)
                },
                None => r == Err::<Config, Failure>(Failure::NoProjectDirectories),
            },
    {
        match dirs {
            Some(d) => Ok(Config::from_dirs(root, &d)),
            None => Err(Failure::NoProjectDirectories),
        }
    }

    /// The built-in configuration for a document rooted at `root`, with the
    /// directories that the platform reports for the application that
    /// [`application_identity`] names. Fails only when the platform reports none.
    pub fn default_at(root: String) -> (r: Result<Config, Failure>)
        ensures
            match r {
                Ok(c) => {
                    &&& c.well_formed()
                    &&& exists|data: Seq<char>, config: Seq<char>, cache: Seq<char>|
                        c@ == default_config(root@, data, config, cache)
                    &&& contains(c@.compile_cmd, MAIN_FILE_PLACEHOLDER@)
                    &&& contains(c@.clean_cmd, MAIN_FILE_PLACEHOLDER@)
                },
                Err(e) => e == Failure::NoProjectDirectories,
            },
    {
        let identity = application_identity();
        Config::from_platform(
            root,
            project_dirs(identity.0.as_str(), identity.1.as_str(), identity.2.as_str()),
        )
    }

    /// Replaces `var` by the string in `value`, if `value` is a string.
    pub fn override_if_some_string(var: &mut String, value: Option<&TomlValue>)
        ensures
            final(var)@ == match value {
                Some(TomlValue::Text(s)) => s@,
                _ => old(var)@,
            },
    {
        if let Some(TomlValue::Text(s)) = value {
            *var = s.clone();
        }
    }

    /// Applies one layer of overrides: every recognized key that `map` gives as a
    /// string replaces the setting of that name; every other setting stays as it is.
    pub fn override_some_fields(config: &mut Config, map: &Table)
        ensures
            final(config)@ == overridden(old(config)@, table_view(map@)),
    {
        Self::override_if_some_string(&mut config.data_dir, get(map, "data_dir"));
        Self::override_if_some_string(&mut config.templates_dir, get(map, "templates_dir"));
        Self::override_if_some_string(&mut config.config_file, get(map, "config_file"));
        Self::override_if_some_string(&mut config.temp_dir, get(map, "temp_dir"));
        Self::override_if_some_string(&mut config.main_file, get(map, "main_file"));
        Self::override_if_some_string(&mut config.compile_cmd, get(map, "compile_cmd"));
        Self::override_if_some_string(&mut config.clean_cmd, get(map, "clean_cmd"));
        assert(config@.remote_templates =~= old(config)@.remote_templates);
    }
}

impl RemoteTemplate {
    pub fn new(url: String, path: Option<String>, branch: Option<String>, config: Config) -> (r:
        Self)
        ensures
            r@ == (RemoteTemplateView {
                url: url@,
                path: text_view(path),
                branch: text_view(branch),
                config: config@,
            }),
    {
        Self { url, path, branch, config }
    }

    /// A remote template that is the whole repository at `url`, on its default
    /// branch, instantiated under `config`.
    pub fn from_url(url: String, config: Config) -> (r: Self)
        ensures
            r@ == (RemoteTemplateView { url: url@, path: None, branch: None, config: config@ }),
    {
        Self::new(url, None, None, config)
    }
}

/// Position of the first entry of `list` under `name`, or the length of `list`
/// when it has none.
pub open spec fn remote_position(list: Seq<(Seq<char>, RemoteTemplateView)>, name: Seq<char>) -> int
    decreases list.len(),
{
    if list.len() == 0 {
        0
    } else if list[0].0 == name {
        0
    } else {
        1 + remote_position(list.skip(1), name)
    }
}

/// `list` with `remote` stored under `name`: in place of the entry that was there
/// under that name, or at the end when there was none.
pub open spec fn with_remote(
    list: Seq<(Seq<char>, RemoteTemplateView)>,
    name: Seq<char>,
    remote: RemoteTemplateView,
) -> Seq<(Seq<char>, RemoteTemplateView)> {
    let at = remote_position(list, name);
    if at < list.len() {
        list.update(at, (name, remote))
    } else {
        list.push((name, remote))
    }
}

/// No name occurs twice in `list`.
pub open spec fn unique_names(list: Seq<(Seq<char>, RemoteTemplateView)>) -> bool {
    forall|i: int, j: int| 0 <= i < j < list.len() ==> list[i].0 != list[j].0
}

/// `remote_position` finds the first entry under the name and nothing else.
pub proof fn lemma_remote_position(list: Seq<(Seq<char>, RemoteTemplateView)>, name: Seq<char>)
    ensures
        0 <= remote_position(list, name) <= list.len(),
        remote_position(list, name) < list.len() ==> list[remote_position(list, name)].0 == name,
        forall|j: int| 0 <= j < remote_position(list, name) ==> list[j].0 != name,
    decreases list.len(),
{
    if list.len() > 0 && list[0].0 != name {
        let rest = list.skip(1);
        lemma_remote_position(rest, name);
        let at = remote_position(rest, name);
        if at < rest.len() {
            assert(rest[at] == list[at + 1]);
        }
        assert forall|j: int| 0 <= j < at + 1 implies list[j].0 != name by {
            if j > 0 {
                assert(rest[j - 1] == list[j]);
            }
        }
    }
}

/// Storing a remote template keeps names unique.
pub proof fn lemma_with_remote_unique(
    list: Seq<(Seq<char>, RemoteTemplateView)>,
    name: Seq<char>,
    remote: RemoteTemplateView,
)
    requires
        unique_names(list),
    ensures
        unique_names(with_remote(list, name, remote)),
{
    lemma_remote_position(list, name);
}

/// The remote template that one entry of the table of remote templates declares: a
/// string is the URL of a repository; a table names the repository under `repo`,
/// may give `path` and `branch`, and overrides settings of `defaults`.
pub open spec fn remote_of(defaults: ConfigView, entry: (Seq<char>, TomlValueView)) -> Result<
    RemoteTemplateView,
    FailureView,
> {
    match entry.1 {
        TomlValueView::Text(url) => Ok(
            RemoteTemplateView { url, path: None, branch: None, config: defaults },
        ),
        TomlValueView::Table(fields) => match lookup(fields, "repo"@) {
            Some(TomlValueView::Text(repo)) => Ok(
                RemoteTemplateView {
                    url: repo,
                    path: text_at(fields, "path"@),
                    branch: text_at(fields, "branch"@),
                    config: overridden(defaults, fields),
                },
            ),
            Some(_) => Err(FailureView::RepositoryNotText),
            None => Err(FailureView::RepositoryMissing { name: entry.0 }),
        },
        TomlValueView::Other => Err(FailureView::MalformedRemote { name: entry.0 }),
    }
}

/// `current` after the declarations in `entries` are stored one after the other, or
/// the failure of the first declaration that is malformed.
pub open spec fn remotes_from(
    defaults: ConfigView,
    current: Seq<(Seq<char>, RemoteTemplateView)>,
    entries: TableView,
) -> Result<Seq<(Seq<char>, RemoteTemplateView)>, FailureView>
    decreases entries.len(),
{
    if entries.len() == 0 {
        Ok(current)
    } else {
        match remote_of(defaults, entries[0]) {
            Ok(remote) => remotes_from(
                defaults,
                with_remote(current, entries[0].0, remote),
                entries.skip(1),
            ),
            Err(e) => Err(e),
        }
    }
}

/// The configuration that the global file with the entries `table` makes of
/// `defaults`: its remote templates are declared first, each starting from
/// `defaults`; then its settings override those of `defaults`.
pub open spec fn global_config(defaults: ConfigView, table: TableView) -> Result<
    ConfigView,
    FailureView,
> {
    let remotes = match lookup(table, REMOTE_TEMPLATES_OPTION@) {
        Some(TomlValueView::Table(entries)) => remotes_from(
            defaults,
            defaults.remote_templates,
            entries,
        ),
        _ => Ok(defaults.remote_templates),
    };
    match remotes {
        Ok(list) => Ok(
            overridden(
                ConfigView {
                    root: defaults.root,
                    main_file: defaults.main_file,
                    compile_cmd: defaults.compile_cmd,
                    clean_cmd: defaults.clean_cmd,
                    data_dir: defaults.data_dir,
                    templates_dir: defaults.templates_dir,
                    config_file: defaults.config_file,
                    temp_dir: defaults.temp_dir,
                    remote_templates: list,
                },
                table,
            ),
        ),
        Err(e) => Err(e),
    }
}

/// The remote template that `entry` declares.
pub fn remote_from_entry(defaults: &Config, entry: &(String, TomlValue)) -> (r: Result<
    RemoteTemplate,
    Failure,
>)
    ensures
        match remote_of(defaults@, (entry.0@, entry.1@)) {
            Ok(remote) => r is Ok && r->Ok_0@ == remote,
            Err(e) => r matches Err(f) && f@ == e,
        },
{
    match &entry.1 {
        TomlValue::Text(url) => Ok(RemoteTemplate::from_url(url.clone(), defaults.clone())),
        TomlValue::Table(fields) => {
            let url = match get(fields, "repo") {
                Some(TomlValue::Text(repo)) => repo.clone(),
                Some(_) => {
                    return Err(Failure::RepositoryNotText);
                },
                None => {
                    return Err(Failure::RepositoryMissing { name: entry.0.clone() });
                },
            };
            let path = crate::document::get_text(fields, "path");
            let branch = crate::document::get_text(fields, "branch");
            let mut remote_config = defaults.clone();
            Config::override_some_fields(&mut remote_config, fields);
            Ok(RemoteTemplate::new(url, path, branch, remote_config))
        },
        TomlValue::Other => Err(Failure::MalformedRemote { name: entry.0.clone() }),
    }
}

/// Stores `remote` under `name`, in place of an entry of that name if there is one.
pub fn insert_remote(list: &mut Vec<(String, RemoteTemplate)>, name: String, remote: RemoteTemplate)
    ensures
        remotes_view(final(list)@) == with_remote(remotes_view(old(list)@), name@, remote@),
        unique_names(remotes_view(old(list)@)) ==> unique_names(remotes_view(final(list)@)),
{
    let ghost before = remotes_view(list@);
    proof {
        lemma_remote_position(before, name@);
        if unique_names(before) {
            lemma_with_remote_unique(before, name@, remote@);
        }
    }
    let mut i: usize = 0;
    while i < list.len()
        invariant
            i <= list.len(),
            list@ == old(list)@,
            before == remotes_view(list@),
            forall|j: int| 0 <= j < i ==> before[j].0 != name@,
        decreases list.len() - i,
    {
        if list[i].0 == name {
            proof {
                lemma_remote_position(before, name@);
                assert(before[i as int].0 == name@);
                assert(remote_position(before, name@) == i);
            }
            list[i] = (name, remote);
            assert(remotes_view(list@) =~= with_remote(before, name@, remote@));
            return ;
        }
        i += 1;
    }
    proof {
        lemma_remote_position(before, name@);
        let at = remote_position(before, name@);
        if at < before.len() {
            assert(before[at].0 == name@);
        }
    }
    list.push((name, remote));
    assert(remotes_view(list@) =~= with_remote(before, name@, remote@));
}

/// Stores the remote templates that `entries` declare into `list`, one after the
/// other, and stops at the first declaration that is malformed.
pub fn collect_remotes(
    defaults: &Config,
    list: &mut Vec<(String, RemoteTemplate)>,
    entries: &Table,
) -> (r: Result<(), Failure>)
    ensures
        match remotes_from(defaults@, remotes_view(old(list)@), table_view(entries@)) {
            Ok(remotes) => r is Ok && remotes_view(final(list)@) == remotes,
            Err(e) => r matches Err(f) && f@ == e,
        },
{
    let ghost declared = table_view(entries@);
    let mut i: usize = 0;
    assert(declared.skip(0) =~= declared);
    while i < entries.len()
        invariant
            i <= entries.len(),
            declared == table_view(entries@),
            remotes_from(defaults@, remotes_view(old(list)@), declared) == remotes_from(
                defaults@,
                remotes_view(list@),
                declared.skip(i as int),
            ),
        decreases entries.len() - i,
    {
        let ghost rest = declared.skip(i as int);
        assert(rest[0] == (entries@[i as int].0@, entries@[i as int].1@));
        assert(rest.skip(1) =~= declared.skip(i + 1));
        match remote_from_entry(defaults, &entries[i]) {
            Ok(remote) => {
                insert_remote(list, entries[i].0.clone(), remote);
            },
            Err(e) => {
                return Err(e);
            },
        }
        i += 1;
    }
    Ok(())
}

/// The configuration that a local file with the entries `table` makes of `global`
/// for a document rooted at `root`, or at the root of `global` when none is given.
pub open spec fn local_config(
    global: ConfigView,
    root: Option<Seq<char>>,
    table: TableView,
) -> ConfigView {
    overridden(rooted(global, root), table)
}

/// `c` rooted at `root`, if one is given.
pub open spec fn rooted(c: ConfigView, root: Option<Seq<char>>) -> ConfigView {
    ConfigView {
        root: match root {
            Some(r) => r,
            None => c.root,
        },
        main_file: c.main_file,
        compile_cmd: c.compile_cmd,
        clean_cmd: c.clean_cmd,
        data_dir: c.data_dir,
        templates_dir: c.templates_dir,
        config_file: c.config_file,
        temp_dir: c.temp_dir,
        remote_templates: c.remote_templates,
    }
}

impl Config {
    /// Applies the entries of the global configuration file to `defaults`.
    pub fn apply_global(defaults: Config, table: &Table) -> (r: Result<Config, Failure>)
        ensures
            match global_config(defaults@, table_view(table@)) {
                Ok(c) => r is Ok && r->Ok_0@ == c,
                Err(e) => r matches Err(f) && f@ == e,
            },
            defaults.well_formed() ==> (r matches Ok(c) ==> c.well_formed()),
    {
        proof {
            if defaults.well_formed() {
                lemma_global_config_remotes(defaults@, table_view(table@));
            }
        }
        let mut config = defaults.clone();
        if let Some(TomlValue::Table(entries)) = get(table, REMOTE_TEMPLATES_OPTION) {
            match collect_remotes(&defaults, &mut config.remote_templates, entries) {
                Ok(()) => {},
                Err(e) => {
                    return Err(e);
                },
            }
        }
        Self::override_some_fields(&mut config, table);
        Ok(config)
    }

    /// The global configuration: `defaults`, changed by the global configuration file
    /// if there is one. `contents` is the text of that file, or `None` when it does not
    /// exist or cannot be read, which is no failure. A file that is not valid TOML, or
    /// that declares a malformed remote template, is one.
    pub fn new_global(defaults: Config, contents: Option<&str>) -> (r: Result<Config, Failure>)
        ensures
            match contents {
                None => r is Ok && r->Ok_0@ == defaults@,
                Some(text) => match toml_document(text@) {
                    Err(diagnostic) => r matches Err(e) && e@ == (FailureView::Parse {
                        message: diagnostic,
                    }),
                    Ok(table) => match global_config(defaults@, table) {
                        Ok(c) => r is Ok && r->Ok_0@ == c,
                        Err(e) => r matches Err(f) && f@ == e,
                    },
                },
            },
            defaults.well_formed() ==> (r matches Ok(c) ==> c.well_formed()),
    {
        match contents {
            None => Ok(defaults),
            Some(text) => match crate::document::parse_toml(text) {
                Ok(table) => Self::apply_global(defaults, &table),
                Err(e) => Err(e),
            },
        }
    }

    /// Applies the entries of a local configuration file to `global`, for a document
    /// rooted at `root`.
    pub fn apply_local(global: Config, root: Option<String>, table: &Table) -> (r: Config)
        ensures
            r@ == local_config(global@, text_view(root), table_view(table@)),
            global.well_formed() ==> r.well_formed(),
    {
        let mut config = global;
        if let Some(dir) = root {
            config.root = dir;
        }
        Self::override_some_fields(&mut config, table);
        config
    }

    /// The effective configuration: `global`, changed by the local configuration file.
    /// `root` is the directory in which that file was found, or `None` when its path
    /// was given outright; `contents` is its text, or `None` when it cannot be read,
    /// which is no failure. A file that is not valid TOML is one.
    pub fn new_local(global: Config, root: Option<String>, contents: Option<&str>) -> (r: Result<
        Config,
        Failure,
    >)
        ensures
            match contents {
                None => r is Ok && r->Ok_0@ == rooted(global@, text_view(root)),
                Some(text) => match toml_document(text@) {
                    Err(diagnostic) => r matches Err(e) && e@ == (FailureView::Parse {
                        message: diagnostic,
                    }),
                    Ok(table) => r is Ok && r->Ok_0@ == local_config(
                        global@,
                        text_view(root),
                        table,
                    ),
                },
            },
            global.well_formed() ==> (r matches Ok(c) ==> c.well_formed()),
    {
        match contents {
            None => {
                let mut config = global;
                if let Some(dir) = root {
                    config.root = dir;
                }
                Ok(config)
            },
            Some(text) => match crate::document::parse_toml(text) {
                Ok(table) => Ok(Self::apply_local(global, root, &table)),
                Err(e) => Err(e),
            },
        }
    }
}

/// `path` is among `present`.
pub open spec fn listed(present: Seq<String>, path: Seq<char>) -> bool {
    exists|i: int| 0 <= i < present.len() && #[trigger] present[i]@ == path
}

/// The nearest directory, `dir` itself or one of its ancestors, whose local
/// configuration file is among `present`, together with the path of that file.
pub open spec fn local_config_from(dir: Seq<char>, present: Seq<String>) -> Option<
    (Seq<char>, Seq<char>),
>
    decreases dir.len(),
    via local_config_from_terminates
{
    let candidate = joined(dir, LOCAL_CONFIG_FILE@);
    if listed(present, candidate) {
        Some((dir, candidate))
    } else {
        match parent_of(dir) {
            Some(up) => local_config_from(up, present),
            None => None,
        }
    }
}

#[via_fn]
proof fn local_config_from_terminates(dir: Seq<char>, present: Seq<String>) {
    lemma_parent_shorter(dir);
}

/// The paths at which a local configuration file for `dir` may lie: in `dir` and
/// in each of its ancestors, nearest first.
pub open spec fn local_config_candidates(dir: Seq<char>) -> Seq<Seq<char>>
    decreases dir.len(),
    via local_config_candidates_terminates
{
    let candidate = joined(dir, LOCAL_CONFIG_FILE@);
    match parent_of(dir) {
        Some(up) => seq![candidate] + local_config_candidates(up),
        None => seq![candidate],
    }
}

#[via_fn]
proof fn local_config_candidates_terminates(dir: Seq<char>) {
    lemma_parent_shorter(dir);
}

/// The directory reached from `root` by going down through `names` in turn.
pub open spec fn descended(root: Seq<char>, names: Seq<Seq<char>>) -> Seq<char>
    decreases names.len(),
{
    if names.len() == 0 {
        root
    } else {
        joined(descended(root, names.drop_last()), names.last())
    }
}

/// Going down from a plain directory leads to a plain directory.
pub proof fn lemma_descended_plain(root: Seq<char>, names: Seq<Seq<char>>)
    requires
        is_plain_dir(root),
        forall|k: int| 0 <= k < names.len() ==> is_component(#[trigger] names[k]),
    ensures
        is_plain_dir(descended(root, names)),
    decreases names.len(),
{
    if names.len() > 0 {
        let shorter = names.drop_last();
        assert(is_component(names[names.len() - 1]));
        assert forall|k: int| 0 <= k < shorter.len() implies is_component(
            #[trigger] shorter[k],
        ) by {
            assert(shorter[k] == names[k]);
        }
        lemma_descended_plain(root, shorter);
        lemma_parent_of_joined(descended(root, shorter), names.last());
    }
}

/// The walk for a local configuration file that starts any number of levels below
/// a directory holding one, with none in the directories on the way, ends at that
/// directory: it becomes the root, whatever the depth.
pub proof fn lemma_walk_finds_marked_ancestor(
    root: Seq<char>,
    names: Seq<Seq<char>>,
    present: Seq<String>,
)
    requires
        is_plain_dir(root),
        forall|k: int| 0 <= k < names.len() ==> is_component(#[trigger] names[k]),
        listed(present, joined(root, LOCAL_CONFIG_FILE@)),
        forall|k: int|
            0 < k <= names.len() ==> !listed(
                present,
                joined(descended(root, #[trigger] names.take(k)), LOCAL_CONFIG_FILE@),
            ),
    ensures
        local_config_from(descended(root, names), present) == Some(
            (root, joined(root, LOCAL_CONFIG_FILE@)),
        ),
    decreases names.len(),
{
    if names.len() > 0 {
        let shorter = names.drop_last();
        let above = descended(root, shorter);
        assert(names.take(names.len() as int) =~= names);
        assert(is_component(names[names.len() - 1]));
        assert forall|k: int| 0 <= k < shorter.len() implies is_component(
            #[trigger] shorter[k],
        ) by {
            assert(shorter[k] == names[k]);
        }
        assert forall|k: int| 0 < k <= shorter.len() implies !listed(
            present,
            joined(descended(root, #[trigger] shorter.take(k)), LOCAL_CONFIG_FILE@),
        ) by {
            assert(shorter.take(k) =~= names.take(k));
        }
        lemma_descended_plain(root, shorter);
        lemma_parent_of_joined(above, names.last());
        lemma_walk_finds_marked_ancestor(root, shorter, present);
    }
}

impl Config {
    /// Whether `path` is among `present`.
    pub fn is_listed(present: &Vec<String>, path: &str) -> (r: bool)
        ensures
            r == listed(present@, path@),
    {
        let mut i: usize = 0;
        while i < present.len()
            invariant
                i <= present.len(),
                forall|j: int| 0 <= j < i ==> present[j]@ != path@,
            decreases present.len() - i,
        {
            if same_text(present[i].as_str(), path) {
                return true;
            }
            i += 1;
        }
        false
    }

    /// The paths to look at for a local configuration file when working in `dir`.
    pub fn local_config_paths(dir: &str) -> (r: Vec<String>)
        ensures
            text_views(r@) == local_config_candidates(dir@),
    {
        let mut out: Vec<String> = Vec::new();
        let mut current = dir.to_owned();
        loop
            invariant
                local_config_candidates(dir@).len() == out@.len() + local_config_candidates(
                    current@,
                ).len(),
                forall|i: int|
                    0 <= i < out@.len() ==> out@[i]@ == local_config_candidates(dir@)[i],
                forall|i: int|
                    0 <= i < local_config_candidates(current@).len() ==> local_config_candidates(
                        current@,
                    )[i] == local_config_candidates(dir@)[out@.len() + i],
            decreases current@.len(),
        {
            let ghost here = current@;
            let ghost done = out@.len();
            out.push(join(current.as_str(), LOCAL_CONFIG_FILE));
            assert(local_config_candidates(here)[0] == joined(here, LOCAL_CONFIG_FILE@));
            match parent(current.as_str()) {
                Some(up) => {
                    proof {
                        lemma_parent_shorter(here);
                        assert forall|i: int|
                            0 <= i < local_config_candidates(up@).len() implies local_config_candidates(
                            up@,
                        )[i] == local_config_candidates(dir@)[out@.len() + i] by {
                            assert(local_config_candidates(up@)[i] == local_config_candidates(
                                here,
                            )[i + 1]);
                        }
                    }
                    current = up;
                },
                None => {
                    assert(text_views(out@) =~= local_config_candidates(dir@));
                    return out;
                },
            }
        }
    }

    /// Finds the local configuration file for work in `dir`: the one in `dir` or else
    /// in its nearest ancestor that has one. `present` lists the candidate paths at
    /// which a file exists. Returns the root directory and the path of the file.
    pub fn find_local_config(dir: &str, present: &Vec<String>) -> (r: Option<(String, String)>)
        ensures
            match local_config_from(dir@, present@) {
                Some((root, file)) => r matches Some(found) && found.0@ == root && found.1@ == file,
                None => r is None,
            },
    {
        let mut current = dir.to_owned();
        loop
            invariant
                local_config_from(dir@, present@) == local_config_from(current@, present@),
            decreases current@.len(),
        {
            let candidate = join(current.as_str(), LOCAL_CONFIG_FILE);
            if Self::is_listed(present, candidate.as_str()) {
                return Some((current, candidate));
            }
            match parent(current.as_str()) {
                Some(up) => {
                    proof {
                        lemma_parent_shorter(current@);
                    }
                    current = up;
                },
                None => {
                    return None;
                },
            }
        }
    }
}

/// The arguments of one invocation.
#[derive(Debug)]
pub struct Args {
    pub command: Command,
    /// Path to the local configuration file, when it is not to be searched for.
    pub config_path: Option<String>,
}

#[derive(Debug)]
pub enum Command {
    /// Initialize a latex document with a template.
    Init(InitArgs),
    /// Compile the latex document.
    Compile(CompileArgs),
    /// Clean temporary files.
    Clean(CleanArgs),
    /// Show errors and warnings from the last compilation.
    Log(LogArgs),
    /// Manage templates.
    Template(TemplateArgs),
    /// Another way to write `template add`.
    Add(TemplateAddArgs),
    /// Manage the configuration.
    Config(ConfigArgs),
}

#[derive(Debug)]
pub struct InitArgs {
    /// Name of the template to use.
    pub template: Option<String>,
    /// Main latex entry point.
    pub main: Option<String>,
}

#[derive(Debug)]
pub struct CompileArgs {
    /// Entry point for the latex compiler.
    pub main_file: Option<String>,
}

#[derive(Debug)]
pub struct CleanArgs {
    /// Entry point for the latex compiler.
    pub main_file: Option<String>,
}

#[derive(Debug)]
pub struct LogArgs {
    /// Log file to show errors for.
    pub log_file: Option<String>,
}

#[derive(Debug)]
pub struct TemplateArgs {
    pub template_command: TemplateCommand,
}

#[derive(Debug)]
pub struct ConfigArgs {
    pub config_command: ConfigCommand,
    /// Operate on the global configuration instead of the local one.
    pub global: bool,
}

#[derive(Debug)]
pub enum TemplateCommand {
    /// Add local files or directories to the templates.
    Add(TemplateAddArgs),
    /// Add a git repository to the templates.
    AddRepo(TemplateAddRepoArgs),
    /// List the templates.
    List,
}

#[derive(Debug)]
pub struct TemplateAddArgs {
    /// Paths of zip files or directories.
    pub paths: Vec<String>,
    /// Link into the templates directory instead of copying.
    pub symlink: bool,
    /// Name under which to store the template.
    pub rename: Option<String>,
    /// Replace an existing template.
    pub force: bool,
}

#[derive(Debug)]
pub struct TemplateAddRepoArgs {
    /// URL of the repository.
    pub url: String,
    /// Branch of the repository.
    pub branch: Option<String>,
    /// Path of the template file or directory within the repository.
    pub path: Option<String>,
    /// Name under which to store the template.
    pub rename: Option<String>,
    /// Replace an existing template.
    pub force: bool,
}

#[derive(Debug)]
pub enum ConfigCommand {
    /// Write a configuration file with the current settings.
    Create(ConfigCreateArgs),
    /// Print the current configuration.
    Show,
}

#[derive(Debug)]
pub struct ConfigCreateArgs {
    /// Replace an existing file.
    pub force: bool,
}

/// Everything a command works from.
#[derive(Debug)]
pub struct Opts {
    /// Command-line arguments.
    pub args: Args,
    /// Settings that configuration files can change.
    pub config: Config,
    /// Current working directory.
    pub cwd: String,
}

impl Opts {
    /// Puts together what a command works from: the arguments, the working
    /// directory, and the effective configuration, which is `global` changed by the
    /// local configuration file (see [`Config::new_local`]).
    pub fn create(
        cwd: String,
        args: Args,
        global: Config,
        root: Option<String>,
        contents: Option<&str>,
    ) -> (r: Result<Opts, Failure>)
        ensures
            match contents {
                None => r matches Ok(o) && o.args == args && o.cwd == cwd && o.config@ == rooted(
                    global@,
                    text_view(root),
                ),
                Some(text) => match toml_document(text@) {
                    Err(diagnostic) => r matches Err(e) && e@ == (FailureView::Parse {
                        message: diagnostic,
                    }),
                    Ok(table) => r matches Ok(o) && o.args == args && o.cwd == cwd && o.config@
                        == local_config(global@, text_view(root), table),
                },
            },
    {
        match Config::new_local(global, root, contents) {
            Ok(config) => Ok(Self { args, config, cwd }),
            Err(e) => Err(e),
        }
    }

    /// Puts together what a command works from, with a configuration that is given.
    pub fn create_mock(args: Args, config: Config, cwd: String) -> (r: Opts)
        ensures
            r.args == args,
            r.config == config,
            r.cwd == cwd,
    {
        Self { args, config, cwd }
    }
}

/// A layer of overrides is partial: every setting for which the table gives a
/// string takes that string, and every other setting, the root and the remote
/// templates keep their value.
pub proof fn lemma_override_changes_only_given_keys(c: ConfigView, table: TableView)
    ensures
        overridden(c, table).root == c.root,
        overridden(c, table).remote_templates == c.remote_templates,
        overridden(c, table).main_file == match text_at(table, "main_file"@) {
            Some(s) => s,
            None => c.main_file,
        },
        overridden(c, table).compile_cmd == match text_at(table, "compile_cmd"@) {
            Some(s) => s,
            None => c.compile_cmd,
        },
        overridden(c, table).clean_cmd == match text_at(table, "clean_cmd"@) {
            Some(s) => s,
            None => c.clean_cmd,
        },
        overridden(c, table).data_dir == match text_at(table, "data_dir"@) {
            Some(s) => s,
            None => c.data_dir,
        },
        overridden(c, table).templates_dir == match text_at(table, "templates_dir"@) {
            Some(s) => s,
            None => c.templates_dir,
        },
        overridden(c, table).config_file == match text_at(table, "config_file"@) {
            Some(s) => s,
            None => c.config_file,
        },
        overridden(c, table).temp_dir == match text_at(table, "temp_dir"@) {
            Some(s) => s,
            None => c.temp_dir,
        },
        overridden(overridden(c, table), table) == overridden(c, table),
{
}

/// Precedence of the layers: a setting has the value that the local file gives it;
/// failing that, the value that the global file gives it; failing that, its
/// built-in value. The root is the directory of the local file, if one was found.
pub proof fn lemma_layers_precedence(
    defaults: ConfigView,
    global: TableView,
    root: Option<Seq<char>>,
    local: TableView,
)
    requires
        global_config(defaults, global) is Ok,
    ensures
        ({
            let effective = local_config(global_config(defaults, global)->Ok_0, root, local);
            &&& effective.root == match root {
                Some(r) => r,
                None => defaults.root,
            }
            &&& effective.main_file == picked(
                local,
                "main_file"@,
                picked(global, "main_file"@, defaults.main_file),
            )
            &&& effective.compile_cmd == picked(
                local,
                "compile_cmd"@,
                picked(global, "compile_cmd"@, defaults.compile_cmd),
            )
            &&& effective.clean_cmd == picked(
                local,
                "clean_cmd"@,
                picked(global, "clean_cmd"@, defaults.clean_cmd),
            )
            &&& effective.data_dir == picked(
                local,
                "data_dir"@,
                picked(global, "data_dir"@, defaults.data_dir),
            )
            &&& effective.templates_dir == picked(
                local,
                "templates_dir"@,
                picked(global, "templates_dir"@, defaults.templates_dir),
            )
            &&& effective.config_file == picked(
                local,
                "config_file"@,
                picked(global, "config_file"@, defaults.config_file),
            )
            &&& effective.temp_dir == picked(
                local,
                "temp_dir"@,
                picked(global, "temp_dir"@, defaults.temp_dir),
            )
            &&& effective.remote_templates == global_config(
                defaults,
                global,
            )->Ok_0.remote_templates
        }),
{
}

/// Declaring remote templates keeps their names unique.
pub proof fn lemma_remotes_from_unique(
    defaults: ConfigView,
    current: Seq<(Seq<char>, RemoteTemplateView)>,
    entries: TableView,
)
    requires
        unique_names(current),
    ensures
        remotes_from(defaults, current, entries) matches Ok(list) ==> unique_names(list),
    decreases entries.len(),
{
    if entries.len() > 0 {
        match remote_of(defaults, entries[0]) {
            Ok(remote) => {
                lemma_with_remote_unique(current, entries[0].0, remote);
                lemma_remotes_from_unique(
                    defaults,
                    with_remote(current, entries[0].0, remote),
                    entries.skip(1),
                );
            },
            Err(_) => {},
        }
    }
}

/// The remote templates of a global configuration have unique names.
pub proof fn lemma_global_config_remotes(defaults: ConfigView, table: TableView)
    requires
        unique_names(defaults.remote_templates),
    ensures
        global_config(defaults, table) matches Ok(c) ==> unique_names(c.remote_templates),
{
    match lookup(table, REMOTE_TEMPLATES_OPTION@) {
        Some(TomlValueView::Table(entries)) => {
            lemma_remotes_from_unique(defaults, defaults.remote_templates, entries);
        },
        _ => {},
    }
}

} // verus!
