//! The command line and the configuration: the arguments the program takes,
//! how `KEY=value` definitions are read, where the configuration file is
//! looked for, and how the configuration is completed from the arguments.
use crate::apply::Apply;
use crate::keyed::{keyed_insert, keyed_map, keys_of};
use crate::host::{ansi_stripped, is_regular_file, join_path, path_exists, path_join, strip_ansi, user_config_dir};
use crate::text::{lemma_first_occurrence, split_once, split_once_spec};
use vstd::prelude::*;

verus! {

/// `version`: print the version.
#[derive(Debug, PartialEq, Eq)]
pub struct Version {}

/// `contexts`: list the contexts, with their values where asked.
#[derive(Debug, PartialEq, Eq)]
pub struct Contexts {
    pub show_values: bool,
}

/// The shells for which completions are written.
#[derive(PartialEq, Eq, Structural, Clone, Copy, Debug)]
pub enum CompletionShell {
    Bash,
    Elvish,
    Fish,
    PowerShell,
    Zsh,
}

/// `gen-completions`: write the completions for a shell.
#[derive(Debug, PartialEq, Eq)]
pub struct GenCompletions {
    pub shell: CompletionShell,
}

/// The commands of the program.
#[derive(Debug, PartialEq, Eq)]
pub enum Commands {
    Apply(Apply),
    Status(Apply),
    Version(Version),
    Contexts(Contexts),
    GenCompletions(GenCompletions),
}

impl Commands {
    /// The command run where none is given: `version`.
    pub fn default() -> (c: Commands)
        ensures
            c is Version,
    {
        Commands::Version(Version {})
    }
}

/// The arguments of the program.
#[derive(Debug, PartialEq, Eq)]
pub struct GlobalArgs {
    pub manifest_directory: Option<String>,
    pub config_path: Option<String>,
    pub no_color: bool,
    pub defines: Vec<(String, String)>,
    pub verbose: u8,
    pub command: Commands,
}

impl GlobalArgs {
    /// No option set, and the default command.
    pub fn default() -> (a: GlobalArgs)
        ensures
            a.manifest_directory is None,
            a.config_path is None,
            !a.no_color,
            a.defines@.len() == 0,
            a.verbose == 0,
            a.command is Version,
    {
        GlobalArgs {
            manifest_directory: None,
            config_path: None,
            no_color: false,
            defines: Vec::new(),
            verbose: 0,
            command: Commands::default(),
        }
    }
}

/// The `plugin` subcommands.
#[derive(Debug, PartialEq, Eq)]
pub enum PluginSubCommands {
    Add { name: String },
    List,
    Remove { name: String },
    Update { name: Option<String> },
}

/// The `plugin` command.
#[derive(Debug, PartialEq, Eq)]
pub struct PluginCommands {
    pub command: PluginSubCommands,
}

/// The message of a definition without `=`.
pub open spec fn key_val_error(s: Seq<char>) -> Seq<char> {
    "invalid KEY=value: no `=` found in `"@ + s + "`"@
}

/// Reads a definition `KEY=value`, split at the first `=`.
pub fn parse_key_val(s: &str) -> (r: Result<(String, String), String>)
    ensures
        match split_once_spec(s@, '=') {
            Some((k, v)) => r matches Ok((key, value)) && key@ == k && value@ == v,
            None => r matches Err(e) && e@ == key_val_error(s@),
        },
{
    match split_once(s, '=') {
        Some((k, v)) => Ok((k, v)),
        None => Err(String::from_str("invalid KEY=value: no `=` found in `").concat(s).concat("`")),
    }
}

/// What the program is configured with.
#[derive(Debug, PartialEq, Eq)]
pub struct Config {
    pub manifest_paths: Vec<String>,
    pub variables: Vec<(String, String)>,
    pub disable_update_check: bool,
}

impl Config {
    /// Each variable is defined once.
    pub open spec fn wf(&self) -> bool {
        keys_of(self.variables@).no_duplicates()
    }

    /// Nothing configured.
    pub fn default() -> (c: Config)
        ensures
            c.wf(),
            c.manifest_paths@.len() == 0,
            c.variables@.len() == 0,
            !c.disable_update_check,
    {
        Config { manifest_paths: Vec::new(), variables: Vec::new(), disable_update_check: false }
    }
}

/// Why no configuration can be had.
#[derive(PartialEq, Eq, Debug)]
pub enum ConfigError {
    /// The configuration file named on the command line does not exist.
    Missing { path: String },
}

/// A configuration file that was found and read: what it holds, and the
/// directory it lies in, where it has one.
#[derive(Debug, PartialEq, Eq)]
pub struct LoadedConfig {
    pub config: Config,
    pub parent: Option<String>,
}

/// The value kept under `k` by the definitions, the last definition of a
/// key winning.
pub open spec fn defined_value(defines: Seq<(String, String)>, k: Seq<char>) -> Option<Seq<char>>
    decreases defines.len(),
{
    if defines.len() == 0 {
        None
    } else if defines.last().0@ == k {
        Some(defines.last().1@)
    } else {
        defined_value(defines.drop_last(), k)
    }
}

/// The variables after the definitions: each defined key holds its last
/// definition; every other key is as before.
pub open spec fn variables_after(before: Map<Seq<char>, String>, defines: Seq<(String, String)>) -> Map<
    Seq<char>,
    String,
>
    decreases defines.len(),
{
    if defines.len() == 0 {
        before
    } else {
        variables_after(before, defines.drop_last()).insert(defines.last().0@, defines.last().1)
    }
}

/// Keeps each definition among the variables, in order.
pub fn apply_defines(variables: &mut Vec<(String, String)>, defines: &Vec<(String, String)>)
    requires
        keys_of(old(variables)@).no_duplicates(),
    ensures
        keys_of(final(variables)@).no_duplicates(),
        keyed_map(final(variables)@) == variables_after(keyed_map(old(variables)@), defines@),
{
    let ghost before = keyed_map(variables@);
    let mut i: usize = 0;
    while i < defines.len()
        invariant
            i <= defines@.len(),
            keys_of(variables@).no_duplicates(),
            keyed_map(variables@) == variables_after(before, defines@.subrange(0, i as int)),
        decreases defines.len() - i,
    {
        let ghost prefix = defines@.subrange(0, i + 1);
        assert(prefix.drop_last() =~= defines@.subrange(0, i as int));
        let key = defines[i].0.clone();
        let value = defines[i].1.clone();
        keyed_insert(variables, key, value);
        i = i + 1;
    }
    assert(defines@.subrange(0, defines@.len() as int) =~= defines@);
}

/// The manifest directories a configuration ends with: those it lists;
/// where it lists none, the directory of its file, if that has one.
pub open spec fn completed_paths(listed: Seq<Seq<char>>, parent: Option<Seq<char>>) -> Seq<Seq<char>> {
    if listed.len() == 0 {
        match parent {
            Some(p) => seq![p],
            None => listed,
        }
    } else {
        listed
    }
}

/// The configuration, from the file that was found (if any) and the
/// arguments: with no file, an error where the arguments named one, else
/// the default configuration with the manifest directory `,`; with a file,
/// what it holds, with its directory as manifest directory where it lists
/// none. In either case the definitions of the arguments are then kept
/// among the variables.
pub fn lib_config_from(args: &GlobalArgs, found: Option<LoadedConfig>) -> (r: Result<Config, ConfigError>)
    requires
        found matches Some(l) ==> l.config.wf(),
    ensures
        found is None && args.config_path is Some ==> (r matches Err(ConfigError::Missing { path }) && path@
            == args.config_path->0@),
        found is None && args.config_path is None ==> (r matches Ok(c) && c.wf() && c.manifest_paths.deep_view()
            == seq![","@] && keyed_map(c.variables@) == variables_after(Map::empty(), args.defines@)
            && !c.disable_update_check),
        found matches Some(l) ==> (r matches Ok(c) && c.wf() && c.manifest_paths.deep_view() == completed_paths(
            l.config.manifest_paths.deep_view(),
            l.parent.deep_view(),
        ) && keyed_map(c.variables@) == variables_after(keyed_map(l.config.variables@), args.defines@)
            && c.disable_update_check == l.config.disable_update_check),
{
    let mut config = match found {
        Some(l) => {
            let mut config = l.config;
            if config.manifest_paths.len() == 0 {
                if let Some(p) = l.parent {
                    config.manifest_paths.push(p);
                    assert(config.manifest_paths.deep_view() =~= seq![p@]);
                }
            }
            config
        },
        None => {
            if let Some(p) = &args.config_path {
                return Err(ConfigError::Missing { path: p.clone() });
            }
            let mut config = Config::default();
            config.manifest_paths.push(String::from_str(","));
            assert(config.variables@ =~= Seq::<(String, String)>::empty());
            assert(keyed_map(config.variables@) =~= Map::<Seq<char>, String>::empty());
            config
        },
    };
    apply_defines(&mut config.variables, &args.defines);
    Ok(config)
}

/// The configuration once loaded: a manifest directory given on the command
/// line replaces those configured.
pub fn load_config_from(args: &GlobalArgs, config: Config) -> (r: Config)
    ensures
        r.variables@ == config.variables@,
        r.disable_update_check == config.disable_update_check,
        args.manifest_directory matches Some(d) ==> r.manifest_paths.deep_view() == seq![d@],
        args.manifest_directory is None ==> r.manifest_paths.deep_view() == config.manifest_paths.deep_view(),
{
    match &args.manifest_directory {
        Some(d) => {
            let r = Config {
                manifest_paths: vec![d.clone()],
                variables: config.variables,
                disable_update_check: config.disable_update_check,
            };
            assert(r.manifest_paths.deep_view() =~= seq![d@]);
            r
        },
        None => config,
    }
}

/// Where a configuration file may be, and whether a file is found there.
#[derive(Debug, PartialEq, Eq)]
pub struct ConfigCandidates {
    /// The file named on the command line, and whether it exists.
    pub given: Option<(String, bool)>,
    /// `Comtrya.yaml` in the working directory, and whether it is a file.
    pub working_dir: Option<(String, bool)>,
    /// `Comtrya.yaml` in the user's configuration directory, and whether
    /// it is a file.
    pub config_dir: Option<(String, bool)>,
}

/// The configuration file to read: the one named on the command line where
/// one is (and none where it does not exist); else the first file found, in
/// the working directory, then in the configuration directory.
pub fn pick_config(c: &ConfigCandidates) -> (r: Option<String>)
    ensures
        c.given matches Some((p, exists)) ==> r.deep_view() == (if exists {
            Some(p@)
        } else {
            None::<Seq<char>>
        }),
        c.given is None ==> r.deep_view() == (match c.working_dir {
            Some((p, true)) => Some(p@),
            _ => match c.config_dir {
                Some((p, true)) => Some(p@),
                _ => None::<Seq<char>>,
            },
        }),
{
    if let Some((p, exists)) = &c.given {
        return if *exists {
            Some(p.clone())
        } else {
            None
        };
    }
    if let Some((p, true)) = &c.working_dir {
        return Some(p.clone());
    }
    if let Some((p, true)) = &c.config_dir {
        return Some(p.clone());
    }
    None
}

/// The file that is picked among the candidates (as texts, each with
/// whether a file is found there): the one named on the command line where
/// one is, if it exists; else the first found, in the working directory,
/// then in the configuration directory.
pub open spec fn picked(
    given: Option<(Seq<char>, bool)>,
    working_dir: Option<(Seq<char>, bool)>,
    config_dir: Option<(Seq<char>, bool)>,
) -> Option<Seq<char>> {
    match given {
        Some((p, exists)) => if exists {
            Some(p)
        } else {
            None
        },
        None => match working_dir {
            Some((p, true)) => Some(p),
            _ => match config_dir {
                Some((p, true)) => Some(p),
                _ => None,
            },
        },
    }
}

/// The file named on the command line, with whether it exists.
pub open spec fn given_candidate(config_path: Option<Seq<char>>, exists: bool) -> Option<(Seq<char>, bool)> {
    match config_path {
        Some(p) => Some((p, exists)),
        None => None,
    }
}

/// `Comtrya.yaml` in `dir`, and whether a file is found there: a candidate
/// exactly where there is a directory.
fn config_candidate(dir: Option<String>) -> (c: Option<(String, bool)>)
    ensures
        dir is None ==> c is None,
        dir is Some ==> c is Some,
        c matches Some((file, _)) ==> file@ == path_join(dir->0@, "Comtrya.yaml"@),
{
    match dir {
        Some(d) => {
            let file = join_path(d.as_str(), "Comtrya.yaml");
            let found = is_regular_file(file.as_str());
            Some((file, found))
        },
        None => None,
    }
}

/// Looks for the configuration file: the one named on the command line,
/// where one is; else `Comtrya.yaml` in the working directory, then in the
/// user's configuration directory. What is found depends on the files of
/// this machine; a file named on the command line is the only one that can
/// come back then.
pub fn find_configs_with(args: &GlobalArgs, working_dir: Option<String>) -> (r: Option<String>)
    ensures
        args.config_path matches Some(p) ==> (r matches Some(q) ==> q@ == p@),
        exists|exists: bool, wd: Option<(Seq<char>, bool)>, cd: Option<(Seq<char>, bool)>|
            {
                &&& (args.config_path is Some ==> wd is None && cd is None)
                &&& (args.config_path is None ==> (wd is Some <==> working_dir is Some))
                &&& (wd matches Some((_, true)) ==> cd is None)
                &&& (wd matches Some((file, _)) ==> file == path_join(working_dir->0@, "Comtrya.yaml"@))
                &&& (cd matches Some((file, _)) ==> exists|dir: Seq<char>| file == path_join(dir, "Comtrya.yaml"@))
                &&& r.deep_view() == #[trigger] picked(
                    given_candidate(args.config_path.deep_view(), exists),
                    wd,
                    cd,
                )
            },
{
    let given = match &args.config_path {
        Some(p) => Some((p.clone(), path_exists(p.as_str()))),
        None => None,
    };
    let candidates = if given.is_some() {
        ConfigCandidates { given, working_dir: None, config_dir: None }
    } else {
        let in_working_dir = config_candidate(working_dir);
        let in_config_dir = match &in_working_dir {
            Some((_, true)) => None,
            _ => config_candidate(user_config_dir()),
        };
        ConfigCandidates { given, working_dir: in_working_dir, config_dir: in_config_dir }
    };
    let r = pick_config(&candidates);
    proof {
        let exists = match candidates.given {
            Some((_, e)) => e,
            None => false,
        };
        assert(given_candidate(args.config_path.deep_view(), exists) == candidates.given.deep_view());
        assert(r.deep_view() == picked(
            candidates.given.deep_view(),
            candidates.working_dir.deep_view(),
            candidates.config_dir.deep_view(),
        ));
    }
    r
}

/// The rows in which the names of a context's values are listed: one name
/// a row, or six a row where there are more than ten.
pub fn context_key_rows(keys: &Vec<String>) -> (rows: Vec<Vec<String>>)
    ensures
        ({
            let size: int = if keys@.len() > 10 { 6 } else { 1 };
            &&& rows@.len() == (keys@.len() + size - 1) / size
            &&& forall|r: int, k: int|
                0 <= r < rows@.len() && 0 <= k < rows@[r]@.len() ==> (r * size + k < keys@.len()
                    && #[trigger] rows@[r]@[k]@ == keys@[r * size + k]@)
            &&& forall|r: int|
                0 <= r < rows@.len() ==> #[trigger] rows@[r]@.len() == (if (r + 1) * size <= keys@.len() {
                    size
                } else {
                    keys@.len() - r * size
                })
        }),
{
    let size: usize = if keys.len() > 10 {
        6
    } else {
        1
    };
    let ghost n = keys@.len() as int;
    let mut rows: Vec<Vec<String>> = Vec::new();
    let mut start: usize = 0;
    while start < keys.len()
        invariant
            size as int == (if n > 10 { 6int } else { 1int }),
            n == keys@.len(),
            start as int == rows@.len() * size || (start == keys@.len() && start as int <= rows@.len() * size),
            start <= keys@.len(),
            start < keys@.len() ==> start as int == rows@.len() * size,
            rows@.len() == (start + size - 1) / (size as int),
            forall|r: int, k: int|
                0 <= r < rows@.len() && 0 <= k < rows@[r]@.len() ==> (r * size + k < n && #[trigger] rows@[r]@[k]@
                    == keys@[r * size + k]@),
            forall|r: int|
                0 <= r < rows@.len() ==> #[trigger] rows@[r]@.len() == (if (r + 1) * size <= n {
                    size as int
                } else {
                    n - r * size
                }),
        decreases keys.len() - start,
    {
        let end: usize = if keys.len() - start > size {
            start + size
        } else {
            keys.len()
        };
        let mut row: Vec<String> = Vec::new();
        let mut k: usize = start;
        while k < end
            invariant
                start <= k <= end,
                end <= keys@.len(),
                row@.len() == k - start,
                forall|j: int| 0 <= j < row@.len() ==> #[trigger] row@[j]@ == keys@[start + j]@,
            decreases end - k,
        {
            row.push(keys[k].clone());
            k = k + 1;
        }
        let ghost r = rows@.len() as int;
        rows.push(row);
        proof {
            assert(start as int == r * size);
            if end == start + size {
                assert((r + 1) * size <= n);
            } else {
                assert(end == n);
                if (r + 1) * size <= n {
                    assert(n - start <= size);
                }
            }
            assert((end + size - 1) / (size as int) == r + 1) by (nonlinear_arith)
                requires
                    start == r * size,
                    size == 1 || size == 6,
                    end > start,
                    end <= start + size,
                    r >= 0,
            ;
        }
        start = end;
    }
    rows
}

/// The rows in which a context's values are listed: each name with its
/// value, the value's ANSI escape sequences taken out.
pub fn context_value_rows(values: &Vec<(String, String)>) -> (rows: Vec<(String, String)>)
    ensures
        rows@.len() == values@.len(),
        forall|i: int|
            0 <= i < values@.len() ==> #[trigger] rows@[i].0@ == values@[i].0@ && rows@[i].1@ == ansi_stripped(
                values@[i].1@,
            ),
{
    let mut rows: Vec<(String, String)> = Vec::new();
    let mut i: usize = 0;
    while i < values.len()
        invariant
            i <= values@.len(),
            rows@.len() == i,
            forall|j: int|
                0 <= j < i ==> #[trigger] rows@[j].0@ == values@[j].0@ && rows@[j].1@ == ansi_stripped(values@[j].1@),
        decreases values.len() - i,
    {
        rows.push((values[i].0.clone(), strip_ansi(values[i].1.as_str())));
        i = i + 1;
    }
    rows
}

/// How much the program writes of what it does.
#[derive(PartialEq, Eq, Structural, Clone, Copy, Debug)]
pub enum LogLevel {
    Info,
    Debug,
    Trace,
}

/// The level that `-v` flags select: informational messages by default,
/// debugging ones with one flag, everything with two or more.
pub fn log_level(verbose: u8) -> (r: LogLevel)
    ensures
        verbose == 0 ==> r == LogLevel::Info,
        verbose == 1 ==> r == LogLevel::Debug,
        verbose >= 2 ==> r == LogLevel::Trace,
{
    if verbose == 0 {
        LogLevel::Info
    } else if verbose == 1 {
        LogLevel::Debug
    } else {
        LogLevel::Trace
    }
}

/// A definition read from `KEY=value` gives the text back when written
/// `KEY=value` again, and its key holds no `=`.
pub proof fn lemma_key_val_round_trip(s: Seq<char>)
    requires
        split_once_spec(s, '=') is Some,
    ensures
        ({
            let (k, v) = split_once_spec(s, '=')->0;
            &&& k + "="@ + v == s
            &&& forall|i: int| 0 <= i < k.len() ==> k[i] != '='
        }),
{
    reveal_strlit("=");
    let w = choose|w: int| 0 <= w < s.len() && s[w] == '=';
    lemma_first_occurrence(s, '=', w);
    let i = choose|i: int| 0 <= i < s.len() && s[i] == '=' && forall|j: int| 0 <= j < i ==> s[j] != '=';
    let k = s.subrange(0, i);
    let v = s.subrange(i + 1, s.len() as int);
    assert(split_once_spec(s, '=') == Some((k, v)));
    assert("="@ =~= seq!['=']);
    assert(k + "="@ + v =~= s);
}

/// The variables after the definitions hold, for each defined key, its
/// last definition, and keep every other variable.
pub proof fn lemma_last_definition_wins(before: Map<Seq<char>, String>, defines: Seq<(String, String)>, k: Seq<char>)
    ensures
        match defined_value(defines, k) {
            Some(v) => variables_after(before, defines).dom().contains(k) && variables_after(before, defines)[k]@ == v,
            None => variables_after(before, defines).dom().contains(k) == before.dom().contains(k) && (before.dom().contains(
                k,
            ) ==> variables_after(before, defines)[k] == before[k]),
        },
    decreases defines.len(),
{
    if defines.len() > 0 {
        lemma_last_definition_wins(before, defines.drop_last(), k);
    }
}

} // verus!
