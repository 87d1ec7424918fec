//! The configuration: where the repositories are kept, and what each one
//! deploys where.
use crate::path::{
    expand, expand_template, expansion_matches, syntax_of, syntax_spec, Environment, PathError,
    PathErrorKind, Platform, Syntax,
};
use indexmap::IndexMap;
use vstd::prelude::*;

verus! {

/// A template path with a variant for each operating system family.
#[derive(Clone, Debug)]
pub struct OsPath {
    pub windows: Option<String>,
    pub mac: Option<String>,
    pub linux: Option<String>,
}

/// The template of `o` for platform `p`.
pub open spec fn variant(o: OsPath, p: Platform) -> Option<Seq<char>> {
    match p {
        Platform::Windows => crate::path::opt_view(o.windows),
        Platform::Mac => crate::path::opt_view(o.mac),
        Platform::Linux => crate::path::opt_view(o.linux),
    }
}

/// The resolution of `o` in `env`: the expansion of its variant for the
/// platform, or `PathNotDefined` where it has none.
pub open spec fn resolve_spec(o: OsPath, env: Environment) -> Result<
    Seq<char>,
    (PathErrorKind, Seq<char>),
> {
    match variant(o, env.platform) {
        Some(t) => expand(syntax_spec(env.platform), t, env),
        None => Err((PathErrorKind::PathNotDefined, Seq::empty())),
    }
}

/// `r` is the resolution of `o` in `env`.
pub open spec fn resolved(r: Result<String, PathError>, o: OsPath, env: Environment) -> bool {
    match variant(o, env.platform) {
        Some(t) => expansion_matches(r, t, resolve_spec(o, env)),
        None => expansion_matches(r, Seq::empty(), resolve_spec(o, env)),
    }
}

impl OsPath {
    /// Resolves the variant for the platform of `env` to a concrete path.
    pub fn to_pathbuf(&self, env: &Environment) -> (r: Result<String, PathError>)
        ensures
            resolved(r, *self, *env),
    {
        let t = match env.platform {
            Platform::Windows => &self.windows,
            Platform::Mac => &self.mac,
            Platform::Linux => &self.linux,
        };
        match t {
            Some(t) => expand_template(syntax_of(env.platform), t.as_str(), env),
            None => Err(
                PathError {
                    kind: PathErrorKind::PathNotDefined,
                    template: String::new(),
                    name: String::new(),
                },
            ),
        }
    }
}

#[verifier::external_type_specification]
#[verifier::external_body]
#[verifier::reject_recursive_types(K)]
#[verifier::reject_recursive_types(V)]
#[verifier::reject_recursive_types(S)]
pub struct ExIndexMap<K, V, S>(IndexMap<K, V, S>);

/// The entries of a deploy mapping, in their order.
pub uninterp spec fn mapping_entries(m: IndexMap<String, OsPath>) -> Seq<(Seq<char>, OsPath)>;

/// Relies on `IndexMap::len`: the number of entries.
#[verifier::external_body]
pub(crate) fn mapping_len(m: &IndexMap<String, OsPath>) -> (r: usize)
    ensures
        r == mapping_entries(*m).len(),
{
    m.len()
}

/// A key and its value, borrowed from a deploy mapping.
pub type MappingEntry<'a> = (&'a String, &'a OsPath);

/// Relies on `IndexMap::get_index`: the entry at position `i` in the order of
/// the map, for `i` below its length.
#[verifier::external_body]
pub(crate) fn mapping_get(m: &IndexMap<String, OsPath>, i: usize) -> (r: Option<MappingEntry>)
    ensures
        i < mapping_entries(*m).len() ==> r is Some,
        i < mapping_entries(*m).len() ==> (r->0).0@ == mapping_entries(*m)[i as int].0,
        i < mapping_entries(*m).len() ==> *(r->0).1 == mapping_entries(*m)[i as int].1,
        i >= mapping_entries(*m).len() ==> r is None,
{
    m.get_index(i)
}

/// A source of dotfiles: its name, its version-control URL, and where each of
/// its subdirectories is deployed.
#[derive(Debug)]
pub struct Repository {
    pub name: String,
    pub url: String,
    pub deploy: IndexMap<String, OsPath>,
}

/// The configuration as a whole: the directory that holds the repositories,
/// and the repositories.
#[derive(Debug)]
pub struct AppConfig {
    pub dotfiles: OsPath,
    pub repos: Vec<Repository>,
}

impl Default for AppConfig {
    fn default() -> (r: AppConfig)
        ensures
            crate::path::opt_view(r.dotfiles.windows) == Some("%USERPROFILE%\\dotfiles"@),
            crate::path::opt_view(r.dotfiles.mac) == Some("${HOME}/.dotfiles"@),
            crate::path::opt_view(r.dotfiles.linux) == Some("${HOME}/.dotfiles"@),
            r.repos@.len() == 0,
    {
        let dotfiles = OsPath {
            windows: Some(String::from_str("%USERPROFILE%\\dotfiles")),
            mac: Some(String::from_str("${HOME}/.dotfiles")),
            linux: Some(String::from_str("${HOME}/.dotfiles")),
        };
        AppConfig { dotfiles, repos: Vec::new() }
    }
}

impl AppConfig {
    /// Resolves the directory that holds the repositories.
    pub fn to_pathbuf(&self, env: &Environment) -> (r: Result<String, PathError>)
        ensures
            resolved(r, self.dotfiles, *env),
    {
        self.dotfiles.to_pathbuf(env)
    }
}

/// Whether the repository called `name` is selected by `repo_name`: the one
/// of that name, or every one where no name is given.
pub open spec fn selects(repo_name: Option<Seq<char>>, name: Seq<char>) -> bool {
    match repo_name {
        None => true,
        Some(n) => n == name,
    }
}

/// The positions, in configuration order, of the first `n` repositories
/// that `repo_name` selects.
pub open spec fn selected_indices(repos: Seq<Repository>, repo_name: Option<Seq<char>>, n: nat) -> Seq<
    int,
>
    decreases n,
{
    if n == 0 {
        Seq::empty()
    } else {
        let init = selected_indices(repos, repo_name, (n - 1) as nat);
        if selects(repo_name, repos[n - 1].name@) {
            init.push(n - 1)
        } else {
            init
        }
    }
}

impl AppConfig {
    /// The positions of the repositories that `repo_name` selects, in
    /// configuration order.
    pub fn selected_repos(&self, repo_name: &Option<String>) -> (r: Vec<usize>)
        ensures
            r@.map_values(|i: usize| i as int) == selected_indices(
                self.repos@,
                crate::path::opt_view(*repo_name),
                self.repos@.len(),
            ),
    {
        let mut r: Vec<usize> = Vec::new();
        let mut i: usize = 0;
        while i < self.repos.len()
            invariant
                i <= self.repos@.len(),
                r@.map_values(|i: usize| i as int) == selected_indices(
                    self.repos@,
                    crate::path::opt_view(*repo_name),
                    i as nat,
                ),
            decreases self.repos@.len() - i,
        {
            let ghost before = r@;
            let take = match repo_name {
                None => true,
                Some(n) => *n == self.repos[i].name,
            };
            if take {
                r.push(i);
                assert(r@.map_values(|i: usize| i as int) =~= before.map_values(|i: usize| i as int).push(
                    i as int,
                ));
            }
            i = i + 1;
        }
        r
    }
}

} // verus!
