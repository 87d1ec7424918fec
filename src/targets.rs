//! Deploy targets: the source and destination directories of a repository's
//! mapping entries, and the entries found in them.
use crate::config::{mapping_entries, mapping_get, mapping_len, resolved, Repository};
use crate::path::{separator_of, Environment, PathError, Platform};
use crate::text::{chars_of, push_str, string_of};
use vstd::prelude::*;

verus! {

/// `name` joined under `base` with separator `sep`: no separator is added
/// after an empty base or one that ends with a separator.
pub open spec fn join_spec(sep: char, base: Seq<char>, name: Seq<char>) -> Seq<char> {
    if base.len() == 0 {
        name
    } else if base.last() == sep {
        base + name
    } else {
        base + seq![sep] + name
    }
}

/// Joins the relative path `name` under `base`.
pub fn join_path(p: Platform, base: &str, name: &str) -> (r: String)
    ensures
        r@ == join_spec(separator_of(p), base@, name@),
{
    let sep: char = match p {
        Platform::Windows => '\\',
        _ => '/',
    };
    let mut out = chars_of(base);
    let n = out.len();
    if n > 0 && out[n - 1] != sep {
        out.push(sep);
    }
    push_str(&mut out, name);
    proof {
        if base@.len() > 0 && base@.last() != sep {
            assert(base@ + seq![sep] + name@ =~= base@.push(sep) + name@);
        }
    }
    string_of(&out)
}

/// The directory where repository `repo` is kept under `dotfiles`.
pub fn repo_path(p: Platform, dotfiles: &str, repo: &Repository) -> (r: String)
    ensures
        r@ == join_spec(separator_of(p), dotfiles@, repo.name@),
{
    join_path(p, dotfiles, repo.name.as_str())
}

/// The arguments of the git command that brings a repository up to date: a
/// pull inside `dest` where it exists, else a clone of `url` into `dest`,
/// verbose only when cloning; then quiet if asked.
pub open spec fn git_args_spec(exists: bool, url: Seq<char>, dest: Seq<char>, quiet: bool, verbose: bool) -> Seq<Seq<char>> {
    let base = if exists {
        seq!["pull"@]
    } else if verbose {
        seq!["clone"@, url, dest, "-v"@]
    } else {
        seq!["clone"@, url, dest]
    };
    if quiet {
        base.push("-q"@)
    } else {
        base
    }
}

/// The arguments to run git with for the repository at `dest`, cloned from
/// `url`; `exists` tells whether `dest` is already there.
pub fn git_args(exists: bool, url: &str, dest: &str, quiet: bool, verbose: bool) -> (r: Vec<String>)
    ensures
        r@.len() == git_args_spec(exists, url@, dest@, quiet, verbose).len(),
        forall|i: int| 0 <= i < r@.len() ==> r@[i]@ == git_args_spec(exists, url@, dest@, quiet, verbose)[i],
{
    proof {
        reveal_strlit("pull");
        reveal_strlit("clone");
        reveal_strlit("-v");
        reveal_strlit("-q");
    }
    let mut r: Vec<String> = Vec::new();
    if exists {
        r.push(String::from_str("pull"));
    } else {
        r.push(String::from_str("clone"));
        r.push(String::from_str(url));
        r.push(String::from_str(dest));
        if verbose {
            r.push(String::from_str("-v"));
        }
    }
    if quiet {
        r.push(String::from_str("-q"));
    }
    r
}

/// A mapping entry with its paths: the source directory, and the destination
/// directory resolved, or why it could not be.
#[derive(Debug)]
pub struct DeployTarget {
    pub from: String,
    pub to: Result<String, PathError>,
}

/// A source directory and the destination directory it is deployed to.
#[derive(Clone, Debug)]
pub struct DeployPath {
    pub from: String,
    pub to: String,
}

/// The targets of each mapping entry of `repo`, in mapping order, with the
/// repository kept at `repo_root`. A destination that fails to resolve fails
/// its own entry only.
pub fn create_deploy_path(repo_root: &str, repo: &Repository, env: &Environment) -> (r: Vec<
    DeployTarget,
>)
    ensures
        r@.len() == mapping_entries(repo.deploy).len(),
        forall|i: int|
            0 <= i < r@.len() ==> (#[trigger] r@[i]).from@ == join_spec(
                separator_of(env.platform),
                repo_root@,
                mapping_entries(repo.deploy)[i].0,
            ) && resolved(r@[i].to, mapping_entries(repo.deploy)[i].1, *env),
{
    let n = mapping_len(&repo.deploy);
    let mut r: Vec<DeployTarget> = Vec::new();
    let mut i: usize = 0;
    while i < n
        invariant
            n == mapping_entries(repo.deploy).len(),
            i <= n,
            r@.len() == i,
            forall|j: int|
                0 <= j < i ==> (#[trigger] r@[j]).from@ == join_spec(
                    separator_of(env.platform),
                    repo_root@,
                    mapping_entries(repo.deploy)[j].0,
                ) && resolved(r@[j].to, mapping_entries(repo.deploy)[j].1, *env),
        decreases n - i,
    {
        match mapping_get(&repo.deploy, i) {
            Some((dirname, to)) => {
                let from = join_path(env.platform, repo_root, dirname.as_str());
                let to = to.to_pathbuf(env);
                r.push(DeployTarget { from, to });
            },
            None => {
                assert(false);
            },
        }
        i = i + 1;
    }
    r
}

/// The deploy paths among `targets` whose source directory is present and
/// whose destination resolved, in order.
pub open spec fn selected(targets: Seq<DeployTarget>, present: Seq<bool>) -> Seq<(Seq<char>, Seq<char>)>
    decreases targets.len(),
{
    if targets.len() == 0 || present.len() == 0 {
        Seq::empty()
    } else {
        let init = selected(targets.drop_last(), present.drop_last());
        match targets.last().to {
            Ok(to) => if present.last() {
                init.push((targets.last().from@, to@))
            } else {
                init
            },
            Err(_) => init,
        }
    }
}

/// Keeps the targets whose source directory is present (`present[i]` for
/// `targets[i]`) and whose destination resolved. A missing source directory
/// is no error: it contributes nothing.
pub fn select_deploy_paths(targets: &Vec<DeployTarget>, present: &Vec<bool>) -> (r: Vec<DeployPath>)
    requires
        present@.len() == targets@.len(),
    ensures
        r@.map_values(|d: DeployPath| (d.from@, d.to@)) == selected(targets@, present@),
{
    let mut r: Vec<DeployPath> = Vec::new();
    let mut i: usize = 0;
    assert(targets@.take(0) =~= Seq::<DeployTarget>::empty());
    while i < targets.len()
        invariant
            i <= targets@.len(),
            present@.len() == targets@.len(),
            r@.map_values(|d: DeployPath| (d.from@, d.to@)) == selected(
                targets@.take(i as int),
                present@.take(i as int),
            ),
        decreases targets@.len() - i,
    {
        let ghost before = r@;
        assert(targets@.take(i + 1).drop_last() =~= targets@.take(i as int));
        assert(present@.take(i + 1).drop_last() =~= present@.take(i as int));
        match &targets[i].to {
            Ok(to) => {
                if present[i] {
                    r.push(DeployPath { from: targets[i].from.clone(), to: to.clone() });
                    assert(r@.map_values(|d: DeployPath| (d.from@, d.to@)) =~= before.map_values(
                        |d: DeployPath| (d.from@, d.to@),
                    ).push((targets@[i as int].from@, to@)));
                }
            },
            Err(_) => {},
        }
        i = i + 1;
    }
    assert(targets@.take(i as int) =~= targets@);
    assert(present@.take(i as int) =~= present@);
    r
}

/// The entries of deploy path `dp`: for each name found in its source
/// directory, the source entry and the destination entry of that name.
pub fn entry_paths(p: Platform, dp: &DeployPath, names: &Vec<String>) -> (r: Vec<(String, String)>)
    ensures
        r@.len() == names@.len(),
        forall|i: int|
            0 <= i < names@.len() ==> (#[trigger] r@[i]).0@ == join_spec(
                separator_of(p),
                dp.from@,
                names@[i]@,
            ) && r@[i].1@ == join_spec(separator_of(p), dp.to@, names@[i]@),
{
    let mut r: Vec<(String, String)> = Vec::new();
    let mut i: usize = 0;
    while i < names.len()
        invariant
            i <= names@.len(),
            r@.len() == i,
            forall|j: int|
                0 <= j < i ==> (#[trigger] r@[j]).0@ == join_spec(
                    separator_of(p),
                    dp.from@,
                    names@[j]@,
                ) && r@[j].1@ == join_spec(separator_of(p), dp.to@, names@[j]@),
        decreases names@.len() - i,
    {
        let from = join_path(p, dp.from.as_str(), names[i].as_str());
        let to = join_path(p, dp.to.as_str(), names[i].as_str());
        r.push((from, to));
        i = i + 1;
    }
    r
}

} // verus!
