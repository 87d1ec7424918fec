//! Expansion of template paths.
//!
//! A template holds references to environment variables, `${NAME}` in the
//! Unix syntax and `%NAME%` in the Windows one. A reference whose name is a
//! base-directory alias stands for the directory that the operating system
//! reports for it, whatever the environment holds under that name.
use crate::text::{chars_of, push_str, slice_chars, string_of};
use vstd::prelude::*;

pub mod unix;
pub mod windows;

verus! {

/// The operating system family that a path is resolved for.
#[derive(Clone, Copy, Debug, PartialEq, Eq, Structural)]
pub enum Platform {
    Windows,
    Mac,
    Linux,
}

/// The placeholder syntax of a template.
#[derive(Clone, Copy, Debug, PartialEq, Eq, Structural)]
pub enum Syntax {
    /// `${NAME}`
    Unix,
    /// `%NAME%`
    Windows,
}

/// The syntax that templates use on a platform.
pub open spec fn syntax_spec(p: Platform) -> Syntax {
    match p {
        Platform::Windows => Syntax::Windows,
        _ => Syntax::Unix,
    }
}

/// The syntax that templates use on `p`.
pub fn syntax_of(p: Platform) -> (r: Syntax)
    ensures
        r == syntax_spec(p),
{
    match p {
        Platform::Windows => Syntax::Windows,
        _ => Syntax::Unix,
    }
}

/// A well-known directory that a template can name without the environment.
#[derive(Clone, Copy, Debug, PartialEq, Eq, Structural)]
pub enum BaseDir {
    ConfigHome,
    DataHome,
    CacheHome,
    StateHome,
    RuntimeDir,
    RoamingAppData,
    LocalAppData,
    Documents,
    Desktop,
    Profile,
    /// Named in the Windows syntax; no query supplies it.
    ProgramData,
}

/// The directories that the operating system reports for each alias; `None`
/// where it cannot supply one.
#[derive(Clone, Debug)]
pub struct BaseDirs {
    pub config_home: Option<String>,
    pub data_home: Option<String>,
    pub cache_home: Option<String>,
    pub state_home: Option<String>,
    pub runtime_dir: Option<String>,
    pub roaming_app_data: Option<String>,
    pub local_app_data: Option<String>,
    pub documents: Option<String>,
    pub desktop: Option<String>,
    pub profile: Option<String>,
}

pub open spec fn opt_view(o: Option<String>) -> Option<Seq<char>> {
    match o {
        Some(s) => Some(s@),
        None => None,
    }
}

fn clone_opt(o: &Option<String>) -> (r: Option<String>)
    ensures
        opt_view(r) == opt_view(*o),
{
    match o {
        Some(s) => Some(s.clone()),
        None => None,
    }
}

impl BaseDirs {
    /// The directory reported for `d`.
    pub open spec fn value(self, d: BaseDir) -> Option<Seq<char>> {
        match d {
            BaseDir::ConfigHome => opt_view(self.config_home),
            BaseDir::DataHome => opt_view(self.data_home),
            BaseDir::CacheHome => opt_view(self.cache_home),
            BaseDir::StateHome => opt_view(self.state_home),
            BaseDir::RuntimeDir => opt_view(self.runtime_dir),
            BaseDir::RoamingAppData => opt_view(self.roaming_app_data),
            BaseDir::LocalAppData => opt_view(self.local_app_data),
            BaseDir::Documents => opt_view(self.documents),
            BaseDir::Desktop => opt_view(self.desktop),
            BaseDir::Profile => opt_view(self.profile),
            BaseDir::ProgramData => None,
        }
    }

    /// The directory reported for `d`.
    pub fn get(&self, d: BaseDir) -> (r: Option<String>)
        ensures
            opt_view(r) == self.value(d),
    {
        match d {
            BaseDir::ConfigHome => clone_opt(&self.config_home),
            BaseDir::DataHome => clone_opt(&self.data_home),
            BaseDir::CacheHome => clone_opt(&self.cache_home),
            BaseDir::StateHome => clone_opt(&self.state_home),
            BaseDir::RuntimeDir => clone_opt(&self.runtime_dir),
            BaseDir::RoamingAppData => clone_opt(&self.roaming_app_data),
            BaseDir::LocalAppData => clone_opt(&self.local_app_data),
            BaseDir::Documents => clone_opt(&self.documents),
            BaseDir::Desktop => clone_opt(&self.desktop),
            BaseDir::Profile => clone_opt(&self.profile),
            BaseDir::ProgramData => None,
        }
    }
}

/// What expansion reads: the platform, the environment variables, and the
/// base directories.
#[derive(Clone, Debug)]
pub struct Environment {
    pub platform: Platform,
    pub vars: Vec<(String, String)>,
    pub base_dirs: BaseDirs,
}

/// The kinds of failure of path resolution.
#[derive(Clone, Copy, Debug, PartialEq, Eq, Structural)]
pub enum PathErrorKind {
    /// The template has no variant for the running platform.
    PathNotDefined,
    /// A reference is opened and never closed.
    UnterminatedReference,
    /// A reference names nothing.
    EmptyReferenceName,
    /// A name that is neither an alias nor set in the environment.
    UndefinedEnvironmentVariable,
    /// An alias for which the operating system supplies no directory.
    UnsupportedBaseDirectory,
}

/// A failure of path resolution, with the template and the name concerned.
#[derive(Clone, Debug)]
pub struct PathError {
    pub kind: PathErrorKind,
    pub template: String,
    pub name: String,
}

/// The value of the first variable called `name`.
pub open spec fn env_lookup(vars: Seq<(String, String)>, name: Seq<char>) -> Option<Seq<char>>
    decreases vars.len(),
{
    if vars.len() == 0 {
        None
    } else if vars[0].0@ == name {
        Some(vars[0].1@)
    } else {
        env_lookup(vars.drop_first(), name)
    }
}

/// The alias that `name` is in the Unix syntax.
pub open spec fn xdg_alias(name: Seq<char>) -> Option<BaseDir> {
    if name == "XDG_CONFIG_HOME"@ {
        Some(BaseDir::ConfigHome)
    } else if name == "XDG_DATA_HOME"@ {
        Some(BaseDir::DataHome)
    } else if name == "XDG_CACHE_HOME"@ {
        Some(BaseDir::CacheHome)
    } else if name == "XDG_STATE_HOME"@ {
        Some(BaseDir::StateHome)
    } else if name == "XDG_RUNTIME_DIR"@ {
        Some(BaseDir::RuntimeDir)
    } else {
        None
    }
}

/// The alias that `name` is in the Windows syntax.
pub open spec fn known_folder_alias(name: Seq<char>) -> Option<BaseDir> {
    if name == "FOLDERID_RoamingAppData"@ {
        Some(BaseDir::RoamingAppData)
    } else if name == "FOLDERID_LocalAppData"@ {
        Some(BaseDir::LocalAppData)
    } else if name == "FOLDERID_Documents"@ {
        Some(BaseDir::Documents)
    } else if name == "FOLDERID_Desktop"@ {
        Some(BaseDir::Desktop)
    } else if name == "FOLDERID_Profile"@ {
        Some(BaseDir::Profile)
    } else if name == "FOLDERID_ProgramData"@ {
        Some(BaseDir::ProgramData)
    } else {
        None
    }
}

pub open spec fn alias_of(syntax: Syntax, name: Seq<char>) -> Option<BaseDir> {
    match syntax {
        Syntax::Unix => xdg_alias(name),
        Syntax::Windows => known_folder_alias(name),
    }
}

/// What a reference to `name` stands for: the base directory where `name` is
/// an alias, else the environment variable.
pub open spec fn resolve_name_spec(syntax: Syntax, name: Seq<char>, env: Environment) -> Result<
    Seq<char>,
    PathErrorKind,
> {
    match alias_of(syntax, name) {
        Some(d) => match env.base_dirs.value(d) {
            Some(v) => Ok(v),
            None => Err(PathErrorKind::UnsupportedBaseDirectory),
        },
        None => match env_lookup(env.vars@, name) {
            Some(v) => Ok(v),
            None => Err(PathErrorKind::UndefinedEnvironmentVariable),
        },
    }
}

/// The index of the first `c` in `s`.
pub open spec fn first_index(s: Seq<char>, c: char) -> Option<int>
    decreases s.len(),
{
    if s.len() == 0 {
        None
    } else if s[0] == c {
        Some(0)
    } else {
        match first_index(s.drop_first(), c) {
            Some(k) => Some(k + 1),
            None => None,
        }
    }
}

/// Whether a reference opens at the head of `s`.
pub open spec fn opens_reference(syntax: Syntax, s: Seq<char>) -> bool {
    match syntax {
        Syntax::Unix => s.len() >= 2 && s[0] == '$' && s[1] == '{',
        Syntax::Windows => s.len() >= 2 && s[0] == '%',
    }
}

/// The length of the delimiter that opens a reference.
pub open spec fn open_len(syntax: Syntax) -> int {
    match syntax {
        Syntax::Unix => 2,
        Syntax::Windows => 1,
    }
}

/// The delimiter that closes a reference.
pub open spec fn close_char(syntax: Syntax) -> char {
    match syntax {
        Syntax::Unix => '}',
        Syntax::Windows => '%',
    }
}

/// How many characters at the head of `s` are copied as they stand, where no
/// reference opens there: a `$` is copied with the character after it.
pub open spec fn verbatim_len(syntax: Syntax, s: Seq<char>) -> int {
    match syntax {
        Syntax::Unix => if s.len() >= 2 && s[0] == '$' {
            2
        } else {
            1
        },
        Syntax::Windows => 1,
    }
}

pub open spec fn prepend<E>(p: Seq<char>, r: Result<Seq<char>, E>) -> Result<Seq<char>, E> {
    match r {
        Ok(v) => Ok(p + v),
        Err(e) => Err(e),
    }
}

/// The expansion of template `s`: the expanded text, or the kind of the first
/// failure with the name it concerns.
pub open spec fn expand(syntax: Syntax, s: Seq<char>, env: Environment) -> Result<
    Seq<char>,
    (PathErrorKind, Seq<char>),
>
    decreases s.len(),
{
    if s.len() == 0 {
        Ok(Seq::empty())
    } else if opens_reference(syntax, s) {
        let body = s.skip(open_len(syntax));
        // `first_index` yields a position inside `body`; the bound is restated
        // here so that the recursion visibly shrinks.
        match first_index(body, close_char(syntax)) {
            Some(k) => if 0 <= k < body.len() {
                let name = body.take(k);
                if name.len() == 0 {
                    Err((PathErrorKind::EmptyReferenceName, name))
                } else {
                    match resolve_name_spec(syntax, name, env) {
                        Ok(v) => prepend(v, expand(syntax, body.skip(k + 1), env)),
                        Err(kind) => Err((kind, name)),
                    }
                }
            } else {
                Err((PathErrorKind::UnterminatedReference, body))
            },
            None => Err((PathErrorKind::UnterminatedReference, body)),
        }
    } else {
        let n = verbatim_len(syntax, s);
        prepend(s.take(n), expand(syntax, s.skip(n), env))
    }
}

/// `r` is the outcome `m` of expanding `template`.
pub open spec fn expansion_matches(
    r: Result<String, PathError>,
    template: Seq<char>,
    m: Result<Seq<char>, (PathErrorKind, Seq<char>)>,
) -> bool {
    match r {
        Ok(v) => m == Ok::<Seq<char>, (PathErrorKind, Seq<char>)>(v@),
        Err(e) => m == Err::<Seq<char>, (PathErrorKind, Seq<char>)>((e.kind, e.name@))
            && e.template@ == template,
    }
}

pub open spec fn view_result<E>(r: Result<String, E>) -> Result<Seq<char>, E> {
    match r {
        Ok(v) => Ok(v@),
        Err(e) => Err(e),
    }
}

/// The value of the first variable called `name`.
fn lookup(vars: &Vec<(String, String)>, name: &String) -> (r: Option<String>)
    ensures
        opt_view(r) == env_lookup(vars@, name@),
{
    let mut i: usize = 0;
    assert(vars@.skip(0) =~= vars@);
    while i < vars.len()
        invariant
            i <= vars@.len(),
            env_lookup(vars@, name@) == env_lookup(vars@.skip(i as int), name@),
        decreases vars@.len() - i,
    {
        assert(vars@.skip(i as int).drop_first() =~= vars@.skip(i + 1));
        if vars[i].0 == *name {
            return Some(vars[i].1.clone());
        }
        i = i + 1;
    }
    None
}

/// What a reference to `name` stands for.
pub fn resolve_name(syntax: Syntax, name: &String, env: &Environment) -> (r: Result<
    String,
    PathErrorKind,
>)
    ensures
        view_result(r) == resolve_name_spec(syntax, name@, *env),
{
    let alias = match syntax {
        Syntax::Unix => unix::xdg_base_directory(name.as_str()),
        Syntax::Windows => windows::known_folder(name.as_str()),
    };
    match alias {
        Some(d) => match env.base_dirs.get(d) {
            Some(v) => Ok(v),
            None => Err(PathErrorKind::UnsupportedBaseDirectory),
        },
        None => match lookup(&env.vars, name) {
            Some(v) => Ok(v),
            None => Err(PathErrorKind::UndefinedEnvironmentVariable),
        },
    }
}

proof fn lemma_first_index(s: Seq<char>, c: char, k: int)
    requires
        0 <= k <= s.len(),
        forall|j: int| 0 <= j < k ==> s[j] != c,
    ensures
        k < s.len() && s[k] == c ==> first_index(s, c) == Some(k),
        k == s.len() ==> first_index(s, c) is None,
    decreases k,
{
    if k > 0 {
        let t = s.drop_first();
        assert forall|j: int| 0 <= j < k - 1 implies t[j] != c by {
            assert(t[j] == s[j + 1]);
        }
        lemma_first_index(t, c, k - 1);
    }
}

proof fn lemma_prepend_assoc<E>(a: Seq<char>, b: Seq<char>, r: Result<Seq<char>, E>)
    ensures
        prepend(a, prepend(b, r)) == prepend(a + b, r),
{
    match r {
        Ok(x) => {
            assert((a + b) + x =~= a + (b + x));
        },
        Err(_) => {},
    }
}

/// Expands the references of `s` written in `syntax`.
pub fn expand_template(syntax: Syntax, s: &str, env: &Environment) -> (r: Result<String, PathError>)
    ensures
        expansion_matches(r, s@, expand(syntax, s@, *env)),
{
    let cs = chars_of(s);
    let n = cs.len();
    let mut out: Vec<char> = Vec::new();
    let mut i: usize = 0;
    assert(s@.skip(0) =~= s@);
    while i < n
        invariant
            cs@ == s@,
            n == cs@.len(),
            i <= n,
            expand(syntax, s@, *env) == prepend(out@, expand(syntax, s@.skip(i as int), *env)),
        decreases n - i,
    {
        let ghost rest = s@.skip(i as int);
        let opens = match syntax {
            Syntax::Unix => i + 1 < n && cs[i] == '$' && cs[i + 1] == '{',
            Syntax::Windows => i + 1 < n && cs[i] == '%',
        };
        assert(opens == opens_reference(syntax, rest));
        if opens {
            let start: usize = match syntax {
                Syntax::Unix => i + 2,
                Syntax::Windows => i + 1,
            };
            let close: char = match syntax {
                Syntax::Unix => '}',
                Syntax::Windows => '%',
            };
            let mut j: usize = start;
            while j < n
                invariant
                    cs@ == s@,
                    n == cs@.len(),
                    start <= j <= n,
                    forall|k: int| start <= k < j ==> cs@[k] != close,
                ensures
                    start <= j <= n,
                    forall|k: int| start <= k < j ==> cs@[k] != close,
                    j < n ==> cs@[j as int] == close,
                decreases n - j,
            {
                if cs[j] == close {
                    break;
                }
                j = j + 1;
            }
            assert(close == close_char(syntax));
            assert(start == i + open_len(syntax));
            assert(rest.len() > 0);
            let ghost body = rest.skip(open_len(syntax));
            assert(body =~= s@.subrange(start as int, n as int));
            proof {
                let k = j - start;
                assert forall|m: int| 0 <= m < k implies body[m] != close by {
                    assert(body[m] == cs@[start + m]);
                }
                lemma_first_index(body, close, k);
            }
            if j == n {
                let name = string_of(&slice_chars(&cs, start, n));
                return Err(PathError {
                    kind: PathErrorKind::UnterminatedReference,
                    template: String::from_str(s),
                    name,
                });
            }
            assert(body.take(j - start) =~= s@.subrange(start as int, j as int));
            if start == j {
                assert(body.take(0) =~= Seq::<char>::empty());
                assert(expand(syntax, rest, *env) == Err::<Seq<char>, (PathErrorKind, Seq<char>)>(
                    (PathErrorKind::EmptyReferenceName, Seq::<char>::empty()),
                ));
                return Err(PathError {
                    kind: PathErrorKind::EmptyReferenceName,
                    template: String::from_str(s),
                    name: String::new(),
                });
            }
            let name = string_of(&slice_chars(&cs, start, j));
            match resolve_name(syntax, &name, env) {
                Ok(v) => {
                    proof {
                        lemma_prepend_assoc(out@, v@, expand(syntax, s@.skip(j + 1), *env));
                    }
                    assert(body.skip(j - start + 1) =~= s@.skip(j + 1));
                    push_str(&mut out, v.as_str());
                },
                Err(kind) => {
                    assert(expand(syntax, rest, *env) == Err::<Seq<char>, (PathErrorKind, Seq<char>)>(
                        (kind, name@),
                    ));
                    return Err(PathError { kind, template: String::from_str(s), name });
                },
            }
            i = j + 1;
        } else {
            let m: usize = match syntax {
                Syntax::Unix => if i + 1 < n && cs[i] == '$' {
                    2
                } else {
                    1
                },
                Syntax::Windows => 1,
            };
            assert(m == verbatim_len(syntax, rest));
            proof {
                lemma_prepend_assoc(out@, rest.take(m as int), expand(syntax, s@.skip(i + m), *env));
            }
            assert(rest.skip(m as int) =~= s@.skip(i + m));
            let ghost out0 = out@;
            out.push(cs[i]);
            if m == 2 {
                out.push(cs[i + 1]);
            }
            assert(out@ =~= out0 + rest.take(m as int));
            i = i + m;
        }
    }
    assert(s@.skip(n as int) =~= Seq::<char>::empty());
    assert(out@ + Seq::<char>::empty() =~= out@);
    Ok(string_of(&out))
}

/// Relies on `dirs::home_dir`: the user's home directory, where the system has
/// one. Nothing is promised of the value, which depends on the machine and the
/// environment.
#[verifier::external_body]
fn query_home_dir() -> Option<String> {
    dirs::home_dir().map(|p| p.to_string_lossy().into_owned())
}

/// Relies on `dirs::config_dir`: the user's configuration directory (roaming
/// application data on Windows), where the system has one. Nothing is promised
/// of the value, which depends on the machine and the environment.
#[verifier::external_body]
fn query_config_dir() -> Option<String> {
    dirs::config_dir().map(|p| p.to_string_lossy().into_owned())
}

/// Relies on `dirs::config_local_dir`: the user's local configuration directory
/// (local application data on Windows), where the system has one. Nothing is
/// promised of the value, which depends on the machine and the environment.
#[verifier::external_body]
fn query_config_local_dir() -> Option<String> {
    dirs::config_local_dir().map(|p| p.to_string_lossy().into_owned())
}

/// Relies on `dirs::data_dir`: the user's data directory, where the system has
/// one. Nothing is promised of the value, which depends on the machine and the
/// environment.
#[verifier::external_body]
fn query_data_dir() -> Option<String> {
    dirs::data_dir().map(|p| p.to_string_lossy().into_owned())
}

/// Relies on `dirs::cache_dir`: the user's cache directory, where the system
/// has one. Nothing is promised of the value, which depends on the machine and
/// the environment.
#[verifier::external_body]
fn query_cache_dir() -> Option<String> {
    dirs::cache_dir().map(|p| p.to_string_lossy().into_owned())
}

/// Relies on `dirs::state_dir`: the user's state directory, where the system
/// has one. Nothing is promised of the value, which depends on the machine and
/// the environment.
#[verifier::external_body]
fn query_state_dir() -> Option<String> {
    dirs::state_dir().map(|p| p.to_string_lossy().into_owned())
}

/// Relies on `dirs::runtime_dir`: the user's runtime directory, where the
/// system has one. Nothing is promised of the value, which depends on the
/// machine and the environment.
#[verifier::external_body]
fn query_runtime_dir() -> Option<String> {
    dirs::runtime_dir().map(|p| p.to_string_lossy().into_owned())
}

impl BaseDirs {
    /// Asks the operating system for each base directory but the documents
    /// and desktop folders, which are left empty: outside Windows `dirs` reads
    /// them from the user-dirs file with a parser that panics on some
    /// malformed lines, so only a caller that knows it runs on Windows asks
    /// for them.
    pub fn query() -> (r: BaseDirs)
        ensures
            r.documents is None,
            r.desktop is None,
    {
        BaseDirs {
            config_home: query_config_dir(),
            data_home: query_data_dir(),
            cache_home: query_cache_dir(),
            state_home: query_state_dir(),
            runtime_dir: query_runtime_dir(),
            roaming_app_data: query_config_dir(),
            local_app_data: query_config_local_dir(),
            documents: None,
            desktop: None,
            profile: query_home_dir(),
        }
    }
}

impl Environment {
    /// The environment of platform `platform` with variables `vars`, and the
    /// base directories that [`BaseDirs::query`] reports.
    pub fn new(platform: Platform, vars: Vec<(String, String)>) -> (r: Environment)
        ensures
            r.platform == platform,
            r.vars == vars,
            r.base_dirs.documents is None,
            r.base_dirs.desktop is None,
    {
        Environment { platform, vars, base_dirs: BaseDirs::query() }
    }
}

/// The delimiter that opens a reference.
pub open spec fn open_seq(syntax: Syntax) -> Seq<char> {
    match syntax {
        Syntax::Unix => seq!['$', '{'],
        Syntax::Windows => seq!['%'],
    }
}

/// The character that starts every reference.
pub open spec fn lead_char(syntax: Syntax) -> char {
    match syntax {
        Syntax::Unix => '$',
        Syntax::Windows => '%',
    }
}

/// A template in which no reference can start comes out unchanged.
pub proof fn lemma_plain_template_unchanged(syntax: Syntax, s: Seq<char>, env: Environment)
    requires
        forall|i: int| 0 <= i < s.len() ==> s[i] != lead_char(syntax),
    ensures
        expand(syntax, s, env) == Ok::<Seq<char>, (PathErrorKind, Seq<char>)>(s),
    decreases s.len(),
{
    if s.len() > 0 {
        let t = s.skip(1);
        assert forall|i: int| 0 <= i < t.len() implies t[i] != lead_char(syntax) by {
            assert(t[i] == s[i + 1]);
        }
        lemma_plain_template_unchanged(syntax, t, env);
        assert(!opens_reference(syntax, s));
        assert(verbatim_len(syntax, s) == 1);
        assert(s.take(1) + t =~= s);
        assert(expand(syntax, s, env) == prepend(s.take(1), expand(syntax, t, env)));
    } else {
        assert(s =~= Seq::<char>::empty());
    }
}

/// A reference to a base-directory alias stands for the directory that the
/// operating system reports, whatever the environment variables hold: two
/// environments with the same base directories resolve it alike, and a
/// template made of that reference alone expands to that directory.
pub proof fn lemma_alias_precedence(
    syntax: Syntax,
    name: Seq<char>,
    env1: Environment,
    env2: Environment,
)
    requires
        alias_of(syntax, name) is Some,
        name.len() > 0,
        forall|i: int| 0 <= i < name.len() ==> name[i] != close_char(syntax),
        env1.base_dirs == env2.base_dirs,
    ensures
        resolve_name_spec(syntax, name, env1) == resolve_name_spec(syntax, name, env2),
        expand(syntax, open_seq(syntax) + name + seq![close_char(syntax)], env1) == expand(
            syntax,
            open_seq(syntax) + name + seq![close_char(syntax)],
            env2,
        ),
        expand(syntax, open_seq(syntax) + name + seq![close_char(syntax)], env1) == match env1.base_dirs.value(
            alias_of(syntax, name)->0,
        ) {
            Some(v) => Ok(v),
            None => Err((PathErrorKind::UnsupportedBaseDirectory, name)),
        },
{
    lemma_single_reference(syntax, name, env1);
    lemma_single_reference(syntax, name, env2);
}

proof fn lemma_single_reference(syntax: Syntax, name: Seq<char>, env: Environment)
    requires
        name.len() > 0,
        forall|i: int| 0 <= i < name.len() ==> name[i] != close_char(syntax),
    ensures
        expand(syntax, open_seq(syntax) + name + seq![close_char(syntax)], env) == match resolve_name_spec(
            syntax,
            name,
            env,
        ) {
            Ok(v) => Ok(v),
            Err(kind) => Err((kind, name)),
        },
{
    let c = close_char(syntax);
    let s = open_seq(syntax) + name + seq![c];
    let body = s.skip(open_len(syntax));
    assert(body =~= name + seq![c]);
    assert(s[0] == lead_char(syntax));
    if syntax == Syntax::Unix {
        assert(s[1] == '{');
    }
    assert(opens_reference(syntax, s));
    assert forall|j: int| 0 <= j < name.len() implies body[j] != c by {
        assert(body[j] == name[j]);
    }
    lemma_first_index(body, c, name.len() as int);
    assert(body.take(name.len() as int) =~= name);
    assert(body.skip(name.len() as int + 1) =~= Seq::<char>::empty());
    match resolve_name_spec(syntax, name, env) {
        Ok(v) => {
            assert(expand(syntax, body.skip(name.len() as int + 1), env) == Ok::<
                Seq<char>,
                (PathErrorKind, Seq<char>),
            >(Seq::empty()));
            assert(v + Seq::<char>::empty() =~= v);
        },
        Err(_) => {},
    }
}

/// A reference that is opened and never closed fails as unterminated, with
/// the rest of the template as its name.
pub proof fn lemma_unterminated_reference(syntax: Syntax, name: Seq<char>, env: Environment)
    requires
        name.len() > 0,
        forall|i: int| 0 <= i < name.len() ==> name[i] != close_char(syntax),
    ensures
        expand(syntax, open_seq(syntax) + name, env) == Err::<Seq<char>, (PathErrorKind, Seq<char>)>(
            (PathErrorKind::UnterminatedReference, name),
        ),
{
    let c = close_char(syntax);
    let s = open_seq(syntax) + name;
    let body = s.skip(open_len(syntax));
    assert(body =~= name);
    lemma_first_index(body, c, name.len() as int);
}

/// A reference with an empty name fails as such, whatever follows it.
pub proof fn lemma_empty_reference_name(syntax: Syntax, rest: Seq<char>, env: Environment)
    ensures
        expand(syntax, open_seq(syntax) + seq![close_char(syntax)] + rest, env) == Err::<
            Seq<char>,
            (PathErrorKind, Seq<char>),
        >((PathErrorKind::EmptyReferenceName, Seq::empty())),
{
    let c = close_char(syntax);
    let s = open_seq(syntax) + seq![c] + rest;
    let body = s.skip(open_len(syntax));
    assert(body =~= seq![c] + rest);
    lemma_first_index(body, c, 0);
    assert(body.take(0) =~= Seq::<char>::empty());
}

/// `path` with the home directory `home` written as `~`: a path that is the
/// home directory, or lies under it, starts with `~`; any other is unchanged.
/// Paths are compared by whole components, so a home written with a trailing
/// separator covers the same paths as one written without it.
pub open spec fn home_stripped(sep: char, path: Seq<char>, home: Option<Seq<char>>) -> Seq<char> {
    match home {
        None => path,
        Some(h) => if path == h {
            seq!['~']
        } else if h.len() > 0 && h.last() == sep && path == h.drop_last() {
            seq!['~']
        } else if h.len() < path.len() && path.take(h.len() as int) == h && path[h.len() as int]
            == sep {
            seq!['~'] + path.skip(h.len() as int)
        } else if 0 < h.len() < path.len() && path.take(h.len() as int) == h && h.last() == sep {
            seq!['~', sep] + path.skip(h.len() as int)
        } else {
            path
        },
    }
}

/// The separator of path components on platform `p`.
pub open spec fn separator_of(p: Platform) -> char {
    match p {
        Platform::Windows => '\\',
        _ => '/',
    }
}

/// Whether the first `len` characters of `a` and of `b` are the same.
fn same_head(a: &Vec<char>, b: &Vec<char>, len: usize) -> (r: bool)
    requires
        len <= b@.len(),
    ensures
        r == (len <= a@.len() && a@.take(len as int) == b@.take(len as int)),
{
    if len > a.len() {
        return false;
    }
    let mut i: usize = 0;
    while i < len
        invariant
            len <= a@.len(),
            len <= b@.len(),
            i <= len,
            forall|j: int| 0 <= j < i ==> a@[j] == b@[j],
        decreases len - i,
    {
        if a[i] != b[i] {
            assert(a@.take(len as int)[i as int] != b@.take(len as int)[i as int]);
            return false;
        }
        i = i + 1;
    }
    assert(a@.take(len as int) =~= b@.take(len as int));
    true
}

/// `~`, then `mid`, then the characters of `v` from `from` on.
fn tilde_then(mid: &Vec<char>, v: &Vec<char>, from: usize) -> (r: String)
    requires
        from <= v@.len(),
    ensures
        r@ == seq!['~'] + mid@ + v@.skip(from as int),
{
    let mut out: Vec<char> = Vec::new();
    out.push('~');
    let mut k: usize = 0;
    while k < mid.len()
        invariant
            k <= mid@.len(),
            out@ == seq!['~'] + mid@.take(k as int),
        decreases mid@.len() - k,
    {
        out.push(mid[k]);
        k = k + 1;
        assert(out@ =~= seq!['~'] + mid@.take(k as int));
    }
    assert(mid@.take(k as int) =~= mid@);
    let mut i: usize = from;
    while i < v.len()
        invariant
            from <= i <= v@.len(),
            out@ == seq!['~'] + mid@ + v@.subrange(from as int, i as int),
        decreases v@.len() - i,
    {
        out.push(v[i]);
        i = i + 1;
        assert(out@ =~= seq!['~'] + mid@ + v@.subrange(from as int, i as int));
    }
    assert(v@.subrange(from as int, i as int) =~= v@.skip(from as int));
    string_of(&out)
}

/// Writes the home directory `home` at the head of `path` as `~`.
pub fn strip_home_from(p: Platform, path: &str, home: &Option<String>) -> (r: String)
    ensures
        r@ == home_stripped(separator_of(p), path@, opt_view(*home)),
{
    let sep: char = match p {
        Platform::Windows => '\\',
        _ => '/',
    };
    match home {
        None => String::from_str(path),
        Some(h) => {
            let pc = chars_of(path);
            let hc = chars_of(h.as_str());
            let n = pc.len();
            let m = hc.len();
            let ends_in_sep = m > 0 && hc[m - 1] == sep;
            let empty: Vec<char> = Vec::new();
            assert(ends_in_sep == (h@.len() > 0 && h@.last() == sep));
            assert(hc@.take(m as int) =~= hc@);
            if same_head(&pc, &hc, m) {
                assert(hc@.take(m as int) =~= h@);
                if m == n {
                    assert(path@ =~= h@);
                    assert(seq!['~'] + empty@ + path@.skip(n as int) =~= seq!['~']);
                    tilde_then(&empty, &pc, n)
                } else if pc[m] == sep {
                    assert(path@.len() > h@.len());
                    assert(seq!['~'] + empty@ + path@.skip(m as int) =~= seq!['~'] + path@.skip(
                        m as int,
                    ));
                    tilde_then(&empty, &pc, m)
                } else if ends_in_sep {
                    assert(path@.len() > h@.len());
                    let mut mid: Vec<char> = Vec::new();
                    mid.push(sep);
                    let r = tilde_then(&mid, &pc, m);
                    assert(seq!['~'] + mid@ + path@.skip(m as int) =~= seq!['~', sep] + path@.skip(
                        m as int,
                    ));
                    r
                } else {
                    assert(path@.len() > h@.len());
                    String::from_str(path)
                }
            } else if ends_in_sep && n == m - 1 && same_head(&pc, &hc, m - 1) {
                assert(path@ =~= h@.drop_last());
                assert(path@.len() != h@.len());
                assert(seq!['~'] + empty@ + path@.skip(n as int) =~= seq!['~']);
                tilde_then(&empty, &pc, n)
            } else {
                assert(path@ != h@) by {
                    if path@ == h@ {
                        assert(hc@.take(m as int) =~= path@.take(m as int));
                    }
                }
                assert(!ends_in_sep || path@ != h@.drop_last()) by {
                    if ends_in_sep && path@ == h@.drop_last() {
                        assert(hc@.take(m - 1) =~= path@.take(m - 1));
                    }
                }
                String::from_str(path)
            }
        },
    }
}

/// Writes the user's home directory at the head of `path` as `~`.
pub fn strip_home(p: Platform, path: &str) -> (r: String)
    ensures
        exists|home: Option<Seq<char>>| r@ == home_stripped(separator_of(p), path@, home),
{
    let home = query_home_dir();
    strip_home_from(p, path, &home)
}

} // verus!
