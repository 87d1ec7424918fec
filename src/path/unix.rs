//! The Unix syntax: `${NAME}`, with the XDG base directories as aliases.
use crate::path::{expand, expand_template, expansion_matches, xdg_alias, BaseDir, Environment, PathError, Syntax};
use vstd::prelude::*;

verus! {

/// The XDG base directory that `s` names, if any.
pub fn xdg_base_directory(s: &str) -> (r: Option<BaseDir>)
    ensures
        r == xdg_alias(s@),
{
    let n = String::from_str(s);
    if n == String::from_str("XDG_CONFIG_HOME") {
        Some(BaseDir::ConfigHome)
    } else if n == String::from_str("XDG_DATA_HOME") {
        Some(BaseDir::DataHome)
    } else if n == String::from_str("XDG_CACHE_HOME") {
        Some(BaseDir::CacheHome)
    } else if n == String::from_str("XDG_STATE_HOME") {
        Some(BaseDir::StateHome)
    } else if n == String::from_str("XDG_RUNTIME_DIR") {
        Some(BaseDir::RuntimeDir)
    } else {
        None
    }
}

/// Whether `s` names an XDG base directory.
pub fn is_xdg_base_directory(s: &str) -> (r: bool)
    ensures
        r == xdg_alias(s@) is Some,
{
    xdg_base_directory(s).is_some()
}

/// Expands the `${NAME}` references of `s`.
pub fn expand_env_var(s: &str, env: &Environment) -> (r: Result<String, PathError>)
    ensures
        expansion_matches(r, s@, expand(Syntax::Unix, s@, *env)),
{
    expand_template(Syntax::Unix, s, env)
}

} // verus!
