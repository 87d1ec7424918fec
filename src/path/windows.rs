//! The Windows syntax: `%NAME%`, with known folders as aliases.
use crate::path::{expand, expand_template, expansion_matches, known_folder_alias, BaseDir, Environment, PathError, Syntax};
use vstd::prelude::*;

verus! {

/// The known folder that `s` names, if any.
pub fn known_folder(s: &str) -> (r: Option<BaseDir>)
    ensures
        r == known_folder_alias(s@),
{
    let n = String::from_str(s);
    if n == String::from_str("FOLDERID_RoamingAppData") {
        Some(BaseDir::RoamingAppData)
    } else if n == String::from_str("FOLDERID_LocalAppData") {
        Some(BaseDir::LocalAppData)
    } else if n == String::from_str("FOLDERID_Documents") {
        Some(BaseDir::Documents)
    } else if n == String::from_str("FOLDERID_Desktop") {
        Some(BaseDir::Desktop)
    } else if n == String::from_str("FOLDERID_Profile") {
        Some(BaseDir::Profile)
    } else if n == String::from_str("FOLDERID_ProgramData") {
        Some(BaseDir::ProgramData)
    } else {
        None
    }
}

/// Whether `s` names a known folder.
pub fn is_known_folder_id(s: &str) -> (r: bool)
    ensures
        r == known_folder_alias(s@) is Some,
{
    known_folder(s).is_some()
}

/// Expands the `%NAME%` references of `s`.
pub fn expand_env_var(s: &str, env: &Environment) -> (r: Result<String, PathError>)
    ensures
        expansion_matches(r, s@, expand(Syntax::Windows, s@, *env)),
{
    expand_template(Syntax::Windows, s, env)
}

} // verus!
