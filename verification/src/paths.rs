//! Where the preferences are saved, below a home directory that the caller
//! names.

use vstd::prelude::*;
use vstd::string::{StrSliceExecFns, StringExecFns};

verus! {

/// The character that parts the components of a path.
pub const SEPARATOR: char = '/';

/// The path `base` with the relative component `component` below it. A
/// separator is put between the two unless `base` is empty or ends in one.
pub open spec fn joined(base: Seq<char>, component: Seq<char>) -> Seq<char> {
    if base.len() == 0 || base.last() == SEPARATOR {
        base + component
    } else {
        base.push(SEPARATOR) + component
    }
}

/// The directory that holds the preferences of the user whose home
/// directory is `home`.
pub open spec fn config_dir_of(home: Seq<char>) -> Seq<char> {
    joined(joined(home, ".config"@), "HyprDisplay"@)
}

/// The file that holds the preferences of the user whose home directory is
/// `home`.
pub open spec fn config_file_of(home: Seq<char>) -> Seq<char> {
    joined(config_dir_of(home), "HyprDisplay.json"@)
}

/// Puts the relative component `component` below the path in `path`.
pub fn push_component(path: &mut String, component: &str)
    ensures
        final(path)@ == joined(old(path)@, component@),
{
    let length = path.as_str().unicode_len();
    if length > 0 && path.as_str().get_char(length - 1) != SEPARATOR {
        proof {
            reveal_strlit("/");
        }
        path.append("/");
    }
    path.append(component);
}

/// The directory that holds the preferences, below the home directory
/// `home`.
pub fn get_config_dir_path(home: &str) -> (path: String)
    ensures
        path@ == config_dir_of(home@),
{
    let mut path = String::from_str(home);
    push_component(&mut path, ".config");
    push_component(&mut path, "HyprDisplay");
    path
}

/// The file that holds the preferences, below the home directory `home`.
pub fn get_config_file_path(home: &str) -> (path: String)
    ensures
        path@ == config_file_of(home@),
{
    let mut path = get_config_dir_path(home);
    push_component(&mut path, "HyprDisplay.json");
    path
}

} // verus!
