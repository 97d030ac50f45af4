//! Resolution of the paths that the configuration names.

use vstd::prelude::*;

verus! {

/// Where the configuration document is kept unless the user says otherwise.
pub const DEFAULT_CONFIG_PATH: &'static str = "~/.config/devnotify/devnotify.ron";

/// `path` with a leading `~` replaced by `home`.
pub open spec fn expanded(path: Seq<char>, home: Seq<char>) -> Seq<char> {
    if path.len() > 0 && path[0] == '~' {
        home + path.skip(1)
    } else {
        path
    }
}

/// Expands a leading `~` of `path` to the home directory `home`. A path
/// that does not begin with `~` is returned as it is.
pub fn expand_home(path: &str, home: &str) -> (resolved: String)
    ensures
        resolved@ == expanded(path@, home@),
{
    let n: usize = path.unicode_len();
    if n > 0 && path.get_char(0) == '~' {
        String::from_str(home).concat(path.substring_char(1, n))
    } else {
        String::from_str(path)
    }
}

/// The path of the configuration document: the user's choice if there is
/// one, else the default, with a leading `~` expanded to `home`.
pub fn config_path(chosen: Option<&str>, home: &str) -> (resolved: String)
    ensures
        resolved@ == expanded(
            match chosen {
                Some(path) => path@,
                None => DEFAULT_CONFIG_PATH@,
            },
            home@,
        ),
{
    match chosen {
        Some(path) => expand_home(path, home),
        None => expand_home(DEFAULT_CONFIG_PATH, home),
    }
}

} // verus!
