//! Where the data file lives: the configured path, or a default under the
//! home directory, with a leading `~` standing for the home directory.
use vstd::prelude::*;
use crate::text::{trim, trimmed};

verus! {

/// The data file used when no path is configured.
pub open spec fn default_path() -> Seq<char> {
    "~/.local/share/todo/todos.todo"@
}

/// The configured path when it holds more than whitespace, else the default.
pub open spec fn chosen_path(configured: Option<Seq<char>>) -> Seq<char> {
    match configured {
        Some(v) => if trimmed(v).len() > 0 {
            v
        } else {
            default_path()
        },
        None => default_path(),
    }
}

/// Whether a path begins with `~`.
pub open spec fn needs_home(p: Seq<char>) -> bool {
    p.len() > 0 && p[0] == '~'
}

/// `p` with a leading `~` replaced by `home`.
pub open spec fn expanded(p: Seq<char>, home: Seq<char>) -> Seq<char> {
    if needs_home(p) {
        home + p.drop_first()
    } else {
        p
    }
}

/// The view of an optional text.
pub open spec fn opt_view(o: Option<&str>) -> Option<Seq<char>> {
    match o {
        Some(s) => Some(s@),
        None => None,
    }
}

/// Relies on `dirs::home_dir`: the current user's home directory, when the
/// system knows one and it is valid UTF-8. It depends on the environment.
#[verifier::external_body]
fn home_directory() -> (r: Option<String>) {
    match dirs::home_dir() {
        Some(p) => p.into_os_string().into_string().ok(),
        None => None,
    }
}

/// The data file's path from the configured value and the home directory;
/// `None` when the path needs a home directory and none is given.
pub fn resolve_file_path(configured: Option<&str>, home: Option<&str>) -> (r: Option<String>)
    ensures
        ({
            let p = chosen_path(opt_view(configured));
            &&& needs_home(p) && home.is_none() ==> r.is_none()
            &&& !needs_home(p) ==> r.is_some() && r.unwrap()@ == p
            &&& needs_home(p) && home.is_some() ==> r.is_some() && r.unwrap()@ == expanded(
                p,
                home.unwrap()@,
            )
        }),
{
    let path: &str = match configured {
        Some(v) => if trim(v).unicode_len() > 0 {
            v
        } else {
            "~/.local/share/todo/todos.todo"
        },
        None => "~/.local/share/todo/todos.todo",
    };
    let n = path.unicode_len();
    if n > 0 && path.get_char(0) == '~' {
        match home {
            None => None,
            Some(h) => {
                let out = String::from_str(h).concat(path.substring_char(1, n));
                assert(path@.drop_first() =~= path@.subrange(1, n as int));
                Some(out)
            },
        }
    } else {
        Some(String::from_str(path))
    }
}

/// The data file's path from the configured value, asking the system for the
/// home directory only when the path begins with `~`. `None` when that is
/// needed and unavailable.
pub fn get_file_env(configured: Option<&str>) -> (r: Option<String>)
    ensures
        ({
            let p = chosen_path(opt_view(configured));
            &&& !needs_home(p) ==> r.is_some() && r.unwrap()@ == p
            &&& needs_home(p) && r.is_some() ==> exists|home: Seq<char>|
                r.unwrap()@ == #[trigger] expanded(p, home)
        }),
{
    match resolve_file_path(configured, None) {
        Some(p) => Some(p),
        None => match home_directory() {
            Some(h) => resolve_file_path(configured, Some(h.as_str())),
            None => None,
        },
    }
}

} // verus!
