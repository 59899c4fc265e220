//! Where the cache lives: paths as text, with `/` between their parts.

use vstd::prelude::*;

verus! {

/// The directory, below the user's cache directory, that holds all of this
/// application's files.
pub const APPLICATION_DIR: &'static str = "nv_getter";

/// The directory, below the application's, that holds the cached responses.
pub const HTTP_CACHE_DIR: &'static str = "http";

/// The path of `name` inside the directory `dir`.
///
/// A `name` that starts at the root stands for itself. Otherwise it follows
/// `dir`, after a `/` unless `dir` is empty or ends in one already.
pub open spec fn joined_path(dir: Seq<char>, name: Seq<char>) -> Seq<char> {
    if name.len() > 0 && name[0] == '/' {
        name
    } else if dir.len() == 0 || dir[dir.len() - 1] == '/' {
        dir + name
    } else {
        dir + seq!['/'] + name
    }
}

/// The path of `name` inside the directory `dir`.
pub fn join_path(dir: &str, name: &str) -> (path: String)
    ensures
        path@ == joined_path(dir@, name@),
{
    let name_len = name.unicode_len();
    if name_len > 0 && name.get_char(0) == '/' {
        return name.to_owned();
    }
    let dir_len = dir.unicode_len();
    let mut path = dir.to_owned();
    if dir_len > 0 && dir.get_char(dir_len - 1) != '/' {
        proof {
            reveal_strlit("/");
        }
        path.append("/");
        assert("/"@ =~= seq!['/']);
    }
    path.append(name);
    path
}

/// The application's directory below the user's cache directory
/// `user_cache_dir`, or the directory `sub_path` inside it.
pub open spec fn cache_dir_of(user_cache_dir: Seq<char>, sub_path: Option<Seq<char>>) -> Seq<
    char,
> {
    let own = joined_path(user_cache_dir, APPLICATION_DIR@);
    match sub_path {
        Some(sub) => joined_path(own, sub),
        None => own,
    }
}

/// The application's directory below the user's cache directory
/// `user_cache_dir`, or the directory `sub_path` inside it.
pub fn get_cache_dir(user_cache_dir: &str, sub_path: Option<&str>) -> (dir: String)
    ensures
        dir@ == cache_dir_of(
            user_cache_dir@,
            match sub_path {
                Some(sub) => Some(sub@),
                None => None,
            },
        ),
{
    let own = join_path(user_cache_dir, APPLICATION_DIR);
    match sub_path {
        Some(sub) => join_path(own.as_str(), sub),
        None => own,
    }
}

/// The directory of the cached responses below the user's cache directory.
pub fn http_cache_dir(user_cache_dir: &str) -> (dir: String)
    ensures
        dir@ == cache_dir_of(user_cache_dir@, Some(HTTP_CACHE_DIR@)),
{
    get_cache_dir(user_cache_dir, Some(HTTP_CACHE_DIR))
}

} // verus!
