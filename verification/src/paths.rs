//! A small model of filesystem paths as character strings: joining a file
//! name onto a base directory, and taking the containing directory of a
//! path.  The child process's working directory is derived from these.

use vstd::prelude::*;
use crate::platform::{Platform, separator, separator_char};

verus! {

/// What joining `name` onto the directory `base` yields: the separator is
/// inserted between them unless `base` is empty or already ends with it.
pub open spec fn join_path_spec(platform: Platform, base: Seq<char>, name: Seq<char>) -> Seq<char> {
    if base.len() == 0 {
        name
    } else if base.last() == separator(platform) {
        base + name
    } else {
        base.push(separator(platform)) + name
    }
}

/// Joins a candidate file name onto the base directory.
pub fn join_path(platform: Platform, base: &str, name: &str) -> (r: String)
    ensures
        r@ == join_path_spec(platform, base@, name@),
{
    let n = base.unicode_len();
    if n == 0 {
        return String::from_str(name);
    }
    let sep = separator_char(platform);
    let mut r = String::from_str(base);
    if base.get_char(n - 1) != sep {
        let sep_str = match platform {
            Platform::Windows => "\\",
            Platform::Posix => "/",
        };
        proof {
            reveal_strlit("\\");
            reveal_strlit("/");
            assert(sep_str@ =~= seq![separator(platform)]);
        }
        r.append(sep_str);
        proof {
            assert(r@ =~= base@.push(separator(platform)));
        }
    }
    r.append(name);
    proof {
        assert(r@ =~= join_path_spec(platform, base@, name@));
    }
    r
}

/// The index of the last separator among the first `n` characters of
/// `path`, or `-1` if none of them is a separator.
pub open spec fn last_sep_before(platform: Platform, path: Seq<char>, n: int) -> int
    recommends
        n <= path.len(),
    decreases n,
{
    if n <= 0 {
        -1
    } else if path[n - 1] == separator(platform) {
        n - 1
    } else {
        last_sep_before(platform, path, n - 1)
    }
}

/// The index of the last separator in `path`, or `-1` if it has none.
pub open spec fn last_separator_index(platform: Platform, path: Seq<char>) -> int {
    last_sep_before(platform, path, path.len() as int)
}

/// The containing directory of `path`: everything before the last
/// separator, or nothing when the path has no separator at all.
pub open spec fn parent_dir_spec(platform: Platform, path: Seq<char>) -> Option<Seq<char>> {
    let i = last_separator_index(platform, path);
    if i < 0 {
        None
    } else {
        Some(path.subrange(0, i))
    }
}

/// The containing directory of `path`, used as the child's working
/// directory; nothing when the path has no parent component.
pub fn parent_directory(platform: Platform, path: &str) -> (r: Option<String>)
    ensures
        r is Some <==> parent_dir_spec(platform, path@) is Some,
        r matches Some(d) ==> Some(d@) == parent_dir_spec(platform, path@),
{
    let sep = separator_char(platform);
    let mut n = path.unicode_len();
    while n > 0 && path.get_char(n - 1) != sep
        invariant
            n <= path@.len(),
            sep == separator(platform),
            last_separator_index(platform, path@) == last_sep_before(
                platform,
                path@,
                n as int,
            ),
        decreases n,
    {
        n = n - 1;
    }
    if n == 0 {
        None
    } else {
        let d = path.substring_char(0, n - 1);
        Some(String::from_str(d))
    }
}

} // verus!
