//! The resolved configuration the diagnostic run works from: the three
//! package-list paths, home-directory expansion, and the derivation of the
//! configuration directory from a path.

use vstd::prelude::*;
use vstd::string::*;

verus! {

/// The three configured package-list paths, as written in the user's
/// configuration. Each may begin with a home-directory placeholder (`~`)
/// that must be expanded before the path is used.
pub struct Config {
    /// Path of the Linux package list.
    pub linux_packages_path: String,
    /// Path of the Darwin package list.
    pub darwin_packages_path: String,
    /// Path of the Homebrew package list.
    pub homebrew_packages_path: String,
}

/// What expanding a home-directory placeholder yields: a leading `~/` (or a
/// path that is exactly `~`) is replaced by the home directory; any other
/// path is returned unchanged.
pub open spec fn spec_expanded_path(path: Seq<char>, home: Seq<char>) -> Seq<char> {
    if path.len() >= 2 && path[0] == '~' && path[1] == '/' {
        home + path.subrange(1, path.len() as int)
    } else if path.len() == 1 && path[0] == '~' {
        home
    } else {
        path
    }
}

/// Expands the home-directory placeholder at the front of `path`, if any,
/// into `home`.
pub fn get_expanded_path(path: &str, home: &str) -> (r: String)
    ensures
        r@ == spec_expanded_path(path@, home@),
{
    let n = path.unicode_len();
    if n >= 2 && path.get_char(0) == '~' && path.get_char(1) == '/' {
        let mut out = home.to_owned();
        out.append(path.substring_char(1, n));
        out
    } else if n == 1 && path.get_char(0) == '~' {
        home.to_owned()
    } else {
        path.to_owned()
    }
}

/// The position of the last `/` in `path`, if `path` contains one.
pub open spec fn last_slash(path: Seq<char>) -> Option<int>
    decreases path.len(),
{
    if path.len() == 0 {
        None
    } else if path[path.len() as int - 1] == '/' {
        Some(path.len() as int - 1)
    } else {
        last_slash(path.subrange(0, path.len() as int - 1))
    }
}

/// `path` with every trailing `/` removed.
pub open spec fn strip_trailing_slashes(path: Seq<char>) -> Seq<char>
    decreases path.len(),
{
    if path.len() > 0 && path[path.len() as int - 1] == '/' {
        strip_trailing_slashes(path.subrange(0, path.len() as int - 1))
    } else {
        path
    }
}

/// The directory containing `path`, as splitting off the last path
/// component gives it: trailing slashes are dropped, everything before the
/// last remaining `/` — itself stripped of trailing slashes — is the
/// parent, and a parent that ends up empty is the root. A path with no `/`
/// left (a bare relative name, or the root itself) has no determinable
/// parent directory.
pub open spec fn spec_parent_dir(path: Seq<char>) -> Option<Seq<char>> {
    let trimmed = strip_trailing_slashes(path);
    match last_slash(trimmed) {
        None => None,
        Some(j) => {
            let prefix = strip_trailing_slashes(trimmed.subrange(0, j));
            if prefix.len() == 0 {
                Some(seq!['/'])
            } else {
                Some(prefix)
            }
        },
    }
}

/// Returns the directory containing `path`, or `None` when no parent
/// directory can be determined.
pub fn parent_dir(path: &str) -> (r: Option<String>)
    ensures
        r is Some <==> spec_parent_dir(path@) is Some,
        r matches Some(p) ==> spec_parent_dir(path@) == Some(p@),
{
    let n = path.unicode_len();
    proof {
        assert(path@.subrange(0, n as int) =~= path@);
    }
    let mut end: usize = n;
    while end > 0 && path.get_char(end - 1) == '/'
        invariant
            end <= n,
            n as nat == path@.len(),
            strip_trailing_slashes(path@) == strip_trailing_slashes(path@.subrange(0, end as int)),
        decreases end,
    {
        proof {
            assert(path@.subrange(0, end as int)[end as int - 1] == path@[end as int - 1]);
            assert(path@.subrange(0, end as int).subrange(0, end as int - 1) =~= path@.subrange(
                0,
                end as int - 1,
            ));
        }
        end = end - 1;
    }
    proof {
        if end > 0 {
            assert(path@.subrange(0, end as int)[end as int - 1] == path@[end as int - 1]);
        }
        assert(strip_trailing_slashes(path@.subrange(0, end as int)) == path@.subrange(
            0,
            end as int,
        ));
    }
    let mut i: usize = end;
    while i > 0
        invariant
            i <= end,
            end <= n,
            n as nat == path@.len(),
            strip_trailing_slashes(path@) == path@.subrange(0, end as int),
            last_slash(path@.subrange(0, end as int)) == last_slash(path@.subrange(0, i as int)),
        decreases i,
    {
        if path.get_char(i - 1) == '/' {
            proof {
                assert(path@.subrange(0, i as int)[i as int - 1] == '/');
                assert(last_slash(path@.subrange(0, end as int)) == Some(i as int - 1));
                assert(path@.subrange(0, end as int).subrange(0, i as int - 1) =~= path@.subrange(
                    0,
                    i as int - 1,
                ));
            }
            let mut pend: usize = i - 1;
            while pend > 0 && path.get_char(pend - 1) == '/'
                invariant
                    pend < i,
                    i <= end,
                    end <= n,
                    n as nat == path@.len(),
                    strip_trailing_slashes(path@.subrange(0, i as int - 1))
                        == strip_trailing_slashes(path@.subrange(0, pend as int)),
                decreases pend,
            {
                proof {
                    assert(path@.subrange(0, pend as int)[pend as int - 1] == path@[pend as int
                        - 1]);
                    assert(path@.subrange(0, pend as int).subrange(0, pend as int - 1)
                        =~= path@.subrange(0, pend as int - 1));
                }
                pend = pend - 1;
            }
            proof {
                if pend > 0 {
                    assert(path@.subrange(0, pend as int)[pend as int - 1] == path@[pend as int
                        - 1]);
                }
                assert(strip_trailing_slashes(path@.subrange(0, pend as int)) == path@.subrange(
                    0,
                    pend as int,
                ));
            }
            if pend == 0 {
                let root = "/".to_owned();
                proof {
                    reveal_strlit("/");
                    assert(root@ =~= seq!['/']);
                }
                return Some(root);
            }
            return Some(path.substring_char(0, pend).to_owned());
        }
        proof {
            assert(path@.subrange(0, i as int).subrange(0, i as int - 1) =~= path@.subrange(
                0,
                i as int - 1,
            ));
            assert(path@.subrange(0, i as int)[i as int - 1] == path@[i as int - 1]);
        }
        i = i - 1;
    }
    proof {
        assert(path@.subrange(0, 0).len() == 0);
    }
    None
}

} // verus!
