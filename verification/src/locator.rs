//! Source-locator expansion: a leading home-directory marker is replaced by
//! the home directory handed in by the caller. Looking the directory up is
//! the caller's concern; the expansion itself is a pure string function.

use vstd::prelude::*;
use vstd::string::StrSliceExecFns;
use vstd::string::StringExecFns;

verus! {

/// What expansion yields: if the locator starts with `~/` and a home
/// directory is known, the marker character is replaced by that directory;
/// otherwise the locator is returned unchanged.
pub open spec fn expanded(path: Seq<char>, home: Option<Seq<char>>) -> Seq<char> {
    if path.len() >= 2 && path[0] == '~' && path[1] == '/' && home is Some {
        home->0 + path.skip(1)
    } else {
        path
    }
}

/// Replaces a leading `~/` in `path` by `home`, when one is given; any other
/// locator passes through unchanged.
pub fn expand_tilde(path: &str, home: Option<&str>) -> (r: String)
    ensures
        r@ == expanded(path@, match home {
            Some(h) => Some(h@),
            None => None,
        }),
{
    let n = path.unicode_len();
    if n >= 2 && path.get_char(0) == '~' && path.get_char(1) == '/' {
        match home {
            Some(h) => {
                let mut out = h.to_owned();
                out.append(path.substring_char(1, n));
                proof {
                    assert(path@.subrange(1, n as int) =~= path@.skip(1));
                }
                out
            },
            None => path.to_owned(),
        }
    } else {
        path.to_owned()
    }
}

} // verus!
