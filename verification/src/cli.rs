//! Command-line helpers.

use vstd::prelude::*;
use vstd::string::*;
use crate::text::{seq_starts_with, starts_with};

verus! {

/// A leading `~/` replaced by the home directory, when one is known.
pub open spec fn expanded_path(path: Seq<char>, home: Option<Seq<char>>) -> Seq<char> {
    if seq_starts_with(path, "~/"@) && home is Some {
        home->0 + "/"@ + path.subrange(2, path.len() as int)
    } else {
        path
    }
}

/// Expands a leading `~/` to `home`; any other path, or an unknown home,
/// is returned as given.
pub fn expand_tilde(path: &str, home: Option<&str>) -> (p: String)
    ensures
        p@ == expanded_path(
            path@,
            match home {
                Some(h) => Some(h@),
                None => None,
            },
        ),
{
    if starts_with(path, "~/") {
        match home {
            Some(h) => {
                let n = path.unicode_len();
                proof {
                    reveal_strlit("~/");
                }
                let rest = path.substring_char(2, n);
                let mut p = h.to_owned();
                p.append("/");
                p.append(rest);
                return p;
            },
            None => {},
        }
    }
    path.to_owned()
}

} // verus!
