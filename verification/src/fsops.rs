//! The "effectively empty" directory test.
//!
//! A directory is effectively empty when it has no entries at all, or
//! exactly one entry whose name is the version-control metadata folder
//! `.git`, compared without regard to ASCII case. Such a directory is safe
//! to populate without asking for confirmation.

use vstd::prelude::*;
use crate::name::{lower_char, to_lower};

verus! {

/// ASCII lowercasing of a whole character sequence.
pub open spec fn lower_seq(s: Seq<char>) -> Seq<char> {
    s.map_values(|c: char| lower_char(c))
}

/// The character sequences of a list of names.
pub open spec fn views_of(names: Seq<String>) -> Seq<Seq<char>> {
    names.map_values(|e: String| e@)
}

/// A directory listing that is safe to populate without confirmation:
/// no entries, or exactly one entry named `.git` up to ASCII case.
pub open spec fn effectively_empty_spec(names: Seq<Seq<char>>) -> bool {
    names.len() == 0 || (names.len() == 1 && lower_seq(names[0]) == ".git"@)
}

/// Whether a name is `.git` up to ASCII case.
fn eq_dot_git_insensitive(s: &str) -> (r: bool)
    ensures
        r == (lower_seq(s@) == ".git"@),
{
    proof {
        reveal_strlit(".git");
    }
    let n = s.unicode_len();
    if n != 4 {
        proof {
            assert(lower_seq(s@).len() == s@.len());
        }
        return false;
    }
    let r = to_lower(s.get_char(0)) == '.' && to_lower(s.get_char(1)) == 'g' && to_lower(
        s.get_char(2),
    ) == 'i' && to_lower(s.get_char(3)) == 't';
    proof {
        assert(lower_seq(s@).len() == 4);
        assert(lower_seq(s@)[0] == lower_char(s@[0]));
        assert(lower_seq(s@)[1] == lower_char(s@[1]));
        assert(lower_seq(s@)[2] == lower_char(s@[2]));
        assert(lower_seq(s@)[3] == lower_char(s@[3]));
        if r {
            assert(lower_seq(s@) =~= ".git"@);
        }
    }
    r
}

/// Decides whether a directory with the given entry names is effectively
/// empty: nothing in it, or only a `.git` folder.
pub fn is_effectively_empty(entries: &Vec<String>) -> (r: bool)
    ensures
        r == effectively_empty_spec(views_of(entries@)),
{
    proof {
        assert(views_of(entries@).len() == entries@.len());
    }
    if entries.len() == 0 {
        true
    } else if entries.len() == 1 {
        proof {
            assert(views_of(entries@)[0] == entries@[0]@);
        }
        eq_dot_git_insensitive(entries[0].as_str())
    } else {
        false
    }
}

} // verus!
