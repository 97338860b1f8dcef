//! Path texts.
//!
//! A path is a plain string in which `/` separates the components, on every
//! platform. The engine only ever extends paths; it never takes one apart.
//! Where a decision needs the parent or the file name of a path, the caller
//! supplies them.

use vstd::prelude::*;
use vstd::string::*;

verus! {

/// The separator between two components of a path text.
pub const SEPARATOR: char = '/';

/// `name` adjoined to `base`:
/// - a `name` that starts at the root replaces `base`;
/// - after an empty `base`, or one that already ends in a separator, `name`
///   follows directly;
/// - else a separator stands between the two.
pub open spec fn joined(base: Seq<char>, name: Seq<char>) -> Seq<char> {
    if name.len() > 0 && name[0] == SEPARATOR {
        name
    } else if base.len() == 0 || base.last() == SEPARATOR {
        base + name
    } else {
        base + seq![SEPARATOR] + name
    }
}

/// Adjoins `name` to `base`.
pub fn join(base: &str, name: &str) -> (path: String)
    ensures
        path@ == joined(base@, name@),
{
    let name_len = name.unicode_len();
    if name_len > 0 && name.get_char(0) == SEPARATOR {
        return name.to_owned();
    }
    let base_len = base.unicode_len();
    let mut path = base.to_owned();
    if base_len > 0 && base.get_char(base_len - 1) != SEPARATOR {
        path.push(SEPARATOR);
    }
    path.append(name);
    path
}

/// Whether `name` starts at the root.
pub open spec fn is_rooted(name: Seq<char>) -> bool {
    name.len() > 0 && name[0] == SEPARATOR
}

/// Two names adjoined to one base give the same path only if they are the
/// same name, as long as both start at the root or neither does.
pub proof fn lemma_joined_separates_names(base: Seq<char>, first: Seq<char>, second: Seq<char>)
    requires
        joined(base, first) == joined(base, second),
        is_rooted(first) == is_rooted(second),
    ensures
        first == second,
{
    if !is_rooted(first) {
        let prefix = if base.len() == 0 || base.last() == SEPARATOR {
            base
        } else {
            base + seq![SEPARATOR]
        };
        assert(joined(base, first) =~= prefix + first);
        assert(joined(base, second) =~= prefix + second);
        assert(first =~= (prefix + first).skip(prefix.len() as int));
        assert(second =~= (prefix + second).skip(prefix.len() as int));
    }
}

} // verus!
