//! Dotted TOML paths of settings: the table a setting lives in and its key
//! there.
use vstd::prelude::*;
use vstd::string::*;

verus! {

/// The position of the last `.` in `path`, or -1 where there is none.
pub open spec fn last_dot(path: Seq<char>) -> int
    decreases path.len(),
{
    if path.len() == 0 {
        -1
    } else if path.last() == '.' {
        path.len() - 1
    } else {
        last_dot(path.drop_last())
    }
}

/// The table that holds the setting: everything before the last `.`, if any.
pub open spec fn spec_hierarchy(path: Seq<char>) -> Option<Seq<char>> {
    if last_dot(path) < 0 {
        None
    } else {
        Some(path.subrange(0, last_dot(path)))
    }
}

/// The setting's key inside its table: everything after the last `.`.
pub open spec fn spec_toml_key(path: Seq<char>) -> Seq<char> {
    path.subrange(last_dot(path) + 1, path.len() as int)
}

proof fn lemma_last_dot_bounds(path: Seq<char>)
    ensures
        -1 <= last_dot(path) < path.len(),
        last_dot(path) >= 0 ==> path[last_dot(path)] == '.',
        forall|i: int| last_dot(path) < i < path.len() ==> path[i] != '.',
    decreases path.len(),
{
    if path.len() > 0 && path.last() != '.' {
        let prefix = path.drop_last();
        lemma_last_dot_bounds(prefix);
        assert forall|i: int| last_dot(path) < i < path.len() implies path[i] != '.' by {
            if i < path.len() - 1 {
                assert(path[i] == prefix[i]);
            }
        }
    }
}

/// Finds the last `.` of `path`, scanning from its end.
fn find_last_dot(path: &str) -> (r: Option<usize>)
    ensures
        match r {
            Some(i) => i == last_dot(path@),
            None => last_dot(path@) == -1,
        },
{
    let n = path.unicode_len();
    let mut i = n;
    proof {
        lemma_last_dot_bounds(path@);
    }
    while i > 0
        invariant
            n == path@.len(),
            i <= n,
            last_dot(path@) < i as int ==> forall|j: int| i <= j < n ==> path@[j] != '.',
            last_dot(path@) < n,
            forall|j: int| last_dot(path@) < j < n ==> path@[j] != '.',
            last_dot(path@) >= 0 ==> path@[last_dot(path@)] == '.',
            last_dot(path@) < i as int,
        decreases i,
    {
        if path.get_char(i - 1) == '.' {
            return Some(i - 1);
        }
        i = i - 1;
    }
    None
}

/// The table part of a dotted path: everything before its last `.`.
pub fn toml_path_hierarchy(path: &str) -> (table: Option<&str>)
    ensures
        match table {
            Some(t) => spec_hierarchy(path@) == Some(t@),
            None => spec_hierarchy(path@) is None,
        },
{
    proof {
        lemma_last_dot_bounds(path@);
    }
    match find_last_dot(path) {
        Some(i) => Some(path.substring_char(0, i)),
        None => None,
    }
}

/// The key part of a dotted path: everything after its last `.`.
pub fn toml_path_key(path: &str) -> (key: &str)
    ensures
        key@ == spec_toml_key(path@),
{
    proof {
        lemma_last_dot_bounds(path@);
    }
    let n = path.unicode_len();
    match find_last_dot(path) {
        Some(i) => path.substring_char(i + 1, n),
        None => path.substring_char(0, n),
    }
}

/// A dotted path is its table, a `.` and its key; the key holds no `.`; and a
/// path without a `.` has no table and is its own key.
pub proof fn lemma_hierarchy_dot_key(path: Seq<char>)
    ensures
        match spec_hierarchy(path) {
            Some(table) => table + seq!['.'] + spec_toml_key(path) == path,
            None => spec_toml_key(path) == path && !path.contains('.'),
        },
        !spec_toml_key(path).contains('.'),
{
    lemma_last_dot_bounds(path);
    match spec_hierarchy(path) {
        Some(table) => {
            assert(table + seq!['.'] + spec_toml_key(path) =~= path);
        },
        None => {
            assert(spec_toml_key(path) =~= path);
        },
    }
}

} // verus!
