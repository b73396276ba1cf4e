//! Paths inside an archive and keys inside the blob store.
//!
//! Every object of a project is stored under a key that begins with the
//! project's identifier and a slash. A path may follow only if it cannot lead
//! out of that namespace: it is relative, and none of its segments is `..`.

use crate::ident::{id_text, id_to_string};
use crate::text::chars_of;
use vstd::prelude::*;
use vstd::string::*;

verus! {

/// Whether a character separates the segments of a path. Archives written on
/// any system may use either of the two.
pub open spec fn is_separator(c: char) -> bool {
    c == '/' || c == '\\'
}

/// Whether the segment `..` stands at position `i` of a path.
pub open spec fn parent_at(path: Seq<char>, i: int) -> bool {
    &&& 0 <= i
    &&& i + 2 <= path.len()
    &&& path[i] == '.'
    &&& path[i + 1] == '.'
    &&& (i == 0 || is_separator(path[i - 1]))
    &&& (i + 2 == path.len() || is_separator(path[i + 2]))
}

/// Whether a path has a segment `..`.
pub open spec fn traverses(path: Seq<char>) -> bool {
    exists|i: int| parent_at(path, i)
}

/// Whether a path starts at a root.
pub open spec fn is_absolute(path: Seq<char>) -> bool {
    path.len() > 0 && is_separator(path[0])
}

/// Whether a path may lead out of the namespace it is placed in.
pub open spec fn escapes(path: Seq<char>) -> bool {
    is_absolute(path) || traverses(path)
}

/// The key of a project's object at a path.
pub open spec fn storage_key(project_id: u128, path: Seq<char>) -> Seq<char> {
    id_text(project_id) + seq!['/'] + path
}

/// Whether a key lies in a project's namespace.
pub open spec fn within_namespace(key: Seq<char>, project_id: u128) -> bool {
    exists|path: Seq<char>| !escapes(path) && key == #[trigger] storage_key(project_id, path)
}

/// The position of the last dot or slash of a path, or -1 if it has none.
pub open spec fn last_mark(path: Seq<char>) -> int
    decreases path.len(),
{
    if path.len() == 0 {
        -1
    } else if path.last() == '.' || path.last() == '/' {
        path.len() - 1
    } else {
        last_mark(path.drop_last())
    }
}

/// The extension of the file that a path names: what follows the last dot of
/// its last segment, unless that dot begins the segment.
pub open spec fn extension_of(path: Seq<char>) -> Option<Seq<char>> {
    let k = last_mark(path);
    if k < 0 || path[k] != '.' || k == 0 || path[k - 1] == '/' {
        None
    } else {
        Some(path.subrange(k + 1, path.len() as int))
    }
}

/// The last dot or slash of a path lies in it and nothing of the kind
/// follows it.
pub proof fn lemma_last_mark(path: Seq<char>)
    ensures
        -1 <= last_mark(path) < path.len(),
        last_mark(path) >= 0 ==> path[last_mark(path)] == '.' || path[last_mark(path)] == '/',
        forall|j: int| last_mark(path) < j < path.len() ==> path[j] != '.' && path[j] != '/',
    decreases path.len(),
{
    if path.len() != 0 && !(path.last() == '.' || path.last() == '/') {
        lemma_last_mark(path.drop_last());
        assert forall|j: int| last_mark(path) < j < path.len() implies path[j] != '.' && path[j]
            != '/' by {
            if j < path.len() - 1 {
                assert(path.drop_last()[j] == path[j]);
            }
        }
    }
}

/// A position with a dot or slash after which no other follows is the last
/// mark.
pub proof fn lemma_last_mark_is(path: Seq<char>, k: int)
    requires
        -1 <= k < path.len(),
        k >= 0 ==> path[k] == '.' || path[k] == '/',
        forall|j: int| k < j < path.len() ==> path[j] != '.' && path[j] != '/',
    ensures
        last_mark(path) == k,
{
    lemma_last_mark(path);
}

fn is_sep(c: char) -> (b: bool)
    ensures
        b == is_separator(c),
{
    c == '/' || c == '\\'
}

/// Whether a path has a segment `..`.
pub fn path_traverses(path: &str) -> (b: bool)
    ensures
        b == traverses(path@),
{
    let chars = chars_of(path);
    let n = chars.len();
    let mut i: usize = 0;
    while i < n
        invariant
            n == chars.len(),
            chars@ == path@,
            i <= n,
            forall|j: int| 0 <= j < i ==> !parent_at(path@, j),
        decreases n - i,
    {
        if n - i >= 2 && chars[i] == '.' && chars[i + 1] == '.' && (i == 0 || is_sep(chars[i - 1]))
            && (n - i == 2 || is_sep(chars[i + 2])) {
            assert(parent_at(path@, i as int));
            return true;
        }
        i = i + 1;
    }
    false
}

/// Whether a path may lead out of the namespace it is placed in.
pub fn path_escapes(path: &str) -> (b: bool)
    ensures
        b == escapes(path@),
{
    let chars = chars_of(path);
    if chars.len() > 0 && is_sep(chars[0]) {
        return true;
    }
    path_traverses(path)
}

/// The key of a project's object at a path, where the path stays in the
/// project's namespace.
pub fn key_for(project_id: u128, path: &str) -> (key: Option<String>)
    ensures
        escapes(path@) ==> key.is_none(),
        !escapes(path@) ==> (key matches Some(k) && k@ == storage_key(project_id, path@)
            && within_namespace(k@, project_id)),
{
    if path_escapes(path) {
        None
    } else {
        proof {
            reveal_strlit("/");
        }
        let key = id_to_string(project_id).concat("/").concat(path);
        assert("/"@ == seq!['/']);
        Some(key)
    }
}

/// The extension of the file that a path names.
pub fn extension(path: &str) -> (ext: Option<&str>)
    ensures
        match extension_of(path@) {
            Some(e) => ext matches Some(found) && found@ == e,
            None => ext.is_none(),
        },
{
    let chars = chars_of(path);
    let n = chars.len();
    let mut k: usize = n;
    while k > 0 && chars[k - 1] != '.' && chars[k - 1] != '/'
        invariant
            n == chars.len(),
            chars@ == path@,
            k <= n,
            forall|j: int| k <= j < n ==> path@[j] != '.' && path@[j] != '/',
        decreases k,
    {
        k = k - 1;
    }
    proof {
        lemma_last_mark_is(path@, k as int - 1);
    }
    if k == 0 || chars[k - 1] != '.' || k == 1 || chars[k - 2] == '/' {
        None
    } else {
        Some(path.substring_char(k, n))
    }
}

} // verus!
