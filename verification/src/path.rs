//! Paths as text: forward-slash normalization and textual relativization against a
//! working directory. Nothing here looks at a file system or resolves `..`.

use vstd::prelude::*;
use crate::text::string_of;

verus! {

/// `path` with every backslash turned into a forward slash.
pub open spec fn forward_slashes(path: Seq<char>) -> Seq<char> {
    Seq::new(path.len(), |i: int| if path[i] == '\\' { '/' } else { path[i] })
}

/// `path` without the forward slashes it ends in.
pub open spec fn trim_end_slashes(path: Seq<char>) -> Seq<char>
    decreases path.len(),
{
    if path.len() > 0 && path.last() == '/' {
        trim_end_slashes(path.drop_last())
    } else {
        path
    }
}

/// `path` without the forward slashes it starts with.
pub open spec fn trim_start_slashes(path: Seq<char>) -> Seq<char>
    decreases path.len(),
{
    if path.len() > 0 && path.first() == '/' {
        trim_start_slashes(path.drop_first())
    } else {
        path
    }
}

/// The working directory as it is matched against paths: forward slashes only, none at the end.
pub open spec fn directory_prefix(cwd: Seq<char>) -> Seq<char> {
    trim_end_slashes(forward_slashes(cwd))
}

/// `filename` as seen from `cwd`. Both are brought to forward slashes. Where the file name
/// begins with the directory, that beginning and the slashes after it are dropped; where it
/// does not, the whole normalized file name stands.
pub open spec fn relative_to(cwd: Seq<char>, filename: Seq<char>) -> Seq<char> {
    let dir = directory_prefix(cwd);
    let path = forward_slashes(filename);
    if dir.is_prefix_of(path) {
        trim_start_slashes(path.skip(dir.len() as int))
    } else {
        path
    }
}

/// The characters of `path`, backslashes turned into forward slashes.
pub fn normalized(path: &str) -> (chars: Vec<char>)
    ensures
        chars@ == forward_slashes(path@),
{
    let mut chars: Vec<char> = Vec::new();
    for c in it: path.chars()
        invariant
            it.seq() == path@,
            chars@ == forward_slashes(path@).take(it.index() as int),
    {
        chars.push(if c == '\\' { '/' } else { c });
    }
    chars
}

/// The length of `path` once the slashes at its end are dropped.
fn trimmed_end(path: &Vec<char>) -> (end: usize)
    ensures
        end <= path@.len(),
        path@.take(end as int) == trim_end_slashes(path@),
{
    let mut end: usize = path.len();
    assert(path@.take(end as int) == path@);
    while end > 0 && path[end - 1] == '/'
        invariant
            end <= path@.len(),
            trim_end_slashes(path@.take(end as int)) == trim_end_slashes(path@),
        decreases end,
    {
        assert(path@.take(end as int).drop_last() == path@.take(end - 1));
        end = end - 1;
    }
    end
}

/// The first index at or after `from` that holds no slash.
fn skip_slashes(path: &Vec<char>, from: usize) -> (start: usize)
    requires
        from <= path@.len(),
    ensures
        from <= start <= path@.len(),
        path@.skip(start as int) == trim_start_slashes(path@.skip(from as int)),
{
    let mut start: usize = from;
    while start < path.len() && path[start] == '/'
        invariant
            from <= start <= path@.len(),
            trim_start_slashes(path@.skip(start as int)) == trim_start_slashes(
                path@.skip(from as int),
            ),
        decreases path@.len() - start,
    {
        assert(path@.skip(start as int).drop_first() == path@.skip(start + 1));
        start = start + 1;
    }
    start
}

/// Whether `path` begins with the first `len` characters of `dir`.
fn begins_with(path: &Vec<char>, dir: &Vec<char>, len: usize) -> (found: bool)
    requires
        len <= dir@.len(),
    ensures
        found == dir@.take(len as int).is_prefix_of(path@),
{
    if len > path.len() {
        return false;
    }
    let mut i: usize = 0;
    while i < len
        invariant
            i <= len <= dir@.len(),
            len <= path@.len(),
            dir@.take(i as int) == path@.take(i as int),
        decreases len - i,
    {
        if path[i] != dir[i] {
            assert(dir@.take(len as int)[i as int] != path@.subrange(0, len as int)[i as int]);
            return false;
        }
        assert(dir@.take(i + 1) == dir@.take(i as int).push(dir@[i as int]));
        assert(path@.take(i + 1) == path@.take(i as int).push(path@[i as int]));
        i = i + 1;
    }
    true
}

/// The path of `filename` relative to `cwd`, by text alone.
pub fn relative_path(cwd: &str, filename: &str) -> (relative: String)
    ensures
        relative@ == relative_to(cwd@, filename@),
{
    let dir = normalized(cwd);
    let path = normalized(filename);
    let len = trimmed_end(&dir);
    if begins_with(&path, &dir, len) {
        let start = skip_slashes(&path, len);
        string_of(&path, start, path.len())
    } else {
        string_of(&path, 0, path.len())
    }
}

} // verus!
