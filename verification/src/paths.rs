//! Path computations of the update protocol.
//!
//! Paths are kept as plain strings with `/` as the directory separator.
//! The two operations the protocol needs are joining a file name onto a
//! directory and replacing a path's extension, the latter following the
//! usual rule: the extension of a path is what follows the last `.` of its
//! final component, provided that dot is neither the component's first
//! character nor preceded by the separator.

use vstd::prelude::*;

verus! {

/// `dir` with `name` appended as one more component.
pub open spec fn joined(dir: Seq<char>, name: Seq<char>) -> Seq<char> {
    dir + "/"@ + name
}

/// Looking only at indices below `i`: the index of the dot that starts the
/// extension, or `-1` if the path up to `i` ends in an extension-free
/// component.
pub open spec fn ext_dot_at(p: Seq<char>, i: int) -> int
    decreases i,
{
    if i <= 0 {
        -1
    } else if p[i - 1] == '/' {
        -1
    } else if p[i - 1] == '.' {
        if i >= 2 && p[i - 2] != '/' {
            i - 1
        } else {
            -1
        }
    } else {
        ext_dot_at(p, i - 1)
    }
}

/// `p` without its extension (and without the dot that started it).
pub open spec fn stem_of(p: Seq<char>) -> Seq<char> {
    let d = ext_dot_at(p, p.len() as int);
    if d >= 0 {
        p.subrange(0, d)
    } else {
        p
    }
}

/// `p` with its extension replaced by `e`.
pub open spec fn with_ext(p: Seq<char>, e: Seq<char>) -> Seq<char> {
    stem_of(p) + "."@ + e
}

fn ext_dot_search(path: &str, i: usize) -> (r: Option<usize>)
    requires
        i <= path@.len(),
    ensures
        match r {
            Some(d) => ext_dot_at(path@, i as int) == d as int && d < i,
            None => ext_dot_at(path@, i as int) == -1,
        },
    decreases i,
{
    if i == 0 {
        None
    } else {
        let c = path.get_char(i - 1);
        if c == '/' {
            None
        } else if c == '.' {
            if i >= 2 {
                if path.get_char(i - 2) != '/' {
                    Some(i - 1)
                } else {
                    None
                }
            } else {
                None
            }
        } else {
            ext_dot_search(path, i - 1)
        }
    }
}

/// Joins `name` onto the directory `dir`.
pub fn join_path(dir: &str, name: &str) -> (r: String)
    ensures
        r@ == joined(dir@, name@),
{
    let mut r = dir.to_owned();
    r.append("/");
    r.append(name);
    r
}

/// Replaces the extension of `path` by `ext`.
pub fn with_extension(path: &str, ext: &str) -> (r: String)
    ensures
        r@ == with_ext(path@, ext@),
{
    let n = path.unicode_len();
    let stem: &str = match ext_dot_search(path, n) {
        Some(d) => path.substring_char(0, d),
        None => path,
    };
    assert(stem@ == stem_of(path@));
    let mut r = stem.to_owned();
    r.append(".");
    r.append(ext);
    r
}

} // verus!
