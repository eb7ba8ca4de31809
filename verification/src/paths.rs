//! A model of filesystem paths as character sequences, the derivation of a
//! thumbnail file name from a video path, and path joining.
//!
//! A path's filename component is its longest suffix free of `/`; the stem is
//! that component with its final extension removed, except that a dot standing
//! first (a hidden file) starts no extension. The thumbnail key is the stem
//! followed by `.png`, so two videos with the same stem share one key, whatever
//! their directories or extensions.

use vstd::prelude::*;
use vstd::string::*;

verus! {

/// The filename component of a path: the longest suffix without a `/`.
pub open spec fn file_name_of(p: Seq<char>) -> Seq<char>
    decreases p.len(),
{
    if p.len() == 0 {
        Seq::empty()
    } else if p.last() == '/' {
        Seq::empty()
    } else {
        file_name_of(p.drop_last()).push(p.last())
    }
}

/// The index of the last `.` of `name` that does not stand first, or -1 when
/// there is none: only such a dot separates a stem from an extension.
pub open spec fn last_dot_after_first(name: Seq<char>) -> int
    decreases name.len(),
{
    if name.len() <= 1 {
        -1
    } else if name.last() == '.' {
        name.len() - 1
    } else {
        last_dot_after_first(name.drop_last())
    }
}

/// The filename with its final extension removed; the whole filename when it
/// has no extension.
pub open spec fn stem_of(name: Seq<char>) -> Seq<char> {
    let j = last_dot_after_first(name);
    if j < 0 {
        name
    } else {
        name.subrange(0, j)
    }
}

/// The fixed suffix of every thumbnail file name.
pub open spec fn png_suffix() -> Seq<char> {
    seq!['.', 'p', 'n', 'g']
}

/// Whether a path has a non-empty filename component; key derivation is
/// defined exactly on such paths.
pub open spec fn has_file_name(p: Seq<char>) -> bool {
    file_name_of(p).len() > 0
}

/// The thumbnail cache key of a video path: its stem plus `.png`.
pub open spec fn thumb_key(p: Seq<char>) -> Seq<char> {
    stem_of(file_name_of(p)) + png_suffix()
}

/// A directory path joined with a file name, inserting a `/` only where the
/// directory is non-empty and does not already end in one.
pub open spec fn path_join(dir: Seq<char>, name: Seq<char>) -> Seq<char> {
    if dir.len() == 0 {
        name
    } else if dir.last() == '/' {
        dir + name
    } else {
        dir + seq!['/'] + name
    }
}

/// The views of a sequence of strings.
pub open spec fn views_of(s: Seq<String>) -> Seq<Seq<char>> {
    s.map_values(|x: String| x@)
}

/// Start index of the filename component of `path`: the position right after
/// the last `/`, or 0 when the path has none.
pub(crate) fn file_name_start(path: &str) -> (start: usize)
    ensures
        start <= path@.len(),
        file_name_of(path@) == path@.subrange(start as int, path@.len() as int),
{
    let n = path.unicode_len();
    let mut start: usize = 0;
    let mut i: usize = 0;
    while i < n
        invariant
            i <= n,
            start <= i,
            n == path@.len(),
            file_name_of(path@.take(i as int)) == path@.subrange(start as int, i as int),
        decreases n - i,
    {
        let c = path.get_char(i);
        proof {
            assert(path@.take(i + 1).drop_last() =~= path@.take(i as int));
            assert(path@.take(i + 1).last() == c);
        }
        if c == '/' {
            start = i + 1;
            proof {
                assert(file_name_of(path@.take(start as int)) =~= path@.subrange(
                    start as int,
                    start as int,
                ));
            }
        } else {
            proof {
                assert(file_name_of(path@.take(i + 1)) == file_name_of(path@.take(i as int)).push(
                    c,
                ));
                assert(path@.subrange(start as int, i as int).push(c) =~= path@.subrange(
                    start as int,
                    i + 1,
                ));
            }
        }
        i = i + 1;
    }
    proof {
        assert(path@.take(n as int) =~= path@);
    }
    start
}

/// A usable dot never stands first in the filename nor past its end.
pub proof fn lemma_last_dot_bounds(name: Seq<char>)
    ensures
        last_dot_after_first(name) == -1 || 1 <= last_dot_after_first(name) < name.len(),
    decreases name.len(),
{
    if name.len() <= 1 {
    } else if name.last() == '.' {
    } else {
        lemma_last_dot_bounds(name.drop_last());
    }
}

/// End index of the stem within `path`: where the filename's extension (if
/// any) begins, its final dot excluded; the path's end otherwise.
pub(crate) fn stem_end(path: &str, start: usize) -> (end: usize)
    requires
        start <= path@.len(),
        file_name_of(path@) == path@.subrange(start as int, path@.len() as int),
    ensures
        start <= end <= path@.len(),
        ({
            let j = last_dot_after_first(file_name_of(path@));
            end == if j < 0 {
                path@.len() as int
            } else {
                start + j
            }
        }),
{
    let n = path.unicode_len();
    let ghost name = file_name_of(path@);
    let mut dot: Option<usize> = None;
    if start >= n {
        proof {
            assert(name =~= path@.subrange(start as int, n as int));
        }
        return n;
    }
    let mut k: usize = start + 1;
    while k < n
        invariant
            start < n,
            n == path@.len(),
            start + 1 <= k <= n,
            name == path@.subrange(start as int, n as int),
            dot matches Some(d) ==> start < d < k,
            last_dot_after_first(name.take(k - start)) == match dot {
                Option::None => -1,
                Option::Some(d) => d - start,
            },
        decreases n - k,
    {
        let c = path.get_char(k);
        proof {
            assert(name.take(k - start + 1).drop_last() =~= name.take(k - start));
            assert(name.take(k - start + 1).last() == name[k - start]);
            assert(name[k - start] == path@[k as int]);
        }
        if c == '.' {
            dot = Some(k);
        }
        k = k + 1;
    }
    proof {
        assert(name.take(n - start) =~= name);
    }
    match dot {
        Some(d) => d,
        None => n,
    }
}

/// The thumbnail file name of a video path: its filename stem plus `.png`.
/// Defined exactly for paths with a filename component; `derive_thumbnail_key`
/// is the checked form for arbitrary input.
pub fn generate_thumbnail_name(path: &str) -> (name: String)
    requires
        has_file_name(path@),
    ensures
        name@ == thumb_key(path@),
{
    let start = file_name_start(path);
    let end = stem_end(path, start);
    let stem = path.substring_char(start, end);
    proof {
        let fname = file_name_of(path@);
        let j = last_dot_after_first(fname);
        if j < 0 {
            assert(stem@ =~= stem_of(fname));
        } else {
            assert(fname.subrange(0, j) =~= path@.subrange(start as int, start + j));
            assert(stem@ =~= stem_of(fname));
        }
    }
    let mut name = stem.to_owned();
    name.append(".png");
    proof {
        reveal_strlit(".png");
        assert(".png"@ =~= png_suffix());
    }
    name
}

/// Key derivation for arbitrary paths: `None` exactly when the path has no
/// filename component, so that no malformed key can leave this module.
pub fn derive_thumbnail_key(path: &str) -> (r: Option<String>)
    ensures
        r is Some <==> has_file_name(path@),
        r matches Some(name) ==> name@ == thumb_key(path@),
{
    let n = path.unicode_len();
    let start = file_name_start(path);
    if start == n {
        proof {
            assert(path@.subrange(n as int, n as int) =~= Seq::<char>::empty());
        }
        None
    } else {
        Some(generate_thumbnail_name(path))
    }
}

/// A directory path joined with a file name, as the filesystem join does.
pub fn join_path(dir: &str, name: &str) -> (r: String)
    ensures
        r@ == path_join(dir@, name@),
{
    let n = dir.unicode_len();
    if n == 0 {
        name.to_owned()
    } else if dir.get_char(n - 1) == '/' {
        let mut r = dir.to_owned();
        r.append(name);
        r
    } else {
        let mut r = dir.to_owned();
        r.append("/");
        r.append(name);
        proof {
            reveal_strlit("/");
            assert("/"@ =~= seq!['/']);
            assert(dir@ + "/"@ + name@ =~= dir@ + seq!['/'] + name@);
        }
        r
    }
}

/// Keys collide exactly through stems: any two paths whose filename stems
/// agree are mapped to one and the same thumbnail key.
pub proof fn lemma_key_collision(a: Seq<char>, b: Seq<char>)
    requires
        stem_of(file_name_of(a)) == stem_of(file_name_of(b)),
    ensures
        thumb_key(a) == thumb_key(b),
{
}

} // verus!
