//! The filtering half of directory scanning: which filesystem entries count as
//! video files.
//!
//! The traversal itself is the caller's: it walks the tree (skipping entries it
//! cannot read, which never aborts a scan) and hands over each entry's path and
//! whether it is a regular file, in traversal order. This module keeps exactly
//! the regular files whose extension matches one of the recognized video
//! extensions byte for byte — matching is exact, never case-folded.

use vstd::prelude::*;
use vstd::string::*;
use crate::paths::{file_name_of, last_dot_after_first, file_name_start, stem_end,
    lemma_last_dot_bounds, views_of};

verus! {

/// The extension of a path's filename: what follows the last dot that does not
/// start the filename; `None` when there is no such dot.
pub open spec fn extension_of(p: Seq<char>) -> Option<Seq<char>> {
    let name = file_name_of(p);
    let j = last_dot_after_first(name);
    if j < 0 {
        Option::None
    } else {
        Option::Some(name.subrange(j + 1, name.len() as int))
    }
}

/// The fixed set of recognized video extensions, matched exactly.
pub open spec fn is_video_extension(e: Seq<char>) -> bool {
    ||| e == seq!['m', 'p', '4']
    ||| e == seq!['m', 'k', 'v']
    ||| e == seq!['a', 'v', 'i']
    ||| e == seq!['m', 'o', 'v']
    ||| e == seq!['w', 'm', 'v']
}

/// Whether a path carries a recognized video extension.
pub open spec fn is_video_path(p: Seq<char>) -> bool {
    extension_of(p) matches Some(e) && is_video_extension(e)
}

/// One filesystem entry as the traversal reports it.
pub struct FsEntry {
    /// The entry's full path.
    pub path: String,
    /// Whether the entry is a regular file (directories and anything else are
    /// never video files).
    pub is_file: bool,
}

/// Whether a scan keeps this entry: a regular file on a video path.
pub open spec fn entry_is_video(e: FsEntry) -> bool {
    e.is_file && is_video_path(e.path@)
}

/// The paths of the video-file entries of `s`, in order.
pub open spec fn video_paths_of(s: Seq<FsEntry>) -> Seq<Seq<char>>
    decreases s.len(),
{
    if s.len() == 0 {
        Seq::empty()
    } else if entry_is_video(s.last()) {
        video_paths_of(s.drop_last()).push(s.last().path@)
    } else {
        video_paths_of(s.drop_last())
    }
}

/// Character-for-character string equality.
pub fn str_eq(a: &str, b: &str) -> (r: bool)
    ensures
        r <==> a@ == b@,
{
    let na = a.unicode_len();
    let nb = b.unicode_len();
    if na != nb {
        return false;
    }
    let mut i: usize = 0;
    while i < na
        invariant
            i <= na,
            na == a@.len(),
            na == b@.len(),
            forall|j: int| 0 <= j < i ==> a@[j] == b@[j],
        decreases na - i,
    {
        if a.get_char(i) != b.get_char(i) {
            return false;
        }
        i = i + 1;
    }
    proof {
        assert(a@ =~= b@);
    }
    true
}

/// Whether `path` ends in one of the recognized video extensions, matched
/// exactly (so an upper-case variant is not a video path).
pub fn has_video_extension(path: &str) -> (r: bool)
    ensures
        r == is_video_path(path@),
{
    let n = path.unicode_len();
    let start = file_name_start(path);
    let end = stem_end(path, start);
    proof {
        lemma_last_dot_bounds(file_name_of(path@));
    }
    if end == n {
        return false;
    }
    let ext = path.substring_char(end + 1, n);
    proof {
        let name = file_name_of(path@);
        let j = last_dot_after_first(name);
        assert(name.subrange(j + 1, name.len() as int) =~= path@.subrange(end + 1, n as int));
        reveal_strlit("mp4");
        reveal_strlit("mkv");
        reveal_strlit("avi");
        reveal_strlit("mov");
        reveal_strlit("wmv");
        assert("mp4"@ =~= seq!['m', 'p', '4']);
        assert("mkv"@ =~= seq!['m', 'k', 'v']);
        assert("avi"@ =~= seq!['a', 'v', 'i']);
        assert("mov"@ =~= seq!['m', 'o', 'v']);
        assert("wmv"@ =~= seq!['w', 'm', 'v']);
    }
    str_eq(ext, "mp4") || str_eq(ext, "mkv") || str_eq(ext, "avi") || str_eq(ext, "mov") || str_eq(
        ext,
        "wmv",
    )
}

/// The video files among the traversal's entries, in traversal order: exactly
/// the regular files whose extension is recognized, nothing sorted, nothing
/// deduplicated.
pub fn filter_video_entries(entries: &Vec<FsEntry>) -> (r: Vec<String>)
    ensures
        views_of(r@) == video_paths_of(entries@),
{
    let mut r: Vec<String> = Vec::new();
    let mut i: usize = 0;
    while i < entries.len()
        invariant
            i <= entries@.len(),
            views_of(r@) == video_paths_of(entries@.take(i as int)),
        decreases entries@.len() - i,
    {
        proof {
            assert(entries@.take(i + 1).drop_last() =~= entries@.take(i as int));
            assert(entries@.take(i + 1).last() == entries@[i as int]);
        }
        let e = &entries[i];
        if e.is_file && has_video_extension(e.path.as_str()) {
            r.push(e.path.clone());
            proof {
                assert(views_of(r@) =~= video_paths_of(entries@.take(i + 1)));
            }
        } else {
            proof {
                assert(views_of(r@) =~= video_paths_of(entries@.take(i + 1)));
            }
        }
        i = i + 1;
    }
    proof {
        assert(entries@.take(entries@.len() as int) =~= entries@);
    }
    r
}

} // verus!
