//! Where a document is staged before the server is asked to open it, and
//! whether staging needs to copy at all.

use vstd::prelude::*;

verus! {

/// The directory that receives a staged document.
#[derive(Debug, Clone, Copy, PartialEq, Eq)]
pub enum StageDir {
    Desktop,
    Downloads,
    Temp,
}

/// Desktop when it is a directory, else Downloads when it is one, else the
/// temporary directory.
pub open spec fn stage_dir_for(desktop_is_dir: bool, downloads_is_dir: bool) -> StageDir {
    if desktop_is_dir {
        StageDir::Desktop
    } else if downloads_is_dir {
        StageDir::Downloads
    } else {
        StageDir::Temp
    }
}

/// Chooses the staging directory from which candidates exist as directories.
pub fn choose_stage_dir(desktop_is_dir: bool, downloads_is_dir: bool) -> (r: StageDir)
    ensures
        r == stage_dir_for(desktop_is_dir, downloads_is_dir),
{
    if desktop_is_dir {
        StageDir::Desktop
    } else if downloads_is_dir {
        StageDir::Downloads
    } else {
        StageDir::Temp
    }
}

/// A copy is due unless the canonical source and destination paths agree
/// (a path that cannot be made canonical counts as `None`).
pub open spec fn copy_needed(src: Option<Seq<char>>, dst: Option<Seq<char>>) -> bool {
    src != dst
}

/// The characters of an optional canonical path.
pub open spec fn canonical_view(p: &Option<String>) -> Option<Seq<char>> {
    match p {
        Some(s) => Some(s@),
        None => None,
    }
}

/// Decides whether staging must copy, from the canonical forms of the source
/// and of the destination.
pub fn needs_copy(src_canonical: &Option<String>, dst_canonical: &Option<String>) -> (r: bool)
    ensures
        r == copy_needed(canonical_view(src_canonical), canonical_view(dst_canonical)),
{
    match (src_canonical, dst_canonical) {
        (Some(a), Some(b)) => {
            let same = a.eq(b);
            !same
        },
        (None, None) => false,
        _ => true,
    }
}

/// Filesystem writes that one staging performs.
pub open spec fn staging_writes(src: Option<Seq<char>>, dst: Option<Seq<char>>) -> nat {
    if copy_needed(src, dst) {
        1
    } else {
        0
    }
}

/// Staging a document and then staging the staged copy again (whose
/// canonical path is the destination's) writes once in all: the second
/// staging is a no-op.
pub proof fn lemma_restaging_is_noop(src: Option<Seq<char>>, dst: Seq<char>)
    requires
        src != Some(dst),
    ensures
        staging_writes(Some(dst), Some(dst)) == 0,
        staging_writes(src, Some(dst)) + staging_writes(Some(dst), Some(dst)) == 1,
{
}

} // verus!
