//! Directory listings, and the subdirectories among their entries.

use vstd::prelude::*;
use std::collections::VecDeque;
use crate::text::texts;

verus! {

/// An entry of a directory listing.
#[derive(Debug, PartialEq, Eq)]
pub struct ListedEntry {
    /// Where the entry is.
    pub path: String,
    /// Whether it is a directory.
    pub is_dir: bool,
}

/// The path of `entry` if it is a directory.
pub open spec fn directory_path(entry: ListedEntry) -> Option<Seq<char>> {
    if entry.is_dir {
        Some(entry.path@)
    } else {
        None
    }
}

/// The paths of the directories among `entries`, in listing order.
pub open spec fn subdirectory_paths(entries: Seq<ListedEntry>) -> Seq<Seq<char>> {
    entries.filter_map(|entry: ListedEntry| directory_path(entry))
}

/// The paths of the directories among `entries`, queued in listing order;
/// files and whatever else is listed are passed over.
pub fn subdirectories(entries: &Vec<ListedEntry>) -> (paths: VecDeque<String>)
    ensures
        texts(paths@) == subdirectory_paths(entries@),
{
    let ghost pick = |entry: ListedEntry| directory_path(entry);
    let mut paths: VecDeque<String> = VecDeque::new();
    let mut next: usize = 0;
    while next < entries.len()
        invariant
            pick == |entry: ListedEntry| directory_path(entry),
            0 <= next <= entries@.len(),
            texts(paths@) == entries@.take(next as int).filter_map(pick),
        decreases entries@.len() - next,
    {
        proof {
            entries@.lemma_filter_map_take_succ(pick, next as int);
        }
        if entries[next].is_dir {
            paths.push_back(entries[next].path.clone());
        }
        next += 1;
    }
    assert(entries@.take(next as int) == entries@);
    paths
}

} // verus!
