//! Finding the oldest of a directory's subdirectories.

use vstd::prelude::*;

verus! {

/// An entry of a directory that is searched for its oldest folder.
#[derive(Debug, PartialEq, Eq)]
pub struct DirectoryEntry {
    /// Where the entry is.
    pub path: String,
    /// When it was created, if it is a directory; `None` for a file or
    /// anything else. The time counts nanoseconds from the Unix epoch,
    /// negative before it; only its order matters here.
    pub created: Option<i128>,
}

/// None of `entries` is a directory.
pub open spec fn no_folder(entries: Seq<DirectoryEntry>) -> bool {
    forall|index: int| 0 <= index < entries.len() ==> (#[trigger] entries[index]).created is None
}

/// `index` is where the oldest folder of `entries` stands: it is a
/// directory, no directory was created before it, and every directory listed
/// ahead of it was created later. What is no directory does not count.
pub open spec fn is_oldest(entries: Seq<DirectoryEntry>, index: int) -> bool {
    &&& 0 <= index < entries.len()
    &&& entries[index].created is Some
    &&& forall|other: int|
        0 <= other < entries.len() && (#[trigger] entries[other]).created is Some
            ==> entries[index].created->0 <= entries[other].created->0
    &&& forall|earlier: int|
        0 <= earlier < index && (#[trigger] entries[earlier]).created is Some
            ==> entries[index].created->0 < entries[earlier].created->0
}

/// The path of the oldest folder of `entries`, if any of them is a directory.
pub open spec fn oldest_path(entries: Seq<DirectoryEntry>) -> Option<Seq<char>> {
    if no_folder(entries) {
        None
    } else {
        Some(entries[choose|index: int| is_oldest(entries, index)].path@)
    }
}

/// At most one place holds the oldest folder, and it is the one whose path
/// [`oldest_path`] gives.
pub proof fn lemma_oldest_is_unique(entries: Seq<DirectoryEntry>, first: int, second: int)
    requires
        is_oldest(entries, first),
        is_oldest(entries, second),
    ensures
        first == second,
        oldest_path(entries) == Some(entries[first].path@),
{
    let chosen = choose|index: int| is_oldest(entries, index);
    lemma_at_most_one_oldest(entries, first, second);
    lemma_at_most_one_oldest(entries, first, chosen);
}

proof fn lemma_at_most_one_oldest(entries: Seq<DirectoryEntry>, first: int, second: int)
    requires
        is_oldest(entries, first),
        is_oldest(entries, second),
    ensures
        first == second,
{
    if first < second {
        assert(entries[second].created->0 < entries[first].created->0);
        assert(entries[first].created->0 <= entries[second].created->0);
    } else if second < first {
        assert(entries[first].created->0 < entries[second].created->0);
        assert(entries[second].created->0 <= entries[first].created->0);
    }
}

/// Where the oldest folder of `entries` stands; of several created at the
/// same instant, the one listed first. `None` exactly when none of the
/// entries is a directory.
pub fn oldest_index(entries: &Vec<DirectoryEntry>) -> (result: Option<usize>)
    ensures
        result is None <==> no_folder(entries@),
        result matches Some(index) ==> is_oldest(entries@, index as int),
{
    let mut best: Option<(usize, i128)> = None;
    let mut next: usize = 0;
    while next < entries.len()
        invariant
            0 <= next <= entries@.len(),
            best is None ==> no_folder(entries@.take(next as int)),
            best matches Some((index, time)) ==> index < next && is_oldest(
                entries@.take(next as int),
                index as int,
            ) && entries@[index as int].created == Some(time),
        decreases entries@.len() - next,
    {
        let ghost seen = entries@.take(next as int);
        let ghost grown = entries@.take(next + 1);
        assert forall|index: int| 0 <= index < next implies grown[index] == seen[index] by {}
        assert(grown[next as int] == entries@[next as int]);
        match entries[next].created {
            None => {},
            Some(time) => {
                match best {
                    None => {
                        best = Some((next, time));
                    },
                    Some((_, least)) => {
                        if time < least {
                            best = Some((next, time));
                        }
                    },
                }
            },
        }
        next += 1;
    }
    assert(entries@.take(next as int) == entries@);
    match best {
        None => None,
        Some((index, _)) => Some(index),
    }
}

/// The path of the oldest folder among `entries`; of several created at the
/// same instant, the one listed first. `None` exactly when none of the
/// entries is a directory: files are passed over.
pub fn get_oldest_folder(entries: &Vec<DirectoryEntry>) -> (result: Option<String>)
    ensures
        result is None <==> no_folder(entries@),
        result matches Some(path) ==> oldest_path(entries@) == Some(path@),
        result matches Some(path) ==> exists|index: int|
            is_oldest(entries@, index) && path@ == #[trigger] entries@[index].path@,
{
    match oldest_index(entries) {
        None => None,
        Some(index) => {
            proof {
                lemma_oldest_is_unique(entries@, index as int, index as int);
            }
            Some(entries[index].path.clone())
        },
    }
}

} // verus!
