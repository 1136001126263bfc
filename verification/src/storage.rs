//! The storage probe: which volume holds a directory, and how much of it is
//! free.

use vstd::prelude::*;
use sysinfo::{DiskExt, SystemExt};
use crate::percentage::{calculate_percentage, Percentage};
use crate::text::starts_with;

verus! {

/// A volume of the host.
#[derive(Debug, PartialEq, Eq)]
pub struct Volume {
    /// The name the platform knows it by, such as that of its device.
    pub name: String,
    /// The directory at which it is mounted.
    pub mount_point: String,
    /// Its capacity in bytes.
    pub total: u64,
    /// How many of those bytes are free.
    pub available: u64,
}

impl Volume {
    /// The volume's mount point is a prefix of `base_dir`, as text.
    pub open spec fn holds(self, base_dir: Seq<char>) -> bool {
        self.mount_point@.is_prefix_of(base_dir)
    }

    /// The free share of the volume.
    pub open spec fn share(self) -> Percentage {
        Percentage { total: self.total, available: self.available }
    }
}

/// `index` is where the volume chosen for `base_dir` stands: the first, in
/// listing order, whose mount point is a prefix of `base_dir`. A longer
/// mount point further down the list does not take its place.
pub open spec fn is_selected(volumes: Seq<Volume>, base_dir: Seq<char>, index: int) -> bool {
    &&& 0 <= index < volumes.len()
    &&& volumes[index].holds(base_dir)
    &&& forall|earlier: int| 0 <= earlier < index ==> !(#[trigger] volumes[earlier]).holds(base_dir)
}

/// No volume of the list holds `base_dir`.
pub open spec fn none_holds(volumes: Seq<Volume>, base_dir: Seq<char>) -> bool {
    forall|index: int| 0 <= index < volumes.len() ==> !(#[trigger] volumes[index]).holds(base_dir)
}

/// The free share of the volume chosen for `base_dir`, or `None` where no
/// volume holds it.
pub open spec fn free_share(volumes: Seq<Volume>, base_dir: Seq<char>) -> Option<Percentage> {
    if none_holds(volumes, base_dir) {
        None
    } else {
        Some(volumes[choose|index: int| is_selected(volumes, base_dir, index)].share())
    }
}

/// At most one place holds the chosen volume, and it is the one whose share
/// [`free_share`] gives.
pub proof fn lemma_selection_is_unique(
    volumes: Seq<Volume>,
    base_dir: Seq<char>,
    first: int,
    second: int,
)
    requires
        is_selected(volumes, base_dir, first),
        is_selected(volumes, base_dir, second),
    ensures
        first == second,
        free_share(volumes, base_dir) == Some(volumes[first].share()),
{
    let chosen = choose|index: int| is_selected(volumes, base_dir, index);
    lemma_at_most_one_selected(volumes, base_dir, first, second);
    lemma_at_most_one_selected(volumes, base_dir, first, chosen);
}

proof fn lemma_at_most_one_selected(
    volumes: Seq<Volume>,
    base_dir: Seq<char>,
    first: int,
    second: int,
)
    requires
        is_selected(volumes, base_dir, first),
        is_selected(volumes, base_dir, second),
    ensures
        first == second,
{
    if first < second {
        assert(!volumes[first].holds(base_dir));
    } else if second < first {
        assert(!volumes[second].holds(base_dir));
    }
}

/// Where the volume chosen for `base_dir` stands in `volumes`.
pub fn select_volume(volumes: &Vec<Volume>, base_dir: &str) -> (result: Option<usize>)
    ensures
        result matches Some(index) ==> is_selected(volumes@, base_dir@, index as int),
        result is None <==> none_holds(volumes@, base_dir@),
{
    let mut index: usize = 0;
    while index < volumes.len()
        invariant
            0 <= index <= volumes@.len(),
            none_holds(volumes@.take(index as int), base_dir@),
        decreases volumes@.len() - index,
    {
        if starts_with(base_dir, volumes[index].mount_point.as_str()) {
            assert forall|earlier: int| 0 <= earlier < index implies !(
            #[trigger] volumes@[earlier]).holds(base_dir@) by {
                assert(volumes@.take(index as int)[earlier] == volumes@[earlier]);
            }
            return Some(index);
        }
        index += 1;
        assert forall|seen: int| 0 <= seen < index implies !(#[trigger] volumes@.take(
            index as int,
        )[seen]).holds(base_dir@) by {
            if seen < index - 1 {
                assert(volumes@.take(index - 1)[seen] == volumes@[seen]);
            }
        }
    }
    assert(volumes@.take(index as int) == volumes@);
    None
}

/// The free share of the volume of `volumes` that is chosen for `base_dir`.
pub fn storage_percentage(volumes: &Vec<Volume>, base_dir: &str) -> (result: Option<Percentage>)
    ensures
        result == free_share(volumes@, base_dir@),
        result is None <==> none_holds(volumes@, base_dir@),
        result matches Some(share) ==> exists|index: int|
            is_selected(volumes@, base_dir@, index) && share == (#[trigger] volumes@[index]).share(),
{
    match select_volume(volumes, base_dir) {
        None => None,
        Some(index) => {
            proof {
                lemma_selection_is_unique(volumes@, base_dir@, index as int, index as int);
            }
            Some(calculate_percentage(volumes[index].total, volumes[index].available))
        },
    }
}

/// Lists the volumes of this machine. It makes a `sysinfo::System` with
/// `new_all`, walks what `disks` returns and copies from each disk its `name`
/// and `mount_point` (as text, with what is no Unicode replaced),
/// `total_space` and `available_space`. The list is whatever the machine has
/// mounted at the moment of the call, so nothing is claimed of it.
#[verifier::external_body]
fn host_volumes() -> (volumes: Vec<Volume>) {
    let system = sysinfo::System::new_all();
    system.disks().iter().map(
        |disk| Volume {
            name: disk.name().to_string_lossy().into_owned(),
            mount_point: disk.mount_point().to_string_lossy().into_owned(),
            total: disk.total_space(),
            available: disk.available_space(),
        },
    ).collect()
}

/// The free share of the volume of this machine that holds `base_dir`, or
/// `None` where none does. Which volumes there are is read at every call;
/// [`storage_percentage`] says what is made of them.
pub fn check_storage(base_dir: &str) -> (result: Option<Percentage>)
    ensures
        exists|volumes: Seq<Volume>| result == #[trigger] free_share(volumes, base_dir@),
{
    let volumes: Vec<Volume> = host_volumes();
    storage_percentage(&volumes, base_dir)
}

} // verus!
