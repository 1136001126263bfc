//! The cleanup loop: probe the volume, and while too little of it is free,
//! sweep the tree under the base directory, removing the oldest folder of
//! every item group.
//!
//! The loop never touches the file system. It hands out one [`Action`] at a
//! time and is told what came of it by the next [`Event`].

use vstd::prelude::*;
use std::collections::VecDeque;
use crate::entry::needs_cleanup;
use crate::oldest::{get_oldest_folder, oldest_path, DirectoryEntry};
use crate::listing::{subdirectories, subdirectory_paths, ListedEntry};
use crate::percentage::Percentage;
use crate::text::{join, texts};

verus! {

/// The loop ends once more than this many percent of the volume are free.
pub const STOP_ABOVE_PERCENT: u8 = 25;

/// The line logged when the loop ends.
pub open spec fn exit_line() -> Seq<char> {
    "Free space is above 25%. Exiting cleanup."@
}

/// The line logged before every sweep.
pub open spec fn sweep_line() -> Seq<char> {
    "Free space is below 25%. Cleaning up..."@
}

/// The line logged before `path` is removed.
pub open spec fn deleting_line(path: Seq<char>) -> Seq<char> {
    "Deleting folder: "@ + path
}

/// The line logged for the item group at `path` when it holds no folder.
pub open spec fn empty_line(path: Seq<char>) -> Seq<char> {
    "No subfolders found in: "@ + path
}

/// What the driver is asked to do next.
#[derive(Debug, PartialEq, Eq)]
pub enum Action {
    /// Measure the free share of the volume under the base directory.
    Probe,
    /// Append this line to the log.
    Log(String),
    /// List the entries of this directory.
    List(String),
    /// List the entries of this directory, the directories among them with
    /// their creation times.
    Scan(String),
    /// Remove this directory and all it holds.
    Delete(String),
    /// Nothing more: the loop has ended.
    Stop,
}

/// What an [`Action`] stands for.
pub ghost enum ActionView {
    Probe,
    Log(Seq<char>),
    List(Seq<char>),
    Scan(Seq<char>),
    Delete(Seq<char>),
    Stop,
}

impl View for Action {
    type V = ActionView;

    open spec fn view(&self) -> ActionView {
        match *self {
            Action::Probe => ActionView::Probe,
            Action::Log(line) => ActionView::Log(line@),
            Action::List(path) => ActionView::List(path@),
            Action::Scan(path) => ActionView::Scan(path@),
            Action::Delete(path) => ActionView::Delete(path@),
            Action::Stop => ActionView::Stop,
        }
    }
}

/// What came of the last [`Action`].
#[derive(Debug, PartialEq, Eq)]
pub enum Event {
    /// Nothing yet: the loop is being started.
    Begin,
    /// The answer to [`Action::Probe`]: the free share, or `None` where no
    /// volume holds the base directory.
    Probed(Option<Percentage>),
    /// The answer to [`Action::List`]: the entries, in listing order.
    Listed(Vec<ListedEntry>),
    /// The answer to [`Action::Scan`]: the entries, in listing order.
    Scanned(Vec<DirectoryEntry>),
    /// The answer to [`Action::Log`] and [`Action::Delete`]: it was done.
    Done,
}

/// What an [`Event`] stands for.
pub ghost enum EventView {
    Begin,
    Probed(Option<Percentage>),
    Listed(Seq<ListedEntry>),
    Scanned(Seq<DirectoryEntry>),
    Done,
}

impl View for Event {
    type V = EventView;

    open spec fn view(&self) -> EventView {
        match *self {
            Event::Begin => EventView::Begin,
            Event::Probed(share) => EventView::Probed(share),
            Event::Listed(entries) => EventView::Listed(entries@),
            Event::Scanned(entries) => EventView::Scanned(entries@),
            Event::Done => EventView::Done,
        }
    }
}

/// Where the loop stands, named by what it waits for.
#[derive(Clone, Copy, Debug, PartialEq, Eq)]
pub enum Phase {
    /// Not started.
    Idle,
    /// The free share.
    Probing,
    /// The closing line to be logged.
    Exiting,
    /// The line that opens a sweep to be logged.
    Announcing,
    /// The entries of the base directory: its subdirectories are the
    /// categories.
    ListingBase,
    /// The entries of a category: its subdirectories are the item groups.
    ListingCategory,
    /// The entries of an item group: its subdirectories are the folders of
    /// which the oldest is removed.
    Scanning,
    /// The line that names the folder to remove to be logged.
    Condemning,
    /// The folder to be removed.
    Deleting,
    /// The line about an item group without folders to be logged.
    Reporting,
    /// Nothing: the loop has ended.
    Finished,
}

/// The state of the cleanup loop.
pub struct CleanupLoop {
    phase: Phase,
    base_dir: String,
    categories: VecDeque<String>,
    groups: VecDeque<String>,
    subject: String,
}

/// What a [`CleanupLoop`] stands for.
pub ghost struct CleanupView {
    pub phase: Phase,
    /// The directory whose tree is swept.
    pub base_dir: Seq<char>,
    /// The categories of this sweep that are still to be listed.
    pub categories: Seq<Seq<char>>,
    /// The item groups of the current category that are still to be scanned.
    pub groups: Seq<Seq<char>>,
    /// The item group being scanned, or the folder being removed.
    pub subject: Seq<char>,
}

impl View for CleanupLoop {
    type V = CleanupView;

    closed spec fn view(&self) -> CleanupView {
        CleanupView {
            phase: self.phase,
            base_dir: self.base_dir@,
            categories: texts(self.categories@),
            groups: texts(self.groups@),
            subject: self.subject@,
        }
    }
}

/// The loop before its first step on `base_dir`.
pub open spec fn initial(base_dir: Seq<char>) -> CleanupView {
    CleanupView {
        phase: Phase::Idle,
        base_dir,
        categories: Seq::empty(),
        groups: Seq::empty(),
        subject: Seq::empty(),
    }
}

/// Enough is free again: more than a quarter of the volume, or no volume was
/// found, which counts as all of it being free.
pub open spec fn recovered(share: Option<Percentage>) -> bool {
    match share {
        None => true,
        Some(share) => share.exceeds(STOP_ABOVE_PERCENT as nat),
    }
}

/// The next piece of a sweep: the next item group of the current category,
/// else the next category, else a new probe.
pub open spec fn proceed(before: CleanupView) -> (CleanupView, ActionView) {
    if before.groups.len() > 0 {
        (
            CleanupView {
                phase: Phase::Scanning,
                groups: before.groups.drop_first(),
                subject: before.groups[0],
                ..before
            },
            ActionView::Scan(before.groups[0]),
        )
    } else if before.categories.len() > 0 {
        (
            CleanupView {
                phase: Phase::ListingCategory,
                categories: before.categories.drop_first(),
                ..before
            },
            ActionView::List(before.categories[0]),
        )
    } else {
        (CleanupView { phase: Phase::Probing, ..before }, ActionView::Probe)
    }
}

/// How the loop answers `event`: its next state and what it asks for, or
/// `None` where `event` is no answer to what it last asked for.
pub open spec fn react(before: CleanupView, event: EventView) -> Option<(CleanupView, ActionView)> {
    match (before.phase, event) {
        (Phase::Idle, EventView::Begin) => Some(
            (CleanupView { phase: Phase::Probing, ..before }, ActionView::Probe),
        ),
        (Phase::Probing, EventView::Probed(share)) => if recovered(share) {
            Some((CleanupView { phase: Phase::Exiting, ..before }, ActionView::Log(exit_line())))
        } else {
            Some(
                (CleanupView { phase: Phase::Announcing, ..before }, ActionView::Log(sweep_line())),
            )
        },
        (Phase::Exiting, EventView::Done) => Some(
            (CleanupView { phase: Phase::Finished, ..before }, ActionView::Stop),
        ),
        (Phase::Announcing, EventView::Done) => Some(
            (
                CleanupView { phase: Phase::ListingBase, ..before },
                ActionView::List(before.base_dir),
            ),
        ),
        (Phase::ListingBase, EventView::Listed(entries)) => Some(
            proceed(
                CleanupView {
                    categories: subdirectory_paths(entries),
                    groups: Seq::empty(),
                    ..before
                },
            ),
        ),
        (Phase::ListingCategory, EventView::Listed(entries)) => Some(
            proceed(CleanupView { groups: subdirectory_paths(entries), ..before }),
        ),
        (Phase::Scanning, EventView::Scanned(entries)) => match oldest_path(entries) {
            Some(path) => Some(
                (
                    CleanupView { phase: Phase::Condemning, subject: path, ..before },
                    ActionView::Log(deleting_line(path)),
                ),
            ),
            None => Some(
                (
                    CleanupView { phase: Phase::Reporting, ..before },
                    ActionView::Log(empty_line(before.subject)),
                ),
            ),
        },
        (Phase::Condemning, EventView::Done) => Some(
            (CleanupView { phase: Phase::Deleting, ..before }, ActionView::Delete(before.subject)),
        ),
        (Phase::Deleting, EventView::Done) => Some(proceed(before)),
        (Phase::Reporting, EventView::Done) => Some(proceed(before)),
        _ => None,
    }
}

/// The loop for `base_dir` in `phase`, with nothing of a sweep pending.
pub open spec fn waiting(base_dir: Seq<char>, phase: Phase) -> CleanupView {
    CleanupView { phase, ..initial(base_dir) }
}

/// Started while enough is free, the loop probes once, logs its closing line
/// and stops: it lists nothing, removes nothing, and takes no further event.
pub proof fn lemma_recovered_loop_stops(base_dir: Seq<char>, share: Option<Percentage>)
    requires
        recovered(share),
    ensures
        react(initial(base_dir), EventView::Begin) == Some(
            (waiting(base_dir, Phase::Probing), ActionView::Probe),
        ),
        react(waiting(base_dir, Phase::Probing), EventView::Probed(share)) == Some(
            (waiting(base_dir, Phase::Exiting), ActionView::Log(exit_line())),
        ),
        react(waiting(base_dir, Phase::Exiting), EventView::Done) == Some(
            (waiting(base_dir, Phase::Finished), ActionView::Stop),
        ),
        forall|event: EventView| react(waiting(base_dir, Phase::Finished), event) is None,
{
}

/// `event` brings a scan, and the oldest folder it found is at `path`.
pub open spec fn found_oldest(event: EventView, path: Seq<char>) -> bool {
    event matches EventView::Scanned(entries) && oldest_path(entries) == Some(path)
}

/// Nothing is removed but the oldest folder that a scan of an item group
/// found, and not before the log has named it: the base directory, the
/// categories and the item groups themselves are never removed.
pub proof fn lemma_removal_follows_a_scan(before: CleanupView, event: EventView)
    ensures
        react(before, event) matches Some((_, ActionView::Delete(path))) ==> before.phase
            == Phase::Condemning && event == EventView::Done && path == before.subject,
        react(before, event) matches Some((after, asked)) ==> (after.phase == Phase::Condemning
            ==> before.phase == Phase::Scanning && found_oldest(event, after.subject) && asked
            == ActionView::Log(deleting_line(after.subject))),
{
}

/// A share that starts the cleanup has not recovered: the loop that is
/// started on it sweeps at least once, unless space was freed in between.
pub proof fn lemma_started_loop_sweeps(share: Percentage)
    requires
        needs_cleanup(Some(share)),
    ensures
        !recovered(Some(share)),
{
}

impl CleanupLoop {
    /// A loop that has not started, for the tree under `base_dir`.
    pub fn new(base_dir: &str) -> (result: CleanupLoop)
        ensures
            result@ == initial(base_dir@),
    {
        let result = CleanupLoop {
            phase: Phase::Idle,
            base_dir: String::from_str(base_dir),
            categories: VecDeque::new(),
            groups: VecDeque::new(),
            subject: String::new(),
        };
        assert(result@.categories =~= Seq::empty());
        assert(result@.groups =~= Seq::empty());
        result
    }

    /// Where the loop stands.
    pub fn phase(&self) -> (result: Phase)
        ensures
            result == self@.phase,
    {
        self.phase
    }

    /// Whether the loop has ended.
    pub fn is_finished(&self) -> (result: bool)
        ensures
            result == (self@.phase == Phase::Finished),
    {
        matches!(self.phase, Phase::Finished)
    }

    fn proceed(&mut self) -> (action: Action)
        ensures
            (final(self)@, action@) == proceed(old(self)@),
    {
        if let Some(group) = self.groups.pop_front() {
            assert(texts(self.groups@) =~= texts(old(self).groups@).drop_first());
            self.phase = Phase::Scanning;
            self.subject = group.clone();
            Action::Scan(group)
        } else if let Some(category) = self.categories.pop_front() {
            assert(texts(self.categories@) =~= texts(old(self).categories@).drop_first());
            self.phase = Phase::ListingCategory;
            Action::List(category)
        } else {
            self.phase = Phase::Probing;
            Action::Probe
        }
    }

    /// Takes in what came of the last action and says what to do next.
    ///
    /// The loop starts with [`Event::Begin`]. An event that does not answer
    /// the last action gives `None` and changes nothing.
    pub fn step(&mut self, event: Event) -> (action: Option<Action>)
        ensures
            react(old(self)@, event@) == match action {
                Some(asked) => Some((final(self)@, asked@)),
                None => None,
            },
            action is None ==> final(self)@ == old(self)@,
    {
        match (self.phase, event) {
            (Phase::Idle, Event::Begin) => {
                self.phase = Phase::Probing;
                Some(Action::Probe)
            },
            (Phase::Probing, Event::Probed(share)) => {
                let enough: bool = match share {
                    None => true,
                    Some(share) => share.above(STOP_ABOVE_PERCENT),
                };
                if enough {
                    self.phase = Phase::Exiting;
                    Some(Action::Log(String::from_str("Free space is above 25%. Exiting cleanup.")))
                } else {
                    self.phase = Phase::Announcing;
                    Some(Action::Log(String::from_str("Free space is below 25%. Cleaning up...")))
                }
            },
            (Phase::Exiting, Event::Done) => {
                self.phase = Phase::Finished;
                Some(Action::Stop)
            },
            (Phase::Announcing, Event::Done) => {
                self.phase = Phase::ListingBase;
                Some(Action::List(self.base_dir.clone()))
            },
            (Phase::ListingBase, Event::Listed(entries)) => {
                self.categories = subdirectories(&entries);
                self.groups = VecDeque::new();
                assert(texts(self.groups@) =~= Seq::empty());
                Some(self.proceed())
            },
            (Phase::ListingCategory, Event::Listed(entries)) => {
                self.groups = subdirectories(&entries);
                Some(self.proceed())
            },
            (Phase::Scanning, Event::Scanned(entries)) => {
                match get_oldest_folder(&entries) {
                    Some(path) => {
                        let line: String = join("Deleting folder: ", path.as_str());
                        self.phase = Phase::Condemning;
                        self.subject = path;
                        Some(Action::Log(line))
                    },
                    None => {
                        let line: String = join("No subfolders found in: ", self.subject.as_str());
                        self.phase = Phase::Reporting;
                        Some(Action::Log(line))
                    },
                }
            },
            (Phase::Condemning, Event::Done) => {
                self.phase = Phase::Deleting;
                Some(Action::Delete(self.subject.clone()))
            },
            (Phase::Deleting, Event::Done) => Some(self.proceed()),
            (Phase::Reporting, Event::Done) => Some(self.proceed()),
            _ => None,
        }
    }
}

} // verus!
