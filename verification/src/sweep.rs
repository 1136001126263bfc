//! What a sweep amounts to. Driven on a tree that answers every listing and
//! every scan, the cleanup loop asks for exactly what a walk over the
//! categories and their item groups asks for, and then for a new probe.

use vstd::prelude::*;
use crate::cleanup::{
    deleting_line, empty_line, proceed, react, sweep_line, ActionView, CleanupView, EventView, Phase,
};
use crate::listing::{subdirectory_paths, ListedEntry};
use crate::oldest::{oldest_path, DirectoryEntry};

verus! {

/// A directory tree as the driver finds it during one sweep: what listing a
/// directory gives and what scanning it gives. A directory that is asked
/// twice within the sweep is taken to answer the same both times.
pub ghost struct Tree {
    pub listing: spec_fn(Seq<char>) -> Seq<ListedEntry>,
    pub scan: spec_fn(Seq<char>) -> Seq<DirectoryEntry>,
}

/// What the driver answers to `action` on `tree`. A probe and the end of
/// the loop are not answered here: a sweep ends where the loop asks for
/// either.
pub open spec fn answer(tree: Tree, action: ActionView) -> Option<EventView> {
    match action {
        ActionView::Log(_) => Some(EventView::Done),
        ActionView::Delete(_) => Some(EventView::Done),
        ActionView::List(path) => Some(EventView::Listed((tree.listing)(path))),
        ActionView::Scan(path) => Some(EventView::Scanned((tree.scan)(path))),
        ActionView::Probe => None,
        ActionView::Stop => None,
    }
}

/// The state of the loop and what it asks for after `rounds` of its actions
/// were answered on `tree`, beginning with `action` asked in `state`.
pub open spec fn after(tree: Tree, state: CleanupView, action: ActionView, rounds: nat) -> (
    CleanupView,
    ActionView,
)
    decreases rounds,
{
    if rounds == 0 {
        (state, action)
    } else {
        match answer(tree, action) {
            Some(event) => match react(state, event) {
                Some((next, then)) => after(tree, next, then, (rounds - 1) as nat),
                None => (state, action),
            },
            None => (state, action),
        }
    }
}

/// The actions that were answered in those `rounds`, in order.
pub open spec fn asked(tree: Tree, state: CleanupView, action: ActionView, rounds: nat) -> Seq<
    ActionView,
>
    decreases rounds,
{
    if rounds == 0 {
        Seq::empty()
    } else {
        match answer(tree, action) {
            Some(event) => match react(state, event) {
                Some((next, then)) => seq![action] + asked(tree, next, then, (rounds - 1) as nat),
                None => Seq::empty(),
            },
            None => Seq::empty(),
        }
    }
}

/// What is asked for one item group: a scan, and then either the removal of
/// its oldest folder, named in the log first, or a line that it has none.
pub open spec fn group_walk(tree: Tree, group: Seq<char>) -> Seq<ActionView> {
    match oldest_path((tree.scan)(group)) {
        Some(path) => seq![
            ActionView::Scan(group),
            ActionView::Log(deleting_line(path)),
            ActionView::Delete(path),
        ],
        None => seq![ActionView::Scan(group), ActionView::Log(empty_line(group))],
    }
}

/// What is asked for `groups`, one after the other.
pub open spec fn groups_walk(tree: Tree, groups: Seq<Seq<char>>) -> Seq<ActionView>
    decreases groups.len(),
{
    if groups.len() == 0 {
        Seq::empty()
    } else {
        group_walk(tree, groups[0]) + groups_walk(tree, groups.drop_first())
    }
}

/// What is asked for one category: its listing, and then what is asked for
/// the item groups that the listing shows.
pub open spec fn category_walk(tree: Tree, category: Seq<char>) -> Seq<ActionView> {
    seq![ActionView::List(category)] + groups_walk(
        tree,
        subdirectory_paths((tree.listing)(category)),
    )
}

/// What is asked for `categories`, one after the other.
pub open spec fn categories_walk(tree: Tree, categories: Seq<Seq<char>>) -> Seq<ActionView>
    decreases categories.len(),
{
    if categories.len() == 0 {
        Seq::empty()
    } else {
        category_walk(tree, categories[0]) + categories_walk(tree, categories.drop_first())
    }
}

/// What is asked in one sweep of the tree under `base_dir`: the opening line,
/// the listing of the base directory, and then what is asked for the
/// categories that the listing shows.
pub open spec fn sweep_walk(tree: Tree, base_dir: Seq<char>) -> Seq<ActionView> {
    seq![ActionView::Log(sweep_line()), ActionView::List(base_dir)] + categories_walk(
        tree,
        subdirectory_paths((tree.listing)(base_dir)),
    )
}

/// Rounds add up: what is asked in `first + second` rounds is what is asked
/// in the first and then in the second, provided the first were all answered.
proof fn lemma_rounds_add_up(
    tree: Tree,
    state: CleanupView,
    action: ActionView,
    first: nat,
    second: nat,
)
    requires
        asked(tree, state, action, first).len() == first,
    ensures
        after(tree, state, action, first + second) == after(
            tree,
            after(tree, state, action, first).0,
            after(tree, state, action, first).1,
            second,
        ),
        asked(tree, state, action, first + second) == asked(tree, state, action, first) + asked(
            tree,
            after(tree, state, action, first).0,
            after(tree, state, action, first).1,
            second,
        ),
    decreases first,
{
    if first == 0 {
        assert(asked(tree, state, action, first + second) == Seq::<ActionView>::empty() + asked(
            tree,
            state,
            action,
            second,
        ));
    } else {
        let event = answer(tree, action)->0;
        let (next, then) = react(state, event)->0;
        lemma_rounds_add_up(tree, next, then, (first - 1) as nat, second);
        assert(((first + second) - 1) as nat == (first - 1) as nat + second);
        assert(asked(tree, state, action, first + second) == seq![action] + (asked(
            tree,
            next,
            then,
            (first - 1) as nat,
        ) + asked(
            tree,
            after(tree, next, then, (first - 1) as nat).0,
            after(tree, next, then, (first - 1) as nat).1,
            second,
        )));
    }
}

/// What remains of a sweep is asked for in order: what the item groups still
/// pending ask for, then what the categories still pending ask for, and
/// then a probe.
proof fn lemma_rest_of_sweep(tree: Tree, state: CleanupView)
    ensures
        ({
            let rest = groups_walk(tree, state.groups) + categories_walk(tree, state.categories);
            let (next, then) = proceed(state);
            &&& asked(tree, next, then, rest.len()) == rest
            &&& after(tree, next, then, rest.len()).1 == ActionView::Probe
            &&& after(tree, next, then, rest.len()).0.phase == Phase::Probing
            &&& after(tree, next, then, rest.len()).0.base_dir == state.base_dir
        }),
    decreases state.categories.len(), state.groups.len(),
{
    let rest = groups_walk(tree, state.groups) + categories_walk(tree, state.categories);
    let (next, then) = proceed(state);
    if state.groups.len() > 0 {
        let group = state.groups[0];
        let ahead = groups_walk(tree, state.groups.drop_first()) + categories_walk(
            tree,
            state.categories,
        );
        assert(rest == group_walk(tree, group) + ahead);
        match oldest_path((tree.scan)(group)) {
            Some(path) => {
                let condemning = CleanupView { phase: Phase::Condemning, subject: path, ..next };
                let deleting = CleanupView { phase: Phase::Deleting, ..condemning };
                lemma_rest_of_sweep(tree, deleting);
                assert(asked(tree, next, then, 3) == group_walk(tree, group) && after(
                    tree,
                    next,
                    then,
                    3,
                ) == proceed(deleting)) by {
                    reveal_with_fuel(asked, 4);
                    reveal_with_fuel(after, 4);
                }
                lemma_rounds_add_up(tree, next, then, 3, ahead.len());
            },
            None => {
                let reporting = CleanupView { phase: Phase::Reporting, ..next };
                lemma_rest_of_sweep(tree, reporting);
                assert(asked(tree, next, then, 2) == group_walk(tree, group) && after(
                    tree,
                    next,
                    then,
                    2,
                ) == proceed(reporting)) by {
                    reveal_with_fuel(asked, 3);
                    reveal_with_fuel(after, 3);
                }
                lemma_rounds_add_up(tree, next, then, 2, ahead.len());
            },
        }
    } else if state.categories.len() > 0 {
        let category = state.categories[0];
        let groups = subdirectory_paths((tree.listing)(category));
        let listed = CleanupView { groups, ..next };
        let ahead = groups_walk(tree, groups) + categories_walk(
            tree,
            state.categories.drop_first(),
        );
        assert(rest == seq![ActionView::List(category)] + ahead);
        lemma_rest_of_sweep(tree, listed);
        assert(asked(tree, next, then, 1) == seq![ActionView::List(category)] && after(
            tree,
            next,
            then,
            1,
        ) == proceed(listed)) by {
            reveal_with_fuel(asked, 2);
            reveal_with_fuel(after, 2);
        }
        lemma_rounds_add_up(tree, next, then, 1, ahead.len());
    } else {
        assert(rest == Seq::<ActionView>::empty());
    }
}

/// A sweep asks for what a walk over the tree asks for, in that order, and
/// for nothing else: the opening line, the listing of the base directory,
/// then category by category its listing and, item group by item group, the
/// scan and what follows from it. When all of it has been answered, the loop
/// asks for a probe.
pub proof fn lemma_sweep_walks_the_tree(tree: Tree, state: CleanupView)
    requires
        state.phase == Phase::Announcing,
    ensures
        asked(
            tree,
            state,
            ActionView::Log(sweep_line()),
            sweep_walk(tree, state.base_dir).len(),
        ) == sweep_walk(tree, state.base_dir),
        after(
            tree,
            state,
            ActionView::Log(sweep_line()),
            sweep_walk(tree, state.base_dir).len(),
        ).1 == ActionView::Probe,
        after(
            tree,
            state,
            ActionView::Log(sweep_line()),
            sweep_walk(tree, state.base_dir).len(),
        ).0.phase == Phase::Probing,
{
    let first = ActionView::Log(sweep_line());
    let categories = subdirectory_paths((tree.listing)(state.base_dir));
    let listing = CleanupView { phase: Phase::ListingBase, ..state };
    let listed = CleanupView { categories, groups: Seq::empty(), ..listing };
    let ahead = categories_walk(tree, categories);
    lemma_rest_of_sweep(tree, listed);
    assert(groups_walk(tree, listed.groups) + ahead == ahead);
    assert(asked(tree, state, first, 2) == seq![first, ActionView::List(state.base_dir)] && after(
        tree,
        state,
        first,
        2,
    ) == proceed(listed)) by {
        reveal_with_fuel(asked, 3);
        reveal_with_fuel(after, 3);
    }
    lemma_rounds_add_up(tree, state, first, 2, ahead.len());
}

} // verus!
