//! What the copy of a directory does as a whole: for a source tree of any
//! shape, the operations it asks for, in order, when none of them fails.

use crate::copy::{
    child_job, copy_advance, copy_begin, CopyReplyView, CopyRunView, CopyStepView,
};
use crate::error::IoFailureView;
use crate::integrate::{copy_job, mod_destination, CopyJobView};
use crate::mod_info::ModInfoView;
use crate::path::joined;
use vstd::prelude::*;

verus! {

/// An entry of a directory by its name: a file, or a directory with its own
/// entries in the order in which they are listed.
pub enum TreeEntry {
    File { name: Seq<char> },
    Directory { name: Seq<char>, entries: Seq<TreeEntry> },
}

/// What the filesystem answers while the entries `entries[from..]` of a
/// directory are read and copied, when nothing fails: for a file its entry
/// and that it was copied; for a directory its entry, that its copy was
/// created and that it was opened, and then the same for what it holds; at
/// last the end of the directory.
pub open spec fn listing_replies(entries: Seq<TreeEntry>, from: int) -> Seq<CopyReplyView>
    decreases entries, entries.len() - from,
{
    if from < 0 || from >= entries.len() {
        seq![CopyReplyView::EndOfDirectory]
    } else {
        match entries[from] {
            TreeEntry::File { name } => seq![
                CopyReplyView::Entry { name, is_dir: false },
                CopyReplyView::Done,
            ] + listing_replies(entries, from + 1),
            TreeEntry::Directory { name, entries: inner } => seq![
                CopyReplyView::Entry { name, is_dir: true },
                CopyReplyView::Done,
                CopyReplyView::Done,
            ] + listing_replies(inner, 0) + listing_replies(entries, from + 1),
        }
    }
}

/// What the filesystem answers during the copy of a directory that holds
/// `entries`, when nothing fails.
pub open spec fn tree_replies(entries: Seq<TreeEntry>) -> Seq<CopyReplyView> {
    seq![CopyReplyView::Done, CopyReplyView::Done] + listing_replies(entries, 0)
}

/// The operations that copy the entries `entries[from..]` of the directory
/// that is copied as `job` says: each entry is read and then copied to the
/// same name under the destination, a directory with all that it holds
/// before the entry after it.
pub open spec fn listing_steps(job: CopyJobView, entries: Seq<TreeEntry>, from: int) -> Seq<
    CopyStepView,
>
    decreases entries, entries.len() - from,
{
    if from < 0 || from >= entries.len() {
        seq![CopyStepView::NextEntry]
    } else {
        match entries[from] {
            TreeEntry::File { name } => seq![
                CopyStepView::NextEntry,
                CopyStepView::CopyFile {
                    from: child_job(job, name).source,
                    to: child_job(job, name).destination,
                },
            ] + listing_steps(job, entries, from + 1),
            TreeEntry::Directory { name, entries: inner } => seq![
                CopyStepView::NextEntry,
                CopyStepView::CreateDir { path: child_job(job, name).destination },
                CopyStepView::OpenDir { path: child_job(job, name).source },
            ] + listing_steps(child_job(job, name), inner, 0) + listing_steps(
                job,
                entries,
                from + 1,
            ),
        }
    }
}

/// The operations that copy a directory that holds `entries` as `job` says.
pub open spec fn tree_steps(job: CopyJobView, entries: Seq<TreeEntry>) -> Seq<CopyStepView> {
    seq![
        CopyStepView::CreateDir { path: job.destination },
        CopyStepView::OpenDir { path: job.source },
    ] + listing_steps(job, entries, 0)
}

/// Where a copy that began at `state` stands after its steps were answered
/// with `replies`, in order.
pub open spec fn copy_run(state: CopyRunView, replies: Seq<CopyReplyView>) -> CopyRunView
    decreases replies.len(),
{
    if replies.len() == 0 {
        state
    } else {
        copy_run(copy_advance(state, replies[0]), replies.drop_first())
    }
}

/// The step that `state` asks for, if it asks for one.
pub open spec fn pending_step(state: CopyRunView) -> Seq<CopyStepView> {
    match state {
        CopyRunView::Running { step, .. } => seq![step],
        _ => Seq::empty(),
    }
}

/// The steps that a copy asks for, one after the other, while it goes from
/// `state` through `replies`.
pub open spec fn copy_steps(state: CopyRunView, replies: Seq<CopyReplyView>) -> Seq<CopyStepView>
    decreases replies.len(),
{
    if replies.len() == 0 {
        Seq::empty()
    } else {
        pending_step(state) + copy_steps(copy_advance(state, replies[0]), replies.drop_first())
    }
}

/// A run through two lists of replies is the run through the first and,
/// from where that ends, the run through the second.
pub proof fn lemma_copy_run_concat(
    state: CopyRunView,
    first: Seq<CopyReplyView>,
    second: Seq<CopyReplyView>,
)
    ensures
        copy_run(state, first + second) == copy_run(copy_run(state, first), second),
        copy_steps(state, first + second) == copy_steps(state, first) + copy_steps(
            copy_run(state, first),
            second,
        ),
    decreases first.len(),
{
    if first.len() > 0 {
        let next = copy_advance(state, first[0]);
        assert((first + second).drop_first() =~= first.drop_first() + second);
        lemma_copy_run_concat(next, first.drop_first(), second);
    }
}

/// A copy that has failed stays as it is and asks for nothing further,
/// whatever is reported to it.
pub proof fn lemma_copy_failed_stays(failure: IoFailureView, replies: Seq<CopyReplyView>)
    ensures
        copy_run(CopyRunView::Failed { failure }, replies) == (CopyRunView::Failed { failure }),
        copy_steps(CopyRunView::Failed { failure }, replies) == Seq::<CopyStepView>::empty(),
    decreases replies.len(),
{
    if replies.len() > 0 {
        lemma_copy_failed_stays(failure, replies.drop_first());
    }
}

/// The first failure ends a copy at once: the step that failed is the last
/// one asked for, and the copy has failed with that step's failure whatever
/// is reported after it.
pub proof fn lemma_copy_stops_at_first_failure(
    state: CopyRunView,
    before: Seq<CopyReplyView>,
    failure: IoFailureView,
    after: Seq<CopyReplyView>,
)
    requires
        copy_run(state, before) is Running,
    ensures
        copy_run(state, before + seq![CopyReplyView::Failed { failure }] + after) == (
        CopyRunView::Failed { failure }),
        copy_steps(state, before + seq![CopyReplyView::Failed { failure }] + after) == copy_steps(
            state,
            before,
        ) + pending_step(copy_run(state, before)),
{
    let failing = seq![CopyReplyView::Failed { failure }];
    let reached = copy_run(state, before);
    let failed = CopyRunView::Failed { failure };
    let none = Seq::<CopyReplyView>::empty();
    assert(failing.drop_first() =~= none);
    assert(copy_run(failed, none) == failed);
    assert(copy_steps(failed, none) == Seq::<CopyStepView>::empty());
    lemma_copy_run_concat(state, before, failing);
    lemma_copy_run_concat(state, before + failing, after);
    lemma_copy_failed_stays(failure, after);
}

/// Where a copy stands when the directory on top of `stack` is at its end:
/// back in the directory above, or succeeded where there is none.
pub open spec fn after_directory(stack: Seq<CopyJobView>) -> CopyRunView {
    if stack.len() == 1 {
        CopyRunView::Succeeded
    } else {
        CopyRunView::Running { stack: stack.drop_last(), step: CopyStepView::NextEntry }
    }
}

/// A copy that is about to read entry `from` of the directory on top of
/// its stack, and is answered as a directory with `entries` answers when
/// nothing fails, asks for the steps that copy those entries and ends where
/// that directory is at its end.
pub proof fn lemma_copy_follows_listing(
    stack: Seq<CopyJobView>,
    entries: Seq<TreeEntry>,
    from: int,
)
    requires
        stack.len() > 0,
        0 <= from <= entries.len(),
    ensures
        copy_run(
            CopyRunView::Running { stack, step: CopyStepView::NextEntry },
            listing_replies(entries, from),
        ) == after_directory(stack),
        copy_steps(
            CopyRunView::Running { stack, step: CopyStepView::NextEntry },
            listing_replies(entries, from),
        ) == listing_steps(stack.last(), entries, from),
    decreases entries, entries.len() - from,
{
    let state = CopyRunView::Running { stack, step: CopyStepView::NextEntry };
    let job = stack.last();
    let none = Seq::<CopyReplyView>::empty();
    if from >= entries.len() {
        // The end of the directory is the one reply that is left.
        let replies = seq![CopyReplyView::EndOfDirectory];
        assert(replies.drop_first() =~= none);
        let end = copy_advance(state, replies[0]);
        assert(copy_run(end, none) == end);
        assert(copy_steps(end, none) == Seq::<CopyStepView>::empty());
    } else {
        let rest = listing_replies(entries, from + 1);
        match entries[from] {
            TreeEntry::File { name } => {
                let head = seq![CopyReplyView::Entry { name, is_dir: false }, CopyReplyView::Done];
                let child = child_job(job, name);
                let copying = CopyRunView::Running {
                    stack,
                    step: CopyStepView::CopyFile { from: child.source, to: child.destination },
                };
                // The entry and its copy lead back to where the run stood.
                assert(head.drop_first().drop_first() =~= none);
                assert(copy_run(state, none) == state);
                assert(copy_run(copying, head.drop_first()) == state);
                assert(copy_steps(state, none) =~= Seq::<CopyStepView>::empty());
                assert(copy_steps(copying, head.drop_first()) =~= seq![
                    CopyStepView::CopyFile { from: child.source, to: child.destination },
                ]);
                lemma_copy_run_concat(state, head, rest);
                lemma_copy_follows_listing(stack, entries, from + 1);
            },
            TreeEntry::Directory { name, entries: inner } => {
                let head = seq![
                    CopyReplyView::Entry { name, is_dir: true },
                    CopyReplyView::Done,
                    CopyReplyView::Done,
                ];
                let child = child_job(job, name);
                let deeper = stack.push(child);
                let creating = CopyRunView::Running {
                    stack: deeper,
                    step: CopyStepView::CreateDir { path: child.destination },
                };
                let opening = CopyRunView::Running {
                    stack: deeper,
                    step: CopyStepView::OpenDir { path: child.source },
                };
                let reading = CopyRunView::Running { stack: deeper, step: CopyStepView::NextEntry };
                // The entry, the new directory and its opening lead one
                // level down.
                let two = head.drop_first();
                let one = two.drop_first();
                assert(one.drop_first() =~= none);
                assert(copy_run(reading, none) == reading);
                assert(copy_run(opening, one) == reading);
                assert(copy_run(creating, two) == reading);
                assert(copy_steps(reading, none) =~= Seq::<CopyStepView>::empty());
                assert(copy_steps(opening, one) =~= seq![
                    CopyStepView::OpenDir { path: child.source },
                ]);
                assert(copy_steps(creating, two) =~= seq![
                    CopyStepView::CreateDir { path: child.destination },
                    CopyStepView::OpenDir { path: child.source },
                ]);
                // What the directory holds leads back up, and the entries
                // after it go on from there.
                let within = listing_replies(inner, 0);
                lemma_copy_run_concat(state, head, within);
                lemma_copy_follows_listing(deeper, inner, 0);
                assert(deeper.drop_last() =~= stack);
                lemma_copy_run_concat(state, head + within, rest);
                lemma_copy_follows_listing(stack, entries, from + 1);
            },
        }
    }
}

/// The copy of a directory, answered as a directory with `entries` answers
/// when nothing fails, asks for exactly the steps that copy the whole tree
/// and then has succeeded.
pub proof fn lemma_copy_follows_tree(job: CopyJobView, entries: Seq<TreeEntry>)
    ensures
        copy_run(copy_begin(job), tree_replies(entries)) == CopyRunView::Succeeded,
        copy_steps(copy_begin(job), tree_replies(entries)) == tree_steps(job, entries),
{
    let stack = seq![job];
    let none = Seq::<CopyReplyView>::empty();
    let head = seq![CopyReplyView::Done, CopyReplyView::Done];
    let opening = CopyRunView::Running { stack, step: CopyStepView::OpenDir { path: job.source } };
    let reading = CopyRunView::Running { stack, step: CopyStepView::NextEntry };
    let one = head.drop_first();
    assert(one.drop_first() =~= none);
    assert(copy_run(reading, none) == reading);
    assert(copy_run(opening, one) == reading);
    assert(copy_steps(reading, none) =~= Seq::<CopyStepView>::empty());
    assert(copy_steps(opening, one) =~= seq![CopyStepView::OpenDir { path: job.source }]);
    lemma_copy_run_concat(copy_begin(job), head, listing_replies(entries, 0));
    lemma_copy_follows_listing(stack, entries, 0);
}

/// The path that is reached from `base` by going down through `names`, one
/// after the other.
pub open spec fn path_under(base: Seq<char>, names: Seq<Seq<char>>) -> Seq<char>
    decreases names.len(),
{
    if names.len() == 0 {
        base
    } else {
        path_under(joined(base, names[0]), names.drop_first())
    }
}

/// Whether `position` leads to a file: its first number is the place of an
/// entry among `entries`, each further number the place of an entry in the
/// directory reached so far, and the last entry reached is a file.
pub open spec fn is_file_at(entries: Seq<TreeEntry>, position: Seq<int>) -> bool
    decreases position.len(),
{
    position.len() > 0 && 0 <= position[0] < entries.len() && match entries[position[0]] {
        TreeEntry::File { .. } => position.len() == 1,
        TreeEntry::Directory { entries: inner, .. } => is_file_at(inner, position.drop_first()),
    }
}

/// The names of the entries that `position` leads through, outermost first:
/// the relative path of the entry that it leads to.
pub open spec fn names_at(entries: Seq<TreeEntry>, position: Seq<int>) -> Seq<Seq<char>>
    decreases position.len(),
{
    if position.len() == 0 || !(0 <= position[0] < entries.len()) {
        Seq::empty()
    } else {
        match entries[position[0]] {
            TreeEntry::File { name } => seq![name],
            TreeEntry::Directory { name, entries: inner } => seq![name] + names_at(
                inner,
                position.drop_first(),
            ),
        }
    }
}

proof fn lemma_contains_in_concat<A>(first: Seq<A>, second: Seq<A>, item: A)
    requires
        first.contains(item) || second.contains(item),
    ensures
        (first + second).contains(item),
{
    if first.contains(item) {
        let i = choose|i: int| 0 <= i < first.len() && first[i] == item;
        assert((first + second)[i] == item);
    } else {
        let i = choose|i: int| 0 <= i < second.len() && second[i] == item;
        assert((first + second)[first.len() + i] == item);
    }
}

/// The steps for the entries from `from` on hold the steps for each single
/// entry `at` among them: the copy of a file, and for a directory every
/// step that copies what it holds.
proof fn lemma_listing_steps_hold_entry(
    job: CopyJobView,
    entries: Seq<TreeEntry>,
    from: int,
    at: int,
    step: CopyStepView,
)
    requires
        0 <= from <= at < entries.len(),
        match entries[at] {
            TreeEntry::File { name } => step == (CopyStepView::CopyFile {
                from: child_job(job, name).source,
                to: child_job(job, name).destination,
            }),
            TreeEntry::Directory { name, entries: inner } => listing_steps(
                child_job(job, name),
                inner,
                0,
            ).contains(step),
        },
    ensures
        listing_steps(job, entries, from).contains(step),
    decreases at - from,
{
    let rest = listing_steps(job, entries, from + 1);
    if from < at {
        lemma_listing_steps_hold_entry(job, entries, from + 1, at, step);
    }
    match entries[from] {
        TreeEntry::File { name } => {
            let head = seq![
                CopyStepView::NextEntry,
                CopyStepView::CopyFile {
                    from: child_job(job, name).source,
                    to: child_job(job, name).destination,
                },
            ];
            lemma_contains_in_concat(head, rest, step);
        },
        TreeEntry::Directory { name, entries: inner } => {
            let head = seq![
                CopyStepView::NextEntry,
                CopyStepView::CreateDir { path: child_job(job, name).destination },
                CopyStepView::OpenDir { path: child_job(job, name).source },
            ];
            let within = listing_steps(child_job(job, name), inner, 0);
            if from == at {
                lemma_contains_in_concat(head, within, step);
            }
            lemma_contains_in_concat(head + within, rest, step);
        },
    }
}

proof fn lemma_listing_copies_every_file(
    job: CopyJobView,
    entries: Seq<TreeEntry>,
    position: Seq<int>,
)
    requires
        is_file_at(entries, position),
    ensures
        listing_steps(job, entries, 0).contains(
            CopyStepView::CopyFile {
                from: path_under(job.source, names_at(entries, position)),
                to: path_under(job.destination, names_at(entries, position)),
            },
        ),
    decreases position.len(),
{
    let names = names_at(entries, position);
    let step = CopyStepView::CopyFile {
        from: path_under(job.source, names),
        to: path_under(job.destination, names),
    };
    let below = names.drop_first();
    match entries[position[0]] {
        TreeEntry::File { name } => {
            assert(path_under(joined(job.source, name), below) == joined(job.source, name));
            assert(path_under(joined(job.destination, name), below) == joined(
                job.destination,
                name,
            ));
        },
        TreeEntry::Directory { name, entries: inner } => {
            assert(below =~= names_at(inner, position.drop_first()));
            lemma_listing_copies_every_file(child_job(job, name), inner, position.drop_first());
        },
    }
    lemma_listing_steps_hold_entry(job, entries, 0, position[0], step);
}

/// Every file of the source tree is copied to the same relative path under
/// the destination: for each file of the tree, given by its position, the
/// steps of the copy hold the copy of that file from its relative path
/// below the source to the same relative path below the destination.
pub proof fn lemma_copy_keeps_relative_paths(
    job: CopyJobView,
    entries: Seq<TreeEntry>,
    position: Seq<int>,
)
    requires
        is_file_at(entries, position),
    ensures
        tree_steps(job, entries).contains(
            CopyStepView::CopyFile {
                from: path_under(job.source, names_at(entries, position)),
                to: path_under(job.destination, names_at(entries, position)),
            },
        ),
{
    let step = CopyStepView::CopyFile {
        from: path_under(job.source, names_at(entries, position)),
        to: path_under(job.destination, names_at(entries, position)),
    };
    lemma_listing_copies_every_file(job, entries, position);
    lemma_contains_in_concat(
        seq![
            CopyStepView::CreateDir { path: job.destination },
            CopyStepView::OpenDir { path: job.source },
        ],
        listing_steps(job, entries, 0),
        step,
    );
}

/// Installing a mod keeps the relative path of each of its files: for each
/// file of the mod's artifact, given by its position, the steps of the
/// copy that installs the mod hold the copy of that file from its relative
/// path below the artifact to the same relative path below the directory
/// that the mod's type and name ask for.
pub proof fn lemma_install_keeps_relative_paths(
    root: Seq<char>,
    mod_info: ModInfoView,
    artifact: Seq<char>,
    entries: Seq<TreeEntry>,
    position: Seq<int>,
)
    requires
        is_file_at(entries, position),
    ensures
        tree_steps(copy_job(root, (mod_info, artifact)), entries).contains(
            CopyStepView::CopyFile {
                from: path_under(artifact, names_at(entries, position)),
                to: path_under(mod_destination(root, mod_info), names_at(entries, position)),
            },
        ),
{
    lemma_copy_keeps_relative_paths(copy_job(root, (mod_info, artifact)), entries, position);
}

} // verus!
