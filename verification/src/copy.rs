//! Copying a directory tree: which filesystem operation comes next, and
//! what its outcome means for the run. Directories are created before their
//! contents, entries are taken in the order in which they are listed, and a
//! subdirectory is copied in full before the next entry of its parent.

use crate::error::{IoFailure, IoFailureView};
use crate::integrate::{CopyJob, CopyJobView};
use crate::path::{joined, path_join};
use vstd::prelude::*;

verus! {

/// The filesystem operation that a copy waits for.
#[derive(Debug, Clone, PartialEq, Eq)]
pub enum CopyStep {
    /// Create the directory `path` and the directories above it that are
    /// missing.
    CreateDir { path: String },
    /// Open the directory `path` for listing.
    OpenDir { path: String },
    /// Read the next entry of the directory that was opened last and is not
    /// yet at its end.
    NextEntry,
    /// Copy the file `from` to `to`, replacing what is there.
    CopyFile { from: String, to: String },
}

/// A `CopyStep` as plain text.
pub enum CopyStepView {
    CreateDir { path: Seq<char> },
    OpenDir { path: Seq<char> },
    NextEntry,
    CopyFile { from: Seq<char>, to: Seq<char> },
}

impl View for CopyStep {
    type V = CopyStepView;

    open spec fn view(&self) -> CopyStepView {
        match self {
            CopyStep::CreateDir { path } => CopyStepView::CreateDir { path: path@ },
            CopyStep::OpenDir { path } => CopyStepView::OpenDir { path: path@ },
            CopyStep::NextEntry => CopyStepView::NextEntry,
            CopyStep::CopyFile { from, to } => CopyStepView::CopyFile { from: from@, to: to@ },
        }
    }
}

/// What the filesystem answered to a step.
#[derive(Debug, Clone, PartialEq, Eq)]
pub enum CopyReply {
    /// The directory was created or opened, or the file was copied.
    Done,
    /// The next entry of the directory: its name, and whether it is a
    /// directory itself.
    Entry { name: String, is_dir: bool },
    /// The directory has no further entry.
    EndOfDirectory,
    /// The operation failed.
    Failed { failure: IoFailure },
}

/// A `CopyReply` as plain values.
pub enum CopyReplyView {
    Done,
    Entry { name: Seq<char>, is_dir: bool },
    EndOfDirectory,
    Failed { failure: IoFailureView },
}

impl View for CopyReply {
    type V = CopyReplyView;

    open spec fn view(&self) -> CopyReplyView {
        match self {
            CopyReply::Done => CopyReplyView::Done,
            CopyReply::Entry { name, is_dir } => CopyReplyView::Entry {
                name: name@,
                is_dir: *is_dir,
            },
            CopyReply::EndOfDirectory => CopyReplyView::EndOfDirectory,
            CopyReply::Failed { failure } => CopyReplyView::Failed { failure: failure@ },
        }
    }
}

/// The copy of a directory tree, in progress or at its end. While it is
/// `Running`, `step` is to be performed and the answer handed to `advance`;
/// `stack` holds the directories whose copy has begun and not ended, the
/// innermost last.
#[derive(Debug, Clone, PartialEq, Eq)]
pub enum CopyRun {
    Running { stack: Vec<CopyJob>, step: CopyStep },
    Succeeded,
    Failed { failure: IoFailure },
}

/// A `CopyRun` as plain values.
pub enum CopyRunView {
    Running { stack: Seq<CopyJobView>, step: CopyStepView },
    Succeeded,
    Failed { failure: IoFailureView },
}

/// A stack of directories as plain text, in the same order.
pub open spec fn stack_view(stack: Seq<CopyJob>) -> Seq<CopyJobView> {
    stack.map_values(|job: CopyJob| job@)
}

impl View for CopyRun {
    type V = CopyRunView;

    open spec fn view(&self) -> CopyRunView {
        match self {
            CopyRun::Running { stack, step } => CopyRunView::Running {
                stack: stack_view(stack@),
                step: step@,
            },
            CopyRun::Succeeded => CopyRunView::Succeeded,
            CopyRun::Failed { failure } => CopyRunView::Failed { failure: failure@ },
        }
    }
}

/// The copy of the entry `name` of a directory that is copied as `parent`
/// says: from its place under the parent's source to the same name under
/// the parent's destination.
pub open spec fn child_job(parent: CopyJobView, name: Seq<char>) -> CopyJobView {
    CopyJobView {
        source: joined(parent.source, name),
        destination: joined(parent.destination, name),
    }
}

/// Where the copy of `job` begins: the destination directory is created
/// first.
pub open spec fn copy_begin(job: CopyJobView) -> CopyRunView {
    CopyRunView::Running {
        stack: seq![job],
        step: CopyStepView::CreateDir { path: job.destination },
    }
}

/// Where a running copy goes when `reply` is no failure and `stack` is not
/// empty. After a directory is created it is opened, and then read entry by
/// entry. A file is copied to the same name under the destination; for a
/// directory the same begins one level down. At the end of a directory the
/// copy returns to the directory above, or has succeeded where there is
/// none. A reply that does not answer `step` changes nothing.
pub open spec fn copy_answer(
    stack: Seq<CopyJobView>,
    step: CopyStepView,
    reply: CopyReplyView,
) -> CopyRunView
    recommends
        stack.len() > 0,
{
    let top = stack.last();
    match (step, reply) {
        (CopyStepView::CreateDir { .. }, CopyReplyView::Done) => CopyRunView::Running {
            stack,
            step: CopyStepView::OpenDir { path: top.source },
        },
        (CopyStepView::OpenDir { .. }, CopyReplyView::Done) => CopyRunView::Running {
            stack,
            step: CopyStepView::NextEntry,
        },
        (CopyStepView::NextEntry, CopyReplyView::Entry { name, is_dir }) => {
            let child = child_job(top, name);
            if is_dir {
                CopyRunView::Running {
                    stack: stack.push(child),
                    step: CopyStepView::CreateDir { path: child.destination },
                }
            } else {
                CopyRunView::Running {
                    stack,
                    step: CopyStepView::CopyFile { from: child.source, to: child.destination },
                }
            }
        },
        (CopyStepView::NextEntry, CopyReplyView::EndOfDirectory) => {
            if stack.len() == 1 {
                CopyRunView::Succeeded
            } else {
                CopyRunView::Running { stack: stack.drop_last(), step: CopyStepView::NextEntry }
            }
        },
        (CopyStepView::CopyFile { .. }, CopyReplyView::Done) => CopyRunView::Running {
            stack,
            step: CopyStepView::NextEntry,
        },
        _ => CopyRunView::Running { stack, step },
    }
}

/// Where a copy goes from `state` on the answer to the step that `state`
/// asked for. Any failure ends the copy at once. A run at its end stays as
/// it is, and one with no directory left to copy has succeeded.
pub open spec fn copy_advance(state: CopyRunView, reply: CopyReplyView) -> CopyRunView {
    match state {
        CopyRunView::Running { stack, step } => match reply {
            CopyReplyView::Failed { failure } => CopyRunView::Failed { failure },
            _ => if stack.len() == 0 {
                CopyRunView::Succeeded
            } else {
                copy_answer(stack, step, reply)
            },
        },
        _ => state,
    }
}

impl CopyRun {
    /// Begins to copy the tree of `job`.
    pub fn begin(job: CopyJob) -> (run: CopyRun)
        ensures
            run@ == copy_begin(job@),
    {
        let path = job.destination.clone();
        let mut stack = Vec::new();
        stack.push(job);
        assert(stack_view(stack@) =~= seq![job@]);
        CopyRun::Running { stack, step: CopyStep::CreateDir { path } }
    }

    /// Takes the answer to the step that `self` asked for and says what
    /// comes next.
    pub fn advance(self, reply: CopyReply) -> (next: CopyRun)
        ensures
            next@ == copy_advance(self@, reply@),
    {
        match self {
            CopyRun::Running { stack, step } => match reply {
                CopyReply::Failed { failure } => CopyRun::Failed { failure },
                reply => {
                    if stack.len() == 0 {
                        CopyRun::Succeeded
                    } else {
                        Self::answer(stack, step, reply)
                    }
                },
            },
            CopyRun::Succeeded => CopyRun::Succeeded,
            CopyRun::Failed { failure } => CopyRun::Failed { failure },
        }
    }

    fn answer(stack: Vec<CopyJob>, step: CopyStep, reply: CopyReply) -> (next: CopyRun)
        requires
            stack.len() > 0,
            !(reply is Failed),
        ensures
            next@ == copy_answer(stack_view(stack@), step@, reply@),
    {
        let mut stack = stack;
        let ghost before = stack@;
        let last = stack.len() - 1;
        match (step, reply) {
            (CopyStep::CreateDir { .. }, CopyReply::Done) => {
                let path = stack[last].source.clone();
                CopyRun::Running { stack, step: CopyStep::OpenDir { path } }
            },
            (CopyStep::OpenDir { .. }, CopyReply::Done) => CopyRun::Running {
                stack,
                step: CopyStep::NextEntry,
            },
            (CopyStep::NextEntry, CopyReply::Entry { name, is_dir }) => {
                let source = path_join(stack[last].source.as_str(), name.as_str());
                let destination = path_join(stack[last].destination.as_str(), name.as_str());
                if is_dir {
                    let path = destination.clone();
                    let child = CopyJob { source, destination };
                    stack.push(child);
                    assert(stack_view(stack@) =~= stack_view(before).push(child@));
                    CopyRun::Running { stack, step: CopyStep::CreateDir { path } }
                } else {
                    CopyRun::Running {
                        stack,
                        step: CopyStep::CopyFile { from: source, to: destination },
                    }
                }
            },
            (CopyStep::NextEntry, CopyReply::EndOfDirectory) => {
                if stack.len() == 1 {
                    CopyRun::Succeeded
                } else {
                    stack.pop();
                    assert(stack_view(stack@) =~= stack_view(before).drop_last());
                    CopyRun::Running { stack, step: CopyStep::NextEntry }
                }
            },
            (CopyStep::CopyFile { .. }, CopyReply::Done) => CopyRun::Running {
                stack,
                step: CopyStep::NextEntry,
            },
            (step, _) => CopyRun::Running { stack, step },
        }
    }
}

} // verus!
