//! Removing everything that was installed: which directory to remove next,
//! and what a removal's outcome means for the run.

use crate::error::{outcome_view, IoErrorKind, IoFailure, IoFailureView};
use crate::installation::{mods_root, pak_mods_root, DBSZInstallation};
use crate::path::parent_of;
use vstd::prelude::*;
use vstd::string::StringExecFns;

verus! {

/// Why an uninstall failed.
#[derive(Debug, Clone, PartialEq, Eq)]
pub enum UninstallError {
    /// The given path does not lead to a game installation.
    InstallationNotFound { path: String },
    /// The directory `path` is there and could not be removed.
    RemoveFailed { path: String, source: IoFailure },
}

/// An `UninstallError` as plain values.
pub enum UninstallErrorView {
    InstallationNotFound { path: Seq<char> },
    RemoveFailed { path: Seq<char>, source: IoFailureView },
}

impl UninstallErrorView {
    /// The message that the failure is reported with; a failed removal names
    /// the path that could not be removed.
    pub open spec fn message(self) -> Seq<char> {
        match self {
            UninstallErrorView::InstallationNotFound { .. } => "failed to get DBSZ installation"@,
            UninstallErrorView::RemoveFailed { path, .. } => "failed to remove "@ + path,
        }
    }
}

impl View for UninstallError {
    type V = UninstallErrorView;

    open spec fn view(&self) -> UninstallErrorView {
        match self {
            UninstallError::InstallationNotFound { path } => {
                UninstallErrorView::InstallationNotFound { path: path@ }
            },
            UninstallError::RemoveFailed { path, source } => UninstallErrorView::RemoveFailed {
                path: path@,
                source: source@,
            },
        }
    }
}

impl UninstallError {
    /// Renders the failure.
    pub fn message(&self) -> (text: String)
        ensures
            text@ == self@.message(),
    {
        match self {
            UninstallError::InstallationNotFound { .. } => String::from_str(
                "failed to get DBSZ installation",
            ),
            UninstallError::RemoveFailed { path, .. } => {
                let mut text = String::from_str("failed to remove ");
                text.append(path.as_str());
                text
            },
        }
    }
}

/// Which of the managed directories a removal is for.
#[derive(Debug, Copy, Clone, PartialEq, Eq, Structural)]
pub enum ManagedDirectory {
    /// The directory of plugin mods.
    Mods,
    /// The directory of pak mods.
    PakMods,
}

/// An uninstall in progress or at its end. While it is `Removing`, the
/// directory `path` is to be removed with all its contents, and the outcome
/// handed to `advance`.
#[derive(Debug)]
pub enum Uninstall {
    Removing { installation: DBSZInstallation, directory: ManagedDirectory, path: String },
    Succeeded,
    Failed { error: UninstallError },
}

/// An `Uninstall` as plain values.
pub enum UninstallView {
    Removing { root: Seq<char>, directory: ManagedDirectory, path: Seq<char> },
    Succeeded,
    Failed { error: UninstallErrorView },
}

impl View for Uninstall {
    type V = UninstallView;

    open spec fn view(&self) -> UninstallView {
        match self {
            Uninstall::Removing { installation, directory, path } => UninstallView::Removing {
                root: installation@,
                directory: *directory,
                path: path@,
            },
            Uninstall::Succeeded => UninstallView::Succeeded,
            Uninstall::Failed { error } => UninstallView::Failed { error: error@ },
        }
    }
}

/// Whether a removal left nothing behind: it succeeded, or there was nothing
/// to remove.
pub open spec fn nothing_left(outcome: Result<(), IoFailureView>) -> bool {
    match outcome {
        Ok(()) => true,
        Err(failure) => failure.kind == IoErrorKind::NotFound,
    }
}

/// Where the uninstall from the installation at `root` begins: with the
/// removal of the plugin directory.
pub open spec fn uninstall_at(root: Seq<char>) -> UninstallView {
    UninstallView::Removing { root, directory: ManagedDirectory::Mods, path: mods_root(root) }
}

/// Where an uninstall for the game at `path_pak` begins: at the game's
/// installation, or failed where the path leads to none.
pub open spec fn uninstall_begin(path_pak: Seq<char>) -> UninstallView {
    match parent_of(path_pak) {
        Some(root) => uninstall_at(root),
        None => UninstallView::Failed {
            error: UninstallErrorView::InstallationNotFound { path: path_pak },
        },
    }
}

/// Where an uninstall goes from `state` on the outcome of the removal that
/// `state` asked for. A directory that was not there counts as removed; any
/// other failure ends the run with the path that could not be removed. A run
/// at its end stays as it is.
pub open spec fn uninstall_advance(
    state: UninstallView,
    outcome: Result<(), IoFailureView>,
) -> UninstallView {
    match state {
        UninstallView::Removing { root, directory, path } => {
            if nothing_left(outcome) {
                match directory {
                    ManagedDirectory::Mods => UninstallView::Removing {
                        root,
                        directory: ManagedDirectory::PakMods,
                        path: pak_mods_root(root),
                    },
                    ManagedDirectory::PakMods => UninstallView::Succeeded,
                }
            } else {
                UninstallView::Failed {
                    error: UninstallErrorView::RemoveFailed { path, source: outcome->Err_0 },
                }
            }
        },
        _ => state,
    }
}

/// Where an uninstall that began at `state` stands after the removals it
/// asked for came out as `outcomes`, in order.
pub open spec fn uninstall_run(
    state: UninstallView,
    outcomes: Seq<Result<(), IoFailureView>>,
) -> UninstallView
    decreases outcomes.len(),
{
    if outcomes.len() == 0 {
        state
    } else {
        uninstall_run(uninstall_advance(state, outcomes[0]), outcomes.drop_first())
    }
}

impl Uninstall {
    /// Begins to uninstall from the game at `path_pak`.
    pub fn begin(path_pak: &str) -> (run: Uninstall)
        ensures
            run@ == uninstall_begin(path_pak@),
    {
        match DBSZInstallation::from_game_path(path_pak) {
            Ok(installation) => {
                let path = installation.mods_path();
                Uninstall::Removing { installation, directory: ManagedDirectory::Mods, path }
            },
            Err(e) => Uninstall::Failed {
                error: UninstallError::InstallationNotFound { path: e.path },
            },
        }
    }

    /// Takes the outcome of the removal that `self` asked for and says what
    /// comes next.
    pub fn advance(self, outcome: Result<(), IoFailure>) -> (next: Uninstall)
        ensures
            next@ == uninstall_advance(self@, outcome_view(outcome)),
    {
        match self {
            Uninstall::Removing { installation, directory, path } => {
                let failure = match outcome {
                    Ok(()) => None,
                    Err(failure) => match failure.kind {
                        IoErrorKind::NotFound => None,
                        IoErrorKind::Other => Some(failure),
                    },
                };
                match failure {
                    Some(source) => Uninstall::Failed {
                        error: UninstallError::RemoveFailed { path, source },
                    },
                    None => match directory {
                        ManagedDirectory::Mods => {
                            let path = installation.pak_mods_path();
                            Uninstall::Removing {
                                installation,
                                directory: ManagedDirectory::PakMods,
                                path,
                            }
                        },
                        ManagedDirectory::PakMods => Uninstall::Succeeded,
                    },
                }
            },
            Uninstall::Succeeded => Uninstall::Succeeded,
            Uninstall::Failed { error } => Uninstall::Failed { error },
        }
    }
}

/// An uninstall succeeds exactly when each of its two removals either
/// succeeds or finds nothing to remove; so it succeeds where nothing was
/// installed, and when it is run again after it has succeeded. Otherwise it
/// fails with the first removal that failed and the path of that removal.
pub proof fn lemma_uninstall_outcome(
    root: Seq<char>,
    first: Result<(), IoFailureView>,
    second: Result<(), IoFailureView>,
)
    ensures
        uninstall_run(uninstall_at(root), seq![first, second]) == if !nothing_left(first) {
            UninstallView::Failed {
                error: UninstallErrorView::RemoveFailed {
                    path: mods_root(root),
                    source: first->Err_0,
                },
            }
        } else if !nothing_left(second) {
            UninstallView::Failed {
                error: UninstallErrorView::RemoveFailed {
                    path: pak_mods_root(root),
                    source: second->Err_0,
                },
            }
        } else {
            UninstallView::Succeeded
        },
{
    let none = Seq::<Result<(), IoFailureView>>::empty();
    let outcomes = seq![first, second];
    let after_first = uninstall_advance(uninstall_at(root), first);
    let after_second = uninstall_advance(after_first, second);
    assert(outcomes.drop_first() =~= seq![second]);
    assert(seq![second].drop_first() =~= none);
    assert(uninstall_run(after_second, none) == after_second);
    assert(uninstall_run(after_first, seq![second]) == after_second);
}

} // verus!
