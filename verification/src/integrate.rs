//! Installing resolved mods: where each mod's artifact has to go, in which
//! order the artifacts are copied, and when the run ends.

use crate::error::{
    outcome_view, IntegrationError, IntegrationErrorView, IoFailure, IoFailureView,
};
use crate::installation::{mods_root, pak_mods_root, DBSZInstallation};
use crate::mod_info::{ModInfo, ModInfoView, ModType};
use crate::path::{joined, parent_of, path_join};
use vstd::prelude::*;

verus! {

/// A directory tree to copy: everything under `source` goes under
/// `destination`, at the same relative path.
#[derive(Debug, Clone, PartialEq, Eq)]
pub struct CopyJob {
    pub source: String,
    pub destination: String,
}

/// A `CopyJob` as plain text.
pub struct CopyJobView {
    pub source: Seq<char>,
    pub destination: Seq<char>,
}

impl View for CopyJob {
    type V = CopyJobView;

    open spec fn view(&self) -> CopyJobView {
        CopyJobView { source: self.source@, destination: self.destination@ }
    }
}

/// The directory that a mod is installed to under the base directory
/// `root`: a directory of the mod's name, under the plugin directory for a
/// plugin mod and under the directory of pak mods for a pak mod.
pub open spec fn mod_destination(root: Seq<char>, mod_info: ModInfoView) -> Seq<char> {
    match mod_info.mod_type {
        ModType::ModPlugin => joined(mods_root(root), mod_info.name),
        ModType::Pak => joined(pak_mods_root(root), mod_info.name),
    }
}

/// The copy that installs the mod `entry.0` from its artifact at `entry.1`.
pub open spec fn copy_job(root: Seq<char>, entry: (ModInfoView, Seq<char>)) -> CopyJobView {
    CopyJobView { source: entry.1, destination: mod_destination(root, entry.0) }
}

/// A list of mods with their artifact paths as plain values, in the same
/// order.
pub open spec fn mods_view(mods: Seq<(ModInfo, String)>) -> Seq<(ModInfoView, Seq<char>)> {
    mods.map_values(|entry: (ModInfo, String)| (entry.0@, entry.1@))
}

/// The directory that `mod_info` is installed to.
pub fn destination(installation: &DBSZInstallation, mod_info: &ModInfo) -> (path: String)
    ensures
        path@ == mod_destination(installation@, mod_info@),
{
    match mod_info.mod_type {
        ModType::ModPlugin => path_join(installation.mods_path().as_str(), mod_info.name.as_str()),
        ModType::Pak => path_join(installation.pak_mods_path().as_str(), mod_info.name.as_str()),
    }
}

/// An integration in progress or at its end. While it is `Copying`, the
/// tree of `job` is to be copied for the mod at `index`, and the outcome
/// handed to `advance`.
#[derive(Debug)]
pub enum Integration {
    Copying {
        installation: DBSZInstallation,
        mods: Vec<(ModInfo, String)>,
        index: usize,
        job: CopyJob,
    },
    /// Every mod was installed; `installed` is their number.
    Succeeded { installed: usize },
    Failed { error: IntegrationError },
}

/// An `Integration` as plain values.
pub enum IntegrationView {
    Copying {
        root: Seq<char>,
        mods: Seq<(ModInfoView, Seq<char>)>,
        index: nat,
        job: CopyJobView,
    },
    Succeeded { installed: nat },
    Failed { error: IntegrationErrorView },
}

impl View for Integration {
    type V = IntegrationView;

    open spec fn view(&self) -> IntegrationView {
        match self {
            Integration::Copying { installation, mods, index, job } => IntegrationView::Copying {
                root: installation@,
                mods: mods_view(mods@),
                index: *index as nat,
                job: job@,
            },
            Integration::Succeeded { installed } => IntegrationView::Succeeded {
                installed: *installed as nat,
            },
            Integration::Failed { error } => IntegrationView::Failed { error: error@ },
        }
    }
}

/// Where an integration stands when the mods before `index` are installed:
/// it copies the mod at `index`, or has succeeded where none is left.
pub open spec fn integration_at(
    root: Seq<char>,
    mods: Seq<(ModInfoView, Seq<char>)>,
    index: nat,
) -> IntegrationView {
    if index < mods.len() {
        IntegrationView::Copying { root, mods, index, job: copy_job(root, mods[index as int]) }
    } else {
        IntegrationView::Succeeded { installed: mods.len() }
    }
}

/// Where the integration of `mods` into the game at `path_project` begins:
/// with the first mod, or failed where the path leads to no installation.
pub open spec fn integration_begin(
    path_project: Seq<char>,
    mods: Seq<(ModInfoView, Seq<char>)>,
) -> IntegrationView {
    match parent_of(path_project) {
        Some(root) => integration_at(root, mods, 0),
        None => IntegrationView::Failed {
            error: IntegrationErrorView::DrgInstallationNotFound { path: path_project },
        },
    }
}

/// Where an integration goes from `state` on the outcome of the copy that
/// `state` asked for: on to the next mod, or to its end with the failure of
/// the copy. A run at its end stays as it is.
pub open spec fn integration_advance(
    state: IntegrationView,
    outcome: Result<(), IoFailureView>,
) -> IntegrationView {
    match state {
        IntegrationView::Copying { root, mods, index, .. } => match outcome {
            Ok(()) => integration_at(root, mods, index + 1),
            Err(failure) => IntegrationView::Failed {
                error: IntegrationErrorView::IoError { source: failure },
            },
        },
        _ => state,
    }
}

/// Where an integration that began at `state` stands after the copies it
/// asked for came out as `outcomes`, in order.
pub open spec fn integration_run(
    state: IntegrationView,
    outcomes: Seq<Result<(), IoFailureView>>,
) -> IntegrationView
    decreases outcomes.len(),
{
    if outcomes.len() == 0 {
        state
    } else {
        integration_run(integration_advance(state, outcomes[0]), outcomes.drop_first())
    }
}

impl Integration {
    fn at(installation: DBSZInstallation, mods: Vec<(ModInfo, String)>, index: usize) -> (run:
        Integration)
        ensures
            run@ == integration_at(installation@, mods_view(mods@), index as nat),
    {
        if index < mods.len() {
            let job = CopyJob {
                source: mods[index].1.clone(),
                destination: destination(&installation, &mods[index].0),
            };
            Integration::Copying { installation, mods, index, job }
        } else {
            Integration::Succeeded { installed: mods.len() }
        }
    }

    /// Begins to integrate `mods`, each with the path of its artifact, into
    /// the game at `path_project`.
    pub fn begin(path_project: &str, mods: Vec<(ModInfo, String)>) -> (run: Integration)
        ensures
            run@ == integration_begin(path_project@, mods_view(mods@)),
    {
        match DBSZInstallation::from_game_path(path_project) {
            Ok(installation) => Integration::at(installation, mods, 0),
            Err(e) => Integration::Failed {
                error: IntegrationError::DrgInstallationNotFound { path: e.path },
            },
        }
    }

    /// Takes the outcome of the copy that `self` asked for and says what
    /// comes next.
    pub fn advance(self, outcome: Result<(), IoFailure>) -> (next: Integration)
        ensures
            next@ == integration_advance(self@, outcome_view(outcome)),
    {
        match self {
            Integration::Copying { installation, mods, index, job } => match outcome {
                Ok(()) => {
                    if index < mods.len() {
                        Integration::at(installation, mods, index + 1)
                    } else {
                        Integration::Succeeded { installed: mods.len() }
                    }
                },
                Err(source) => Integration::Failed { error: IntegrationError::IoError { source } },
            },
            Integration::Succeeded { installed } => Integration::Succeeded { installed },
            Integration::Failed { error } => Integration::Failed { error },
        }
    }
}

/// While every copy succeeds, the mods are copied in the order given, each
/// from its artifact to the directory that its type asks for: after as many
/// successes as `outcomes` holds, a run that stood at the mod `start` stands
/// at the mod that many places further on, and has succeeded with the number
/// of mods where none is left.
pub proof fn lemma_integration_in_order(
    root: Seq<char>,
    mods: Seq<(ModInfoView, Seq<char>)>,
    start: nat,
    outcomes: Seq<Result<(), IoFailureView>>,
)
    requires
        start + outcomes.len() <= mods.len(),
        forall|i: int| 0 <= i < outcomes.len() ==> outcomes[i] is Ok,
    ensures
        integration_run(integration_at(root, mods, start), outcomes) == integration_at(
            root,
            mods,
            start + outcomes.len(),
        ),
    decreases outcomes.len(),
{
    if outcomes.len() > 0 {
        lemma_integration_in_order(root, mods, start + 1, outcomes.drop_first());
    }
}

/// A run that has failed stays as it is, whatever is reported to it.
pub proof fn lemma_integration_failed_stays(
    error: IntegrationErrorView,
    outcomes: Seq<Result<(), IoFailureView>>,
)
    ensures
        integration_run(IntegrationView::Failed { error }, outcomes) == (IntegrationView::Failed {
            error,
        }),
    decreases outcomes.len(),
{
    if outcomes.len() > 0 {
        lemma_integration_failed_stays(error, outcomes.drop_first());
    }
}

/// The first copy that fails ends the run with its failure. Whatever is
/// reported after it, the run stays failed: no mod after the failing one is
/// copied.
pub proof fn lemma_integration_stops_at_first_failure(
    root: Seq<char>,
    mods: Seq<(ModInfoView, Seq<char>)>,
    start: nat,
    outcomes: Seq<Result<(), IoFailureView>>,
    failed: int,
)
    requires
        0 <= failed < outcomes.len(),
        start + failed < mods.len(),
        outcomes[failed] is Err,
        forall|i: int| 0 <= i < failed ==> outcomes[i] is Ok,
    ensures
        integration_run(integration_at(root, mods, start), outcomes) == (IntegrationView::Failed {
            error: IntegrationErrorView::IoError { source: outcomes[failed]->Err_0 },
        }),
    decreases outcomes.len(),
{
    let rest = outcomes.drop_first();
    if failed == 0 {
        lemma_integration_failed_stays(
            IntegrationErrorView::IoError { source: outcomes[0]->Err_0 },
            rest,
        );
    } else {
        lemma_integration_stops_at_first_failure(root, mods, start + 1, rest, failed - 1);
    }
}

} // verus!
