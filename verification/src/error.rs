//! What can go wrong while mods are resolved and integrated, as one closed
//! type, and the message that each failure is reported with.

use crate::mod_info::{ModInfo, ModInfoView};
use crate::text::{debug_quoted, debug_text};
use vstd::prelude::*;
use vstd::string::StringExecFns;

verus! {

/// The kinds of filesystem failure that decisions depend on.
#[derive(Debug, Copy, Clone, PartialEq, Eq, Structural)]
pub enum IoErrorKind {
    /// The entity that the operation was for does not exist.
    NotFound,
    /// Any other failure.
    Other,
}

/// A failed filesystem operation: its kind and the message it came with.
#[derive(Debug, Clone, PartialEq, Eq)]
pub struct IoFailure {
    pub kind: IoErrorKind,
    pub message: String,
}

/// An `IoFailure` with its message as plain text.
pub struct IoFailureView {
    pub kind: IoErrorKind,
    pub message: Seq<char>,
}

impl View for IoFailure {
    type V = IoFailureView;

    open spec fn view(&self) -> IoFailureView {
        IoFailureView { kind: self.kind, message: self.message@ }
    }
}

/// The outcome of a filesystem operation that hands nothing back, as plain
/// values.
pub open spec fn outcome_view(outcome: Result<(), IoFailure>) -> Result<(), IoFailureView> {
    match outcome {
        Ok(()) => Ok(()),
        Err(failure) => Err(failure@),
    }
}

/// An underlying failure whose type this crate does not know: its message
/// and, where it has one, the failure beneath it.
#[derive(Debug, PartialEq, Eq)]
pub struct Cause {
    pub message: String,
    pub source: Option<Box<Cause>>,
}

/// A `Cause` with its messages as plain text.
pub struct CauseView {
    pub message: Seq<char>,
    pub source: Option<Box<CauseView>>,
}

impl CauseView {
    /// The message followed by the messages of the failures beneath it, each
    /// after a colon and a space.
    pub open spec fn chain(self) -> Seq<char>
        decreases self,
    {
        match self.source {
            None => self.message,
            Some(inner) => self.message + ": "@ + inner.chain(),
        }
    }
}

impl Cause {
    /// The failure and all beneath it as plain text.
    pub open spec fn model(self) -> CauseView
        decreases self,
    {
        CauseView {
            message: self.message@,
            source: match self.source {
                None => None,
                Some(inner) => Some(Box::new(inner.model())),
            },
        }
    }

    /// Renders the failure with everything beneath it.
    pub fn describe(&self) -> (text: String)
        ensures
            text@ == self@.chain(),
        decreases self,
    {
        let mut text = self.message.clone();
        match &self.source {
            None => {},
            Some(inner) => {
                text.append(": ");
                text.append(inner.describe().as_str());
            },
        }
        text
    }
}

impl View for Cause {
    type V = CauseView;

    open spec fn view(&self) -> CauseView {
        self.model()
    }
}

/// A failure of resolving or integrating mods.
#[derive(Debug)]
pub enum IntegrationError {
    /// The given path does not lead to a game installation.
    DrgInstallationNotFound { path: String },
    /// A filesystem operation failed.
    IoError { source: IoFailure },
    /// Reading or writing a pak archive failed.
    RepakError { source: Cause },
    /// Parsing or writing a game asset failed.
    UnrealAssetError { source: Cause },
    /// A filesystem operation failed while one mod was processed.
    CtxtIoError { source: IoFailure, mod_info: ModInfo },
    /// A pak operation failed while one mod was processed.
    CtxtRepakError { source: Cause, mod_info: ModInfo },
    /// A file inside a mod lies outside the root it was expected under.
    ModfileInvalidPrefix { mod_info: ModInfo, modfile_path: String },
    /// Any other failure while one mod was processed.
    CtxtGenericError { source: Cause, mod_info: ModInfo },
    /// A mod provider failed.
    ProviderError { source: Cause },
    /// A failure with nothing but a message.
    GenericError { msg: String },
    /// A background task did not run to its end.
    JoinError { source: Cause },
    /// A lint found a violation.
    LintError { source: Cause },
    /// The tool could not update itself.
    SelfUpdateFailed { source: Cause },
}

/// An `IntegrationError` as plain values.
pub enum IntegrationErrorView {
    DrgInstallationNotFound { path: Seq<char> },
    IoError { source: IoFailureView },
    RepakError { source: CauseView },
    UnrealAssetError { source: CauseView },
    CtxtIoError { source: IoFailureView, mod_info: ModInfoView },
    CtxtRepakError { source: CauseView, mod_info: ModInfoView },
    ModfileInvalidPrefix { mod_info: ModInfoView, modfile_path: Seq<char> },
    CtxtGenericError { source: CauseView, mod_info: ModInfoView },
    ProviderError { source: CauseView },
    GenericError { msg: Seq<char> },
    JoinError { source: CauseView },
    LintError { source: CauseView },
    SelfUpdateFailed { source: CauseView },
}

impl View for IntegrationError {
    type V = IntegrationErrorView;

    open spec fn view(&self) -> IntegrationErrorView {
        match self {
            IntegrationError::DrgInstallationNotFound { path } => {
                IntegrationErrorView::DrgInstallationNotFound { path: path@ }
            },
            IntegrationError::IoError { source } => IntegrationErrorView::IoError {
                source: source@,
            },
            IntegrationError::RepakError { source } => IntegrationErrorView::RepakError {
                source: source@,
            },
            IntegrationError::UnrealAssetError { source } => {
                IntegrationErrorView::UnrealAssetError { source: source@ }
            },
            IntegrationError::CtxtIoError { source, mod_info } => {
                IntegrationErrorView::CtxtIoError { source: source@, mod_info: mod_info@ }
            },
            IntegrationError::CtxtRepakError { source, mod_info } => {
                IntegrationErrorView::CtxtRepakError { source: source@, mod_info: mod_info@ }
            },
            IntegrationError::ModfileInvalidPrefix { mod_info, modfile_path } => {
                IntegrationErrorView::ModfileInvalidPrefix {
                    mod_info: mod_info@,
                    modfile_path: modfile_path@,
                }
            },
            IntegrationError::CtxtGenericError { source, mod_info } => {
                IntegrationErrorView::CtxtGenericError { source: source@, mod_info: mod_info@ }
            },
            IntegrationError::ProviderError { source } => IntegrationErrorView::ProviderError {
                source: source@,
            },
            IntegrationError::GenericError { msg } => IntegrationErrorView::GenericError {
                msg: msg@,
            },
            IntegrationError::JoinError { source } => IntegrationErrorView::JoinError {
                source: source@,
            },
            IntegrationError::LintError { source } => IntegrationErrorView::LintError {
                source: source@,
            },
            IntegrationError::SelfUpdateFailed { source } => {
                IntegrationErrorView::SelfUpdateFailed { source: source@ }
            },
        }
    }
}

/// The beginning of every message about one mod: the word `mod` and the
/// mod's name as `{:?}` formats it.
pub open spec fn mod_prefix(name: Seq<char>) -> Seq<char> {
    "mod "@ + debug_text(name)
}

impl IntegrationErrorView {
    /// The message that the failure is reported with. A failure that only
    /// passes another one on is reported with that one's message.
    pub open spec fn message(self) -> Seq<char> {
        match self {
            IntegrationErrorView::DrgInstallationNotFound { path } => {
                "unable to determine DBSZ installation at provided path "@ + path
            },
            IntegrationErrorView::IoError { source } => source.message,
            IntegrationErrorView::RepakError { source } => source.message,
            IntegrationErrorView::UnrealAssetError { source } => source.message,
            IntegrationErrorView::CtxtIoError { mod_info, .. } => {
                mod_prefix(mod_info.name) + ": I/O error encountered during its processing"@
            },
            IntegrationErrorView::CtxtRepakError { mod_info, .. } => {
                mod_prefix(mod_info.name) + ": repak error encountered during its processing"@
            },
            IntegrationErrorView::ModfileInvalidPrefix { mod_info, modfile_path } => {
                mod_prefix(mod_info.name) + ": modfile "@ + modfile_path
                    + " contains unexpected prefix"@
            },
            IntegrationErrorView::CtxtGenericError { source, mod_info } => {
                mod_prefix(mod_info.name) + ": failed to integrate: "@ + source.message
            },
            IntegrationErrorView::ProviderError { source } => source.message,
            IntegrationErrorView::GenericError { msg } => "integration error: "@ + msg,
            IntegrationErrorView::JoinError { source } => source.message,
            IntegrationErrorView::LintError { source } => source.message,
            IntegrationErrorView::SelfUpdateFailed { source } => {
                "self update failed: "@ + source.chain()
            },
        }
    }
}

impl IntegrationError {
    /// Renders the failure: the failing mod where it is known, and the
    /// underlying cause.
    pub fn message(&self) -> (text: String)
        ensures
            text@ == self@.message(),
    {
        match self {
            IntegrationError::DrgInstallationNotFound { path } => {
                let mut text = String::from_str(
                    "unable to determine DBSZ installation at provided path ",
                );
                text.append(path.as_str());
                text
            },
            IntegrationError::IoError { source } => source.message.clone(),
            IntegrationError::RepakError { source } => source.message.clone(),
            IntegrationError::UnrealAssetError { source } => source.message.clone(),
            IntegrationError::CtxtIoError { mod_info, .. } => {
                let mut text = mod_prefix_text(mod_info);
                text.append(": I/O error encountered during its processing");
                text
            },
            IntegrationError::CtxtRepakError { mod_info, .. } => {
                let mut text = mod_prefix_text(mod_info);
                text.append(": repak error encountered during its processing");
                text
            },
            IntegrationError::ModfileInvalidPrefix { mod_info, modfile_path } => {
                let mut text = mod_prefix_text(mod_info);
                text.append(": modfile ");
                text.append(modfile_path.as_str());
                text.append(" contains unexpected prefix");
                text
            },
            IntegrationError::CtxtGenericError { source, mod_info } => {
                let mut text = mod_prefix_text(mod_info);
                text.append(": failed to integrate: ");
                text.append(source.message.as_str());
                text
            },
            IntegrationError::ProviderError { source } => source.message.clone(),
            IntegrationError::GenericError { msg } => {
                let mut text = String::from_str("integration error: ");
                text.append(msg.as_str());
                text
            },
            IntegrationError::JoinError { source } => source.message.clone(),
            IntegrationError::LintError { source } => source.message.clone(),
            IntegrationError::SelfUpdateFailed { source } => {
                let mut text = String::from_str("self update failed: ");
                text.append(source.describe().as_str());
                text
            },
        }
    }
}

fn mod_prefix_text(mod_info: &ModInfo) -> (text: String)
    ensures
        text@ == mod_prefix(mod_info.name@),
{
    let mut text = String::from_str("mod ");
    text.append(debug_quoted(mod_info.name.as_str()).as_str());
    text
}

} // verus!
