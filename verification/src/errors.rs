//! The error kinds surfaced by configuration loading and orchestration.

use vstd::prelude::*;

verus! {

/// Why a configuration load or an orchestration run failed.
///
/// Every variant carries enough context to diagnose the failure: the probed
/// paths, the offending path, the dangling reference, or the unit name.
#[derive(Debug)]
pub enum LauncherError {
    /// No configuration file exists at any probed location; carries every
    /// path that was probed, in probe order.
    ConfigNotFound { probed: Vec<String> },
    /// A configuration file exists but failed to parse or to validate
    /// against the schema; carries the offending path.
    ConfigInvalid { path: String },
    /// A name referenced by one entity does not exist in the entity it
    /// should index into; carries the dangling name.
    ReferenceNotFound { name: String },
    /// The service manager reported failure for a unit operation; carries
    /// the unit name the operation was issued for.
    ExternalOperationFailed { unit: String },
}

/// The mathematical image of a `LauncherError`.
pub enum LauncherErrorView {
    ConfigNotFound { probed: Seq<Seq<char>> },
    ConfigInvalid { path: Seq<char> },
    ReferenceNotFound { name: Seq<char> },
    ExternalOperationFailed { unit: Seq<char> },
}

impl View for LauncherError {
    type V = LauncherErrorView;

    open spec fn view(&self) -> LauncherErrorView {
        match self {
            LauncherError::ConfigNotFound { probed } => (LauncherErrorView::ConfigNotFound {
                probed: probed.deep_view(),
            }),
            LauncherError::ConfigInvalid { path } => (LauncherErrorView::ConfigInvalid {
                path: path@,
            }),
            LauncherError::ReferenceNotFound { name } => (LauncherErrorView::ReferenceNotFound {
                name: name@,
            }),
            LauncherError::ExternalOperationFailed { unit } => (
            LauncherErrorView::ExternalOperationFailed { unit: unit@ }),
        }
    }
}

impl DeepView for LauncherError {
    type V = LauncherErrorView;

    open spec fn deep_view(&self) -> LauncherErrorView {
        self.view()
    }
}

} // verus!
