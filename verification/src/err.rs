//! The flat error taxonomy. Every failure is terminal to its scope; no error
//! is retried or swallowed, and the recursion boundary re-wraps inner
//! failures to preserve which subproject failed.

use vstd::prelude::*;

use crate::command::SubCommand;

verus! {

/// Everything that can go wrong while resolving and running a task.
#[derive(Debug, PartialEq)]
pub enum DevError {
    /// The requested task has no configured command for this project.
    CommandUndefined(SubCommand),
    /// No configuration file in the directory.
    FileNotFound,
    /// The configuration exists but fails to parse, or declares neither
    /// tasks nor subprojects; carries the directory context as diagnostic.
    YmlProblem(String),
    /// The configuration file exists but cannot be read.
    FileUnreadable,
    /// A shell command exited non-zero or could not be spawned.
    ProcessFailed,
    /// Changing or reading the working directory failed.
    DirectoryManipulationFailed,
    /// A subproject's full pipeline failed, for any inner reason.
    SubProjectFailed(String),
    /// A declared subproject path or its configuration file is missing.
    SubProjectNotFound(String),
}

/// Mathematical form of a [`DevError`].
pub ghost enum DevErrorView {
    CommandUndefined(SubCommand),
    FileNotFound,
    YmlProblem(Seq<char>),
    FileUnreadable,
    ProcessFailed,
    DirectoryManipulationFailed,
    SubProjectFailed(Seq<char>),
    SubProjectNotFound(Seq<char>),
}

impl View for DevError {
    type V = DevErrorView;

    open spec fn view(&self) -> DevErrorView {
        match self {
            DevError::CommandUndefined(t) => DevErrorView::CommandUndefined(*t),
            DevError::FileNotFound => DevErrorView::FileNotFound,
            DevError::YmlProblem(d) => DevErrorView::YmlProblem(d@),
            DevError::FileUnreadable => DevErrorView::FileUnreadable,
            DevError::ProcessFailed => DevErrorView::ProcessFailed,
            DevError::DirectoryManipulationFailed => DevErrorView::DirectoryManipulationFailed,
            DevError::SubProjectFailed(p) => DevErrorView::SubProjectFailed(p@),
            DevError::SubProjectNotFound(p) => DevErrorView::SubProjectNotFound(p@),
        }
    }
}

/// The mathematical form of a unit-or-error result.
pub open spec fn unit_result_view(r: Result<(), DevError>) -> Result<(), DevErrorView> {
    match r {
        Ok(u) => Ok(u),
        Err(e) => Err(e@),
    }
}

} // verus!
