//! What is asked of the worker, and what can go wrong.

use vstd::prelude::*;
use vstd::string::*;
use crate::text::join_text;

verus! {

/// A request to the worker. Its reply goes back on a channel that the
/// caller keeps beside it.
#[derive(Debug, Clone, PartialEq, Eq)]
pub enum DataRequest {
    /// The listing of all projects.
    GetProjects,
    /// The metrics of the project of that name.
    GetProjectMetrics { name: String },
    /// The aggregate over all projects.
    GetAllProjects,
    /// Forget cached responses: those of one project, or the listing and
    /// the aggregate.
    RefreshCache { project_name: Option<String> },
}

/// Errors from data layer operations.
#[derive(Debug, Clone, PartialEq, Eq)]
pub enum DataError {
    ProjectNotFound(String),
    ParseError(String),
    CacheError(String),
}

/// An error of the data layer as mathematical data.
pub enum DataErrorView {
    ProjectNotFound(Seq<char>),
    ParseError(Seq<char>),
    CacheError(Seq<char>),
}

impl View for DataError {
    type V = DataErrorView;

    open spec fn view(&self) -> DataErrorView {
        match *self {
            DataError::ProjectNotFound(n) => DataErrorView::ProjectNotFound(n@),
            DataError::ParseError(m) => DataErrorView::ParseError(m@),
            DataError::CacheError(m) => DataErrorView::CacheError(m@),
        }
    }
}

/// The text of an error of the data layer.
pub open spec fn data_error_text(e: DataErrorView) -> Seq<char> {
    match e {
        DataErrorView::ProjectNotFound(n) => "Project not found: "@ + n,
        DataErrorView::ParseError(m) => "Parse error: "@ + m,
        DataErrorView::CacheError(m) => "Cache error: "@ + m,
    }
}

impl DataError {
    /// The error as text.
    pub fn to_string(&self) -> (s: String)
        ensures
            s@ == data_error_text(self@),
    {
        match self {
            DataError::ProjectNotFound(n) => join_text("Project not found: ", n.as_str()),
            DataError::ParseError(m) => join_text("Parse error: ", m.as_str()),
            DataError::CacheError(m) => join_text("Cache error: ", m.as_str()),
        }
    }

    /// Whether a caller answers the error with "not found"; every other
    /// error is an internal one.
    pub fn is_not_found(&self) -> (r: bool)
        ensures
            r == (*self is ProjectNotFound),
    {
        match self {
            DataError::ProjectNotFound(_) => true,
            _ => false,
        }
    }
}

} // verus!
