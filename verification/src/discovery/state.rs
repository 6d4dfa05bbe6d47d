//! What the state file of a project says of its workflow.

use vstd::prelude::*;
use vstd::string::*;
use crate::metrics::{opt_state, opt_text, State, WorkflowState, WorkflowStateView};
use crate::text::join_text;

verus! {

/// What was found where the state file of a project should be.
#[derive(Debug, Clone)]
pub enum StateRead {
    /// There is no state file.
    Missing,
    /// There is one, but it could not be read or parsed; the detail says why.
    Corrupt(String),
    /// The parsed state.
    Loaded(State),
}

/// Why a workflow state is unknown.
#[derive(Debug, Clone, PartialEq, Eq)]
pub enum StateError {
    /// The state file could not be read or parsed.
    Corrupt(String),
}

impl StateError {
    /// The detail as text.
    pub fn message(&self) -> (s: String)
        ensures
            s@ == self->Corrupt_0@,
    {
        match self {
            StateError::Corrupt(detail) => detail.clone(),
        }
    }
}

/// The workflow state that a read of the state file gives.
pub open spec fn state_of(read: StateRead) -> Option<WorkflowStateView> {
    match read {
        StateRead::Loaded(state) => opt_state(state.workflow_state),
        _ => None,
    }
}

/// The error that a read of the state file leaves on the project's record.
pub open spec fn error_of(read: StateRead) -> Option<Seq<char>> {
    match read {
        StateRead::Corrupt(detail) => Some("Failed to load state: "@ + detail@),
        _ => None,
    }
}

/// The workflow state of a project, from what was found where its state file
/// should be: none where there is no file or the file names none, an error
/// where the file could not be read.
pub fn load_state(read: StateRead) -> (r: Result<Option<WorkflowState>, StateError>)
    ensures
        match read {
            StateRead::Missing => r == Ok::<Option<WorkflowState>, StateError>(None),
            StateRead::Corrupt(detail) => r == Err::<Option<WorkflowState>, StateError>(
                StateError::Corrupt(detail),
            ),
            StateRead::Loaded(state) => r == Ok::<Option<WorkflowState>, StateError>(
                state.workflow_state,
            ),
        },
{
    match read {
        StateRead::Missing => Ok(None),
        StateRead::Corrupt(detail) => Err(StateError::Corrupt(detail)),
        StateRead::Loaded(state) => Ok(state.workflow_state),
    }
}

/// The workflow state and the error that go on a project's record. A missing
/// file gives neither, a corrupt one the error alone, a valid one the state
/// it holds: a corrupt state never stops a scan.
pub fn state_and_error(read: StateRead) -> (r: (Option<WorkflowState>, Option<String>))
    ensures
        opt_state(r.0) == state_of(read),
        opt_text(r.1) == error_of(read),
        r.1 is Some ==> r.0 is None,
{
    match load_state(read) {
        Ok(state) => (state, None),
        Err(e) => {
            let detail = e.message();
            (None, Some(join_text("Failed to load state: ", detail.as_str())))
        },
    }
}

} // verus!
