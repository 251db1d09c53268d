use vstd::prelude::*;
use crate::codec::{uuid_text, uuid_text_spec};
use crate::errors::{DetailsView, answer, not_found_message, ApiError, ErrorKind};

verus! {

/// Which commands of the registry a request asks for.
#[derive(Clone, Debug)]
pub enum RegistryLookup {
    /// Every command, whatever its scope.
    AllCommands,
    /// The commands visible in the project of this session.
    VisibleForSession(u128),
    /// The commands visible in this project.
    VisibleForProject(String),
}

/// Reads the query of a registry request: a session id takes precedence over a
/// project key; with neither, the whole registry is meant.
pub fn registry_lookup(session_id: Option<u128>, project: Option<String>) -> (l: RegistryLookup)
    ensures
        session_id matches Some(s) ==> l == RegistryLookup::VisibleForSession(s),
        session_id is None && project is Some ==> (l matches RegistryLookup::VisibleForProject(p) && p@ == project->0@),
        session_id is None && project is None ==> l is AllCommands,
{
    match session_id {
        Some(s) => RegistryLookup::VisibleForSession(s),
        None => match project {
            Some(p) => RegistryLookup::VisibleForProject(p),
            None => RegistryLookup::AllCommands,
        },
    }
}

/// A decision on a registry request must name the deciding session.
pub fn require_decision_session(session_id: Option<u128>) -> (r: Result<u128, ApiError>)
    ensures
        session_id matches Some(s) ==> r == Ok::<u128, ApiError>(s),
        session_id is None ==> (r matches Err(e) && e@ == answer(ErrorKind::BadRequest, "sessionId is required"@, DetailsView::Empty)),
{
    match session_id {
        Some(s) => Ok(s),
        None => Err(ApiError::bad_request(String::from_str("sessionId is required"))),
    }
}

/// A workflow memory is shown, listed or given feedback only when it exists.
pub fn require_workflow_memory(exists: bool, memory_id: u128) -> (r: Result<(), ApiError>)
    ensures
        exists ==> r is Ok,
        !exists ==> (r matches Err(e) && e@ == answer(
            ErrorKind::NotFound,
            not_found_message("workflow_memory"@, uuid_text_spec(memory_id)),
            DetailsView::Entity("workflow_memory"@, uuid_text_spec(memory_id)),
        )),
{
    if exists {
        Ok(())
    } else {
        Err(ApiError::not_found("workflow_memory", uuid_text(memory_id).as_str()))
    }
}

} // verus!
