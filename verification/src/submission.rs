use vstd::prelude::*;
use crate::codec::{uuid_text, uuid_text_spec};
use crate::errors::{DetailsView, answer, not_found_message, ApiError, ErrorKind};
use crate::fields::{trim, trim_str};
use crate::text::same_text;

verus! {

/// A message is accepted only when it holds something besides white space.
pub fn check_message(message: &str) -> (r: Result<(), ApiError>)
    ensures
        trim(message@).len() > 0 ==> r is Ok,
        trim(message@).len() == 0 ==> (r matches Err(e)
            && e@ == answer(ErrorKind::BadRequest, "message must not be empty"@, DetailsView::Empty)),
{
    if trim_str(message).unicode_len() == 0 {
        Err(ApiError::bad_request(String::from_str("message must not be empty")))
    } else {
        Ok(())
    }
}

/// What a refused submission learns of its session.
#[derive(Clone, Debug)]
pub struct SessionLifecycle {
    pub archived: bool,
    pub status: String,
}

/// The lifecycle state recorded with a refused submission: `archived` for an
/// archived session, its status otherwise, `invalid` when the session could
/// not be read.
pub open spec fn observed_lifecycle_spec(session: Option<SessionLifecycle>) -> Seq<char> {
    match session {
        None => "invalid"@,
        Some(s) => if s.archived { "archived"@ } else { s.status@ },
    }
}

/// See [`observed_lifecycle_spec`].
pub fn observed_lifecycle(session: Option<SessionLifecycle>) -> (o: String)
    ensures
        o@ == observed_lifecycle_spec(session),
{
    match session {
        None => String::from_str("invalid"),
        Some(s) => if s.archived {
            String::from_str("archived")
        } else {
            s.status
        },
    }
}

/// A refused submission is recorded unless its session could not be read.
pub fn should_record_rejection(observed: &str) -> (b: bool)
    ensures
        b == (observed@ != "invalid"@),
{
    !same_text(observed, "invalid")
}

/// The disposition of a submission that starts a new turn on an idle session.
pub open spec fn starts_turn(disposition: Seq<char>) -> bool {
    disposition == "idle_turn_start"@
}

/// Whether the answer to a submission must look up the turn it started.
pub fn awaits_started_turn(disposition: &str) -> (b: bool)
    ensures
        b == starts_turn(disposition@),
{
    same_text(disposition, "idle_turn_start")
}

/// How many times the turn that a submission started is looked up before the
/// answer goes out without it.
pub const TURN_LOOKUP_ATTEMPTS: u32 = 100;

/// The status reported for a recorded submission: `running` when it started a
/// turn, else the status it was recorded with.
pub fn submission_status(disposition: &str, recorded_status: &str) -> (s: String)
    ensures
        s@ == if starts_turn(disposition@) { "running"@ } else { recorded_status@ },
{
    if same_text(disposition, "idle_turn_start") {
        String::from_str("running")
    } else {
        String::from_str(recorded_status)
    }
}

/// What the linkage check needs to know of a helper session that acts for a
/// source session.
#[derive(Clone, Debug)]
pub struct LinkedSession {
    pub parent_session_id: Option<u128>,
    pub session_kind: String,
    pub hidden: bool,
}

/// A message is routed to a helper session only when it is the hidden session
/// of the expected kind whose parent is the source session; otherwise the
/// routing is refused as a conflict with the given message.
pub fn check_session_linkage(linked: &LinkedSession, source_session_id: u128, expected_kind: &str, refusal: &str) -> (r: Result<(), ApiError>)
    ensures
        (linked.parent_session_id == Some(source_session_id) && linked.session_kind@ == expected_kind@ && linked.hidden)
            ==> r is Ok,
        !(linked.parent_session_id == Some(source_session_id) && linked.session_kind@ == expected_kind@ && linked.hidden)
            ==> (r matches Err(e) && e@ == answer(ErrorKind::Conflict, refusal@, DetailsView::Empty)),
{
    let parent_matches = match linked.parent_session_id {
        Some(p) => p == source_session_id,
        None => false,
    };
    if parent_matches && same_text(linked.session_kind.as_str(), expected_kind) && linked.hidden {
        Ok(())
    } else {
        Err(ApiError::conflict(String::from_str(refusal)))
    }
}

/// The session kind of the hidden helper session that answers questions about a
/// source session's requirements.
pub open spec fn requirements_helper_kind() -> Seq<char> {
    "requirementsReviewer"@
}

/// A message about a source session's requirements is routed to its helper
/// session only when that session is hidden, of the requirements helper kind,
/// and a child of the source session; otherwise it is refused as a conflict
/// with the given message.
pub fn check_requirements_linkage(linked: &LinkedSession, source_session_id: u128, refusal: &str) -> (r: Result<(), ApiError>)
    ensures
        (linked.parent_session_id == Some(source_session_id) && linked.session_kind@ == requirements_helper_kind()
            && linked.hidden) ==> r is Ok,
        !(linked.parent_session_id == Some(source_session_id) && linked.session_kind@ == requirements_helper_kind()
            && linked.hidden) ==> (r matches Err(e) && e@ == answer(ErrorKind::Conflict, refusal@, DetailsView::Empty)),
{
    check_session_linkage(linked, source_session_id, "requirementsReviewer", refusal)
}

/// The source session must have an active helper session; without one the
/// request is refused as a conflict with the given message.
pub fn require_linked_session(found: Option<u128>, refusal: &str) -> (r: Result<u128, ApiError>)
    ensures
        found matches Some(id) ==> r == Ok::<u128, ApiError>(id),
        found is None ==> (r matches Err(e) && e@ == answer(ErrorKind::Conflict, refusal@, DetailsView::Empty)),
{
    match found {
        Some(id) => Ok(id),
        None => Err(ApiError::conflict(String::from_str(refusal))),
    }
}

/// A settings update must have changed exactly one session row.
pub fn check_settings_update_applied(rows_affected: u64, session_id: u128) -> (r: Result<(), ApiError>)
    ensures
        rows_affected == 1 ==> r is Ok,
        rows_affected != 1 ==> (r matches Err(e) && e@ == answer(
            ErrorKind::NotFound,
            not_found_message("session"@, uuid_text_spec(session_id)),
            DetailsView::Entity("session"@, uuid_text_spec(session_id)),
        )),
{
    if rows_affected != 1 {
        Err(ApiError::not_found("session", uuid_text(session_id).as_str()))
    } else {
        Ok(())
    }
}

} // verus!
