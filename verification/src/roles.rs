use vstd::prelude::*;
use crate::codec::{uuid_text, uuid_text_spec};
use crate::errors::{DetailsView, answer, not_found_message, ApiError, ErrorKind};
use crate::failures::{has_row_not_found, is_row_not_found, FailureReport};
use crate::text::same_text;

verus! {

/// The message of the error about a role draft sent to another role's route.
pub open spec fn draft_mismatch_message(draft_id: Seq<char>, route_role_id: Seq<char>) -> Seq<char> {
    "role draft id "@ + draft_id + " does not match route role id "@ + route_role_id
}

/// A role draft may only update the role whose route it was sent to.
pub fn check_draft_matches_route(draft_id: &str, route_role_id: &str) -> (r: Result<(), ApiError>)
    ensures
        draft_id@ == route_role_id@ ==> r is Ok,
        draft_id@ != route_role_id@ ==> (r matches Err(e)
            && e@ == answer(ErrorKind::ValidationFailed, draft_mismatch_message(draft_id@, route_role_id@), DetailsView::Empty)),
{
    if same_text(draft_id, route_role_id) {
        Ok(())
    } else {
        let message = String::from_str("role draft id ").concat(draft_id).concat(" does not match route role id ").concat(route_role_id);
        Err(ApiError::validation_failed(message))
    }
}

/// The message of the error about a role version that belongs to another role.
pub open spec fn foreign_version_message(version_id: u128, owner: Seq<char>, route_role_id: Seq<char>) -> Seq<char> {
    "role version "@ + uuid_text_spec(version_id) + " belongs to "@ + owner + ", not "@ + route_role_id
}

/// A role can only be switched to one of its own versions.
pub fn check_version_belongs_to_role(version_id: u128, owner_role_id: &str, route_role_id: &str) -> (r: Result<(), ApiError>)
    ensures
        owner_role_id@ == route_role_id@ ==> r is Ok,
        owner_role_id@ != route_role_id@ ==> (r matches Err(e)
            && e@ == answer(ErrorKind::ValidationFailed, foreign_version_message(version_id, owner_role_id@, route_role_id@), DetailsView::Empty)),
{
    if same_text(owner_role_id, route_role_id) {
        Ok(())
    } else {
        let message = String::from_str("role version ").concat(uuid_text(version_id).as_str()).concat(" belongs to ").concat(
            owner_role_id,
        ).concat(", not ").concat(route_role_id);
        Err(ApiError::validation_failed(message))
    }
}

/// A role draft may only create a role that does not exist yet.
pub fn check_role_is_new(exists: bool, draft_id: &str) -> (r: Result<(), ApiError>)
    ensures
        !exists ==> r is Ok,
        exists ==> (r matches Err(e) && e@ == answer(ErrorKind::Conflict, "role already exists: "@ + draft_id@, DetailsView::Empty)),
{
    if exists {
        Err(ApiError::conflict(String::from_str("role already exists: ").concat(draft_id)))
    } else {
        Ok(())
    }
}

/// A role draft may only update a role that exists.
pub fn check_role_exists(exists: bool, role_id: &str) -> (r: Result<(), ApiError>)
    ensures
        exists ==> r is Ok,
        !exists ==> (r matches Err(e)
            && e@ == answer(ErrorKind::NotFound, not_found_message("role"@, role_id@), DetailsView::Entity("role"@, role_id@))),
{
    if exists {
        Ok(())
    } else {
        Err(ApiError::not_found("role", role_id))
    }
}

/// The versions of a role are listed unless the role has neither versions nor
/// a current snapshot, in which case it does not exist.
pub fn check_role_has_history(has_versions: bool, has_current_snapshot: bool, role_id: &str) -> (r: Result<(), ApiError>)
    ensures
        (has_versions || has_current_snapshot) ==> r is Ok,
        !(has_versions || has_current_snapshot) ==> (r matches Err(e)
            && e@ == answer(ErrorKind::NotFound, not_found_message("role"@, role_id@), DetailsView::Entity("role"@, role_id@))),
{
    check_role_exists(has_versions || has_current_snapshot, role_id)
}

/// Answers a failed unarchiving of a role: a missing row means the role does
/// not exist; any other failure is a conflict that carries its text.
pub fn unarchive_role_failure(report: FailureReport, role_id: &str) -> (a: ApiError)
    ensures
        a@ == if has_row_not_found(report@.causes) {
            answer(ErrorKind::NotFound, not_found_message("role"@, role_id@), DetailsView::Entity("role"@, role_id@))
        } else {
            answer(ErrorKind::Conflict, report@.text, DetailsView::Empty)
        },
{
    if is_row_not_found(&report) {
        ApiError::not_found("role", role_id)
    } else {
        ApiError::conflict(report.text)
    }
}

/// The outcome of checking a role draft.
#[derive(Debug)]
pub struct RoleValidation {
    pub valid: bool,
    pub errors: Vec<String>,
}

/// Adds the errors that the database checks found to those of the draft's own
/// check; the draft is valid exactly when no error remains.
pub fn complete_role_validation(errors: Vec<String>, further: Vec<String>) -> (v: RoleValidation)
    ensures
        v.errors@ == errors@ + further@,
        v.valid == (errors@.len() + further@.len() == 0),
{
    let mut all = errors;
    let mut further = further;
    all.append(&mut further);
    let valid = all.len() == 0;
    RoleValidation { valid, errors: all }
}

} // verus!
