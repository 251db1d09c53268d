use vstd::prelude::*;
use crate::codec::{base64_length_fits, base64_standard, encode_base64_standard, uuid_text, uuid_text_spec};
use crate::errors::{DetailsView, answer, not_found_message, ApiError, ApiErrorView, ErrorKind};

verus! {

/// The content type under which image bytes are served when their metadata names none.
pub open spec fn fallback_content_type() -> Seq<char> {
    "application/octet-stream"@
}

/// The content type of an image artifact: the one its metadata names, if any.
pub fn content_type_or_default(named: Option<String>) -> (t: String)
    ensures
        t@ == match named {
            Some(n) => n@,
            None => fallback_content_type(),
        },
{
    match named {
        Some(n) => n,
        None => String::from_str("application/octet-stream"),
    }
}

/// An image artifact with its bytes inlined as base64.
#[derive(Debug)]
pub struct ImageArtifactPayload {
    pub path: String,
    pub bytes_base64: String,
    pub content_type: String,
    pub image_artifact_id: u128,
    pub session_id: u128,
}

/// The address by which an image artifact of a session is named.
pub open spec fn artifact_path(session_id: u128, image_id: u128) -> Seq<char> {
    "agent-runtime-image://"@ + uuid_text_spec(session_id) + "/"@ + uuid_text_spec(image_id)
}

/// The answer to a request for an image artifact that the session does not have.
pub open spec fn missing_artifact_answer(image_id: u128) -> ApiErrorView {
    answer(
        ErrorKind::NotFound,
        not_found_message("image_artifact"@, uuid_text_spec(image_id)),
        DetailsView::Entity("image_artifact"@, uuid_text_spec(image_id)),
    )
}

/// Builds the inline form of the image artifact `image_id` of `session_id` from
/// its stored row (content type and bytes), or reports that it does not exist.
pub fn image_artifact_payload(session_id: u128, image_id: u128, row: Option<(String, Vec<u8>)>) -> (r: Result<ImageArtifactPayload, ApiError>)
    requires
        row matches Some((_, bytes)) ==> base64_length_fits(bytes@.len()),
    ensures
        row is None ==> (r matches Err(e) && e@ == missing_artifact_answer(image_id)),
        row matches Some((content_type, bytes)) ==> (r matches Ok(p) && {
            &&& p.path@ == artifact_path(session_id, image_id)
            &&& p.bytes_base64@ == base64_standard(bytes@)
            &&& p.content_type@ == content_type@
            &&& p.image_artifact_id == image_id
            &&& p.session_id == session_id
        }),
{
    match row {
        None => Err(ApiError::not_found("image_artifact", uuid_text(image_id).as_str())),
        Some((content_type, bytes)) => {
            let path = String::from_str("agent-runtime-image://").concat(uuid_text(session_id).as_str()).concat("/").concat(
                uuid_text(image_id).as_str(),
            );
            let bytes_base64 = encode_base64_standard(bytes.as_slice());
            Ok(ImageArtifactPayload { path, bytes_base64, content_type, image_artifact_id: image_id, session_id })
        },
    }
}

} // verus!
