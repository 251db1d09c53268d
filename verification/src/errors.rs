use vstd::prelude::*;

verus! {

/// The kinds of failure that the runtime reports to its HTTP clients.
#[derive(Clone, Copy, Debug, PartialEq, Eq, Structural)]
pub enum ErrorKind {
    BadRequest,
    NotFound,
    Forbidden,
    Conflict,
    ValidationFailed,
    Unavailable,
    Internal,
}

/// The machine-readable code of an error kind, as it appears in the
/// `error.code` field of every error response.
pub open spec fn kind_code(kind: ErrorKind) -> Seq<char> {
    match kind {
        ErrorKind::BadRequest => "bad_request"@,
        ErrorKind::NotFound => "not_found"@,
        ErrorKind::Forbidden => "forbidden"@,
        ErrorKind::Conflict => "conflict"@,
        ErrorKind::ValidationFailed => "validation_failed"@,
        ErrorKind::Unavailable => "unavailable"@,
        ErrorKind::Internal => "internal_error"@,
    }
}

/// The HTTP status code with which an error kind is answered.
pub open spec fn kind_status(kind: ErrorKind) -> u16 {
    match kind {
        ErrorKind::BadRequest => 400,
        ErrorKind::NotFound => 404,
        ErrorKind::Forbidden => 403,
        ErrorKind::Conflict => 409,
        ErrorKind::ValidationFailed => 422,
        ErrorKind::Unavailable => 503,
        ErrorKind::Internal => 500,
    }
}

impl ErrorKind {
    /// The machine-readable code of this kind.
    pub fn code(&self) -> (code: &'static str)
        ensures
            code@ == kind_code(*self),
    {
        match self {
            ErrorKind::BadRequest => "bad_request",
            ErrorKind::NotFound => "not_found",
            ErrorKind::Forbidden => "forbidden",
            ErrorKind::Conflict => "conflict",
            ErrorKind::ValidationFailed => "validation_failed",
            ErrorKind::Unavailable => "unavailable",
            ErrorKind::Internal => "internal_error",
        }
    }

    /// The HTTP status code of this kind.
    pub fn status(&self) -> (status: u16)
        ensures
            status == kind_status(*self),
    {
        match self {
            ErrorKind::BadRequest => 400,
            ErrorKind::NotFound => 404,
            ErrorKind::Forbidden => 403,
            ErrorKind::Conflict => 409,
            ErrorKind::ValidationFailed => 422,
            ErrorKind::Unavailable => 503,
            ErrorKind::Internal => 500,
        }
    }
}

} // verus!

verus! {

/// A JSON value, carried through unread.
#[verifier::external_type_specification]
#[verifier::external_body]
pub struct ExJsonValue(serde_json::Value);

/// Structured details attached to an error.
#[derive(Debug)]
pub enum ErrorDetails {
    /// No details: serialised as an empty object.
    Empty,
    /// The entity that the error is about, and the id by which it was named.
    Entity { entity: String, id: String },
    /// Any other details, as the code that raised the error gave them.
    Json(serde_json::Value),
}

/// The mathematical content of error details.
pub enum DetailsView {
    Empty,
    Entity(Seq<char>, Seq<char>),
    Json(serde_json::Value),
}

impl View for ErrorDetails {
    type V = DetailsView;

    open spec fn view(&self) -> DetailsView {
        match self {
            ErrorDetails::Empty => DetailsView::Empty,
            ErrorDetails::Entity { entity, id } => DetailsView::Entity(entity@, id@),
            ErrorDetails::Json(v) => DetailsView::Json(*v),
        }
    }
}

/// A failure of the runtime's domain logic, before it is turned into an HTTP answer.
#[derive(Debug)]
pub struct DomainError {
    pub kind: ErrorKind,
    pub message: String,
    pub details: ErrorDetails,
}

/// The mathematical content of a domain error.
pub struct DomainErrorView {
    pub kind: ErrorKind,
    pub message: Seq<char>,
    pub details: DetailsView,
}

impl View for DomainError {
    type V = DomainErrorView;

    open spec fn view(&self) -> DomainErrorView {
        DomainErrorView { kind: self.kind, message: self.message@, details: self.details@ }
    }
}

/// The message of a not-found error about `entity` named by `id`.
pub open spec fn not_found_message(entity: Seq<char>, id: Seq<char>) -> Seq<char> {
    entity + " not found: "@ + id
}

/// The message of the error that hides an unexpected failure from the client.
pub open spec fn internal_message() -> Seq<char> {
    "unexpected server error"@
}

impl DomainError {
    pub fn with_message(kind: ErrorKind, message: String) -> (e: DomainError)
        ensures
            e@ == (DomainErrorView { kind, message: message@, details: DetailsView::Empty }),
    {
        DomainError { kind, message, details: ErrorDetails::Empty }
    }

    pub fn bad_request(message: String) -> (e: DomainError)
        ensures
            e@ == (DomainErrorView { kind: ErrorKind::BadRequest, message: message@, details: DetailsView::Empty }),
    {
        Self::with_message(ErrorKind::BadRequest, message)
    }

    pub fn conflict(message: String) -> (e: DomainError)
        ensures
            e@ == (DomainErrorView { kind: ErrorKind::Conflict, message: message@, details: DetailsView::Empty }),
    {
        Self::with_message(ErrorKind::Conflict, message)
    }

    pub fn unavailable(message: String) -> (e: DomainError)
        ensures
            e@ == (DomainErrorView { kind: ErrorKind::Unavailable, message: message@, details: DetailsView::Empty }),
    {
        Self::with_message(ErrorKind::Unavailable, message)
    }

    pub fn validation_failed(message: String) -> (e: DomainError)
        ensures
            e@ == (DomainErrorView { kind: ErrorKind::ValidationFailed, message: message@, details: DetailsView::Empty }),
    {
        Self::with_message(ErrorKind::ValidationFailed, message)
    }

    pub fn forbidden(message: String, details: ErrorDetails) -> (e: DomainError)
        ensures
            e@ == (DomainErrorView { kind: ErrorKind::Forbidden, message: message@, details: details@ }),
    {
        DomainError { kind: ErrorKind::Forbidden, message, details }
    }

    pub fn not_found(entity: &str, id: &str) -> (e: DomainError)
        ensures
            e@ == (DomainErrorView {
                kind: ErrorKind::NotFound,
                message: not_found_message(entity@, id@),
                details: DetailsView::Entity(entity@, id@),
            }),
    {
        let message = String::from_str(entity).concat(" not found: ").concat(id);
        let details = ErrorDetails::Entity { entity: String::from_str(entity), id: String::from_str(id) };
        DomainError { kind: ErrorKind::NotFound, message, details }
    }

    /// The error that stands for any failure that must not be described to the client.
    pub fn internal_safe() -> (e: DomainError)
        ensures
            e@ == (DomainErrorView { kind: ErrorKind::Internal, message: internal_message(), details: DetailsView::Empty }),
    {
        Self::with_message(ErrorKind::Internal, String::from_str("unexpected server error"))
    }
}

/// An error as it is answered over HTTP: a status code and the body's fields.
#[derive(Debug)]
pub struct ApiError {
    pub status: u16,
    pub code: String,
    pub message: String,
    pub details: ErrorDetails,
}

/// The mathematical content of an answered error.
pub struct ApiErrorView {
    pub status: u16,
    pub code: Seq<char>,
    pub message: Seq<char>,
    pub details: DetailsView,
}

impl View for ApiError {
    type V = ApiErrorView;

    open spec fn view(&self) -> ApiErrorView {
        ApiErrorView { status: self.status, code: self.code@, message: self.message@, details: self.details@ }
    }
}

/// The answer that a domain error of the given kind, message and details gets.
pub open spec fn answer(kind: ErrorKind, message: Seq<char>, details: DetailsView) -> ApiErrorView {
    ApiErrorView { status: kind_status(kind), code: kind_code(kind), message, details }
}

/// The answer that a domain error gets.
pub open spec fn answer_for(e: DomainErrorView) -> ApiErrorView {
    answer(e.kind, e.message, e.details)
}

impl ApiError {
    /// Answers a domain error: the status and code follow from its kind alone.
    pub fn from_domain(error: DomainError) -> (a: ApiError)
        ensures
            a@ == answer_for(error@),
    {
        let status = error.kind.status();
        let code = String::from_str(error.kind.code());
        ApiError { status, code, message: error.message, details: error.details }
    }

    pub fn bad_request(message: String) -> (a: ApiError)
        ensures
            a@ == answer(ErrorKind::BadRequest, message@, DetailsView::Empty),
    {
        Self::from_domain(DomainError::bad_request(message))
    }

    pub fn not_found(entity: &str, id: &str) -> (a: ApiError)
        ensures
            a@ == answer(ErrorKind::NotFound, not_found_message(entity@, id@), DetailsView::Entity(entity@, id@)),
    {
        Self::from_domain(DomainError::not_found(entity, id))
    }

    pub fn conflict(message: String) -> (a: ApiError)
        ensures
            a@ == answer(ErrorKind::Conflict, message@, DetailsView::Empty),
    {
        Self::from_domain(DomainError::conflict(message))
    }

    pub fn unavailable(message: String) -> (a: ApiError)
        ensures
            a@ == answer(ErrorKind::Unavailable, message@, DetailsView::Empty),
    {
        Self::from_domain(DomainError::unavailable(message))
    }

    pub fn validation_failed(message: String) -> (a: ApiError)
        ensures
            a@ == answer(ErrorKind::ValidationFailed, message@, DetailsView::Empty),
    {
        Self::from_domain(DomainError::validation_failed(message))
    }
}

} // verus!

verus! {

/// Distinct kinds are answered with distinct codes and distinct statuses, so a
/// client can tell the kind from either.
pub proof fn law_kinds_are_distinguishable(a: ErrorKind, b: ErrorKind)
    ensures
        kind_code(a) == kind_code(b) ==> a == b,
        kind_status(a) == kind_status(b) ==> a == b,
{
    reveal_strlit("bad_request");
    reveal_strlit("not_found");
    reveal_strlit("forbidden");
    reveal_strlit("conflict");
    reveal_strlit("validation_failed");
    reveal_strlit("unavailable");
    reveal_strlit("internal_error");
    if kind_code(a) == kind_code(b) && a != b {
        assert(kind_code(a).len() != kind_code(b).len() || kind_code(a)[0] != kind_code(b)[0]
            || kind_code(a)[1] != kind_code(b)[1]);
    }
}

} // verus!
