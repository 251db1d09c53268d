use vstd::prelude::*;
use crate::errors::{DetailsView, 
    answer, answer_for, internal_message, not_found_message, ApiError, ApiErrorView, DomainError,
    DomainErrorView, ErrorKind,
};

verus! {

/// What a database failure is, as far as the error mapping cares.
#[derive(Clone, Copy, Debug, PartialEq, Eq, Structural)]
pub enum DatabaseFailure {
    PoolClosed,
    PoolTimedOut,
    Io,
    Tls,
    Configuration,
    RowNotFound,
    Other,
}

/// One link of the chain of causes of a failure.
#[derive(Clone, Copy, Debug, PartialEq, Eq, Structural)]
pub enum FailureCause {
    /// A failure reported by the database driver.
    Database(DatabaseFailure),
    /// A failure reported by the HTTP client that talks to model providers.
    HttpClient,
    /// Any other failure; its text never decides how it is answered.
    Other,
}

/// A failure as it reaches a request handler: the domain error that it carries,
/// if any, the chain of its causes from the outermost inwards, and its text.
#[derive(Debug)]
pub struct FailureReport {
    pub domain: Option<DomainError>,
    pub causes: Vec<FailureCause>,
    pub text: String,
}

pub struct FailureReportView {
    pub domain: Option<DomainErrorView>,
    pub causes: Seq<FailureCause>,
    pub text: Seq<char>,
}

impl View for FailureReport {
    type V = FailureReportView;

    open spec fn view(&self) -> FailureReportView {
        FailureReportView {
            domain: match self.domain {
                Some(d) => Some(d@),
                None => None,
            },
            causes: self.causes@,
            text: self.text@,
        }
    }
}

/// A cause that means a dependency of the runtime (the database or a model
/// provider) could not be reached, rather than that the request was wrong.
pub open spec fn is_dependency_outage(cause: FailureCause) -> bool {
    match cause {
        FailureCause::Database(d) => match d {
            DatabaseFailure::PoolClosed | DatabaseFailure::PoolTimedOut | DatabaseFailure::Io
            | DatabaseFailure::Tls | DatabaseFailure::Configuration => true,
            _ => false,
        },
        FailureCause::HttpClient => true,
        FailureCause::Other => false,
    }
}

/// Some cause in the chain is a dependency outage.
pub open spec fn has_dependency_outage(causes: Seq<FailureCause>) -> bool {
    exists|i: int| 0 <= i < causes.len() && #[trigger] is_dependency_outage(causes[i])
}

/// Some cause in the chain is a database lookup that found no row.
pub open spec fn has_row_not_found(causes: Seq<FailureCause>) -> bool {
    exists|i: int| 0 <= i < causes.len() && #[trigger] causes[i] == FailureCause::Database(DatabaseFailure::RowNotFound)
}

/// The message with which a dependency outage is answered.
pub open spec fn outage_message() -> Seq<char> {
    "runtime dependency unavailable"@
}

/// How a failure is answered: its own domain error if it carries one, else
/// `unavailable` if a dependency could not be reached, else a generic internal error.
pub open spec fn report_answer(r: FailureReportView) -> ApiErrorView {
    match r.domain {
        Some(d) => answer_for(d),
        None => if has_dependency_outage(r.causes) {
            answer(ErrorKind::Unavailable, outage_message(), DetailsView::Empty)
        } else {
            answer(ErrorKind::Internal, internal_message(), DetailsView::Empty)
        },
    }
}

/// Whether a single cause is a dependency outage.
pub fn is_unavailable_dependency_error(cause: &FailureCause) -> (b: bool)
    ensures
        b == is_dependency_outage(*cause),
{
    match cause {
        FailureCause::Database(d) => match d {
            DatabaseFailure::PoolClosed | DatabaseFailure::PoolTimedOut | DatabaseFailure::Io
            | DatabaseFailure::Tls | DatabaseFailure::Configuration => true,
            _ => false,
        },
        FailureCause::HttpClient => true,
        FailureCause::Other => false,
    }
}

fn any_dependency_outage(causes: &Vec<FailureCause>) -> (b: bool)
    ensures
        b == has_dependency_outage(causes@),
{
    let mut i: usize = 0;
    while i < causes.len()
        invariant
            i <= causes.len(),
            forall|j: int| 0 <= j < i ==> !is_dependency_outage(#[trigger] causes@[j]),
        decreases causes.len() - i,
    {
        if is_unavailable_dependency_error(&causes[i]) {
            return true;
        }
        i = i + 1;
    }
    false
}

/// Whether some cause of the failure is a lookup that found no row.
pub fn is_row_not_found(report: &FailureReport) -> (b: bool)
    ensures
        b == has_row_not_found(report.causes@),
{
    let mut i: usize = 0;
    while i < report.causes.len()
        invariant
            i <= report.causes.len(),
            forall|j: int| 0 <= j < i ==> #[trigger] report.causes@[j] != FailureCause::Database(DatabaseFailure::RowNotFound),
        decreases report.causes.len() - i,
    {
        match report.causes[i] {
            FailureCause::Database(DatabaseFailure::RowNotFound) => {
                return true;
            },
            _ => {},
        }
        i = i + 1;
    }
    false
}

/// Answers a failure: see [`report_answer`].
pub fn api_error_from_report(report: FailureReport) -> (a: ApiError)
    ensures
        a@ == report_answer(report@),
        report@.domain is None && (exists|i: int| 0 <= i < report@.causes.len() && #[trigger] is_dependency_outage(report@.causes[i]))
            ==> a@ == answer(ErrorKind::Unavailable, outage_message(), DetailsView::Empty),
        report@.domain is None && (forall|i: int| 0 <= i < report@.causes.len() ==> !is_dependency_outage(#[trigger] report@.causes[i]))
            ==> a@ == answer(ErrorKind::Internal, internal_message(), DetailsView::Empty),
{
    proof {
        law_outage_anywhere_in_the_chain_is_unavailable(report@);
    }
    match report.domain {
        Some(domain) => ApiError::from_domain(domain),
        None => {
            if any_dependency_outage(&report.causes) {
                ApiError::unavailable(String::from_str("runtime dependency unavailable"))
            } else {
                ApiError::from_domain(DomainError::internal_safe())
            }
        },
    }
}

/// Answers a failure of a lookup of `entity` by `id`: a lookup that found no row
/// is a not-found error about that entity, any other failure is answered as usual.
pub fn map_missing_entity(report: FailureReport, entity: &str, id: &str) -> (a: ApiError)
    ensures
        a@ == if has_row_not_found(report@.causes) {
            answer(ErrorKind::NotFound, not_found_message(entity@, id@), DetailsView::Entity(entity@, id@))
        } else {
            report_answer(report@)
        },
{
    if is_row_not_found(&report) {
        ApiError::not_found(entity, id)
    } else {
        api_error_from_report(report)
    }
}

/// Turns a request body that could not be read into a bad-request error that
/// carries the reader's explanation.
pub fn parse_json<T>(payload: Result<T, String>) -> (r: Result<T, ApiError>)
    ensures
        match payload {
            Ok(v) => r == Ok::<T, ApiError>(v),
            Err(text) => r matches Err(e) && e@ == answer(ErrorKind::BadRequest, text@, DetailsView::Empty),
        },
{
    match payload {
        Ok(v) => Ok(v),
        Err(text) => Err(ApiError::bad_request(text)),
    }
}

} // verus!

verus! {

/// A failure without a domain error is answered `503 unavailable` as soon as
/// any cause in its chain, at any position, is a closed or timed-out pool, an
/// I/O, TLS or configuration failure of the database, or a failure of the HTTP
/// client; it is answered `500` only when no cause in the chain is one of these.
pub proof fn law_outage_anywhere_in_the_chain_is_unavailable(r: FailureReportView)
    ensures
        r.domain is None && (exists|i: int| 0 <= i < r.causes.len() && {
            let c = #[trigger] r.causes[i];
            ||| c == FailureCause::Database(DatabaseFailure::PoolClosed)
            ||| c == FailureCause::Database(DatabaseFailure::PoolTimedOut)
            ||| c == FailureCause::Database(DatabaseFailure::Io)
            ||| c == FailureCause::Database(DatabaseFailure::Tls)
            ||| c == FailureCause::Database(DatabaseFailure::Configuration)
            ||| c == FailureCause::HttpClient
        }) ==> report_answer(r).status == 503 && report_answer(r).code == "unavailable"@
            && report_answer(r).message == outage_message(),
        r.domain is None && (forall|i: int| 0 <= i < r.causes.len() ==> {
            let c = #[trigger] r.causes[i];
            &&& c != FailureCause::Database(DatabaseFailure::PoolClosed)
            &&& c != FailureCause::Database(DatabaseFailure::PoolTimedOut)
            &&& c != FailureCause::Database(DatabaseFailure::Io)
            &&& c != FailureCause::Database(DatabaseFailure::Tls)
            &&& c != FailureCause::Database(DatabaseFailure::Configuration)
            &&& c != FailureCause::HttpClient
        }) ==> report_answer(r).status == 500 && report_answer(r).code == "internal_error"@
            && report_answer(r).message == internal_message(),
{
    if r.domain is None {
        if exists|i: int| 0 <= i < r.causes.len() && {
            let c = #[trigger] r.causes[i];
            ||| c == FailureCause::Database(DatabaseFailure::PoolClosed)
            ||| c == FailureCause::Database(DatabaseFailure::PoolTimedOut)
            ||| c == FailureCause::Database(DatabaseFailure::Io)
            ||| c == FailureCause::Database(DatabaseFailure::Tls)
            ||| c == FailureCause::Database(DatabaseFailure::Configuration)
            ||| c == FailureCause::HttpClient
        } {
            let i = choose|i: int| 0 <= i < r.causes.len() && {
                let c = #[trigger] r.causes[i];
                ||| c == FailureCause::Database(DatabaseFailure::PoolClosed)
                ||| c == FailureCause::Database(DatabaseFailure::PoolTimedOut)
                ||| c == FailureCause::Database(DatabaseFailure::Io)
                ||| c == FailureCause::Database(DatabaseFailure::Tls)
                ||| c == FailureCause::Database(DatabaseFailure::Configuration)
                ||| c == FailureCause::HttpClient
            };
            assert(is_dependency_outage(r.causes[i]));
        }
    }
}

/// The answer to a failure depends on its domain error and its causes, never
/// on its text.
pub proof fn law_text_never_decides(r: FailureReportView, text: Seq<char>)
    ensures
        report_answer(r) == report_answer(FailureReportView { text, ..r }),
{
}

/// A failure that carries no domain error and no dependency outage is answered
/// as an internal error with the generic message, whatever it says.
pub proof fn law_untyped_failures_are_internal(r: FailureReportView)
    requires
        r.domain is None,
        forall|i: int| 0 <= i < r.causes.len() ==> !is_dependency_outage(#[trigger] r.causes[i]),
    ensures
        report_answer(r) == answer(ErrorKind::Internal, internal_message(), DetailsView::Empty),
        report_answer(r).status == 500,
        report_answer(r).code == "internal_error"@,
{
}

/// A failure that carries a domain error is answered with the status and code
/// of its kind, and with its own message and details.
pub proof fn law_domain_errors_keep_their_kind(r: FailureReportView)
    requires
        r.domain is Some,
    ensures
        report_answer(r).status == crate::errors::kind_status(r.domain->0.kind),
        report_answer(r).code == crate::errors::kind_code(r.domain->0.kind),
        report_answer(r).message == r.domain->0.message,
        report_answer(r).details == r.domain->0.details,
{
}

} // verus!
