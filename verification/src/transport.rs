//! The shape of a failed remote exchange, and the rule that turns one into a
//! domain error.
//!
//! A remote operation either never produced a response (a connector failure)
//! or answered with an HTTP status code and, when the body matched one of the
//! expected structured shapes, a decoded error body. Every operation maps
//! such a failure to exactly one variant of its own error enumeration: a
//! caller-supplied classification table is consulted for response failures,
//! and a default covers connector failures, where no status exists to
//! classify.

use vstd::prelude::*;

verus! {

/// Field-level reasons of a structured bad-request body: the remote side's
/// complaints about the query, when it supplied any.
#[derive(Debug, Clone)]
pub struct BadRequestDetails {
    pub query: Option<Vec<String>>,
}

/// The closed set of structured error-body shapes a response failure may
/// decode to. A body that matches none of them arrives as `None` in
/// [`TransportFailure::Response`].
pub enum ErrorBody {
    BadRequest(BadRequestDetails),
}

/// What a facade decides before any remote exchange: either send the
/// request it hands back, or settle locally with the given result and make
/// no remote call at all.
pub enum Step<P, T> {
    Call(P),
    Done(T),
}

/// A failed remote exchange: either no response was obtained, or the remote
/// side answered with a status code and possibly a decoded error body.
pub enum TransportFailure<B> {
    /// The connector produced no response at all (network error,
    /// serialization error, and the like). There is no status to classify.
    Connector,
    /// The remote side responded. `body` holds the structured error body
    /// when it decoded as one of the expected shapes, and `None` otherwise.
    Response { status: u16, body: Option<B> },
}

/// The single domain error that a failure translates to: the classification
/// table's verdict for a response failure, the default otherwise.
pub open spec fn translated<B, E>(
    failure: TransportFailure<B>,
    default_error: E,
    table: spec_fn(u16, Option<B>) -> E,
) -> E {
    match failure {
        TransportFailure::Connector => default_error,
        TransportFailure::Response { status, body } => table(status, body),
    }
}

/// Translate a failed remote exchange into a domain error.
///
/// The classification rule `classify` is consulted only for response
/// failures; a connector failure yields `default_error` without `classify`
/// ever being invoked (its precondition is not even required there).
pub fn map_autogenerated_error<B, E, F: Fn(u16, Option<B>) -> E>(
    failure: TransportFailure<B>,
    default_error: E,
    classify: F,
) -> (r: E)
    requires
        failure matches TransportFailure::Response { status, body } ==> call_requires(
            classify,
            (status, body),
        ),
    ensures
        failure is Connector ==> r == default_error,
        failure matches TransportFailure::Response { status, body } ==> call_ensures(
            classify,
            (status, body),
            r,
        ),
{
    match failure {
        TransportFailure::Connector => default_error,
        TransportFailure::Response { status, body } => classify(status, body),
    }
}

/// Totality of translation: every failure maps to exactly one domain error —
/// the table's verdict when a response was obtained, the default otherwise.
/// No (status, body) combination is left untranslated, because the table is
/// a total function of the pair.
pub proof fn lemma_translation_total<B, E>(
    failure: TransportFailure<B>,
    default_error: E,
    table: spec_fn(u16, Option<B>) -> E,
)
    ensures
        failure matches TransportFailure::Response { status, body } ==> translated(
            failure,
            default_error,
            table,
        ) == table(status, body),
        failure is Connector ==> translated(failure, default_error, table) == default_error,
{
}

/// Connector failures short-circuit: the translation of a connector failure
/// is the default error whatever the classification table would have said —
/// two arbitrary tables yield the same result there.
pub proof fn lemma_connector_short_circuit<B, E>(
    default_error: E,
    table_a: spec_fn(u16, Option<B>) -> E,
    table_b: spec_fn(u16, Option<B>) -> E,
)
    ensures
        translated(TransportFailure::<B>::Connector, default_error, table_a) == default_error,
        translated(TransportFailure::<B>::Connector, default_error, table_a) == translated(
            TransportFailure::<B>::Connector,
            default_error,
            table_b,
        ),
{
}

} // verus!
