//! The pairing of a status with a body that every request ends in.

use crate::reason::Reason;
use vstd::prelude::*;

verus! {

/// Status of a reply whose body is fully populated.
pub const STATUS_OK: u16 = 200;

/// Status of a reply whose body is the endpoint's empty shape.
pub const STATUS_SERVER_ERROR: u16 = 500;

/// What a request ends in: a status and a body of the endpoint's type.
///
/// The two are set together, by `success` or by `failure`, and cannot be
/// changed afterwards.
#[derive(Debug, PartialEq)]
pub struct OutcomeEnvelope<T> {
    status: u16,
    body: T,
}

impl<T> OutcomeEnvelope<T> {
    #[verifier::type_invariant]
    spec fn status_is_known(&self) -> bool {
        self.status == STATUS_OK || self.status == STATUS_SERVER_ERROR
    }

    /// The status of the envelope.
    pub closed spec fn status_spec(&self) -> u16 {
        self.status
    }

    /// The body of the envelope.
    pub closed spec fn body_spec(&self) -> &T {
        &self.body
    }

    /// The envelope of a fully populated body.
    pub fn success(body: T) -> (envelope: Self)
        ensures
            envelope.status() == STATUS_OK,
            envelope.body() == body,
    {
        OutcomeEnvelope { status: STATUS_OK, body }
    }

    /// The envelope of a failed request; `empty` is the endpoint's empty body.
    pub fn failure(empty: T) -> (envelope: Self)
        ensures
            envelope.status() == STATUS_SERVER_ERROR,
            envelope.body() == empty,
    {
        OutcomeEnvelope { status: STATUS_SERVER_ERROR, body: empty }
    }

    /// The status: success or server error, nothing else.
    #[verifier::when_used_as_spec(status_spec)]
    pub fn status(&self) -> (code: u16)
        ensures
            code == self.status(),
            code == STATUS_OK || code == STATUS_SERVER_ERROR,
    {
        proof {
            use_type_invariant(self);
        }
        self.status
    }

    /// The body.
    #[verifier::when_used_as_spec(body_spec)]
    pub fn body(&self) -> (body: &T)
        ensures
            body == self.body(),
    {
        &self.body
    }

    /// Tells whether the request succeeded.
    pub fn is_success(&self) -> (ok: bool)
        ensures
            ok == (self.status() == STATUS_OK),
    {
        self.status == STATUS_OK
    }

    /// Takes the envelope apart into its status and its body.
    pub fn into_parts(self) -> (parts: (u16, T))
        ensures
            parts.0 == self.status(),
            parts.1 == self.body(),
    {
        (self.status, self.body)
    }
}

/// The status that the result of a pipeline is answered with.
pub open spec fn settled_status<T>(result: Result<T, Reason>) -> u16 {
    if result is Ok {
        STATUS_OK
    } else {
        STATUS_SERVER_ERROR
    }
}

/// The body that the result of a pipeline is answered with; `empty` is the
/// endpoint's empty body.
pub open spec fn settled_body<T>(result: Result<T, Reason>, empty: T) -> T {
    match result {
        Ok(body) => body,
        Err(_) => empty,
    }
}

/// Maps the result of a pipeline to what the client receives: the value with
/// the success status, or the endpoint's empty body with the server-error
/// status, whatever the reason of the failure.
pub fn settle<T>(result: Result<T, Reason>, empty: T) -> (envelope: OutcomeEnvelope<T>)
    ensures
        envelope.status() == settled_status(result),
        envelope.body() == settled_body(result, empty),
{
    match result {
        Ok(body) => OutcomeEnvelope::success(body),
        Err(_) => OutcomeEnvelope::failure(empty),
    }
}

/// Status and body are never at odds: the status is one of the two known
/// ones, it is the success status exactly when the pipeline succeeded, the
/// body is then the pipeline's value, and under the server-error status the
/// body is the endpoint's empty body.
pub proof fn status_agrees_with_body<T>(result: Result<T, Reason>, empty: T)
    ensures
        settled_status(result) == STATUS_OK || settled_status(result) == STATUS_SERVER_ERROR,
        settled_status(result) == STATUS_OK <==> result is Ok,
        settled_status(result) == STATUS_OK ==> settled_body(result, empty) == result->Ok_0,
        settled_status(result) == STATUS_SERVER_ERROR ==> settled_body(result, empty) == empty,
{
}

} // verus!
