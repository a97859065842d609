//! How a request can fail.

use vstd::prelude::*;
use crate::rules::ConstraintViolation;

verus! {

/// A failure reported for a call that was issued. `E` is whatever the
/// environment reports; it is carried and never looked into.
#[derive(Debug, PartialEq, Eq)]
pub enum CallFailure<E> {
    /// The lending program ran and rejected the call.
    ExternalCallFailure(E),
    /// The environment could not carry the invocation out.
    PlatformFailure(E),
}

/// Why a request was not carried out. Every failure ends the request; none is
/// retried.
#[derive(Debug, PartialEq, Eq)]
pub enum HandlerError<E> {
    /// A relationship rule did not hold. Nothing was sent to the lending
    /// program.
    ConstraintViolation(ConstraintViolation),
    /// The lending program rejected the call.
    ExternalCallFailure(E),
    /// The environment could not carry the invocation out.
    PlatformFailure(E),
}

/// What the caller is told, given what the call reported: success stays
/// success, and a failure keeps its kind and its payload.
pub open spec fn propagated<E>(reply: Result<(), CallFailure<E>>) -> Result<(), HandlerError<E>> {
    match reply {
        Ok(_) => Ok(()),
        Err(CallFailure::ExternalCallFailure(e)) => Err(HandlerError::ExternalCallFailure(e)),
        Err(CallFailure::PlatformFailure(e)) => Err(HandlerError::PlatformFailure(e)),
    }
}

/// Hands the outcome of an issued call back to the caller unchanged.
pub fn propagate<E>(reply: Result<(), CallFailure<E>>) -> (result: Result<(), HandlerError<E>>)
    ensures
        result == propagated(reply),
{
    match reply {
        Ok(_) => Ok(()),
        Err(CallFailure::ExternalCallFailure(e)) => Err(HandlerError::ExternalCallFailure(e)),
        Err(CallFailure::PlatformFailure(e)) => Err(HandlerError::PlatformFailure(e)),
    }
}

/// Propagation hides nothing: it reports success exactly when the call
/// succeeded, never turns a failed call into a rule violation, and tells any
/// two different outcomes apart.
pub proof fn lemma_propagation_is_faithful<E>(
    reply: Result<(), CallFailure<E>>,
    other: Result<(), CallFailure<E>>,
)
    ensures
        propagated(reply) is Ok <==> reply is Ok,
        !(propagated(reply) matches Err(HandlerError::ConstraintViolation(_))),
        propagated(reply) == propagated(other) ==> reply == other,
{
    match (reply, other) {
        (Ok(a), Ok(b)) => {
            assert(a == b);
        },
        _ => {},
    }
}

} // verus!
