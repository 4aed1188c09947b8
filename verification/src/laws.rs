//! What holds of validated extraction on every input.

use vstd::prelude::*;
use validator::ValidationErrors;
use crate::{outcome, worded, Reply, Valid, ValidRejection, VALIDATION_FAILURE_STATUS};

verus! {

/// Data that passes validation is wrapped, and the wrapper holds exactly the
/// value that the extractor produced.
pub proof fn lemma_valid_data_is_wrapped_unchanged<E, R>(
    inner: E,
    verdict: Result<(), ValidationErrors>,
)
    requires
        verdict is Ok,
    ensures
        outcome::<E, R>(Ok(inner), verdict) == Ok::<Valid<E>, ValidRejection<R>>(Valid(inner)),
        outcome::<E, R>(Ok(inner), verdict)->Ok_0.0 == inner,
{
}

/// Data that fails validation is never wrapped: the request is turned away
/// with the errors that validation found, and every answer to that rejection
/// has status 400 and a body that words those errors.
pub proof fn lemma_invalid_data_is_rejected_with_bad_request<E, R>(
    inner: E,
    errors: ValidationErrors,
)
    ensures
        outcome::<E, R>(Ok(inner), Err(errors)) == Err::<Valid<E>, ValidRejection<R>>(
            ValidRejection::Valid(errors),
        ),
        forall|reply: Reply<R>| #[trigger]
            ValidRejection::<R>::Valid(errors).answered_by(reply) ==> reply is Text
                && reply->status == VALIDATION_FAILURE_STATUS && worded(errors, reply->body),
{
}

/// A request that the extractor itself turned away is never wrapped,
/// whatever validation would have said: the rejection is the extractor's
/// own, and so is the only answer to it. The status of a validation failure
/// plays no part.
pub proof fn lemma_extractor_rejection_is_passed_on<E, R>(
    rejection: R,
    verdict: Result<(), ValidationErrors>,
)
    ensures
        outcome::<E, R>(Err(rejection), verdict) == Err::<Valid<E>, ValidRejection<R>>(
            ValidRejection::Inner(rejection),
        ),
        forall|reply: Reply<R>| #[trigger]
            ValidRejection::Inner(rejection).answered_by(reply) ==> reply == Reply::Inner(
                rejection,
            ),
{
}

/// Repeating a request repeats its outcome: what becomes of a request is
/// decided by what was extracted and by the verdict alone, and a valid
/// request succeeds with the same value every time.
pub proof fn lemma_repeated_request_has_same_outcome<E, R>(
    extracted: Result<E, R>,
    first: Result<(), ValidationErrors>,
    second: Result<(), ValidationErrors>,
)
    requires
        first == second || (first is Ok && second is Ok),
    ensures
        outcome(extracted, first) == outcome(extracted, second),
        extracted is Ok && first is Ok ==> outcome(extracted, second) is Ok && outcome(
            extracted,
            second,
        )->Ok_0.0 == extracted->Ok_0,
{
}

} // verus!
