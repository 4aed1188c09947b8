//! Why a request was turned away, and how that is answered.

use vstd::prelude::*;
use validator::ValidationErrors;

verus! {

/// The status of the answer to a request whose data failed validation:
/// 400, Bad Request.
pub const VALIDATION_FAILURE_STATUS: u16 = 400;

/// Why a request was turned away.
#[derive(Debug, PartialEq)]
pub enum ValidRejection<E> {
    /// The data was extracted and failed validation.
    Valid(ValidationErrors),
    /// The extractor itself turned the request away.
    Inner(E),
}

/// How a rejection is answered.
#[derive(Debug, PartialEq, Eq)]
pub enum Reply<E> {
    /// A plain-text answer with this status and body.
    Text { status: u16, body: String },
    /// The answer is left to the extractor's own rejection.
    Inner(E),
}

/// The errors in words: `to_string` on `validator::ValidationErrors`, which
/// runs that type's `Display`. Nothing is claimed of the text: it lists the
/// fields in the order in which a hash map is walked, which differs from run
/// to run.
#[verifier::external_body]
fn describe(errors: &ValidationErrors) -> (text: String) {
    errors.to_string()
}

/// Whether `text` is a wording of `errors`: a text that putting these errors
/// into words may give. It is a relation and not a function of the errors,
/// since the order of the fields in the text is not fixed.
pub closed spec fn worded(errors: ValidationErrors, text: String) -> bool {
    call_ensures(describe, (&errors,), text)
}

impl<E> Reply<E> {
    /// The answer to a request whose data failed validation, given the
    /// errors in words.
    pub fn validation_failure(text: String) -> (reply: Reply<E>)
        ensures
            reply == (Reply::<E>::Text { status: VALIDATION_FAILURE_STATUS, body: text }),
    {
        Reply::Text { status: VALIDATION_FAILURE_STATUS, body: text }
    }
}

impl<E> ValidRejection<E> {
    /// Whether `reply` answers this rejection. A validation failure is
    /// answered in plain text with status 400 and a body that is a wording
    /// of its errors. The extractor's own rejection is answered by itself,
    /// handed on untouched.
    pub open spec fn answered_by(self, reply: Reply<E>) -> bool {
        match self {
            ValidRejection::Valid(errors) => {
                &&& reply is Text
                &&& reply->status == VALIDATION_FAILURE_STATUS
                &&& worded(errors, reply->body)
            },
            ValidRejection::Inner(rejection) => reply == Reply::Inner(rejection),
        }
    }

    /// The answer to this rejection. A validation failure is answered with
    /// status 400 and the errors in words; the extractor's own rejection is
    /// handed on untouched, so that it is answered as the extractor alone
    /// would have answered.
    pub fn into_reply(self) -> (reply: Reply<E>)
        ensures
            self.answered_by(reply),
            self matches ValidRejection::Valid(errors) ==> worded(errors, reply->body),
    {
        match self {
            ValidRejection::Valid(errors) => Reply::validation_failure(describe(&errors)),
            ValidRejection::Inner(rejection) => Reply::Inner(rejection),
        }
    }
}

} // verus!
