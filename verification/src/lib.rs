//! Validation on top of request extractors.
//!
//! An extractor names the data that is to be validated ([`HasValidate`]);
//! [`Valid`] holds an extractor whose data passed validation, and
//! [`ValidRejection`] says why a request was turned away.

use vstd::prelude::*;
use validator::ValidationErrors;

pub mod laws;
pub mod query;
pub mod rejection;

pub use rejection::{worded, Reply, ValidRejection, VALIDATION_FAILURE_STATUS};

verus! {

/// The error set of the `validator` crate. It is carried through unread:
/// nothing here depends on what it holds.
#[verifier::external_type_specification]
#[verifier::external_body]
pub struct ExValidationErrors(ValidationErrors);

/// An extractor that exposes the data on which validation is run.
///
/// `get_validate` is a plain accessor. An implementation says in its own
/// `ensures` which data it hands out; [`exposes`] refers to that.
pub trait HasValidate {
    /// The type of the data that is validated.
    type Validate;

    /// Borrows the data that is validated.
    fn get_validate(&self) -> &Self::Validate;
}

/// An extractor that exposes data whose validation takes arguments, which
/// the caller supplies where validation is run.
///
/// An implementation says in its own `ensures` which data it hands out;
/// [`exposes_for_args`] refers to that.
pub trait HasValidateArgs<'v> {
    /// The type of the data that is validated with arguments.
    type ValidateArgs;

    /// Borrows the data that is validated with arguments.
    fn get_validate_args(&self) -> &Self::ValidateArgs;
}

/// Whether `target` is data that `extractor` may hand out for validation.
pub open spec fn exposes<E: HasValidate>(extractor: E, target: E::Validate) -> bool {
    call_ensures(E::get_validate, (&extractor,), &target)
}

/// Whether `target` is data that `extractor` may hand out for validation
/// with arguments.
pub open spec fn exposes_for_args<'v, E: HasValidateArgs<'v>>(
    extractor: E,
    target: E::ValidateArgs,
) -> bool {
    call_ensures(E::get_validate_args, (&extractor,), &target)
}

/// An extractor whose data passed validation.
#[derive(Debug, PartialEq, Eq)]
pub struct Valid<E>(pub E);

/// What becomes of a request, given what extraction produced and the verdict
/// of validation on the extracted data. A failed extraction is passed on as
/// it is, whatever the verdict; an extracted value is wrapped unchanged when
/// validation passed, and replaced by the errors when it did not.
pub open spec fn outcome<E, R>(
    extracted: Result<E, R>,
    verdict: Result<(), ValidationErrors>,
) -> Result<Valid<E>, ValidRejection<R>> {
    match extracted {
        Err(rejection) => Err(ValidRejection::Inner(rejection)),
        Ok(inner) => match verdict {
            Ok(_) => Ok(Valid(inner)),
            Err(errors) => Err(ValidRejection::Valid(errors)),
        },
    }
}

impl<E> Valid<E> {
    /// Gives back the extractor.
    pub fn into_inner(self) -> (inner: E)
        ensures
            inner == self.0,
    {
        self.0
    }

    /// Wraps an extracted value according to the verdict of validation.
    pub fn settle<R>(inner: E, verdict: Result<(), ValidationErrors>) -> (result: Result<
        Valid<E>,
        ValidRejection<R>,
    >)
        ensures
            result == outcome::<E, R>(Ok(inner), verdict),
    {
        match verdict {
            Ok(_) => Ok(Valid(inner)),
            Err(errors) => Err(ValidRejection::Valid(errors)),
        }
    }

    /// Turns the result of extraction into the result of validated
    /// extraction. `validate` is run once, on the data that the extractor
    /// exposes, and only when extraction succeeded.
    pub fn from_extraction<R, F>(extracted: Result<E, R>, validate: F) -> (result: Result<
        Valid<E>,
        ValidRejection<R>,
    >) where E: HasValidate, F: FnOnce(&E::Validate) -> Result<(), ValidationErrors>
        requires
            forall|target: E::Validate|
                extracted is Ok && #[trigger] exposes(extracted->Ok_0, target) ==> call_requires(
                    validate,
                    (&target,),
                ),
        ensures
            extracted is Err ==> result == outcome(extracted, Ok(())),
            extracted matches Ok(inner) ==> exists|
                target: E::Validate,
                verdict: Result<(), ValidationErrors>,
            |
                {
                    &&& exposes(inner, target)
                    &&& #[trigger] call_ensures(validate, (&target,), verdict)
                    &&& result == outcome(extracted, verdict)
                },
    {
        match extracted {
            Err(rejection) => Err(ValidRejection::Inner(rejection)),
            Ok(inner) => {
                let target = inner.get_validate();
                assert(exposes(inner, *target));
                let verdict = validate(target);
                Valid::settle(inner, verdict)
            },
        }
    }

    /// As [`Valid::from_extraction`], for an extractor whose validation takes
    /// arguments: `validate` holds them and hands them on.
    pub fn from_extraction_args<'v, R, F>(extracted: Result<E, R>, validate: F) -> (result: Result<
        Valid<E>,
        ValidRejection<R>,
    >) where E: HasValidateArgs<'v>, F: FnOnce(&E::ValidateArgs) -> Result<(), ValidationErrors>
        requires
            forall|target: E::ValidateArgs|
                extracted is Ok && #[trigger] exposes_for_args(extracted->Ok_0, target)
                    ==> call_requires(validate, (&target,)),
        ensures
            extracted is Err ==> result == outcome(extracted, Ok(())),
            extracted matches Ok(inner) ==> exists|
                target: E::ValidateArgs,
                verdict: Result<(), ValidationErrors>,
            |
                {
                    &&& exposes_for_args(inner, target)
                    &&& #[trigger] call_ensures(validate, (&target,), verdict)
                    &&& result == outcome(extracted, verdict)
                },
    {
        match extracted {
            Err(rejection) => Err(ValidRejection::Inner(rejection)),
            Ok(inner) => {
                let target = inner.get_validate_args();
                assert(exposes_for_args(inner, *target));
                let verdict = validate(target);
                Valid::settle(inner, verdict)
            },
        }
    }
}

impl<E: Clone> Clone for Valid<E> {
    fn clone(&self) -> (copy: Self)
        ensures
            cloned(self.0, copy.0),
    {
        Valid(self.0.clone())
    }
}

impl<E: Copy> Copy for Valid<E> {

}

impl<E> std::ops::Deref for Valid<E> {
    type Target = E;

    fn deref(&self) -> (inner: &E)
        ensures
            *inner == self.0,
    {
        &self.0
    }
}

} // verus!
