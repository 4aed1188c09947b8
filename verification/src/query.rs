//! The query-string extractor as a source of data to validate.

use vstd::prelude::*;
use axum::extract::Query;
use crate::{HasValidate, HasValidateArgs};

verus! {

/// The query-string extractor of axum: one public field, the deserialized
/// value.
#[verifier::external_type_specification]
#[verifier::reject_recursive_types(T)]
pub struct ExQuery<T>(Query<T>);

impl<T> HasValidate for Query<T> {
    type Validate = T;

    /// The value that the query string was deserialized into.
    fn get_validate(&self) -> (target: &T)
        ensures
            *target == self.0,
    {
        &self.0
    }
}

impl<'v, T> HasValidateArgs<'v> for Query<T> {
    type ValidateArgs = T;

    /// The value that the query string was deserialized into.
    fn get_validate_args(&self) -> (target: &T)
        ensures
            *target == self.0,
    {
        &self.0
    }
}

} // verus!
