//! Queries of the `/programs` endpoint.

use vstd::prelude::*;

use crate::api::{validate_paged_targets, Validate};
use crate::error::AppError;
use crate::program::ProgramContent;
use crate::text::{contains_text, holds_text};
use crate::wire_enums::TargetLabel;

verus! {

/// Filter and paging of a listing of programs.
#[derive(Debug)]
pub struct QueryParams {
    /// Only programs with a target of this type...
    pub target_type: Option<TargetLabel>,
    /// ...and one of these values.
    pub target_values: Option<Vec<String>>,
    /// Number of matching programs to pass over.
    pub skip: i64,
    /// Largest number of programs to list.
    pub limit: i64,
}

/// The default page size, 50.
pub fn get_50() -> (r: i64)
    ensures
        r == 50,
{
    50
}

impl QueryParams {
    /// No filter: the first page of all programs.
    pub fn new() -> (q: QueryParams)
        ensures
            q.target_type is None,
            q.target_values is None,
            q.skip == 0,
            q.limit == 50,
    {
        QueryParams { target_type: None, target_values: None, skip: 0, limit: get_50() }
    }
}

impl Validate for QueryParams {
    /// `skip` is at least 0, `limit` lies in 1..=50, and a target type comes
    /// with target values and the other way round.
    open spec fn valid(&self) -> bool {
        &&& self.skip >= 0
        &&& 1 <= self.limit <= 50
        &&& (self.target_type is Some) == (self.target_values is Some)
    }

    fn validate(&self) -> (r: Result<(), AppError>) {
        validate_paged_targets(
            self.skip,
            self.limit,
            self.target_type.is_some(),
            self.target_values.is_some(),
        )
    }
}

/// Whether a program passes the filter; of the target types only the
/// program name can be filtered by.
pub open spec fn program_matches(q: QueryParams, c: ProgramContent) -> Result<bool, AppError> {
    match q.target_type {
        None => Ok(true),
        Some(t) => if t is ProgramName {
            match q.target_values {
                None => Err(
                    AppError::BadRequest(
                        "If targetType is specified, targetValues must be specified as well",
                    ),
                ),
                Some(values) => Ok(holds_text(values@, c.program_name@)),
            }
        } else {
            Err(AppError::NotImplemented("only filtering by program name is supported"))
        },
    }
}

impl QueryParams {
    /// Whether the program passes the filter.
    pub fn matches(&self, content: &ProgramContent) -> (r: Result<bool, AppError>)
        ensures
            r == program_matches(*self, *content),
    {
        match &self.target_type {
            None => Ok(true),
            Some(TargetLabel::ProgramName) => match &self.target_values {
                None => Err(
                    AppError::BadRequest(
                        "If targetType is specified, targetValues must be specified as well",
                    ),
                ),
                Some(values) => Ok(contains_text(values, content.program_name.as_str())),
            },
            Some(_) => Err(AppError::NotImplemented("only filtering by program name is supported")),
        }
    }
}


impl Validate for ProgramContent {
    /// Every program description is a URL.
    open spec fn valid(&self) -> bool {
        match self.program_descriptions {
            None => true,
            Some(ds) => crate::program::descriptions_valid(ds@),
        }
    }

    fn validate(&self) -> (r: Result<(), AppError>) {
        if ProgramContent::validate(self) {
            Ok(())
        } else {
            let mut failures: Vec<crate::api::FieldFailure> = Vec::new();
            failures.push(crate::api::FieldFailure { field: "program_descriptions", code: "url", params: Vec::new() });
            Err(crate::api::validation_error(&failures))
        }
    }
}

} // verus!
