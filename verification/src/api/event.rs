//! Queries of the `/events` endpoint.

use vstd::prelude::*;

use crate::api::{validate_paged_targets, Validate};
use crate::error::AppError;
use crate::event::EventContent;
use crate::ids::ProgramId;
use crate::text::{contains_text, holds_text};
use crate::wire_enums::TargetLabel;

verus! {

/// Filter and paging of a listing of events.
#[derive(Debug)]
pub struct QueryParams {
    /// Only events of this program.
    pub program_id: Option<ProgramId>,
    /// Only events with a target of this type...
    pub target_type: Option<TargetLabel>,
    /// ...and one of these values.
    pub target_values: Option<Vec<String>>,
    /// Number of matching events to pass over.
    pub skip: i64,
    /// Largest number of events to list.
    pub limit: i64,
}

/// The default page size, 50.
pub fn get_50() -> (r: i64)
    ensures
        r == 50,
{
    50
}

impl QueryParams {
    /// No filter: the first page of all events.
    pub fn new() -> (q: QueryParams)
        ensures
            q.program_id is None,
            q.target_type is None,
            q.target_values is None,
            q.skip == 0,
            q.limit == 50,
    {
        QueryParams { program_id: None, target_type: None, target_values: None, skip: 0, limit: get_50() }
    }
}

impl Validate for QueryParams {
    /// `skip` is at least 0, `limit` lies in 1..=50, and a target type comes
    /// with target values and the other way round.
    open spec fn valid(&self) -> bool {
        &&& self.skip >= 0
        &&& 1 <= self.limit <= 50
        &&& (self.target_type is Some) == (self.target_values is Some)
    }

    fn validate(&self) -> (r: Result<(), AppError>) {
        validate_paged_targets(
            self.skip,
            self.limit,
            self.target_type.is_some(),
            self.target_values.is_some(),
        )
    }
}

/// Whether an event passes the filter: the program must match if one is
/// given; of the target types only the event name can be filtered by.
pub open spec fn event_matches(q: QueryParams, c: EventContent) -> Result<bool, AppError> {
    if q.program_id matches Some(p) && c.program_id@ != p@ {
        Ok(false)
    } else {
        match q.target_type {
            None => Ok(true),
            Some(t) => if t is EventName {
                match c.event_name {
                    None => Ok(false),
                    Some(name) => match q.target_values {
                        None => Err(
                            AppError::BadRequest(
                                "If targetType is specified, targetValues must be specified as well",
                            ),
                        ),
                        Some(values) => Ok(holds_text(values@, name@)),
                    },
                }
            } else {
                Err(AppError::NotImplemented("only filtering by event name is supported"))
            },
        }
    }
}

impl QueryParams {
    /// Whether the event passes the filter.
    pub fn matches(&self, content: &EventContent) -> (r: Result<bool, AppError>)
        ensures
            r == event_matches(*self, *content),
    {
        if let Some(program_id) = &self.program_id {
            if !content.program_id.same_as(program_id) {
                return Ok(false);
            }
        }
        match &self.target_type {
            None => Ok(true),
            Some(TargetLabel::EventName) => {
                match &content.event_name {
                    None => Ok(false),
                    Some(name) => match &self.target_values {
                        None => Err(
                            AppError::BadRequest(
                                "If targetType is specified, targetValues must be specified as well",
                            ),
                        ),
                        Some(values) => Ok(contains_text(values, name.as_str())),
                    },
                }
            },
            Some(_) => Err(AppError::NotImplemented("only filtering by event name is supported")),
        }
    }
}


impl Validate for EventContent {
    /// An event has no constraints beyond its shape.
    open spec fn valid(&self) -> bool {
        true
    }

    fn validate(&self) -> (r: Result<(), AppError>) {
        Ok(())
    }
}

} // verus!
