//! Queries of the `/reports` endpoint.

use vstd::prelude::*;

use crate::api::{range_failure, validation_error, FieldFailure, Validate};
use crate::error::AppError;
use crate::ids::{EventId, ProgramId};
use crate::report::ReportContent;
use crate::text::str_eq;

verus! {

/// Filter and paging of a listing of reports.
#[derive(Debug)]
pub struct QueryParams {
    /// Only reports of this program.
    pub program_id: Option<ProgramId>,
    /// Only reports on this event.
    pub event_id: Option<EventId>,
    /// Only reports of this client.
    pub client_name: Option<String>,
    /// Number of matching reports to pass over.
    pub skip: i64,
    /// Largest number of reports to list.
    pub limit: i64,
}

/// The default page size, 50.
pub fn get_50() -> (r: i64)
    ensures
        r == 50,
{
    50
}

impl QueryParams {
    /// No filter: the first page of all reports.
    pub fn new() -> (q: QueryParams)
        ensures
            q.program_id is None,
            q.event_id is None,
            q.client_name is None,
            q.skip == 0,
            q.limit == 50,
    {
        QueryParams { program_id: None, event_id: None, client_name: None, skip: 0, limit: get_50() }
    }
}

impl Validate for QueryParams {
    /// Only the page size is bounded, by 50.
    open spec fn valid(&self) -> bool {
        self.limit <= 50
    }

    fn validate(&self) -> (r: Result<(), AppError>) {
        if self.limit <= 50 {
            Ok(())
        } else {
            let mut failures: Vec<FieldFailure> = Vec::new();
            failures.push(range_failure("limit", None, Some(50), self.limit));
            Err(validation_error(&failures))
        }
    }
}

/// Whether a report passes the filter: program, event and client must be
/// those given, where given.
pub open spec fn report_matches(q: QueryParams, c: ReportContent) -> bool {
    &&& (q.program_id matches Some(p) ==> c.program_id@ == p@)
    &&& (q.event_id matches Some(e) ==> c.event_id@ == e@)
    &&& (q.client_name matches Some(n) ==> c.client_name@ == n@)
}

impl QueryParams {
    /// Whether the report passes the filter.
    pub fn matches(&self, content: &ReportContent) -> (r: bool)
        ensures
            r == report_matches(*self, *content),
    {
        if let Some(p) = &self.program_id {
            if !content.program_id.same_as(p) {
                return false;
            }
        }
        if let Some(e) = &self.event_id {
            if !content.event_id.same_as(e) {
                return false;
            }
        }
        if let Some(n) = &self.client_name {
            if !str_eq(content.client_name.as_str(), n.as_str()) {
                return false;
            }
        }
        true
    }
}


impl Validate for ReportContent {
    /// Every confidence lies in 0..=100.
    open spec fn valid(&self) -> bool {
        match self.payload_descriptors {
            None => true,
            Some(ds) => crate::report::confidences_valid(ds@),
        }
    }

    fn validate(&self) -> (r: Result<(), AppError>) {
        if ReportContent::validate(self) {
            Ok(())
        } else {
            let mut failures: Vec<FieldFailure> = Vec::new();
            failures.push(FieldFailure { field: "payload_descriptors", code: "range", params: Vec::new() });
            Err(validation_error(&failures))
        }
    }
}

} // verus!
