//! Queries and access rules of the `/vens` endpoint.

use vstd::prelude::*;

use crate::api::resource::contains_ven;
use crate::api::{validate_paged_targets, Validate};
use crate::error::AppError;
use crate::ids::VenId;
use crate::jwt::{claims_acts_as, claims_ven, claims_ven_manager, Claims};
use crate::wire_enums::TargetLabel;

verus! {

/// Filter and paging of a listing of VENs.
#[derive(Debug)]
pub struct QueryParams {
    /// Only VENs with a target of this type...
    pub target_type: Option<TargetLabel>,
    /// ...and one of these values.
    pub target_values: Option<Vec<String>>,
    /// Number of matching VENs to pass over.
    pub skip: i64,
    /// Largest number of VENs to list.
    pub limit: i64,
}

/// The default page size, 50.
pub fn get_50() -> (r: i64)
    ensures
        r == 50,
{
    50
}

impl QueryParams {
    /// No filter: the first page of all VENs.
    pub fn new() -> (q: QueryParams)
        ensures
            q.target_type is None,
            q.target_values is None,
            q.skip == 0,
            q.limit == 50,
    {
        QueryParams { target_type: None, target_values: None, skip: 0, limit: get_50() }
    }
}

impl Validate for QueryParams {
    /// `skip` is at least 0, `limit` lies in 1..=50, and a target type comes
    /// with target values and the other way round.
    open spec fn valid(&self) -> bool {
        &&& self.skip >= 0
        &&& 1 <= self.limit <= 50
        &&& (self.target_type is Some) == (self.target_values is Some)
    }

    fn validate(&self) -> (r: Result<(), AppError>) {
        validate_paged_targets(
            self.skip,
            self.limit,
            self.target_type.is_some(),
            self.target_values.is_some(),
        )
    }
}

/// A VEN may be read by itself and by VEN managers. A VEN client that asks
/// for another VEN is told so, any other client that it lacks the role.
pub fn may_read_ven(user: &Claims, id: &VenId) -> (r: Result<(), AppError>)
    ensures
        r is Ok <==> (if claims_ven(*user) {
            claims_acts_as(*user, id@)
        } else {
            claims_ven_manager(*user)
        }),
        r matches Err(e) ==> (if claims_ven(*user) {
            e == AppError::Forbidden("User does not have access to this VEN")
        } else {
            e == AppError::Forbidden("User is not a VEN or VEN Manager")
        }),
{
    if user.is_ven() {
        if !contains_ven(&user.ven_ids(), id) {
            return Err(AppError::Forbidden("User does not have access to this VEN"));
        }
    } else if !user.is_ven_manager() {
        return Err(AppError::Forbidden("User is not a VEN or VEN Manager"));
    }
    Ok(())
}

} // verus!
