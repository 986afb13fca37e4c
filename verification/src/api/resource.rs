//! Queries and access rules of the `/vens/{id}/resources` endpoint.

use vstd::prelude::*;

use crate::api::{validate_paged_targets, Validate};
use crate::error::AppError;
use crate::ids::VenId;
use crate::jwt::{claims_acts_as, claims_ven, claims_ven_manager, ven_ids_view, Claims};
use crate::wire_enums::TargetLabel;

verus! {

/// Filter and paging of a listing of resources.
#[derive(Debug)]
pub struct QueryParams {
    /// Only resources with a target of this type...
    pub target_type: Option<TargetLabel>,
    /// ...and one of these values.
    pub target_values: Option<Vec<String>>,
    /// Number of matching resources to pass over.
    pub skip: i64,
    /// Largest number of resources to list.
    pub limit: i64,
}

/// The default page size, 50.
pub fn get_50() -> (r: i64)
    ensures
        r == 50,
{
    50
}

impl QueryParams {
    /// No filter: the first page of all resources.
    pub fn new() -> (q: QueryParams)
        ensures
            q.target_type is None,
            q.target_values is None,
            q.skip == 0,
            q.limit == 50,
    {
        QueryParams { target_type: None, target_values: None, skip: 0, limit: get_50() }
    }
}

impl Validate for QueryParams {
    /// `skip` is at least 0, `limit` lies in 1..=50, and a target type comes
    /// with target values and the other way round.
    open spec fn valid(&self) -> bool {
        &&& self.skip >= 0
        &&& 1 <= self.limit <= 50
        &&& (self.target_type is Some) == (self.target_values is Some)
    }

    fn validate(&self) -> (r: Result<(), AppError>) {
        validate_paged_targets(
            self.skip,
            self.limit,
            self.target_type.is_some(),
            self.target_values.is_some(),
        )
    }
}

/// Looks for a VEN id in a list of them.
pub fn contains_ven(ids: &Vec<VenId>, id: &VenId) -> (r: bool)
    ensures
        r == ven_ids_view(ids@).contains(id@),
{
    let mut i: usize = 0;
    while i < ids.len()
        invariant
            i <= ids@.len(),
            forall|j: int| 0 <= j < i ==> (#[trigger] ids@[j])@ != id@,
        decreases ids@.len() - i,
    {
        if ids[i].same_as(id) {
            assert(ven_ids_view(ids@)[i as int] == id@);
            return true;
        }
        i = i + 1;
    }
    assert forall|j: int| 0 <= j < ids@.len() implies #[trigger] ven_ids_view(ids@)[j] != id@ by {
        assert(ids@[j]@ != id@);
    }
    false
}

/// The resources of a VEN may be read and written by VEN managers and by the
/// VEN itself; anybody else is forbidden.
pub fn has_write_permission(user_claims: &Claims, ven_id: &VenId) -> (r: Result<(), AppError>)
    ensures
        r is Ok <==> (claims_ven_manager(*user_claims) || (claims_ven(*user_claims)
            && claims_acts_as(*user_claims, ven_id@))),
        r matches Err(e) ==> e == AppError::Forbidden("User not authorized to access this resource"),
{
    if user_claims.is_ven_manager() {
        return Ok(());
    }
    if user_claims.is_ven() && contains_ven(&user_claims.ven_ids(), ven_id) {
        return Ok(());
    }
    Err(AppError::Forbidden("User not authorized to access this resource"))
}

} // verus!
