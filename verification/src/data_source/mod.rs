//! Storage of the VTN: the operations every store offers, and an in-memory
//! implementation of them.

use vstd::prelude::*;

use crate::error::AppError;
use crate::event::{Event, EventContent};
use crate::ids::{EventId, ProgramId, ReportId};
use crate::copy::DeepCopy;
use crate::jwt::{business_ids_of, has_any_business, roles_view, ven_ids_of, AuthRole, BusinessIds, Claims};
use crate::wire_enums::{target_label_text, TargetLabel};
use crate::program::{Program, ProgramContent};
use crate::report::{Report, ReportContent};

pub mod memory;

verus! {

/// Creation, retrieval, listing, update and deletion of stored objects. Each
/// operation is given the claims of the client it acts for.
pub trait Crud {
    /// The stored objects.
    type Type;
    /// The ids of stored objects.
    type Id;
    /// The content an object is created or updated with.
    type NewType;
    type Error;
    /// Filter and paging of a listing.
    type Filter;
    /// What the client may see and do.
    type PermissionFilter;

    fn create(&mut self, new: Self::NewType, permission_filter: &Self::PermissionFilter) -> Result<Self::Type, Self::Error>;

    fn retrieve(&self, id: &Self::Id, permission_filter: &Self::PermissionFilter) -> Result<Self::Type, Self::Error>;

    fn retrieve_all(&self, filter: &Self::Filter, permission_filter: &Self::PermissionFilter) -> Result<Vec<Self::Type>, Self::Error>;

    fn update(
        &mut self,
        id: &Self::Id,
        new: Self::NewType,
        permission_filter: &Self::PermissionFilter,
    ) -> Result<Self::Type, Self::Error>;

    fn delete(&mut self, id: &Self::Id, permission_filter: &Self::PermissionFilter) -> Result<Self::Type, Self::Error>;
}

/// A store of programs.
pub trait ProgramCrud: Crud<
    Type = Program,
    Id = ProgramId,
    NewType = ProgramContent,
    Error = AppError,
    Filter = crate::api::program::QueryParams,
    PermissionFilter = Claims,
> {

}

/// A store of reports.
pub trait ReportCrud: Crud<
    Type = Report,
    Id = ReportId,
    NewType = ReportContent,
    Error = AppError,
    Filter = crate::api::report::QueryParams,
    PermissionFilter = Claims,
> {

}

/// A store of events.
pub trait EventCrud: Crud<
    Type = Event,
    Id = EventId,
    NewType = EventContent,
    Error = AppError,
    Filter = crate::api::event::QueryParams,
    PermissionFilter = Claims,
> {

}

/// The credentials of a client and the roles they grant.
#[derive(Debug)]
pub struct AuthInfo {
    pub client_id: String,
    pub client_secret: String,
    pub roles: Vec<AuthRole>,
}

/// Where client credentials are checked.
pub trait AuthSource {
    /// The client with the given credentials, if there is one.
    fn get_user(&self, client_id: &str, client_secret: &str) -> Option<AuthInfo>;
}

/// All stores of the VTN.
pub trait DataSource {
    type Programs: ProgramCrud;
    type Reports: ReportCrud;
    type Events: EventCrud;
    type Auth: AuthSource;

    fn programs(&self) -> &Self::Programs;

    fn reports(&self) -> &Self::Reports;

    fn events(&self) -> &Self::Events;

    fn auth(&self) -> &Self::Auth;
}


/// How a listing of programs is narrowed down in a database: the target
/// values go to the column their type names; other types are matched as
/// target type and values.
#[derive(Debug)]
pub struct TargetFilter {
    pub ven_names: Option<Vec<String>>,
    pub event_names: Option<Vec<String>>,
    pub program_names: Option<Vec<String>>,
    pub target_type: Option<String>,
    pub target_values: Option<Vec<String>>,
    pub skip: i64,
    pub limit: i64,
}

/// Copies a list of texts.
pub fn copy_texts(v: &Option<Vec<String>>) -> (r: Option<Vec<String>>)
    ensures
        r.deep_view() == v.deep_view(),
{
    v.deep_copy()
}

impl TargetFilter {
    /// The filter of a query of programs.
    pub fn from_query(q: &crate::api::program::QueryParams) -> (f: TargetFilter)
        ensures
            f.skip == q.skip,
            f.limit == q.limit,
            f.ven_names.deep_view() == (if q.target_type matches Some(TargetLabel::VENName) { q.target_values.deep_view() } else { None }),
            f.event_names.deep_view() == (if q.target_type matches Some(TargetLabel::EventName) { q.target_values.deep_view() } else { None }),
            f.program_names.deep_view() == (if q.target_type matches Some(TargetLabel::ProgramName) { q.target_values.deep_view() } else { None }),
            match q.target_type {
                Some(t) => if t is VENName || t is EventName || t is ProgramName {
                    f.target_type is None && f.target_values is None
                } else {
                    f.target_type matches Some(s) && s@ == target_label_text(t@) && f.target_values.deep_view() == q.target_values.deep_view()
                },
                None => f.target_type is None && f.target_values is None,
            },
    {
        let mut f = TargetFilter {
            ven_names: None,
            event_names: None,
            program_names: None,
            target_type: None,
            target_values: None,
            skip: q.skip,
            limit: q.limit,
        };
        match &q.target_type {
            Some(TargetLabel::VENName) => f.ven_names = copy_texts(&q.target_values),
            Some(TargetLabel::EventName) => f.event_names = copy_texts(&q.target_values),
            Some(TargetLabel::ProgramName) => f.program_names = copy_texts(&q.target_values),
            Some(t) => {
                f.target_type = Some(t.as_str().to_owned());
                f.target_values = copy_texts(&q.target_values);
            },
            None => {},
        }
        f
    }
}

/// The businesses whose objects a client may see: all (`None`) or those listed.
pub fn business_scope(claims: &Claims) -> (r: Option<Vec<String>>)
    ensures
        r is None <==> has_any_business(roles_view(claims.roles@)),
        r matches Some(ids) ==> ids.deep_view() == business_ids_of(roles_view(claims.roles@)),
{
    match claims.business_ids() {
        BusinessIds::Specific(v) => {
            assert(v.deep_view() =~= v@.map_values(|s: String| s@));
            Some(v)
        },
        BusinessIds::Any => None,
    }
}

/// The VEN names a client acts as, as target criteria of type `VEN_NAME`.
pub fn ven_targets(claims: &Claims) -> (r: Vec<(&'static str, [String; 1])>)
    ensures
        r@.len() == ven_ids_of(roles_view(claims.roles@)).len(),
        forall|i: int| 0 <= i < r@.len() ==> (#[trigger] r@[i]).0@ == "VEN_NAME"@ && r@[i].1[0]@ == ven_ids_of(roles_view(claims.roles@))[i],
{
    let ids = claims.ven_ids_string();
    let mut out: Vec<(&'static str, [String; 1])> = Vec::new();
    let mut i: usize = 0;
    while i < ids.len()
        invariant
            i <= ids@.len(),
            out@.len() == i,
            ids@.map_values(|v: String| v@) == ven_ids_of(roles_view(claims.roles@)),
            forall|j: int| 0 <= j < i ==> (#[trigger] out@[j]).0@ == "VEN_NAME"@ && out@[j].1[0]@ == ids@[j]@,
        decreases ids@.len() - i,
    {
        out.push((TargetLabel::VENName.as_str(), [ids[i].clone()]));
        i = i + 1;
    }
    proof {
        assert forall|j: int| 0 <= j < out@.len() implies (#[trigger] out@[j]).1[0]@ == ven_ids_of(roles_view(claims.roles@))[j] by {
            assert(ids@.map_values(|v: String| v@)[j] == ids@[j]@);
        }
        reveal_strlit("VEN_NAME");
    }
    out
}


/// The client acts as one of the VENs listed.
pub open spec fn acts_as_one_of(user: Claims, vens: Seq<String>) -> bool {
    exists|j: int| 0 <= j < vens.len() && ven_ids_of(roles_view(user.roles@)).contains((#[trigger] vens[j])@)
}

/// Whether a client may create a report, and whether the report is
/// consistent: where the report's program is assigned to VENs
/// (`permitted_vens`), the client must act as one of them, else the program
/// is not found; the report's event (whose program is `event_program`, absent
/// if there is no such event) must belong to the report's program.
pub fn check_report_creation(
    permitted_vens: &Vec<String>,
    user: &Claims,
    event_program: Option<&str>,
    new: &ReportContent,
) -> (r: Result<(), AppError>)
    ensures
        permitted_vens@.len() > 0 && !acts_as_one_of(*user, permitted_vens@) ==> r == Err::<(), AppError>(AppError::NotFound),
        !(permitted_vens@.len() > 0 && !acts_as_one_of(*user, permitted_vens@)) ==> match event_program {
            None => r == Err::<(), AppError>(AppError::NotFound),
            Some(p) => if p@ == new.program_id@ {
                r is Ok
            } else {
                r == Err::<(), AppError>(AppError::BadRequest("event_id and program_id have to point to the same program"))
            },
        },
{
    if permitted_vens.len() > 0 {
        let ids = user.ven_ids_string();
        let ghost v = ven_ids_of(roles_view(user.roles@));
        assert(ids@.map_values(|s: String| s@) == v);
        let mut found = false;
        let mut j: usize = 0;
        while j < permitted_vens.len()
            invariant
                j <= permitted_vens@.len(),
                ids@.map_values(|s: String| s@) == v,
                v == ven_ids_of(roles_view(user.roles@)),
                found == exists|k: int| 0 <= k < j && v.contains((#[trigger] permitted_vens@[k])@),
            decreases permitted_vens@.len() - j,
        {
            let hit = crate::text::contains_text(&ids, permitted_vens[j].as_str());
            proof {
                if hit {
                    let a = choose|a: int| 0 <= a < ids@.len() && (#[trigger] ids@[a])@ == permitted_vens@[j as int]@;
                    assert(v[a] == ids@[a]@);
                }
                if v.contains(permitted_vens@[j as int]@) {
                    let a = choose|a: int| 0 <= a < v.len() && v[a] == permitted_vens@[j as int]@;
                    assert(ids@.map_values(|s: String| s@)[a] == ids@[a]@);
                }
            }
            if hit {
                found = true;
            }
            j = j + 1;
        }
        if !found {
            return Err(AppError::NotFound);
        }
    }
    match event_program {
        None => Err(AppError::NotFound),
        Some(p) => {
            if !crate::text::str_eq(p, new.program_id.as_str()) {
                return Err(AppError::BadRequest("event_id and program_id have to point to the same program"));
            }
            Ok(())
        },
    }
}

} // verus!
