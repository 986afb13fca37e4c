//! Bodies of the `/users` endpoint.

use vstd::prelude::*;

use crate::api::Validate;
use crate::error::AppError;
use crate::identifier::{identifier_text_rejects, valid_identifier, IdentifierError};
use crate::ids::VenId;
use crate::jwt::{roles_view, AuthRole, AuthRoleView};
use crate::time::Timestamp;

verus! {

/// A user to create, or the new state of one.
#[derive(Debug)]
pub struct NewUser {
    pub reference: String,
    pub description: Option<String>,
    pub roles: Vec<AuthRole>,
}

/// A pair of client credentials to add to a user.
#[derive(Debug)]
pub struct NewCredential {
    pub client_id: String,
    pub client_secret: String,
}

impl Validate for NewUser {
    /// A new user has no constraints beyond its shape.
    open spec fn valid(&self) -> bool {
        true
    }

    fn validate(&self) -> (r: Result<(), AppError>) {
        Ok(())
    }
}

impl Validate for NewCredential {
    /// New credentials have no constraints beyond their shape.
    open spec fn valid(&self) -> bool {
        true
    }

    fn validate(&self) -> (r: Result<(), AppError>) {
        Ok(())
    }
}


/// A user as the user store keeps it: its fields, its business and VEN ids
/// and its role flags.
#[derive(Debug)]
pub struct StoredUser {
    pub id: String,
    pub reference: String,
    pub description: Option<String>,
    pub client_ids: Option<Vec<String>>,
    pub created: Timestamp,
    pub modified: Timestamp,
    pub business_ids: Option<Vec<String>>,
    pub ven_ids: Option<Vec<String>>,
    pub is_any_business_user: bool,
    pub is_user_manager: bool,
    pub is_ven_manager: bool,
}

/// A user as the `/users` endpoint shows it.
#[derive(Debug)]
pub struct UserDetails {
    pub id: String,
    pub reference: String,
    pub description: Option<String>,
    pub roles: Vec<AuthRole>,
    pub client_ids: Vec<String>,
    pub created: Timestamp,
    pub modified: Timestamp,
}

/// The texts of an optional list of texts; none is the empty list.
pub open spec fn texts_or_empty(v: Option<Vec<String>>) -> Seq<Seq<char>> {
    match v {
        Some(v) => v@.map_values(|s: String| s@),
        None => Seq::empty(),
    }
}

/// The roles of a stored user: a business role per business id, a VEN role
/// per VEN id, then user manager, VEN manager and any business as flagged.
pub open spec fn stored_roles(u: StoredUser) -> Seq<AuthRoleView> {
    texts_or_empty(u.business_ids).map_values(|b: Seq<char>| AuthRoleView::Business(b))
        + texts_or_empty(u.ven_ids).map_values(|v: Seq<char>| AuthRoleView::Ven(v))
        + (if u.is_user_manager { seq![AuthRoleView::UserManager] } else { Seq::empty() })
        + (if u.is_ven_manager { seq![AuthRoleView::VenManager] } else { Seq::empty() })
        + (if u.is_any_business_user { seq![AuthRoleView::AnyBusiness] } else { Seq::empty() })
}

/// Every VEN id of the stored user is a valid identifier.
pub open spec fn stored_ven_ids_valid(u: StoredUser) -> bool {
    forall|j: int| 0 <= j < texts_or_empty(u.ven_ids).len() ==> valid_identifier(#[trigger] texts_or_empty(u.ven_ids)[j])
}

/// A business role for each id.
fn business_roles(ids: &Vec<String>) -> (r: Vec<AuthRole>)
    ensures
        roles_view(r@) == ids@.map_values(|s: String| s@).map_values(|b: Seq<char>| AuthRoleView::Business(b)),
{
    let ghost want = ids@.map_values(|s: String| s@).map_values(|b: Seq<char>| AuthRoleView::Business(b));
    let mut roles: Vec<AuthRole> = Vec::new();
    let mut i: usize = 0;
    while i < ids.len()
        invariant
            i <= ids@.len(),
            want == ids@.map_values(|s: String| s@).map_values(|b: Seq<char>| AuthRoleView::Business(b)),
            roles_view(roles@) == want.take(i as int),
        decreases ids@.len() - i,
    {
        let id = ids[i].clone();
        let ghost old_roles = roles@;
        let role = AuthRole::Business(id);
        assert(role@ == AuthRoleView::Business(ids@[i as int]@));
        roles.push(role);
        proof {
            assert(want[i as int] == AuthRoleView::Business(ids@[i as int]@));
            assert(roles_view(roles@) =~= roles_view(old_roles).push(role@));
            assert(want.take(i + 1) =~= want.take(i as int).push(want[i as int]));
        }
        i = i + 1;
    }
    proof {
        assert(want.take(ids@.len() as int) =~= want);
    }
    roles
}

/// A VEN role for each id, or the error of the first id that is no
/// identifier.
fn ven_roles(ids: &Vec<String>) -> (r: Result<Vec<AuthRole>, IdentifierError>)
    ensures
        r is Ok <==> forall|j: int| 0 <= j < ids@.len() ==> valid_identifier(#[trigger] ids@[j]@),
        r matches Ok(roles) ==> roles_view(roles@) == ids@.map_values(|s: String| s@).map_values(
            |v: Seq<char>| AuthRoleView::Ven(v),
        ),
        r matches Err(e) ==> exists|j: int|
            0 <= j < ids@.len() && !valid_identifier(#[trigger] ids@[j]@) && (forall|k: int|
                0 <= k < j ==> valid_identifier(ids@[k]@)) && identifier_text_rejects(ids@[j]@, e),
{
    let ghost want = ids@.map_values(|s: String| s@).map_values(|v: Seq<char>| AuthRoleView::Ven(v));
    let mut roles: Vec<AuthRole> = Vec::new();
    let mut i: usize = 0;
    while i < ids.len()
        invariant
            i <= ids@.len(),
            want == ids@.map_values(|s: String| s@).map_values(|v: Seq<char>| AuthRoleView::Ven(v)),
            roles_view(roles@) == want.take(i as int),
            forall|k: int| 0 <= k < i ==> valid_identifier(ids@[k]@),
        decreases ids@.len() - i,
    {
        match VenId::parse(ids[i].as_str()) {
            Ok(v) => {
                let ghost old_roles = roles@;
                let role = AuthRole::VEN(v);
                assert(role@ == AuthRoleView::Ven(ids@[i as int]@));
                roles.push(role);
                proof {
                    assert(want[i as int] == AuthRoleView::Ven(ids@[i as int]@));
                    assert(roles_view(roles@) =~= roles_view(old_roles).push(role@));
                    assert(want.take(i + 1) =~= want.take(i as int).push(want[i as int]));
                }
            },
            Err(e) => {
                proof {
                    assert(!valid_identifier(ids@[i as int]@));
                }
                return Err(e);
            },
        }
        i = i + 1;
    }
    proof {
        assert(want.take(ids@.len() as int) =~= want);
    }
    Ok(roles)
}

impl UserDetails {
    /// The details of a stored user, its roles built from its ids and flags.
    /// A VEN id that is no identifier is refused, the first one in order.
    #[verifier::rlimit(30)]
    pub fn from_stored(u: StoredUser) -> (r: Result<UserDetails, AppError>)
        ensures
            r is Ok <==> stored_ven_ids_valid(u),
            r matches Ok(d) ==> {
                &&& d.id == u.id
                &&& d.reference == u.reference
                &&& d.description == u.description
                &&& roles_view(d.roles@) == stored_roles(u)
                &&& d.client_ids@.map_values(|s: String| s@) == texts_or_empty(u.client_ids)
                &&& d.created == u.created
                &&& d.modified == u.modified
            },
            r matches Err(e) ==> exists|j: int|
                {
                    &&& 0 <= j < texts_or_empty(u.ven_ids).len()
                    &&& !valid_identifier(#[trigger] texts_or_empty(u.ven_ids)[j])
                    &&& forall|k: int| 0 <= k < j ==> valid_identifier(texts_or_empty(u.ven_ids)[k])
                    &&& e matches AppError::Identifier(ie) && identifier_text_rejects(texts_or_empty(u.ven_ids)[j], ie)
                },
    {
        let ghost bs = texts_or_empty(u.business_ids);
        let ghost vs = texts_or_empty(u.ven_ids);
        let mut roles: Vec<AuthRole> = match &u.business_ids {
            Some(ids) => business_roles(ids),
            None => Vec::new(),
        };
        assert(roles_view(roles@) =~= bs.map_values(|b: Seq<char>| AuthRoleView::Business(b)));
        let ghost before_vens = roles@;
        match &u.ven_ids {
            Some(ids) => match ven_roles(ids) {
                Ok(mut vens) => {
                    roles.append(&mut vens);
                },
                Err(e) => {
                    proof {
                        let j = choose|j: int|
                            0 <= j < ids@.len() && !valid_identifier(#[trigger] ids@[j]@) && (forall|k: int|
                                0 <= k < j ==> valid_identifier(ids@[k]@)) && identifier_text_rejects(ids@[j]@, e);
                        assert(vs[j] == ids@[j]@);
                        assert forall|k: int| 0 <= k < j implies valid_identifier(vs[k]) by {
                            assert(vs[k] == ids@[k]@);
                        }
                        assert(!stored_ven_ids_valid(u));
                    }
                    return Err(AppError::Identifier(e));
                },
            },
            None => {},
        }
        proof {
            assert(roles_view(roles@) =~= bs.map_values(|b: Seq<char>| AuthRoleView::Business(b))
                + vs.map_values(|v: Seq<char>| AuthRoleView::Ven(v)));
            assert forall|j: int| 0 <= j < vs.len() implies valid_identifier(#[trigger] vs[j]) by {
                if let Some(ids) = u.ven_ids {
                    assert(vs[j] == ids@[j]@);
                }
            }
        }
        let ghost before_flags = roles@;
        if u.is_user_manager {
            roles.push(AuthRole::UserManager);
        }
        let ghost after_um = roles@;
        if u.is_ven_manager {
            roles.push(AuthRole::VenManager);
        }
        let ghost after_vm = roles@;
        if u.is_any_business_user {
            roles.push(AuthRole::AnyBusiness);
        }
        proof {
            assert(roles_view(after_um) =~= roles_view(before_flags)
                + (if u.is_user_manager { seq![AuthRoleView::UserManager] } else { Seq::<AuthRoleView>::empty() }));
            assert(roles_view(after_vm) =~= roles_view(after_um)
                + (if u.is_ven_manager { seq![AuthRoleView::VenManager] } else { Seq::<AuthRoleView>::empty() }));
            assert(roles_view(roles@) =~= roles_view(after_vm)
                + (if u.is_any_business_user { seq![AuthRoleView::AnyBusiness] } else { Seq::<AuthRoleView>::empty() }));
            assert(roles_view(roles@) =~= stored_roles(u));
        }
        let ghost spec_u = u;
        let client_ids = match u.client_ids {
            Some(c) => c,
            None => Vec::new(),
        };
        proof {
            assert(client_ids@.map_values(|s: String| s@) =~= texts_or_empty(spec_u.client_ids));
        }
        Ok(UserDetails {
            id: u.id,
            reference: u.reference,
            description: u.description,
            roles,
            client_ids,
            created: u.created,
            modified: u.modified,
        })
    }
}

} // verus!
