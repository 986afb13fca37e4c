//! Roles and claims carried by access tokens, and the role checks that guard
//! the VTN's endpoints.

use vstd::prelude::*;

use crate::copy::DeepCopy;
use crate::error::AppError;
use crate::ids::VenId;

verus! {

/// A role granted to a client.
#[derive(Debug, PartialEq, Eq)]
pub enum AuthRole {
    UserManager,
    VenManager,
    /// Business of the given id.
    Business(String),
    /// Any business.
    AnyBusiness,
    /// The VEN of the given id.
    VEN(VenId),
}

/// A role as a mathematical value.
pub enum AuthRoleView {
    UserManager,
    VenManager,
    Business(Seq<char>),
    AnyBusiness,
    Ven(Seq<char>),
}

impl View for AuthRole {
    type V = AuthRoleView;

    open spec fn view(&self) -> AuthRoleView {
        match self {
            AuthRole::UserManager => AuthRoleView::UserManager,
            AuthRole::VenManager => AuthRoleView::VenManager,
            AuthRole::Business(id) => AuthRoleView::Business(id@),
            AuthRole::AnyBusiness => AuthRoleView::AnyBusiness,
            AuthRole::VEN(id) => AuthRoleView::Ven(id@),
        }
    }
}

impl Clone for AuthRole {
    fn clone(&self) -> (r: Self)
        ensures
            r@ == self@,
    {
        match self {
            AuthRole::UserManager => AuthRole::UserManager,
            AuthRole::VenManager => AuthRole::VenManager,
            AuthRole::Business(id) => AuthRole::Business(id.clone()),
            AuthRole::AnyBusiness => AuthRole::AnyBusiness,
            AuthRole::VEN(id) => AuthRole::VEN(id.clone()),
        }
    }
}

impl DeepView for AuthRole {
    type V = AuthRoleView;

    open spec fn deep_view(&self) -> AuthRoleView {
        self@
    }
}

impl DeepCopy for AuthRole {
    fn deep_copy(&self) -> (r: Self) {
        self.clone()
    }
}

impl AuthRole {
    /// A business role, for one business or for all.
    pub open spec fn spec_is_business(r: AuthRoleView) -> bool {
        r is Business || r is AnyBusiness
    }

    pub fn is_business(&self) -> (b: bool)
        ensures
            b == AuthRole::spec_is_business(self@),
    {
        match self {
            AuthRole::Business(_) => true,
            AuthRole::AnyBusiness => true,
            _ => false,
        }
    }

    pub fn is_ven(&self) -> (b: bool)
        ensures
            b == (self@ is Ven),
    {
        match self {
            AuthRole::VEN(_) => true,
            _ => false,
        }
    }

    pub fn is_user_manager(&self) -> (b: bool)
        ensures
            b == (self@ is UserManager),
    {
        match self {
            AuthRole::UserManager => true,
            _ => false,
        }
    }

    pub fn is_ven_manager(&self) -> (b: bool)
        ensures
            b == (self@ is VenManager),
    {
        match self {
            AuthRole::VenManager => true,
            _ => false,
        }
    }
}

/// The views of a list of roles.
pub open spec fn roles_view(roles: Seq<AuthRole>) -> Seq<AuthRoleView> {
    roles.map_values(|r: AuthRole| r@)
}

/// The texts of a list of VEN ids.
pub open spec fn ven_ids_view(ids: Seq<VenId>) -> Seq<Seq<char>> {
    ids.map_values(|v: VenId| v@)
}

/// The VEN ids among the roles, in order.
pub open spec fn ven_ids_of(roles: Seq<AuthRoleView>) -> Seq<Seq<char>>
    decreases roles.len(),
{
    if roles.len() == 0 {
        Seq::empty()
    } else {
        let rest = ven_ids_of(roles.drop_last());
        match roles.last() {
            AuthRoleView::Ven(id) => rest.push(id),
            _ => rest,
        }
    }
}

/// The business ids among the roles, in order.
pub open spec fn business_ids_of(roles: Seq<AuthRoleView>) -> Seq<Seq<char>>
    decreases roles.len(),
{
    if roles.len() == 0 {
        Seq::empty()
    } else {
        let rest = business_ids_of(roles.drop_last());
        match roles.last() {
            AuthRoleView::Business(id) => rest.push(id),
            _ => rest,
        }
    }
}

/// Some role grants access to any business.
pub open spec fn has_any_business(roles: Seq<AuthRoleView>) -> bool {
    exists|i: int| 0 <= i < roles.len() && roles[i] is AnyBusiness
}

/// The claims of an access token: its expiry and start of validity (seconds
/// since the Unix epoch), the client it was issued to and the client's roles.
#[derive(Debug)]
pub struct Claims {
    pub exp: usize,
    pub nbf: usize,
    pub sub: String,
    pub roles: Vec<AuthRole>,
}

/// The businesses a client may act for.
#[derive(Debug)]
pub enum BusinessIds {
    Specific(Vec<String>),
    Any,
}

impl Claims {
    /// Claims with the given roles, issued to nobody, with zero times.
    pub fn new(roles: Vec<AuthRole>) -> (c: Claims)
        ensures
            c.exp == 0,
            c.nbf == 0,
            c.sub@ == Seq::<char>::empty(),
            c.roles@ == roles@,
    {
        Claims { exp: 0, nbf: 0, sub: String::new(), roles }
    }

    /// Claims of a business user that may act for any business.
    pub fn any_business_user() -> (c: Claims)
        ensures
            c.exp == 0,
            c.nbf == 0,
            c.sub@ == Seq::<char>::empty(),
            c.roles@.len() == 1,
            c.roles@[0] == AuthRole::AnyBusiness,
    {
        let mut roles: Vec<AuthRole> = Vec::new();
        roles.push(AuthRole::AnyBusiness);
        Claims::new(roles)
    }

    /// The ids of the VENs the client acts as, in the order of its roles.
    pub fn ven_ids(&self) -> (ids: Vec<VenId>)
        ensures
            ven_ids_view(ids@) == ven_ids_of(roles_view(self.roles@)),
    {
        let mut ids: Vec<VenId> = Vec::new();
        let mut i: usize = 0;
        while i < self.roles.len()
            invariant
                i <= self.roles@.len(),
                ids@.map_values(|v: VenId| v@) == ven_ids_of(
                    roles_view(self.roles@).subrange(0, i as int),
                ),
            decreases self.roles@.len() - i,
        {
            let ghost before = ids@;
            proof {
                let s = roles_view(self.roles@);
                assert(s.subrange(0, i + 1).drop_last() =~= s.subrange(0, i as int));
            }
            match &self.roles[i] {
                AuthRole::VEN(id) => {
                    ids.push(id.clone());
                    assert(ids@.map_values(|v: VenId| v@) =~= before.map_values(
                        |v: VenId| v@,
                    ).push(id@));
                },
                _ => {},
            }
            i = i + 1;
        }
        proof {
            assert(roles_view(self.roles@).subrange(0, self.roles@.len() as int) =~= roles_view(
                self.roles@,
            ));
        }
        ids
    }

    /// The ids of the VENs the client acts as, as text.
    pub fn ven_ids_string(&self) -> (ids: Vec<String>)
        ensures
            ids@.map_values(|v: String| v@) == ven_ids_of(roles_view(self.roles@)),
    {
        let mut ids: Vec<String> = Vec::new();
        let mut i: usize = 0;
        while i < self.roles.len()
            invariant
                i <= self.roles@.len(),
                ids@.map_values(|v: String| v@) == ven_ids_of(
                    roles_view(self.roles@).subrange(0, i as int),
                ),
            decreases self.roles@.len() - i,
        {
            let ghost before = ids@;
            proof {
                let s = roles_view(self.roles@);
                assert(s.subrange(0, i + 1).drop_last() =~= s.subrange(0, i as int));
            }
            match &self.roles[i] {
                AuthRole::VEN(id) => {
                    ids.push(id.as_str().to_owned());
                    assert(ids@.map_values(|v: String| v@) =~= before.map_values(
                        |v: String| v@,
                    ).push(id@));
                },
                _ => {},
            }
            i = i + 1;
        }
        proof {
            assert(roles_view(self.roles@).subrange(0, self.roles@.len() as int) =~= roles_view(
                self.roles@,
            ));
        }
        ids
    }

    /// The businesses the client may act for: any, if one role says so, else
    /// those its business roles name, in order.
    pub fn business_ids(&self) -> (r: BusinessIds)
        ensures
            has_any_business(roles_view(self.roles@)) <==> r is Any,
            r matches BusinessIds::Specific(ids) ==> ids@.map_values(|v: String| v@)
                == business_ids_of(roles_view(self.roles@)),
    {
        let mut ids: Vec<String> = Vec::new();
        let mut i: usize = 0;
        while i < self.roles.len()
            invariant
                i <= self.roles@.len(),
                ids@.map_values(|v: String| v@) == business_ids_of(
                    roles_view(self.roles@).subrange(0, i as int),
                ),
                forall|j: int| 0 <= j < i ==> !(roles_view(self.roles@)[j] is AnyBusiness),
            decreases self.roles@.len() - i,
        {
            let ghost before = ids@;
            proof {
                let s = roles_view(self.roles@);
                assert(s.subrange(0, i + 1).drop_last() =~= s.subrange(0, i as int));
            }
            match &self.roles[i] {
                AuthRole::Business(id) => {
                    ids.push(id.clone());
                    assert(ids@.map_values(|v: String| v@) =~= before.map_values(
                        |v: String| v@,
                    ).push(id@));
                },
                AuthRole::AnyBusiness => {
                    assert(roles_view(self.roles@)[i as int] is AnyBusiness);
                    return BusinessIds::Any;
                },
                _ => {},
            }
            i = i + 1;
        }
        proof {
            assert(roles_view(self.roles@).subrange(0, self.roles@.len() as int) =~= roles_view(
                self.roles@,
            ));
        }
        BusinessIds::Specific(ids)
    }

    /// Some role is a VEN role.
    pub fn is_ven(&self) -> (b: bool)
        ensures
            b == exists|i: int| 0 <= i < self.roles@.len() && (#[trigger] self.roles@[i])@ is Ven,
    {
        let mut i: usize = 0;
        while i < self.roles.len()
            invariant
                i <= self.roles@.len(),
                forall|j: int| 0 <= j < i ==> !((#[trigger] self.roles@[j])@ is Ven),
            decreases self.roles@.len() - i,
        {
            if self.roles[i].is_ven() {
                return true;
            }
            i = i + 1;
        }
        false
    }

    /// Some role is a business role.
    pub fn is_business(&self) -> (b: bool)
        ensures
            b == exists|i: int|
                0 <= i < self.roles@.len() && AuthRole::spec_is_business(
                    (#[trigger] self.roles@[i])@,
                ),
    {
        let mut i: usize = 0;
        while i < self.roles.len()
            invariant
                i <= self.roles@.len(),
                forall|j: int|
                    0 <= j < i ==> !AuthRole::spec_is_business((#[trigger] self.roles@[j])@),
            decreases self.roles@.len() - i,
        {
            if self.roles[i].is_business() {
                return true;
            }
            i = i + 1;
        }
        false
    }

    /// Some role is the user manager role.
    pub fn is_user_manager(&self) -> (b: bool)
        ensures
            b == exists|i: int|
                0 <= i < self.roles@.len() && (#[trigger] self.roles@[i])@ is UserManager,
    {
        let mut i: usize = 0;
        while i < self.roles.len()
            invariant
                i <= self.roles@.len(),
                forall|j: int| 0 <= j < i ==> !((#[trigger] self.roles@[j])@ is UserManager),
            decreases self.roles@.len() - i,
        {
            if self.roles[i].is_user_manager() {
                return true;
            }
            i = i + 1;
        }
        false
    }

    /// Some role is the VEN manager role.
    pub fn is_ven_manager(&self) -> (b: bool)
        ensures
            b == exists|i: int|
                0 <= i < self.roles@.len() && (#[trigger] self.roles@[i])@ is VenManager,
    {
        let mut i: usize = 0;
        while i < self.roles.len()
            invariant
                i <= self.roles@.len(),
                forall|j: int| 0 <= j < i ==> !((#[trigger] self.roles@[j])@ is VenManager),
            decreases self.roles@.len() - i,
        {
            if self.roles[i].is_ven_manager() {
                return true;
            }
            i = i + 1;
        }
        false
    }
}

/// The client manages VENs.
pub open spec fn claims_ven_manager(c: Claims) -> bool {
    exists|i: int| 0 <= i < c.roles@.len() && (#[trigger] c.roles@[i])@ is VenManager
}

/// The client acts as some VEN.
pub open spec fn claims_ven(c: Claims) -> bool {
    exists|i: int| 0 <= i < c.roles@.len() && (#[trigger] c.roles@[i])@ is Ven
}

/// The client acts as the VEN `ven`.
pub open spec fn claims_acts_as(c: Claims, ven: Seq<char>) -> bool {
    ven_ids_of(roles_view(c.roles@)).contains(ven)
}

/// The client acts for some business.
pub open spec fn claims_business(c: Claims) -> bool {
    exists|i: int| 0 <= i < c.roles@.len() && AuthRole::spec_is_business((#[trigger] c.roles@[i])@)
}

/// The client manages users.
pub open spec fn claims_user_manager(c: Claims) -> bool {
    exists|i: int| 0 <= i < c.roles@.len() && (#[trigger] c.roles@[i])@ is UserManager
}

/// The claims of an authenticated request.
pub struct User(pub Claims);

/// The claims of an authenticated business user.
pub struct BusinessUser(pub Claims);

/// The claims of an authenticated VEN.
pub struct VENUser(pub Claims);

/// The claims of an authenticated user manager.
pub struct UserManagerUser(pub Claims);

/// The claims of an authenticated VEN manager.
pub struct VenManagerUser(pub Claims);

impl User {
    /// Authentication of a request by its bearer token: `None` if the request
    /// carries none, `Some(None)` if the token does not validate, else the
    /// token's claims.
    pub fn authenticate(token: Option<Option<Claims>>) -> (r: Result<User, AppError>)
        ensures
            token is None ==> (r matches Err(AppError::Auth(m)) && m@
                == "Authorization via Bearer token in Authorization header required"@),
            token matches Some(None) ==> r == Err::<User, AppError>(
                AppError::Forbidden("Invalid authentication token provided"),
            ),
            token matches Some(Some(c)) ==> (r matches Ok(u) && u.0 == c),
    {
        match token {
            None => Err(
                AppError::Auth(
                    String::from_str(
                        "Authorization via Bearer token in Authorization header required",
                    ),
                ),
            ),
            Some(None) => Err(AppError::Forbidden("Invalid authentication token provided")),
            Some(Some(claims)) => Ok(User(claims)),
        }
    }
}

impl BusinessUser {
    /// Admits an authenticated user that acts for some business.
    pub fn from_user(user: User) -> (r: Result<BusinessUser, AppError>)
        ensures
            r is Ok <==> claims_business(user.0),
            r matches Ok(b) ==> b.0 == user.0,
            r matches Err(e) ==> e == AppError::Forbidden("User does not have the required role"),
    {
        if !user.0.is_business() {
            return Err(AppError::Forbidden("User does not have the required role"));
        }
        Ok(BusinessUser(user.0))
    }
}

impl VENUser {
    /// Admits an authenticated user that acts as some VEN.
    pub fn from_user(user: User) -> (r: Result<VENUser, AppError>)
        ensures
            r is Ok <==> claims_ven(user.0),
            r matches Ok(b) ==> b.0 == user.0,
            r matches Err(e) ==> e == AppError::Forbidden("User does not have the required role"),
    {
        if !user.0.is_ven() {
            return Err(AppError::Forbidden("User does not have the required role"));
        }
        Ok(VENUser(user.0))
    }
}

impl UserManagerUser {
    /// Admits an authenticated user manager.
    pub fn from_user(user: User) -> (r: Result<UserManagerUser, AppError>)
        ensures
            r is Ok <==> claims_user_manager(user.0),
            r matches Ok(b) ==> b.0 == user.0,
            r matches Err(e) ==> e == AppError::Forbidden("User does not have the required role"),
    {
        if !user.0.is_user_manager() {
            return Err(AppError::Forbidden("User does not have the required role"));
        }
        Ok(UserManagerUser(user.0))
    }
}

impl VenManagerUser {
    /// Admits an authenticated VEN manager; anybody else is answered as not
    /// authenticated.
    pub fn from_user(user: User) -> (r: Result<VenManagerUser, AppError>)
        ensures
            r is Ok <==> claims_ven_manager(user.0),
            r matches Ok(b) ==> b.0 == user.0,
            r matches Err(e) ==> (e matches AppError::Auth(m) && m@
                == "User does not have the required role"@),
    {
        if !user.0.is_ven_manager() {
            return Err(AppError::Auth(String::from_str("User does not have the required role")));
        }
        Ok(VenManagerUser(user.0))
    }
}


/// Some role is a VEN exactly when the roles name some VEN id.
pub proof fn lemma_ven_ids_nonempty(roles: Seq<AuthRoleView>)
    ensures
        ven_ids_of(roles).len() > 0 <==> exists|i: int| 0 <= i < roles.len() && (#[trigger] roles[i]) is Ven,
    decreases roles.len(),
{
    if roles.len() > 0 {
        let rest = roles.drop_last();
        lemma_ven_ids_nonempty(rest);
        if exists|i: int| 0 <= i < rest.len() && (#[trigger] rest[i]) is Ven {
            let i = choose|i: int| 0 <= i < rest.len() && (#[trigger] rest[i]) is Ven;
            assert(roles[i] == rest[i]);
        }
        if exists|i: int| 0 <= i < roles.len() && (#[trigger] roles[i]) is Ven {
            let i = choose|i: int| 0 <= i < roles.len() && (#[trigger] roles[i]) is Ven;
            if i < roles.len() - 1 {
                assert(rest[i] == roles[i]);
            }
        }
    }
}

/// A client is a VEN exactly when its list of VEN ids is not empty: what
/// `Claims::is_ven` answers is whether `Claims::ven_ids` gives any id.
pub proof fn lemma_is_ven_iff_ven_ids(c: Claims)
    ensures
        (exists|i: int| 0 <= i < c.roles@.len() && (#[trigger] c.roles@[i])@ is Ven) <==> ven_ids_of(
            roles_view(c.roles@),
        ).len() > 0,
{
    let rv = roles_view(c.roles@);
    lemma_ven_ids_nonempty(rv);
    if exists|i: int| 0 <= i < c.roles@.len() && (#[trigger] c.roles@[i])@ is Ven {
        let i = choose|i: int| 0 <= i < c.roles@.len() && (#[trigger] c.roles@[i])@ is Ven;
        assert(rv[i] == c.roles@[i]@);
    }
    if exists|i: int| 0 <= i < rv.len() && (#[trigger] rv[i]) is Ven {
        let i = choose|i: int| 0 <= i < rv.len() && (#[trigger] rv[i]) is Ven;
        assert(rv[i] == c.roles@[i]@);
    }
}

} // verus!
