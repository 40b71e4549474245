use vstd::prelude::*;

verus! {

/// A registered user.
pub struct User {
    pub id: String,
    pub username: String,
    pub email: String,
    pub active: bool,
}

impl User {
    /// A new user, active from the start.
    pub fn new(id: String, username: String, email: String) -> (r: Self)
        ensures
            r.id@ == id@,
            r.username@ == username@,
            r.email@ == email@,
            r.active,
    {
        User { id, username, email, active: true }
    }
}

/// Identity of whoever a database operation is done for.
pub struct DbContext {
    pub id: String,
}

/// The identity used for work the system does on its own.
pub const SYSTEM_IDENTITY: &'static str = "system";

impl DbContext {
    pub fn new(id: String) -> (r: Self)
        ensures
            r.id@ == id@,
    {
        DbContext { id }
    }

    /// The context of the system itself.
    pub fn system() -> (r: Self)
        ensures
            r.id@ == SYSTEM_IDENTITY@,
    {
        DbContext { id: SYSTEM_IDENTITY.to_owned() }
    }
}

/// The authenticated caller of a handler.
pub struct UserInfo {
    pub id: String,
}

/// What a request handler knows of its caller.
pub struct HandlerContext {
    user: Option<UserInfo>,
}

impl HandlerContext {
    pub closed spec fn user_spec(&self) -> Option<UserInfo> {
        self.user
    }

    pub fn new(user: Option<UserInfo>) -> (r: Self)
        ensures
            r.user_spec() == user,
    {
        HandlerContext { user }
    }

    /// The caller, when one is authenticated.
    pub fn authenticated_user(&self) -> (r: Option<&UserInfo>)
        ensures
            match self.user_spec() {
                Some(u) => r == Some(&u),
                None => r is None,
            },
    {
        match &self.user {
            Some(u) => Some(u),
            None => None,
        }
    }
}

/// A request naming a record by id.
pub struct ReqIdDto {
    pub id: i64,
}

/// A request for one page of results.
pub struct ReqPaginationDto {
    pub page: Option<u64>,
    pub items_per_page: Option<u64>,
}

/// Where a page of results stands among all results.
pub struct ResultPagination {
    pub current_page: u64,
    pub items_per_page: u64,
    pub total_items: u64,
    pub total_pages: u64,
}

} // verus!
