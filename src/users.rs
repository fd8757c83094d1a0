//! User queries.

use vstd::prelude::*;
use vstd::string::*;

use crate::common::{EnableState, SortOrder};
use crate::paged::{Pageable, Pagination};
use crate::link::opt_view;
use crate::params::{attr_params, flag_opt, number_opt, opt_flag, opt_number, opt_param, opt_text, params_view, push_attrs, push_opt, ParamsView};
use crate::sets::{attr_lookup, AttrMap};
use crate::text::{decimal, to_decimal};
use crate::timestamp::{rfc3339_offset, Timestamp};

verus! {

/// Keys user results may be ordered by.
#[derive(Debug, Clone, Copy, PartialEq, Eq, Structural)]
pub enum UserOrderBy {
    /// Order by the user ID.
    Id,
    /// Order by the name.
    Name,
    /// Order by the username.
    Username,
    /// Order by the creation date.
    CreatedAt,
    /// Order by the last update date.
    UpdatedAt,
}

impl Default for UserOrderBy {
    fn default() -> (r: Self)
        ensures
            r == UserOrderBy::Id,
    {
        UserOrderBy::Id
    }
}

impl UserOrderBy {
    /// The parameter value.
    pub open spec fn spec_str(self) -> Seq<char> {
        match self {
            UserOrderBy::Id => "id"@,
            UserOrderBy::Name => "name"@,
            UserOrderBy::Username => "username"@,
            UserOrderBy::CreatedAt => "created_at"@,
            UserOrderBy::UpdatedAt => "updated_at"@,
        }
    }

    /// The string representation.
    pub fn as_str(self) -> (r: &'static str)
        ensures
            r@ == self.spec_str(),
    {
        match self {
            UserOrderBy::Id => "id",
            UserOrderBy::Name => "name",
            UserOrderBy::Username => "username",
            UserOrderBy::CreatedAt => "created_at",
            UserOrderBy::UpdatedAt => "updated_at",
        }
    }
}

/// An identity of a user with an external provider.
#[derive(Debug, Clone, PartialEq, Eq)]
pub struct ExternalProvider {
    /// The ID of the user with the provider.
    pub id: u64,
    /// The name of the provider.
    pub name: String,
}

/// Query for users on an instance.
#[derive(Debug)]
pub struct Users {
    /// Search for users using a query string.
    pub search: Option<String>,
    /// Get a user with a given username.
    pub username: Option<String>,
    /// Return only active users.
    pub active: Option<()>,
    /// Return only blocked users.
    pub blocked: Option<()>,
    /// Pagination to use for the results.
    pub pagination: Pagination,
    /// Search for a user with a given external provider identity.
    pub external_provider: Option<ExternalProvider>,
    /// Whether to return external users or not.
    pub external: Option<bool>,
    /// Return users created before a point in time.
    pub created_before: Option<Timestamp>,
    /// Return users created after a point in time.
    pub created_after: Option<Timestamp>,
    /// Search for users with a given custom attribute set.
    pub custom_attributes: AttrMap,
    /// Search for users with custom attributes.
    pub with_custom_attributes: Option<bool>,
    /// Order results by a given key.
    pub order_by: Option<UserOrderBy>,
    /// The sort order for return results.
    pub sort: Option<SortOrder>,
    /// Return users with a two-factor enabled or not.
    pub two_factor: Option<EnableState>,
    /// Filter out users without any projects.
    pub without_projects: Option<bool>,
}

/// Builder for [`Users`].
#[derive(Debug)]
pub struct UsersBuilder {
    /// Search for users using a query string.
    pub search: Option<String>,
    /// Get a user with a given username.
    pub username: Option<String>,
    /// Return only active users.
    pub active: Option<()>,
    /// Return only blocked users.
    pub blocked: Option<()>,
    /// Pagination to use for the results.
    pub pagination: Pagination,
    /// Search for a user with a given external provider identity.
    pub external_provider: Option<ExternalProvider>,
    /// Whether to return external users or not.
    pub external: Option<bool>,
    /// Return users created before a point in time.
    pub created_before: Option<Timestamp>,
    /// Return users created after a point in time.
    pub created_after: Option<Timestamp>,
    /// Search for users with a given custom attribute set.
    pub custom_attributes: AttrMap,
    /// Search for users with custom attributes.
    pub with_custom_attributes: Option<bool>,
    /// Order results by a given key.
    pub order_by: Option<UserOrderBy>,
    /// The sort order for return results.
    pub sort: Option<SortOrder>,
    /// Return users with a two-factor enabled or not.
    pub two_factor: Option<EnableState>,
    /// Filter out users without any projects.
    pub without_projects: Option<bool>,
}

impl Users {
    /// Create a builder for the endpoint.
    pub fn builder() -> (r: UsersBuilder)
        ensures
            r.search is None,
            r.username is None,
            r.active is None,
            r.blocked is None,
            r.pagination == Pagination::All,
            r.external_provider is None,
            r.external is None,
            r.created_before is None,
            r.created_after is None,
            r.custom_attributes@ == Seq::<(Seq<char>, Seq<char>)>::empty(),
            r.with_custom_attributes is None,
            r.order_by is None,
            r.sort is None,
            r.two_factor is None,
            r.without_projects is None,
    {
        UsersBuilder { search: None, username: None, active: None, blocked: None, pagination: Pagination::All, external_provider: None, external: None, created_before: None, created_after: None, custom_attributes: AttrMap::new(), with_custom_attributes: None, order_by: None, sort: None, two_factor: None, without_projects: None }
    }

    /// The path of the endpoint.
    pub fn endpoint(&self) -> (r: String)
        ensures
            r@ == "users"@,
    {
        let mut r = String::from_str("users");
        r
    }

    /// The parameters of the request, in the order they are sent.
    pub open spec fn spec_parameters(&self) -> ParamsView {
        Seq::<(Seq<char>, Seq<char>)>::empty()
            + opt_param("search"@, opt_view(self.search))
            + opt_param("username"@, opt_view(self.username))
            + opt_param(
                "active"@,
                match self.active {
                    Some(_) => Some("true"@),
                    None => None,
                },
            )
            + opt_param(
                "blocked"@,
                match self.blocked {
                    Some(_) => Some("true"@),
                    None => None,
                },
            )
            + opt_param(
                "extern_uid"@,
                match self.external_provider {
                    Some(p) => Some(decimal(p.id as nat)),
                    None => None,
                },
            )
            + opt_param(
                "provider"@,
                match self.external_provider {
                    Some(p) => Some(p.name@),
                    None => None,
                },
            )
            + opt_param("external"@, flag_opt(self.external))
            + opt_param(
                "created_before"@,
                match self.created_before {
                    Some(t) => Some(rfc3339_offset(t.secs())),
                    None => None,
                },
            )
            + opt_param(
                "created_after"@,
                match self.created_after {
                    Some(t) => Some(rfc3339_offset(t.secs())),
                    None => None,
                },
            )
            + attr_params(self.custom_attributes@)
            + opt_param("with_custom_attributes"@, flag_opt(self.with_custom_attributes))
            + opt_param(
                "order_by"@,
                match self.order_by {
                    Some(x) => Some(x.spec_str()),
                    None => None,
                },
            )
            + opt_param(
                "sort"@,
                match self.sort {
                    Some(x) => Some(x.spec_str()),
                    None => None,
                },
            )
            + opt_param(
                "two_factor"@,
                match self.two_factor {
                    Some(x) => Some(x.spec_str()),
                    None => None,
                },
            )
            + opt_param("without_projects"@, flag_opt(self.without_projects))
    }

    /// The query parameters of the request.
    pub fn parameters(&self) -> (r: Vec<(String, String)>)
        ensures
            params_view(r@) == self.spec_parameters(),
    {
        let mut params: Vec<(String, String)> = Vec::new();
        push_opt(&mut params, "search", opt_text(&self.search));
        push_opt(&mut params, "username", opt_text(&self.username));
        let value = match self.active {
            Some(_) => Some(String::from_str("true")),
            None => None,
        };
        push_opt(&mut params, "active", value);
        let value = match self.blocked {
            Some(_) => Some(String::from_str("true")),
            None => None,
        };
        push_opt(&mut params, "blocked", value);
        let value = match &self.external_provider {
            Some(p) => Some(to_decimal(p.id)),
            None => None,
        };
        push_opt(&mut params, "extern_uid", value);
        let value = match &self.external_provider {
            Some(p) => Some(p.name.clone()),
            None => None,
        };
        push_opt(&mut params, "provider", value);
        push_opt(&mut params, "external", opt_flag(self.external));
        let value = match &self.created_before {
            Some(t) => Some(t.to_rfc3339()),
            None => None,
        };
        push_opt(&mut params, "created_before", value);
        let value = match &self.created_after {
            Some(t) => Some(t.to_rfc3339()),
            None => None,
        };
        push_opt(&mut params, "created_after", value);
        push_attrs(&mut params, &self.custom_attributes);
        push_opt(&mut params, "with_custom_attributes", opt_flag(self.with_custom_attributes));
        let value = match self.order_by {
            Some(x) => Some(String::from_str(x.as_str())),
            None => None,
        };
        push_opt(&mut params, "order_by", value);
        let value = match self.sort {
            Some(x) => Some(String::from_str(x.as_str())),
            None => None,
        };
        push_opt(&mut params, "sort", value);
        let value = match self.two_factor {
            Some(x) => Some(String::from_str(x.as_str())),
            None => None,
        };
        push_opt(&mut params, "two_factor", value);
        push_opt(&mut params, "without_projects", opt_flag(self.without_projects));
        params
    }
}

impl UsersBuilder {
    /// Clear custom attribute search parameters.
    pub fn clear_custom_attributes(self) -> (r: Self)
        ensures
            r.custom_attributes@ == Seq::<(Seq<char>, Seq<char>)>::empty(),
            r == (UsersBuilder { custom_attributes: r.custom_attributes, ..self }),
    {
        let mut b = self;
        b.custom_attributes = AttrMap::new();
        b
    }

    /// Add a custom attribute search parameter.
    pub fn custom_attribute(self, key: String, value: String) -> (r: Self)
        ensures
            forall|k: Seq<char>| #[trigger]
                r.custom_attributes.get(k) == if k == key@ {
                    Some(value@)
                } else {
                    self.custom_attributes.get(k)
                },
            r == (UsersBuilder { custom_attributes: r.custom_attributes, ..self }),
    {
        let mut b = self;
        b.custom_attributes.insert(key, value);
        b
    }

    /// Add multiple custom attribute search parameters, in order.
    pub fn custom_attributes(self, attrs: Vec<(String, String)>) -> (r: Self)
        ensures
            forall|k: Seq<char>| #[trigger]
                r.custom_attributes.get(k) == match attr_lookup(
                    attrs@.map_values(|p: (String, String)| (p.0@, p.1@)),
                    k,
                ) {
                    Some(v) => Some(v),
                    None => self.custom_attributes.get(k),
                },
            r == (UsersBuilder { custom_attributes: r.custom_attributes, ..self }),
    {
        let ghost orig = self;
        let ghost pairs = attrs@.map_values(|p: (String, String)| (p.0@, p.1@));
        let mut b = self;
        let mut attrs = attrs;
        let mut i: usize = 0;
        let n = attrs.len();
        assert(pairs.subrange(0, 0) =~= Seq::<(Seq<char>, Seq<char>)>::empty());
        while attrs.len() > 0
            invariant
                i + attrs.len() == n,
                n == pairs.len(),
                attrs@.map_values(|p: (String, String)| (p.0@, p.1@)) == pairs.subrange(i as int, n as int),
                b == (UsersBuilder { custom_attributes: b.custom_attributes, ..orig }),
                forall|k: Seq<char>| #[trigger]
                    b.custom_attributes.get(k) == match attr_lookup(pairs.subrange(0, i as int), k) {
                        Some(v) => Some(v),
                        None => orig.custom_attributes.get(k),
                    },
            decreases attrs.len(),
        {
            let ghost before = attrs@.map_values(|p: (String, String)| (p.0@, p.1@));
            assert(before[0] == pairs[i as int]);
            let (key, value) = attrs.remove(0);
            assert(before[0] == (key@, value@));
            assert(attrs@.map_values(|p: (String, String)| (p.0@, p.1@)) =~= before.drop_first());
            assert(pairs.subrange(0, i + 1).drop_last() =~= pairs.subrange(0, i as int));
            assert(pairs.subrange(0, i + 1).last() == (key@, value@));
            b.custom_attributes.insert(key, value);
            assert(pairs.subrange(i + 1, n as int) =~= pairs.subrange(i as int, n as int).drop_first());
            i = i + 1;
        }
        assert(pairs.subrange(0, n as int) =~= pairs);
        b
    }

    /// Set search for users using a query string.
    pub fn search(self, search: String) -> (r: Self)
        ensures
            r == (UsersBuilder { search: Some(search), ..self }),
    {
        let mut b = self;
        b.search = Some(search);
        b
    }

    /// Set get a user with a given username.
    pub fn username(self, username: String) -> (r: Self)
        ensures
            r == (UsersBuilder { username: Some(username), ..self }),
    {
        let mut b = self;
        b.username = Some(username);
        b
    }

    /// Set return only active users.
    pub fn active(self, active: ()) -> (r: Self)
        ensures
            r == (UsersBuilder { active: Some(active), ..self }),
    {
        let mut b = self;
        b.active = Some(active);
        b
    }

    /// Set return only blocked users.
    pub fn blocked(self, blocked: ()) -> (r: Self)
        ensures
            r == (UsersBuilder { blocked: Some(blocked), ..self }),
    {
        let mut b = self;
        b.blocked = Some(blocked);
        b
    }

    /// Set pagination to use for the results.
    pub fn pagination(self, pagination: Pagination) -> (r: Self)
        ensures
            r == (UsersBuilder { pagination: pagination, ..self }),
    {
        let mut b = self;
        b.pagination = pagination;
        b
    }

    /// Set search for a user with a given external provider identity.
    pub fn external_provider(self, external_provider: ExternalProvider) -> (r: Self)
        ensures
            r == (UsersBuilder { external_provider: Some(external_provider), ..self }),
    {
        let mut b = self;
        b.external_provider = Some(external_provider);
        b
    }

    /// Set whether to return external users or not.
    pub fn external(self, external: bool) -> (r: Self)
        ensures
            r == (UsersBuilder { external: Some(external), ..self }),
    {
        let mut b = self;
        b.external = Some(external);
        b
    }

    /// Set return users created before a point in time.
    pub fn created_before(self, created_before: Timestamp) -> (r: Self)
        ensures
            r == (UsersBuilder { created_before: Some(created_before), ..self }),
    {
        let mut b = self;
        b.created_before = Some(created_before);
        b
    }

    /// Set return users created after a point in time.
    pub fn created_after(self, created_after: Timestamp) -> (r: Self)
        ensures
            r == (UsersBuilder { created_after: Some(created_after), ..self }),
    {
        let mut b = self;
        b.created_after = Some(created_after);
        b
    }

    /// Set search for users with custom attributes.
    pub fn with_custom_attributes(self, with_custom_attributes: bool) -> (r: Self)
        ensures
            r == (UsersBuilder { with_custom_attributes: Some(with_custom_attributes), ..self }),
    {
        let mut b = self;
        b.with_custom_attributes = Some(with_custom_attributes);
        b
    }

    /// Set order results by a given key.
    pub fn order_by(self, order_by: UserOrderBy) -> (r: Self)
        ensures
            r == (UsersBuilder { order_by: Some(order_by), ..self }),
    {
        let mut b = self;
        b.order_by = Some(order_by);
        b
    }

    /// Set the sort order for return results.
    pub fn sort(self, sort: SortOrder) -> (r: Self)
        ensures
            r == (UsersBuilder { sort: Some(sort), ..self }),
    {
        let mut b = self;
        b.sort = Some(sort);
        b
    }

    /// Set return users with a two-factor enabled or not.
    pub fn two_factor(self, two_factor: EnableState) -> (r: Self)
        ensures
            r == (UsersBuilder { two_factor: Some(two_factor), ..self }),
    {
        let mut b = self;
        b.two_factor = Some(two_factor);
        b
    }

    /// Set filter out users without any projects.
    pub fn without_projects(self, without_projects: bool) -> (r: Self)
        ensures
            r == (UsersBuilder { without_projects: Some(without_projects), ..self }),
    {
        let mut b = self;
        b.without_projects = Some(without_projects);
        b
    }

    /// The endpoint, where every required field is set; else the first
    /// required field that is not.
    pub fn build(self) -> (r: Result<Users, String>)
        ensures
            match r {
                Ok(q) => q.search == self.search
                    && q.username == self.username
                    && q.active == self.active
                    && q.blocked == self.blocked
                    && q.pagination == self.pagination
                    && q.external_provider == self.external_provider
                    && q.external == self.external
                    && q.created_before == self.created_before
                    && q.created_after == self.created_after
                    && q.custom_attributes == self.custom_attributes
                    && q.with_custom_attributes == self.with_custom_attributes
                    && q.order_by == self.order_by
                    && q.sort == self.sort
                    && q.two_factor == self.two_factor
                    && q.without_projects == self.without_projects,
                Err(e) => false,
            },
    {
        Ok(Users { search: self.search, username: self.username, active: self.active, blocked: self.blocked, pagination: self.pagination, external_provider: self.external_provider, external: self.external, created_before: self.created_before, created_after: self.created_after, custom_attributes: self.custom_attributes, with_custom_attributes: self.with_custom_attributes, order_by: self.order_by, sort: self.sort, two_factor: self.two_factor, without_projects: self.without_projects })
    }
}

impl Pageable for Users {
    open spec fn keyset(&self) -> bool {
        false
    }

    open spec fn spec_path(&self) -> Seq<char> {
        "users"@
    }

    open spec fn spec_query(&self) -> ParamsView {
        self.spec_parameters()
    }

    fn use_keyset_pagination(&self) -> (r: bool) {
        false
    }

    fn path(&self) -> (r: String) {
        self.endpoint()
    }

    fn query_params(&self) -> (r: Vec<(String, String)>) {
        self.parameters()
    }
}

/// Query for a specific user.
#[derive(Debug, Clone)]
pub struct User {
    /// The ID of the user.
    pub user: u64,
}

/// Builder for [`User`].
#[derive(Debug, Clone)]
pub struct UserBuilder {
    /// The ID of the user.
    pub user: Option<u64>,
}

impl User {
    /// Create a builder for the endpoint.
    pub fn builder() -> (r: UserBuilder)
        ensures
            r.user is None,
    {
        UserBuilder { user: None }
    }

    /// The path of the endpoint.
    pub fn endpoint(&self) -> (r: String)
        ensures
            r@ == "users/"@ + decimal(self.user as nat),
    {
        let mut r = String::from_str("users/");
        let part = to_decimal(self.user);
        r.append(part.as_str());
        r
    }
}

impl UserBuilder {
    /// Set the ID of the user.
    pub fn user(self, user: u64) -> (r: Self)
        ensures
            r == (UserBuilder { user: Some(user), ..self }),
    {
        let mut b = self;
        b.user = Some(user);
        b
    }

    /// The endpoint, where every required field is set; else the first
    /// required field that is not.
    pub fn build(self) -> (r: Result<User, String>)
        ensures
            match r {
                Ok(q) => self.user == Some(q.user),
                Err(e) => (self.user is None && e@ == "`user` must be initialized"@),
            },
    {
        let user = match self.user {
            Some(v) => v,
            None => {
                return Err(String::from_str("`user` must be initialized"));
            },
        };
        Ok(User { user })
    }
}

/// Query for the API caller.
#[derive(Debug, Clone)]
pub struct CurrentUser {
}

/// Builder for [`CurrentUser`].
#[derive(Debug, Clone)]
pub struct CurrentUserBuilder {
}

impl CurrentUser {
    /// Create a builder for the endpoint.
    pub fn builder() -> (r: CurrentUserBuilder)
        ensures
    {
        CurrentUserBuilder {  }
    }

    /// The path of the endpoint.
    pub fn endpoint(&self) -> (r: String)
        ensures
            r@ == "user"@,
    {
        let mut r = String::from_str("user");
        r
    }
}

impl CurrentUserBuilder {
    /// The endpoint, where every required field is set; else the first
    /// required field that is not.
    pub fn build(self) -> (r: Result<CurrentUser, String>)
        ensures
            match r {
                Ok(q) => true,
                Err(e) => false,
            },
    {
        Ok(CurrentUser {  })
    }
}

} // verus!
