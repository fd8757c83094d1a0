//! Project queries.

use vstd::prelude::*;
use vstd::string::*;

use crate::common::{AccessLevel, SortOrder, VisibilityLevel};
use crate::paged::{Pageable, Pagination};
use crate::link::opt_view;
use crate::params::{attr_params, flag_opt, number_opt, opt_flag, opt_number, opt_param, opt_text, params_view, push_attrs, push_opt, ParamsView};
use crate::sets::{attr_lookup, AttrMap};
use crate::text::{decimal, to_decimal};
use crate::timestamp::{rfc3339_z, Timestamp};

verus! {

/// Keys project results may be ordered by.
#[derive(Debug, Clone, Copy, PartialEq, Eq, Structural)]
pub enum ProjectOrderBy {
    /// Order by the user ID.
    Id,
    /// Order by the name.
    Name,
    /// Order by the path.
    Path,
    /// Order by the creation date.
    CreatedAt,
    /// Order by the last update date.
    UpdatedAt,
    /// Order by the last activity date.
    LastActivityAt,
}

impl Default for ProjectOrderBy {
    fn default() -> (r: Self)
        ensures
            r == ProjectOrderBy::CreatedAt,
    {
        ProjectOrderBy::CreatedAt
    }
}

impl ProjectOrderBy {
    /// The parameter value.
    pub open spec fn spec_str(self) -> Seq<char> {
        match self {
            ProjectOrderBy::Id => "id"@,
            ProjectOrderBy::Name => "name"@,
            ProjectOrderBy::Path => "path"@,
            ProjectOrderBy::CreatedAt => "created_at"@,
            ProjectOrderBy::UpdatedAt => "updated_at"@,
            ProjectOrderBy::LastActivityAt => "last_activity_at"@,
        }
    }

    /// The string representation.
    pub fn as_str(self) -> (r: &'static str)
        ensures
            r@ == self.spec_str(),
    {
        match self {
            ProjectOrderBy::Id => "id",
            ProjectOrderBy::Name => "name",
            ProjectOrderBy::Path => "path",
            ProjectOrderBy::CreatedAt => "created_at",
            ProjectOrderBy::UpdatedAt => "updated_at",
            ProjectOrderBy::LastActivityAt => "last_activity_at",
        }
    }
}

impl ProjectOrderBy {
    /// Whether ordering by this key pages by keyset.
    pub fn use_keyset_pagination(self) -> (r: bool)
        ensures
            r == (self == ProjectOrderBy::Id),
    {
        self == ProjectOrderBy::Id
    }
}

/// The parameter value of a flag.
pub open spec fn spec_bool_str(b: bool) -> Seq<char> {
    if b {
        "true"@
    } else {
        "false"@
    }
}

/// The parameter value of a flag.
pub fn bool_as_str(b: bool) -> (r: &'static str)
    ensures
        r@ == spec_bool_str(b),
{
    if b {
        "true"
    } else {
        "false"
    }
}

/// Query for projects on an instance.
#[derive(Debug)]
pub struct Projects {
    /// Search for projects using a query string.
    pub search: Option<String>,
    /// Filter by archived state.
    pub archived: Option<bool>,
    /// Filter by visibility.
    pub visibility: Option<VisibilityLevel>,
    /// Whether the search covers namespaces too.
    pub search_namespaces: Option<bool>,
    /// Whether to return only limited fields.
    pub simple: Option<bool>,
    /// Filter projects owned by the API caller.
    pub owned: Option<bool>,
    /// Filter projects the API caller is a member of.
    pub membership: Option<bool>,
    /// Filter projects starred by the API caller.
    pub starred: Option<bool>,
    /// Include project statistics.
    pub statistics: Option<bool>,
    /// Pagination to use for the results.
    pub pagination: Pagination,
    /// Filter projects with issues enabled.
    pub with_issues_enabled: Option<bool>,
    /// Filter projects with merge requests enabled.
    pub with_merge_requests_enabled: Option<bool>,
    /// Filter projects by programming language.
    pub with_programming_language: Option<String>,
    /// Filter projects whose wiki checksum failed.
    pub wiki_checksum_failed: Option<bool>,
    /// Filter projects whose repository checksum failed.
    pub repository_checksum_failed: Option<bool>,
    /// Filter projects by the API caller's minimum access level.
    pub min_access_level: Option<AccessLevel>,
    /// Search for projects with a given custom attribute set.
    pub custom_attributes: AttrMap,
    /// Search for projects with custom attributes.
    pub with_custom_attributes: Option<bool>,
    /// Filter projects with an ID after this one.
    pub id_after: Option<u64>,
    /// Filter projects with an ID before this one.
    pub id_before: Option<u64>,
    /// Filter projects with activity after a point in time.
    pub last_activity_after: Option<Timestamp>,
    /// Filter projects with activity before a point in time.
    pub last_activity_before: Option<Timestamp>,
    /// Order results by a given key.
    pub order_by: Option<ProjectOrderBy>,
    /// The sort order for return results.
    pub sort: Option<SortOrder>,
}

/// Builder for [`Projects`].
#[derive(Debug)]
pub struct ProjectsBuilder {
    /// Search for projects using a query string.
    pub search: Option<String>,
    /// Filter by archived state.
    pub archived: Option<bool>,
    /// Filter by visibility.
    pub visibility: Option<VisibilityLevel>,
    /// Whether the search covers namespaces too.
    pub search_namespaces: Option<bool>,
    /// Whether to return only limited fields.
    pub simple: Option<bool>,
    /// Filter projects owned by the API caller.
    pub owned: Option<bool>,
    /// Filter projects the API caller is a member of.
    pub membership: Option<bool>,
    /// Filter projects starred by the API caller.
    pub starred: Option<bool>,
    /// Include project statistics.
    pub statistics: Option<bool>,
    /// Pagination to use for the results.
    pub pagination: Pagination,
    /// Filter projects with issues enabled.
    pub with_issues_enabled: Option<bool>,
    /// Filter projects with merge requests enabled.
    pub with_merge_requests_enabled: Option<bool>,
    /// Filter projects by programming language.
    pub with_programming_language: Option<String>,
    /// Filter projects whose wiki checksum failed.
    pub wiki_checksum_failed: Option<bool>,
    /// Filter projects whose repository checksum failed.
    pub repository_checksum_failed: Option<bool>,
    /// Filter projects by the API caller's minimum access level.
    pub min_access_level: Option<AccessLevel>,
    /// Search for projects with a given custom attribute set.
    pub custom_attributes: AttrMap,
    /// Search for projects with custom attributes.
    pub with_custom_attributes: Option<bool>,
    /// Filter projects with an ID after this one.
    pub id_after: Option<u64>,
    /// Filter projects with an ID before this one.
    pub id_before: Option<u64>,
    /// Filter projects with activity after a point in time.
    pub last_activity_after: Option<Timestamp>,
    /// Filter projects with activity before a point in time.
    pub last_activity_before: Option<Timestamp>,
    /// Order results by a given key.
    pub order_by: Option<ProjectOrderBy>,
    /// The sort order for return results.
    pub sort: Option<SortOrder>,
}

impl Projects {
    /// Create a builder for the endpoint.
    pub fn builder() -> (r: ProjectsBuilder)
        ensures
            r.search is None,
            r.archived is None,
            r.visibility is None,
            r.search_namespaces is None,
            r.simple is None,
            r.owned is None,
            r.membership is None,
            r.starred is None,
            r.statistics is None,
            r.pagination == Pagination::All,
            r.with_issues_enabled is None,
            r.with_merge_requests_enabled is None,
            r.with_programming_language is None,
            r.wiki_checksum_failed is None,
            r.repository_checksum_failed is None,
            r.min_access_level is None,
            r.custom_attributes@ == Seq::<(Seq<char>, Seq<char>)>::empty(),
            r.with_custom_attributes is None,
            r.id_after is None,
            r.id_before is None,
            r.last_activity_after is None,
            r.last_activity_before is None,
            r.order_by is None,
            r.sort is None,
    {
        ProjectsBuilder { search: None, archived: None, visibility: None, search_namespaces: None, simple: None, owned: None, membership: None, starred: None, statistics: None, pagination: Pagination::All, with_issues_enabled: None, with_merge_requests_enabled: None, with_programming_language: None, wiki_checksum_failed: None, repository_checksum_failed: None, min_access_level: None, custom_attributes: AttrMap::new(), with_custom_attributes: None, id_after: None, id_before: None, last_activity_after: None, last_activity_before: None, order_by: None, sort: None }
    }

    /// The path of the endpoint.
    pub fn endpoint(&self) -> (r: String)
        ensures
            r@ == "projects"@,
    {
        let mut r = String::from_str("projects");
        r
    }

    /// The parameters of the request, in the order they are sent.
    pub open spec fn spec_parameters(&self) -> ParamsView {
        Seq::<(Seq<char>, Seq<char>)>::empty()
            + opt_param("search"@, opt_view(self.search))
            + opt_param("archived"@, flag_opt(self.archived))
            + opt_param(
                "visibility"@,
                match self.visibility {
                    Some(x) => Some(x.spec_str()),
                    None => None,
                },
            )
            + opt_param("search_namespaces"@, flag_opt(self.search_namespaces))
            + opt_param("simple"@, flag_opt(self.simple))
            + opt_param("owned"@, flag_opt(self.owned))
            + opt_param("membership"@, flag_opt(self.membership))
            + opt_param("starred"@, flag_opt(self.starred))
            + opt_param("statistics"@, flag_opt(self.statistics))
            + opt_param("with_issues_enabled"@, flag_opt(self.with_issues_enabled))
            + opt_param("with_merge_requests_enabled"@, flag_opt(self.with_merge_requests_enabled))
            + opt_param("with_programming_language"@, opt_view(self.with_programming_language))
            + opt_param("wiki_checksum_failed"@, flag_opt(self.wiki_checksum_failed))
            + opt_param("repository_checksum_failed"@, flag_opt(self.repository_checksum_failed))
            + opt_param(
                "min_access_level"@,
                match self.min_access_level {
                    Some(x) => Some(decimal(x.spec_u64() as nat)),
                    None => None,
                },
            )
            + opt_param("id_after"@, number_opt(self.id_after))
            + opt_param("id_before"@, number_opt(self.id_before))
            + opt_param(
                "last_activity_after"@,
                match self.last_activity_after {
                    Some(t) => Some(rfc3339_z(t.secs())),
                    None => None,
                },
            )
            + opt_param(
                "last_activity_before"@,
                match self.last_activity_before {
                    Some(t) => Some(rfc3339_z(t.secs())),
                    None => None,
                },
            )
            + attr_params(self.custom_attributes@)
            + opt_param("with_custom_attributes"@, flag_opt(self.with_custom_attributes))
            + opt_param(
                "order_by"@,
                match self.order_by {
                    Some(x) => Some(x.spec_str()),
                    None => None,
                },
            )
            + opt_param(
                "sort"@,
                match self.sort {
                    Some(x) => Some(x.spec_str()),
                    None => None,
                },
            )
    }

    /// The query parameters of the request.
    pub fn parameters(&self) -> (r: Vec<(String, String)>)
        ensures
            params_view(r@) == self.spec_parameters(),
    {
        let mut params: Vec<(String, String)> = Vec::new();
        push_opt(&mut params, "search", opt_text(&self.search));
        push_opt(&mut params, "archived", opt_flag(self.archived));
        let value = match self.visibility {
            Some(x) => Some(String::from_str(x.as_str())),
            None => None,
        };
        push_opt(&mut params, "visibility", value);
        push_opt(&mut params, "search_namespaces", opt_flag(self.search_namespaces));
        push_opt(&mut params, "simple", opt_flag(self.simple));
        push_opt(&mut params, "owned", opt_flag(self.owned));
        push_opt(&mut params, "membership", opt_flag(self.membership));
        push_opt(&mut params, "starred", opt_flag(self.starred));
        push_opt(&mut params, "statistics", opt_flag(self.statistics));
        push_opt(&mut params, "with_issues_enabled", opt_flag(self.with_issues_enabled));
        push_opt(&mut params, "with_merge_requests_enabled", opt_flag(self.with_merge_requests_enabled));
        push_opt(&mut params, "with_programming_language", opt_text(&self.with_programming_language));
        push_opt(&mut params, "wiki_checksum_failed", opt_flag(self.wiki_checksum_failed));
        push_opt(&mut params, "repository_checksum_failed", opt_flag(self.repository_checksum_failed));
        let value = match self.min_access_level {
            Some(x) => Some(to_decimal(x.as_u64())),
            None => None,
        };
        push_opt(&mut params, "min_access_level", value);
        push_opt(&mut params, "id_after", opt_number(self.id_after));
        push_opt(&mut params, "id_before", opt_number(self.id_before));
        let value = match &self.last_activity_after {
            Some(t) => Some(t.to_rfc3339_z()),
            None => None,
        };
        push_opt(&mut params, "last_activity_after", value);
        let value = match &self.last_activity_before {
            Some(t) => Some(t.to_rfc3339_z()),
            None => None,
        };
        push_opt(&mut params, "last_activity_before", value);
        push_attrs(&mut params, &self.custom_attributes);
        push_opt(&mut params, "with_custom_attributes", opt_flag(self.with_custom_attributes));
        let value = match self.order_by {
            Some(x) => Some(String::from_str(x.as_str())),
            None => None,
        };
        push_opt(&mut params, "order_by", value);
        let value = match self.sort {
            Some(x) => Some(String::from_str(x.as_str())),
            None => None,
        };
        push_opt(&mut params, "sort", value);
        params
    }
}

impl ProjectsBuilder {
    /// Clear custom attribute search parameters.
    pub fn clear_custom_attributes(self) -> (r: Self)
        ensures
            r.custom_attributes@ == Seq::<(Seq<char>, Seq<char>)>::empty(),
            r == (ProjectsBuilder { custom_attributes: r.custom_attributes, ..self }),
    {
        let mut b = self;
        b.custom_attributes = AttrMap::new();
        b
    }

    /// Add a custom attribute search parameter.
    pub fn custom_attribute(self, key: String, value: String) -> (r: Self)
        ensures
            forall|k: Seq<char>| #[trigger]
                r.custom_attributes.get(k) == if k == key@ {
                    Some(value@)
                } else {
                    self.custom_attributes.get(k)
                },
            r == (ProjectsBuilder { custom_attributes: r.custom_attributes, ..self }),
    {
        let mut b = self;
        b.custom_attributes.insert(key, value);
        b
    }

    /// Add multiple custom attribute search parameters, in order.
    pub fn custom_attributes(self, attrs: Vec<(String, String)>) -> (r: Self)
        ensures
            forall|k: Seq<char>| #[trigger]
                r.custom_attributes.get(k) == match attr_lookup(
                    attrs@.map_values(|p: (String, String)| (p.0@, p.1@)),
                    k,
                ) {
                    Some(v) => Some(v),
                    None => self.custom_attributes.get(k),
                },
            r == (ProjectsBuilder { custom_attributes: r.custom_attributes, ..self }),
    {
        let ghost orig = self;
        let ghost pairs = attrs@.map_values(|p: (String, String)| (p.0@, p.1@));
        let mut b = self;
        let mut attrs = attrs;
        let mut i: usize = 0;
        let n = attrs.len();
        assert(pairs.subrange(0, 0) =~= Seq::<(Seq<char>, Seq<char>)>::empty());
        while attrs.len() > 0
            invariant
                i + attrs.len() == n,
                n == pairs.len(),
                attrs@.map_values(|p: (String, String)| (p.0@, p.1@)) == pairs.subrange(i as int, n as int),
                b == (ProjectsBuilder { custom_attributes: b.custom_attributes, ..orig }),
                forall|k: Seq<char>| #[trigger]
                    b.custom_attributes.get(k) == match attr_lookup(pairs.subrange(0, i as int), k) {
                        Some(v) => Some(v),
                        None => orig.custom_attributes.get(k),
                    },
            decreases attrs.len(),
        {
            let ghost before = attrs@.map_values(|p: (String, String)| (p.0@, p.1@));
            assert(before[0] == pairs[i as int]);
            let (key, value) = attrs.remove(0);
            assert(before[0] == (key@, value@));
            assert(attrs@.map_values(|p: (String, String)| (p.0@, p.1@)) =~= before.drop_first());
            assert(pairs.subrange(0, i + 1).drop_last() =~= pairs.subrange(0, i as int));
            assert(pairs.subrange(0, i + 1).last() == (key@, value@));
            b.custom_attributes.insert(key, value);
            assert(pairs.subrange(i + 1, n as int) =~= pairs.subrange(i as int, n as int).drop_first());
            i = i + 1;
        }
        assert(pairs.subrange(0, n as int) =~= pairs);
        b
    }

    /// Set search for projects using a query string.
    pub fn search(self, search: String) -> (r: Self)
        ensures
            r == (ProjectsBuilder { search: Some(search), ..self }),
    {
        let mut b = self;
        b.search = Some(search);
        b
    }

    /// Set filter by archived state.
    pub fn archived(self, archived: bool) -> (r: Self)
        ensures
            r == (ProjectsBuilder { archived: Some(archived), ..self }),
    {
        let mut b = self;
        b.archived = Some(archived);
        b
    }

    /// Set filter by visibility.
    pub fn visibility(self, visibility: VisibilityLevel) -> (r: Self)
        ensures
            r == (ProjectsBuilder { visibility: Some(visibility), ..self }),
    {
        let mut b = self;
        b.visibility = Some(visibility);
        b
    }

    /// Set whether the search covers namespaces too.
    pub fn search_namespaces(self, search_namespaces: bool) -> (r: Self)
        ensures
            r == (ProjectsBuilder { search_namespaces: Some(search_namespaces), ..self }),
    {
        let mut b = self;
        b.search_namespaces = Some(search_namespaces);
        b
    }

    /// Set whether to return only limited fields.
    pub fn simple(self, simple: bool) -> (r: Self)
        ensures
            r == (ProjectsBuilder { simple: Some(simple), ..self }),
    {
        let mut b = self;
        b.simple = Some(simple);
        b
    }

    /// Set filter projects owned by the API caller.
    pub fn owned(self, owned: bool) -> (r: Self)
        ensures
            r == (ProjectsBuilder { owned: Some(owned), ..self }),
    {
        let mut b = self;
        b.owned = Some(owned);
        b
    }

    /// Set filter projects the API caller is a member of.
    pub fn membership(self, membership: bool) -> (r: Self)
        ensures
            r == (ProjectsBuilder { membership: Some(membership), ..self }),
    {
        let mut b = self;
        b.membership = Some(membership);
        b
    }

    /// Set filter projects starred by the API caller.
    pub fn starred(self, starred: bool) -> (r: Self)
        ensures
            r == (ProjectsBuilder { starred: Some(starred), ..self }),
    {
        let mut b = self;
        b.starred = Some(starred);
        b
    }

    /// Set include project statistics.
    pub fn statistics(self, statistics: bool) -> (r: Self)
        ensures
            r == (ProjectsBuilder { statistics: Some(statistics), ..self }),
    {
        let mut b = self;
        b.statistics = Some(statistics);
        b
    }

    /// Set pagination to use for the results.
    pub fn pagination(self, pagination: Pagination) -> (r: Self)
        ensures
            r == (ProjectsBuilder { pagination: pagination, ..self }),
    {
        let mut b = self;
        b.pagination = pagination;
        b
    }

    /// Set filter projects with issues enabled.
    pub fn with_issues_enabled(self, with_issues_enabled: bool) -> (r: Self)
        ensures
            r == (ProjectsBuilder { with_issues_enabled: Some(with_issues_enabled), ..self }),
    {
        let mut b = self;
        b.with_issues_enabled = Some(with_issues_enabled);
        b
    }

    /// Set filter projects with merge requests enabled.
    pub fn with_merge_requests_enabled(self, with_merge_requests_enabled: bool) -> (r: Self)
        ensures
            r == (ProjectsBuilder { with_merge_requests_enabled: Some(with_merge_requests_enabled), ..self }),
    {
        let mut b = self;
        b.with_merge_requests_enabled = Some(with_merge_requests_enabled);
        b
    }

    /// Set filter projects by programming language.
    pub fn with_programming_language(self, with_programming_language: String) -> (r: Self)
        ensures
            r == (ProjectsBuilder { with_programming_language: Some(with_programming_language), ..self }),
    {
        let mut b = self;
        b.with_programming_language = Some(with_programming_language);
        b
    }

    /// Set filter projects whose wiki checksum failed.
    pub fn wiki_checksum_failed(self, wiki_checksum_failed: bool) -> (r: Self)
        ensures
            r == (ProjectsBuilder { wiki_checksum_failed: Some(wiki_checksum_failed), ..self }),
    {
        let mut b = self;
        b.wiki_checksum_failed = Some(wiki_checksum_failed);
        b
    }

    /// Set filter projects whose repository checksum failed.
    pub fn repository_checksum_failed(self, repository_checksum_failed: bool) -> (r: Self)
        ensures
            r == (ProjectsBuilder { repository_checksum_failed: Some(repository_checksum_failed), ..self }),
    {
        let mut b = self;
        b.repository_checksum_failed = Some(repository_checksum_failed);
        b
    }

    /// Set filter projects by the API caller's minimum access level.
    pub fn min_access_level(self, min_access_level: AccessLevel) -> (r: Self)
        ensures
            r == (ProjectsBuilder { min_access_level: Some(min_access_level), ..self }),
    {
        let mut b = self;
        b.min_access_level = Some(min_access_level);
        b
    }

    /// Set search for projects with custom attributes.
    pub fn with_custom_attributes(self, with_custom_attributes: bool) -> (r: Self)
        ensures
            r == (ProjectsBuilder { with_custom_attributes: Some(with_custom_attributes), ..self }),
    {
        let mut b = self;
        b.with_custom_attributes = Some(with_custom_attributes);
        b
    }

    /// Set filter projects with an ID after this one.
    pub fn id_after(self, id_after: u64) -> (r: Self)
        ensures
            r == (ProjectsBuilder { id_after: Some(id_after), ..self }),
    {
        let mut b = self;
        b.id_after = Some(id_after);
        b
    }

    /// Set filter projects with an ID before this one.
    pub fn id_before(self, id_before: u64) -> (r: Self)
        ensures
            r == (ProjectsBuilder { id_before: Some(id_before), ..self }),
    {
        let mut b = self;
        b.id_before = Some(id_before);
        b
    }

    /// Set filter projects with activity after a point in time.
    pub fn last_activity_after(self, last_activity_after: Timestamp) -> (r: Self)
        ensures
            r == (ProjectsBuilder { last_activity_after: Some(last_activity_after), ..self }),
    {
        let mut b = self;
        b.last_activity_after = Some(last_activity_after);
        b
    }

    /// Set filter projects with activity before a point in time.
    pub fn last_activity_before(self, last_activity_before: Timestamp) -> (r: Self)
        ensures
            r == (ProjectsBuilder { last_activity_before: Some(last_activity_before), ..self }),
    {
        let mut b = self;
        b.last_activity_before = Some(last_activity_before);
        b
    }

    /// Set order results by a given key.
    pub fn order_by(self, order_by: ProjectOrderBy) -> (r: Self)
        ensures
            r == (ProjectsBuilder { order_by: Some(order_by), ..self }),
    {
        let mut b = self;
        b.order_by = Some(order_by);
        b
    }

    /// Set the sort order for return results.
    pub fn sort(self, sort: SortOrder) -> (r: Self)
        ensures
            r == (ProjectsBuilder { sort: Some(sort), ..self }),
    {
        let mut b = self;
        b.sort = Some(sort);
        b
    }

    /// The endpoint, where every required field is set; else the first
    /// required field that is not.
    pub fn build(self) -> (r: Result<Projects, String>)
        ensures
            match r {
                Ok(q) => q.search == self.search
                    && q.archived == self.archived
                    && q.visibility == self.visibility
                    && q.search_namespaces == self.search_namespaces
                    && q.simple == self.simple
                    && q.owned == self.owned
                    && q.membership == self.membership
                    && q.starred == self.starred
                    && q.statistics == self.statistics
                    && q.pagination == self.pagination
                    && q.with_issues_enabled == self.with_issues_enabled
                    && q.with_merge_requests_enabled == self.with_merge_requests_enabled
                    && q.with_programming_language == self.with_programming_language
                    && q.wiki_checksum_failed == self.wiki_checksum_failed
                    && q.repository_checksum_failed == self.repository_checksum_failed
                    && q.min_access_level == self.min_access_level
                    && q.custom_attributes == self.custom_attributes
                    && q.with_custom_attributes == self.with_custom_attributes
                    && q.id_after == self.id_after
                    && q.id_before == self.id_before
                    && q.last_activity_after == self.last_activity_after
                    && q.last_activity_before == self.last_activity_before
                    && q.order_by == self.order_by
                    && q.sort == self.sort,
                Err(e) => false,
            },
    {
        Ok(Projects { search: self.search, archived: self.archived, visibility: self.visibility, search_namespaces: self.search_namespaces, simple: self.simple, owned: self.owned, membership: self.membership, starred: self.starred, statistics: self.statistics, pagination: self.pagination, with_issues_enabled: self.with_issues_enabled, with_merge_requests_enabled: self.with_merge_requests_enabled, with_programming_language: self.with_programming_language, wiki_checksum_failed: self.wiki_checksum_failed, repository_checksum_failed: self.repository_checksum_failed, min_access_level: self.min_access_level, custom_attributes: self.custom_attributes, with_custom_attributes: self.with_custom_attributes, id_after: self.id_after, id_before: self.id_before, last_activity_after: self.last_activity_after, last_activity_before: self.last_activity_before, order_by: self.order_by, sort: self.sort })
    }
}

impl Pageable for Projects {
    open spec fn keyset(&self) -> bool {
        self.order_by == Some(ProjectOrderBy::Id)
    }

    open spec fn spec_path(&self) -> Seq<char> {
        "projects"@
    }

    open spec fn spec_query(&self) -> ParamsView {
        self.spec_parameters()
    }

    fn use_keyset_pagination(&self) -> (r: bool) {
        match self.order_by {
            Some(order_by) => order_by.use_keyset_pagination(),
            None => false,
        }
    }

    fn path(&self) -> (r: String) {
        self.endpoint()
    }

    fn query_params(&self) -> (r: Vec<(String, String)>) {
        self.parameters()
    }
}

} // verus!
