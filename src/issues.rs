//! Query for issues within a project, and its filters.

use vstd::prelude::*;
use vstd::string::*;

use crate::common::{NameOrId, SortOrder};
use crate::link::opt_view;
use crate::paged::Pageable;
use crate::params::{
    flag_opt, opt_flag, opt_param, opt_text, params_view, push_opt, push_param, ParamsView,
};
use crate::sets::{join, StrSet, U64Set};
use crate::text::{decimal, to_decimal};
use crate::timestamp::{rfc3339_z, Timestamp};

verus! {

/// Filters for issue states.
#[derive(Debug, Clone, Copy, PartialEq, Eq, Structural)]
pub enum IssueState {
    /// Filter issues that are open.
    Opened,
    /// Filter issues that are closed.
    Closed,
}

impl IssueState {
    /// The parameter value of the state.
    pub open spec fn spec_str(self) -> Seq<char> {
        match self {
            IssueState::Opened => "opened"@,
            IssueState::Closed => "closed"@,
        }
    }

    /// The string representation of the state.
    pub fn as_str(self) -> (r: &'static str)
        ensures
            r@ == self.spec_str(),
    {
        match self {
            IssueState::Opened => "opened",
            IssueState::Closed => "closed",
        }
    }
}

/// A label filter.
#[derive(Debug, Clone)]
pub enum Labels {
    /// Issues with any label.
    Any,
    /// Issues without labels.
    Unlabeled,
    /// Issues with all of these labels.
    AllOf(StrSet),
}

impl Labels {
    /// The parameter value of the filter.
    pub open spec fn spec_str(&self) -> Seq<char> {
        match self {
            Labels::Any => "Any"@,
            Labels::Unlabeled => "None"@,
            Labels::AllOf(set) => join(set@, ","@),
        }
    }

    /// The filter as a parameter value: the labels in order, comma separated.
    pub fn as_str(&self) -> (r: String)
        ensures
            r@ == self.spec_str(),
    {
        match self {
            Labels::Any => String::from_str("Any"),
            Labels::Unlabeled => String::from_str("None"),
            Labels::AllOf(set) => set.joined(","),
        }
    }
}

/// A milestone filter.
#[derive(Debug, Clone)]
pub enum Milestone {
    /// Issues without a milestone.
    Without,
    /// Issues with any milestone.
    Any,
    /// Issues with the named milestone.
    Named(String),
}

impl Milestone {
    /// The parameter value of the filter.
    pub open spec fn spec_str(&self) -> Seq<char> {
        match self {
            Milestone::Without => "None"@,
            Milestone::Any => "Any"@,
            Milestone::Named(name) => name@,
        }
    }

    /// The filter as a parameter value.
    pub fn as_str(&self) -> (r: &str)
        ensures
            r@ == self.spec_str(),
    {
        match self {
            Milestone::Without => "None",
            Milestone::Any => "Any",
            Milestone::Named(name) => name.as_str(),
        }
    }
}

/// Filter issues by a scope.
#[derive(Debug, Clone, Copy, PartialEq, Eq, Structural)]
pub enum IssueScope {
    /// Filter issues created by the API caller.
    CreatedByMe,
    /// Filter issues assigned to the API caller.
    AssignedToMe,
    /// Return all issues.
    All,
}

impl IssueScope {
    /// The parameter value of the scope.
    pub open spec fn spec_str(self) -> Seq<char> {
        match self {
            IssueScope::CreatedByMe => "created_by_me"@,
            IssueScope::AssignedToMe => "assigned_to_me"@,
            IssueScope::All => "all"@,
        }
    }

    /// The string representation of the scope.
    pub fn as_str(self) -> (r: &'static str)
        ensures
            r@ == self.spec_str(),
    {
        match self {
            IssueScope::CreatedByMe => "created_by_me",
            IssueScope::AssignedToMe => "assigned_to_me",
            IssueScope::All => "all",
        }
    }
}

/// An assignee filter.
#[derive(Debug, Clone)]
pub enum Assignee {
    /// Issues with an assignee.
    Assigned,
    /// Issues without an assignee.
    Unassigned,
    /// Issues assigned to the user with this ID.
    Id(u64),
    /// Issues assigned to users with these names.
    Usernames(StrSet),
}

impl Assignee {
    /// The query parameters of the filter.
    pub open spec fn spec_params(&self) -> Seq<(Seq<char>, Seq<char>)> {
        match self {
            Assignee::Assigned => seq![("assignee_id"@, "Any"@)],
            Assignee::Unassigned => seq![("assignee_id"@, "None"@)],
            Assignee::Id(id) => seq![("assignee_id"@, decimal(*id as nat))],
            Assignee::Usernames(names) => names@.map_values(
                |n: Seq<char>| ("assignee_username[]"@, n),
            ),
        }
    }

    /// Appends the query parameters of the filter.
    pub fn add_params(&self, params: &mut Vec<(String, String)>)
        ensures
            params_view(final(params)@) == params_view(old(params)@) + self.spec_params(),
    {
        let ghost start = params_view(params@);
        match self {
            Assignee::Assigned => {
                params.push((String::from_str("assignee_id"), String::from_str("Any")));
            },
            Assignee::Unassigned => {
                params.push((String::from_str("assignee_id"), String::from_str("None")));
            },
            Assignee::Id(id) => {
                params.push((String::from_str("assignee_id"), to_decimal(*id)));
            },
            Assignee::Usernames(names) => {
                let items = names.to_vec();
                let mut i: usize = 0;
                while i < items.len()
                    invariant
                        items@.map_values(|s: String| s@) == names@,
                        i <= items.len(),
                        params_view(params@) == start + names@.subrange(0, i as int).map_values(
                            |n: Seq<char>| ("assignee_username[]"@, n),
                        ),
                    decreases items.len() - i,
                {
                    let ghost before = params_view(params@);
                    params.push((String::from_str("assignee_username[]"), items[i].clone()));
                    assert(params_view(params@) =~= before.push(
                        ("assignee_username[]"@, items@[i as int]@),
                    ));
                    assert(names@.subrange(0, i + 1) =~= names@.subrange(0, i as int).push(
                        items@[i as int]@,
                    ));
                    i = i + 1;
                }
                assert(names@.subrange(0, items.len() as int) =~= names@);
            },
        }
        assert(params_view(params@) =~= start + self.spec_params());
    }
}

/// A reaction filter.
#[derive(Debug, Clone)]
pub enum ReactionEmoji {
    /// Issues without a reaction by the API caller.
    NoReaction,
    /// Issues with any reaction by the API caller.
    Any,
    /// Issues with this reaction by the API caller.
    Emoji(String),
}

impl ReactionEmoji {
    /// The parameter value of the filter.
    pub open spec fn spec_str(&self) -> Seq<char> {
        match self {
            ReactionEmoji::NoReaction => "None"@,
            ReactionEmoji::Any => "Any"@,
            ReactionEmoji::Emoji(name) => name@,
        }
    }

    /// The filter as a parameter value.
    pub fn as_str(&self) -> (r: &str)
        ensures
            r@ == self.spec_str(),
    {
        match self {
            ReactionEmoji::NoReaction => "None",
            ReactionEmoji::Any => "Any",
            ReactionEmoji::Emoji(name) => name.as_str(),
        }
    }
}

/// Filter issues by weight.
#[derive(Debug, Clone, Copy, PartialEq, Eq, Structural)]
pub enum IssueWeight {
    /// Filter issues with any weight.
    Any,
    /// Filter issues with no weight assigned.
    Unweighted,
    /// Filter issues with a specific weight.
    Weight(u64),
}

impl IssueWeight {
    /// The parameter value of the filter.
    pub open spec fn spec_str(self) -> Seq<char> {
        match self {
            IssueWeight::Any => "Any"@,
            IssueWeight::Unweighted => "None"@,
            IssueWeight::Weight(w) => decimal(w as nat),
        }
    }

    /// The filter as a parameter value.
    pub fn as_str(self) -> (r: String)
        ensures
            r@ == self.spec_str(),
    {
        match self {
            IssueWeight::Any => String::from_str("Any"),
            IssueWeight::Unweighted => String::from_str("None"),
            IssueWeight::Weight(weight) => to_decimal(weight),
        }
    }
}

/// Keys issue results may be ordered by.
#[derive(Debug, Clone, Copy, PartialEq, Eq, Structural)]
pub enum IssueOrderBy {
    /// Sort by creation date.
    CreatedAt,
    /// Sort by last updated date.
    UpdatedAt,
    /// Sort by priority.
    Priority,
    /// Sort by due date.
    DueDate,
    /// Sort by relative position.
    RelativePosition,
    /// Sort by priority labels.
    LabelPriority,
    /// Sort by milestone due date.
    MilestoneDue,
    /// Sort by popularity.
    Popularity,
    /// Sort by weight.
    WeightFields,
}

impl Default for IssueOrderBy {
    fn default() -> (r: Self)
        ensures
            r == IssueOrderBy::CreatedAt,
    {
        IssueOrderBy::CreatedAt
    }
}

impl IssueOrderBy {
    /// The parameter value of the key.
    pub open spec fn spec_str(self) -> Seq<char> {
        match self {
            IssueOrderBy::CreatedAt => "created_at"@,
            IssueOrderBy::UpdatedAt => "updated_at"@,
            IssueOrderBy::Priority => "priority"@,
            IssueOrderBy::DueDate => "due_date"@,
            IssueOrderBy::RelativePosition => "relative_position"@,
            IssueOrderBy::LabelPriority => "label_priority"@,
            IssueOrderBy::MilestoneDue => "milestone_due"@,
            IssueOrderBy::Popularity => "popularity"@,
            IssueOrderBy::WeightFields => "weight_fields"@,
        }
    }

    /// The string representation of the key.
    pub fn as_str(self) -> (r: &'static str)
        ensures
            r@ == self.spec_str(),
    {
        match self {
            IssueOrderBy::CreatedAt => "created_at",
            IssueOrderBy::UpdatedAt => "updated_at",
            IssueOrderBy::Priority => "priority",
            IssueOrderBy::DueDate => "due_date",
            IssueOrderBy::RelativePosition => "relative_position",
            IssueOrderBy::LabelPriority => "label_priority",
            IssueOrderBy::MilestoneDue => "milestone_due",
            IssueOrderBy::Popularity => "popularity",
            IssueOrderBy::WeightFields => "weight_fields",
        }
    }
}

/// Query for issues within a project.
#[derive(Debug, Clone)]
pub struct Issues {
    /// The project to query for issues.
    pub project: NameOrId,
    /// The filters of the query.
    pub filters: IssueFilters,
}

impl IssueFilters {
    /// The `iids[]` parameters, in increasing order.
    pub open spec fn spec_id_params(&self) -> ParamsView {
        self.iids@.map_values(|i: u64| ("iids[]"@, decimal(i as nat)))
    }

    /// The parameters of the value filters.
    pub open spec fn spec_value_params(&self) -> ParamsView {
        Seq::<(Seq<char>, Seq<char>)>::empty() + opt_param(
            "state"@,
            match self.state {
                Some(x) => Some(x.spec_str()),
                None => None,
            },
        ) + opt_param(
            "labels"@,
            match self.labels {
                Some(x) => Some(x.spec_str()),
                None => None,
            },
        ) + opt_param("with_labels_details"@, flag_opt(self.with_labels_details)) + opt_param(
            "milestone"@,
            match self.milestone {
                Some(x) => Some(x.spec_str()),
                None => None,
            },
        ) + opt_param(
            "scope"@,
            match self.scope {
                Some(x) => Some(x.spec_str()),
                None => None,
            },
        ) + opt_param(
            "my_reaction_emoji"@,
            match self.my_reaction_emoji {
                Some(x) => Some(x.spec_str()),
                None => None,
            },
        ) + opt_param(
            "weight"@,
            match self.weight {
                Some(x) => Some(x.spec_str()),
                None => None,
            },
        ) + opt_param("search"@, opt_view(self.search))
    }

    /// The parameters of the time filters, then confidentiality and order.
    pub open spec fn spec_time_params(&self) -> ParamsView {
        Seq::<(Seq<char>, Seq<char>)>::empty() + opt_param(
            "created_after"@,
            match self.created_after {
                Some(t) => Some(rfc3339_z(t.secs())),
                None => None,
            },
        ) + opt_param(
            "created_before"@,
            match self.created_before {
                Some(t) => Some(rfc3339_z(t.secs())),
                None => None,
            },
        ) + opt_param(
            "updated_after"@,
            match self.updated_after {
                Some(t) => Some(rfc3339_z(t.secs())),
                None => None,
            },
        ) + opt_param(
            "updated_before"@,
            match self.updated_before {
                Some(t) => Some(rfc3339_z(t.secs())),
                None => None,
            },
        ) + opt_param("confidential"@, flag_opt(self.confidential)) + opt_param(
            "order_by"@,
            match self.order_by {
                Some(x) => Some(x.spec_str()),
                None => None,
            },
        ) + opt_param(
            "sort"@,
            match self.sort {
                Some(x) => Some(x.spec_str()),
                None => None,
            },
        )
    }

    /// The parameters of the author and assignee filters.
    pub open spec fn spec_people_params(&self) -> ParamsView {
        let author: ParamsView = match self.author {
            Some(NameOrId::Name(name)) => seq![("author_username"@, name@)],
            Some(NameOrId::Id(id)) => seq![("author_id"@, decimal(id as nat))],
            None => seq![],
        };
        let assignee: ParamsView = match self.assignee {
            Some(a) => a.spec_params(),
            None => seq![],
        };
        author + assignee
    }

    fn push_id_params(&self, params: &mut Vec<(String, String)>)
        ensures
            params_view(final(params)@) == params_view(old(params)@) + self.spec_id_params(),
    {
        let ghost start = params_view(params@);
        let iids = self.iids.to_vec();
        let mut i: usize = 0;
        assert(start + iids@.subrange(0, 0).map_values(|i: u64| ("iids[]"@, decimal(i as nat)))
            =~= start);
        while i < iids.len()
            invariant
                i <= iids.len(),
                iids@ == self.iids@,
                params_view(params@) == start + iids@.subrange(0, i as int).map_values(
                    |i: u64| ("iids[]"@, decimal(i as nat)),
                ),
            decreases iids.len() - i,
        {
            let ghost before = params_view(params@);
            push_param(params, "iids[]", to_decimal(iids[i]));
            assert(start + iids@.subrange(0, i + 1).map_values(
                |i: u64| ("iids[]"@, decimal(i as nat)),
            ) =~= before + seq![("iids[]"@, decimal(iids@[i as int] as nat))]);
            i = i + 1;
        }
        assert(iids@.subrange(0, i as int) =~= iids@);
    }

    fn push_value_params(&self, params: &mut Vec<(String, String)>)
        ensures
            params_view(final(params)@) == params_view(old(params)@) + self.spec_value_params(),
    {
        let mut own: Vec<(String, String)> = Vec::new();
        let value = match self.state {
            Some(x) => Some(String::from_str(x.as_str())),
            None => None,
        };
        push_opt(&mut own, "state", value);
        let value = match &self.labels {
            Some(x) => Some(x.as_str()),
            None => None,
        };
        push_opt(&mut own, "labels", value);
        push_opt(&mut own, "with_labels_details", opt_flag(self.with_labels_details));
        let value = match &self.milestone {
            Some(x) => Some(String::from_str(x.as_str())),
            None => None,
        };
        push_opt(&mut own, "milestone", value);
        let value = match self.scope {
            Some(x) => Some(String::from_str(x.as_str())),
            None => None,
        };
        push_opt(&mut own, "scope", value);
        let value = match &self.my_reaction_emoji {
            Some(x) => Some(String::from_str(x.as_str())),
            None => None,
        };
        push_opt(&mut own, "my_reaction_emoji", value);
        let value = match self.weight {
            Some(x) => Some(x.as_str()),
            None => None,
        };
        push_opt(&mut own, "weight", value);
        push_opt(&mut own, "search", opt_text(&self.search));
        assert(params_view(own@) == self.spec_value_params());
        let ghost added = own@;
        let ghost before = params@;
        params.append(&mut own);
        assert(params_view(params@) =~= params_view(before) + params_view(added));
    }

    fn push_time_params(&self, params: &mut Vec<(String, String)>)
        ensures
            params_view(final(params)@) == params_view(old(params)@) + self.spec_time_params(),
    {
        let mut own: Vec<(String, String)> = Vec::new();
        let value = match &self.created_after {
            Some(t) => Some(t.to_rfc3339_z()),
            None => None,
        };
        push_opt(&mut own, "created_after", value);
        let value = match &self.created_before {
            Some(t) => Some(t.to_rfc3339_z()),
            None => None,
        };
        push_opt(&mut own, "created_before", value);
        let value = match &self.updated_after {
            Some(t) => Some(t.to_rfc3339_z()),
            None => None,
        };
        push_opt(&mut own, "updated_after", value);
        let value = match &self.updated_before {
            Some(t) => Some(t.to_rfc3339_z()),
            None => None,
        };
        push_opt(&mut own, "updated_before", value);
        push_opt(&mut own, "confidential", opt_flag(self.confidential));
        let value = match self.order_by {
            Some(x) => Some(String::from_str(x.as_str())),
            None => None,
        };
        push_opt(&mut own, "order_by", value);
        let value = match self.sort {
            Some(x) => Some(String::from_str(x.as_str())),
            None => None,
        };
        push_opt(&mut own, "sort", value);
        assert(params_view(own@) == self.spec_time_params());
        let ghost added = own@;
        let ghost before = params@;
        params.append(&mut own);
        assert(params_view(params@) =~= params_view(before) + params_view(added));
    }

    fn push_people_params(&self, params: &mut Vec<(String, String)>)
        ensures
            params_view(final(params)@) == params_view(old(params)@) + self.spec_people_params(),
    {
        let ghost start = params_view(params@);
        match &self.author {
            Some(NameOrId::Name(name)) => {
                push_param(params, "author_username", name.clone());
            },
            Some(NameOrId::Id(id)) => {
                push_param(params, "author_id", to_decimal(*id));
            },
            None => {
                assert(params_view(params@) =~= start + Seq::<(Seq<char>, Seq<char>)>::empty());
            },
        }
        let ghost middle = params_view(params@);
        match &self.assignee {
            Some(a) => {
                a.add_params(params);
            },
            None => {
                assert(params_view(params@) =~= middle + Seq::<(Seq<char>, Seq<char>)>::empty());
            },
        }
        assert(params_view(params@) =~= start + self.spec_people_params());
    }
}

impl Pageable for Issues {
    open spec fn keyset(&self) -> bool {
        false
    }

    open spec fn spec_path(&self) -> Seq<char> {
        "projects/"@ + self.project.spec_path() + "/issues"@
    }

    open spec fn spec_query(&self) -> ParamsView {
        self.spec_parameters()
    }

    fn use_keyset_pagination(&self) -> (r: bool) {
        false
    }

    fn path(&self) -> (r: String) {
        self.endpoint()
    }

    fn query_params(&self) -> (r: Vec<(String, String)>) {
        self.parameters()
    }
}

/// Builder for [`Issues`].
#[derive(Debug, Clone)]
pub struct IssuesBuilder {
    /// The project, once set.
    pub project: Option<NameOrId>,
    /// The filters set so far.
    pub filters: IssueFilters,
}

/// The filters of an issue query, all optional.
#[derive(Debug, Clone)]
pub struct IssueFilters {
    /// Filter issues with specific internal IDs.
    pub iids: U64Set,
    /// Filter issues based on state.
    pub state: Option<IssueState>,
    /// Filter issues based on labels.
    pub labels: Option<Labels>,
    /// Include label details in the result.
    pub with_labels_details: Option<bool>,
    /// Filter issues with a milestone.
    pub milestone: Option<Milestone>,
    /// Filter issues within a scope.
    pub scope: Option<IssueScope>,
    /// Filter issues by author.
    pub author: Option<NameOrId>,
    /// Filter issues by assignees.
    pub assignee: Option<Assignee>,
    /// Filter issues by the API caller's reactions.
    pub my_reaction_emoji: Option<ReactionEmoji>,
    /// Filter issues by weight.
    pub weight: Option<IssueWeight>,
    /// Filter issues with a search query.
    pub search: Option<String>,
    /// Filter issues created after a point in time.
    pub created_after: Option<Timestamp>,
    /// Filter issues created before a point in time.
    pub created_before: Option<Timestamp>,
    /// Filter issues last updated after a point in time.
    pub updated_after: Option<Timestamp>,
    /// Filter issues last updated before a point in time.
    pub updated_before: Option<Timestamp>,
    /// Filter issues by confidentiality.
    pub confidential: Option<bool>,
    /// Order results by a given key.
    pub order_by: Option<IssueOrderBy>,
    /// The sort order for return results.
    pub sort: Option<SortOrder>,
}

impl Issues {
    /// The path of the endpoint.
    pub fn endpoint(&self) -> (r: String)
        ensures
            r@ == "projects/"@ + self.project.spec_path() + "/issues"@,
    {
        let mut r = String::from_str("projects/");
        let part = self.project.to_string();
        r.append(part.as_str());
        r.append("/issues");
        r
    }

    /// The parameters of the request, in the order they are sent.
    pub open spec fn spec_parameters(&self) -> ParamsView {
        self.filters.spec_id_params() + self.filters.spec_value_params()
            + self.filters.spec_time_params() + self.filters.spec_people_params()
    }

    /// The query parameters of the request.
    pub fn parameters(&self) -> (r: Vec<(String, String)>)
        ensures
            params_view(r@) == self.spec_parameters(),
    {
        let mut params: Vec<(String, String)> = Vec::new();
        self.filters.push_id_params(&mut params);
        self.filters.push_value_params(&mut params);
        self.filters.push_time_params(&mut params);
        self.filters.push_people_params(&mut params);
        params
    }

    /// Create a builder for the endpoint.
    pub fn builder() -> (r: IssuesBuilder)
        ensures
            r.project is None,
            r.filters.iids@ == Seq::<u64>::empty(),
            r.filters.state is None,
            r.filters.labels is None,
            r.filters.with_labels_details is None,
            r.filters.milestone is None,
            r.filters.scope is None,
            r.filters.author is None,
            r.filters.assignee is None,
            r.filters.my_reaction_emoji is None,
            r.filters.weight is None,
            r.filters.search is None,
            r.filters.created_after is None,
            r.filters.created_before is None,
            r.filters.updated_after is None,
            r.filters.updated_before is None,
            r.filters.confidential is None,
            r.filters.order_by is None,
            r.filters.sort is None,
    {
        IssuesBuilder {
            project: None,
            filters: IssueFilters {
                iids: U64Set::new(),
                state: None,
                labels: None,
                with_labels_details: None,
                milestone: None,
                scope: None,
                author: None,
                assignee: None,
                my_reaction_emoji: None,
                weight: None,
                search: None,
                created_after: None,
                created_before: None,
                updated_after: None,
                updated_before: None,
                confidential: None,
                order_by: None,
                sort: None,
            },
        }
    }
}

proof fn lemma_prefix_grows<A>(names: Seq<A>, i: int)
    requires
        0 <= i < names.len(),
    ensures
        forall|t: A|
            #[trigger] names.subrange(0, i + 1).contains(t) <==> names.subrange(0, i).contains(t)
                || t == names[i],
{
    let longer = names.subrange(0, i + 1);
    let shorter = names.subrange(0, i);
    assert forall|t: A| #[trigger] longer.contains(t) <==> shorter.contains(t) || t == names[i] by {
        if longer.contains(t) {
            let k = choose|k: int| 0 <= k < longer.len() && #[trigger] longer[k] == t;
            if k < i {
                assert(shorter[k] == t);
            }
        }
        if shorter.contains(t) {
            let k = choose|k: int| 0 <= k < shorter.len() && #[trigger] shorter[k] == t;
            assert(longer[k] == t);
        }
        if t == names[i] {
            assert(longer[i] == t);
        }
    }
}

/// The labels of an all-of label filter; none for other filters.
pub open spec fn label_names(labels: Option<Labels>) -> Seq<Seq<char>> {
    match labels {
        Some(Labels::AllOf(set)) => set@,
        _ => Seq::empty(),
    }
}

/// The usernames of a username assignee filter; none for other filters.
pub open spec fn assignee_names(assignee: Option<Assignee>) -> Seq<Seq<char>> {
    match assignee {
        Some(Assignee::Usernames(set)) => set@,
        _ => Seq::empty(),
    }
}

impl IssuesBuilder {
    /// Set the project to query.
    pub fn project(self, project: NameOrId) -> (r: Self)
        ensures
            r.project == Some(project),
            r.filters == self.filters,
    {
        let mut b = self;
        b.project = Some(project);
        b
    }

    /// Return an issue with an internal ID.
    pub fn iid(self, iid: u64) -> (r: Self)
        ensures
            forall|x: u64| #[trigger]
                r.filters.iids@.contains(x) <==> self.filters.iids@.contains(x) || x == iid,
            r.project == self.project,
    {
        let mut b = self;
        b.filters.iids.insert(iid);
        b
    }
    /// Filter issues based on state.
    pub fn state(self, state: IssueState) -> (r: Self)
        ensures
            r.project == self.project,
            r.filters == (IssueFilters { state: Some(state), ..self.filters }),
    {
        let mut b = self;
        b.filters.state = Some(state);
        b
    }

    /// Include label details in the result.
    pub fn with_labels_details(self, with_labels_details: bool) -> (r: Self)
        ensures
            r.project == self.project,
            r.filters == (IssueFilters { with_labels_details: Some(with_labels_details), ..self.filters }),
    {
        let mut b = self;
        b.filters.with_labels_details = Some(with_labels_details);
        b
    }

    /// Filter issues within a scope.
    pub fn scope(self, scope: IssueScope) -> (r: Self)
        ensures
            r.project == self.project,
            r.filters == (IssueFilters { scope: Some(scope), ..self.filters }),
    {
        let mut b = self;
        b.filters.scope = Some(scope);
        b
    }

    /// Filter issues by author.
    pub fn author(self, author: NameOrId) -> (r: Self)
        ensures
            r.project == self.project,
            r.filters == (IssueFilters { author: Some(author), ..self.filters }),
    {
        let mut b = self;
        b.filters.author = Some(author);
        b
    }

    /// Filter issues by weight.
    pub fn weight(self, weight: IssueWeight) -> (r: Self)
        ensures
            r.project == self.project,
            r.filters == (IssueFilters { weight: Some(weight), ..self.filters }),
    {
        let mut b = self;
        b.filters.weight = Some(weight);
        b
    }

    /// Filter issues with a search query.
    pub fn search(self, search: String) -> (r: Self)
        ensures
            r.project == self.project,
            r.filters == (IssueFilters { search: Some(search), ..self.filters }),
    {
        let mut b = self;
        b.filters.search = Some(search);
        b
    }

    /// Filter issues by confidentiality.
    pub fn confidential(self, confidential: bool) -> (r: Self)
        ensures
            r.project == self.project,
            r.filters == (IssueFilters { confidential: Some(confidential), ..self.filters }),
    {
        let mut b = self;
        b.filters.confidential = Some(confidential);
        b
    }

    /// Order results by a given key.
    pub fn order_by(self, order_by: IssueOrderBy) -> (r: Self)
        ensures
            r.project == self.project,
            r.filters == (IssueFilters { order_by: Some(order_by), ..self.filters }),
    {
        let mut b = self;
        b.filters.order_by = Some(order_by);
        b
    }

    /// The sort order for return results.
    pub fn sort(self, sort: SortOrder) -> (r: Self)
        ensures
            r.project == self.project,
            r.filters == (IssueFilters { sort: Some(sort), ..self.filters }),
    {
        let mut b = self;
        b.filters.sort = Some(sort);
        b
    }

    /// Filter unlabeled issues.
    pub fn unlabeled(self) -> (r: Self)
        ensures
            r.project == self.project,
            r.filters == (IssueFilters { labels: Some(Labels::Unlabeled), ..self.filters }),
    {
        let mut b = self;
        b.filters.labels = Some(Labels::Unlabeled);
        b
    }

    /// Filter issues with any label.
    pub fn with_any_label(self) -> (r: Self)
        ensures
            r.project == self.project,
            r.filters == (IssueFilters { labels: Some(Labels::Any), ..self.filters }),
    {
        let mut b = self;
        b.filters.labels = Some(Labels::Any);
        b
    }

    /// Filter issues without a milestone.
    pub fn without_milestone(self) -> (r: Self)
        ensures
            r.project == self.project,
            r.filters == (IssueFilters { milestone: Some(Milestone::Without), ..self.filters }),
    {
        let mut b = self;
        b.filters.milestone = Some(Milestone::Without);
        b
    }

    /// Filter issues with any milestone.
    pub fn any_milestone(self) -> (r: Self)
        ensures
            r.project == self.project,
            r.filters == (IssueFilters { milestone: Some(Milestone::Any), ..self.filters }),
    {
        let mut b = self;
        b.filters.milestone = Some(Milestone::Any);
        b
    }

    /// Filter unassigned issues.
    pub fn unassigned(self) -> (r: Self)
        ensures
            r.project == self.project,
            r.filters == (IssueFilters { assignee: Some(Assignee::Unassigned), ..self.filters }),
    {
        let mut b = self;
        b.filters.assignee = Some(Assignee::Unassigned);
        b
    }

    /// Filter assigned issues.
    pub fn assigned(self) -> (r: Self)
        ensures
            r.project == self.project,
            r.filters == (IssueFilters { assignee: Some(Assignee::Assigned), ..self.filters }),
    {
        let mut b = self;
        b.filters.assignee = Some(Assignee::Assigned);
        b
    }

    /// Filter issues assigned to a user (by ID).
    pub fn assignee_id(self, assignee: u64) -> (r: Self)
        ensures
            r.project == self.project,
            r.filters == (IssueFilters { assignee: Some(Assignee::Id(assignee)), ..self.filters }),
    {
        let mut b = self;
        b.filters.assignee = Some(Assignee::Id(assignee));
        b
    }

    /// Filter issues without a reaction by the API caller.
    pub fn no_reaction(self) -> (r: Self)
        ensures
            r.project == self.project,
            r.filters == (IssueFilters { my_reaction_emoji: Some(ReactionEmoji::NoReaction), ..self.filters }),
    {
        let mut b = self;
        b.filters.my_reaction_emoji = Some(ReactionEmoji::NoReaction);
        b
    }

    /// Filter issues with any reaction by the API caller.
    pub fn any_reaction(self) -> (r: Self)
        ensures
            r.project == self.project,
            r.filters == (IssueFilters { my_reaction_emoji: Some(ReactionEmoji::Any), ..self.filters }),
    {
        let mut b = self;
        b.filters.my_reaction_emoji = Some(ReactionEmoji::Any);
        b
    }

    /// Filter issues created after a point in time.
    pub fn created_after(self, created_after: Timestamp) -> (r: Self)
        ensures
            r.project == self.project,
            r.filters == (IssueFilters { created_after: Some(created_after), ..self.filters }),
    {
        let mut b = self;
        b.filters.created_after = Some(created_after);
        b
    }

    /// Filter issues created before a point in time.
    pub fn created_before(self, created_before: Timestamp) -> (r: Self)
        ensures
            r.project == self.project,
            r.filters == (IssueFilters { created_before: Some(created_before), ..self.filters }),
    {
        let mut b = self;
        b.filters.created_before = Some(created_before);
        b
    }

    /// Filter issues last updated after a point in time.
    pub fn updated_after(self, updated_after: Timestamp) -> (r: Self)
        ensures
            r.project == self.project,
            r.filters == (IssueFilters { updated_after: Some(updated_after), ..self.filters }),
    {
        let mut b = self;
        b.filters.updated_after = Some(updated_after);
        b
    }

    /// Filter issues last updated before a point in time.
    pub fn updated_before(self, updated_before: Timestamp) -> (r: Self)
        ensures
            r.project == self.project,
            r.filters == (IssueFilters { updated_before: Some(updated_before), ..self.filters }),
    {
        let mut b = self;
        b.filters.updated_before = Some(updated_before);
        b
    }

    /// Filter issues with a given milestone.
    pub fn milestone(self, milestone: &str) -> (r: Self)
        ensures
            r.project == self.project,
            r.filters.milestone matches Some(Milestone::Named(m)) && m@ == milestone@,
            r.filters == (IssueFilters { milestone: r.filters.milestone, ..self.filters }),
    {
        let mut b = self;
        b.filters.milestone = Some(Milestone::Named(String::from_str(milestone)));
        b
    }

    /// Filter issues with a specific reaction by the API caller.
    pub fn my_reaction(self, emoji: &str) -> (r: Self)
        ensures
            r.project == self.project,
            r.filters.my_reaction_emoji matches Some(ReactionEmoji::Emoji(e)) && e@ == emoji@,
            r.filters == (IssueFilters {
                my_reaction_emoji: r.filters.my_reaction_emoji,
                ..self.filters
            }),
    {
        let mut b = self;
        b.filters.my_reaction_emoji = Some(ReactionEmoji::Emoji(String::from_str(emoji)));
        b
    }

    /// Return issues with one of a set of internal IDs.
    pub fn iids(self, iids: &Vec<u64>) -> (r: Self)
        ensures
            r.project == self.project,
            forall|x: u64| #[trigger]
                r.filters.iids@.contains(x) <==> self.filters.iids@.contains(x) || iids@.contains(x),
            r.filters == (IssueFilters { iids: r.filters.iids, ..self.filters }),
    {
        let mut b = self;
        let ghost orig = b;
        let mut i: usize = 0;
        while i < iids.len()
            invariant
                i <= iids.len(),
                b.project == orig.project,
                b.filters == (IssueFilters { iids: b.filters.iids, ..orig.filters }),
                forall|x: u64| #[trigger]
                    b.filters.iids@.contains(x) <==> orig.filters.iids@.contains(x)
                        || iids@.subrange(0, i as int).contains(x),
            decreases iids.len() - i,
        {
            b.filters.iids.insert(iids[i]);
            proof {
                lemma_prefix_grows(iids@, i as int);
            }
            i = i + 1;
        }
        assert(iids@.subrange(0, i as int) =~= iids@);
        b
    }

    /// Filter issues with a given label.
    pub fn label(self, label: &str) -> (r: Self)
        ensures
            r.project == self.project,
            r.filters == (IssueFilters { labels: r.filters.labels, ..self.filters }),
            r.filters.labels matches Some(Labels::AllOf(set)) && forall|t: Seq<char>| #[trigger]
                set@.contains(t) <==> t == label@ || label_names(self.filters.labels).contains(t),
    {
        let mut b = self;
        let mut set = match b.filters.labels {
            Some(Labels::AllOf(prev)) => prev,
            _ => StrSet::new(),
        };
        set.insert(String::from_str(label));
        b.filters.labels = Some(Labels::AllOf(set));
        b
    }

    /// Filter issues with all of the given labels.
    pub fn labels(self, labels: &Vec<String>) -> (r: Self)
        ensures
            r.project == self.project,
            r.filters == (IssueFilters { labels: r.filters.labels, ..self.filters }),
            r.filters.labels matches Some(Labels::AllOf(set)) && forall|t: Seq<char>| #[trigger]
                set@.contains(t) <==> labels@.map_values(|l: String| l@).contains(t)
                    || label_names(self.filters.labels).contains(t),
    {
        let mut b = self;
        let mut set = match b.filters.labels {
            Some(Labels::AllOf(prev)) => prev,
            _ => StrSet::new(),
        };
        let ghost before = set@;
        let ghost names = labels@.map_values(|l: String| l@);
        let mut i: usize = 0;
        while i < labels.len()
            invariant
                i <= labels.len(),
                names == labels@.map_values(|l: String| l@),
                forall|t: Seq<char>| #[trigger]
                    set@.contains(t) <==> names.subrange(0, i as int).contains(t)
                        || before.contains(t),
            decreases labels.len() - i,
        {
            set.insert(labels[i].clone());
            proof {
                lemma_prefix_grows(names, i as int);
            }
            i = i + 1;
        }
        assert(names.subrange(0, i as int) =~= names);
        b.filters.labels = Some(Labels::AllOf(set));
        b
    }

    /// Filter issues assigned to a user (by username).
    pub fn assignee(self, assignee: &str) -> (r: Self)
        ensures
            r.project == self.project,
            r.filters == (IssueFilters { assignee: r.filters.assignee, ..self.filters }),
            r.filters.assignee matches Some(Assignee::Usernames(set)) && forall|t: Seq<char>|
                #[trigger] set@.contains(t) <==> t == assignee@ || assignee_names(self.filters.assignee).contains(t),
    {
        let mut b = self;
        let mut set = match b.filters.assignee {
            Some(Assignee::Usernames(prev)) => prev,
            _ => StrSet::new(),
        };
        set.insert(String::from_str(assignee));
        b.filters.assignee = Some(Assignee::Usernames(set));
        b
    }

    /// Filter issues assigned to a set of users.
    pub fn assignees(self, assignees: &Vec<String>) -> (r: Self)
        ensures
            r.project == self.project,
            r.filters == (IssueFilters { assignee: r.filters.assignee, ..self.filters }),
            r.filters.assignee matches Some(Assignee::Usernames(set)) && forall|t: Seq<char>|
                #[trigger] set@.contains(t) <==> assignees@.map_values(|l: String| l@).contains(t)
                    || assignee_names(self.filters.assignee).contains(t),
    {
        let mut b = self;
        let mut set = match b.filters.assignee {
            Some(Assignee::Usernames(prev)) => prev,
            _ => StrSet::new(),
        };
        let ghost before = set@;
        let ghost names = assignees@.map_values(|l: String| l@);
        let mut i: usize = 0;
        while i < assignees.len()
            invariant
                i <= assignees.len(),
                names == assignees@.map_values(|l: String| l@),
                forall|t: Seq<char>| #[trigger]
                    set@.contains(t) <==> names.subrange(0, i as int).contains(t)
                        || before.contains(t),
            decreases assignees.len() - i,
        {
            set.insert(assignees[i].clone());
            proof {
                lemma_prefix_grows(names, i as int);
            }
            i = i + 1;
        }
        assert(names.subrange(0, i as int) =~= names);
        b.filters.assignee = Some(Assignee::Usernames(set));
        b
    }

    /// The query, where its project is set.
    pub fn build(self) -> (r: Result<Issues, String>)
        ensures
            match r {
                Ok(q) => self.project == Some(q.project) && q.filters == self.filters,
                Err(e) => self.project is None && e@ == "`project` must be initialized"@,
            },
    {
        match self.project {
            None => Err(String::from_str("`project` must be initialized")),
            Some(project) => Ok(Issues { project, filters: self.filters }),
        }
    }
}

} // verus!
