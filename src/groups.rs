//! Group endpoints and the access levels they use.

use vstd::prelude::*;
use vstd::string::*;

use crate::common::{NameOrId, VisibilityLevel};
use crate::link::opt_view;
use crate::params::{flag_opt, number_opt, opt_flag, opt_number, opt_param, opt_text, params_view, push_opt, push_param, ParamsView};

verus! {

/// Access levels for creating a project within a group.
#[derive(Debug, Clone, Copy, PartialEq, Eq, Structural)]
pub enum GroupProjectCreationAccessLevel {
    /// No new projects may be added to the group.
    NoOne,
    /// Only maintainers may add projects to the group.
    Maintainer,
    /// Developers and maintainers may add projects to the group.
    Developer,
}

impl GroupProjectCreationAccessLevel {
    /// The parameter value.
    pub open spec fn spec_str(self) -> Seq<char> {
        match self {
            GroupProjectCreationAccessLevel::NoOne => "noone"@,
            GroupProjectCreationAccessLevel::Maintainer => "maintainer"@,
            GroupProjectCreationAccessLevel::Developer => "developer"@,
        }
    }

    /// The string representation.
    pub fn as_str(self) -> (r: &'static str)
        ensures
            r@ == self.spec_str(),
    {
        match self {
            GroupProjectCreationAccessLevel::NoOne => "noone",
            GroupProjectCreationAccessLevel::Maintainer => "maintainer",
            GroupProjectCreationAccessLevel::Developer => "developer",
        }
    }
}

/// Access levels for creating a subgroup within a group.
#[derive(Debug, Clone, Copy, PartialEq, Eq, Structural)]
pub enum SubgroupCreationAccessLevel {
    /// Owners may add new subprojects.
    Owner,
    /// Maintainers may add new subprojects.
    Maintainer,
}

impl SubgroupCreationAccessLevel {
    /// The parameter value.
    pub open spec fn spec_str(self) -> Seq<char> {
        match self {
            SubgroupCreationAccessLevel::Owner => "owner"@,
            SubgroupCreationAccessLevel::Maintainer => "maintainer"@,
        }
    }

    /// The string representation.
    pub fn as_str(self) -> (r: &'static str)
        ensures
            r@ == self.spec_str(),
    {
        match self {
            SubgroupCreationAccessLevel::Owner => "owner",
            SubgroupCreationAccessLevel::Maintainer => "maintainer",
        }
    }
}

/// Branch protection rules for groups.
#[derive(Debug, Clone, Copy, PartialEq, Eq, Structural)]
pub enum BranchProtection {
    /// Developers and maintainers may push, force push, and delete branches.
    Unprotected,
    /// Developers and maintainers may push branches.
    Partial,
    /// Maintainers may push branches.
    Full,
}

impl BranchProtection {
    /// The parameter value.
    pub open spec fn spec_str(self) -> Seq<char> {
        match self {
            BranchProtection::Unprotected => "0"@,
            BranchProtection::Partial => "1"@,
            BranchProtection::Full => "2"@,
        }
    }

    /// The string representation.
    pub fn as_str(self) -> (r: &'static str)
        ensures
            r@ == self.spec_str(),
    {
        match self {
            BranchProtection::Unprotected => "0",
            BranchProtection::Partial => "1",
            BranchProtection::Full => "2",
        }
    }
}

/// Create a new group on an instance.
#[derive(Debug, Clone)]
pub struct CreateGroup {
    /// The name of the group.
    pub name: String,
    /// The path of the group.
    pub path: String,
    /// A short description for the group.
    pub description: Option<String>,
    /// Prevent adding members directly to projects within the group.
    pub membership_lock: Option<bool>,
    /// The visibility of the group.
    pub visibility: Option<VisibilityLevel>,
    /// Prevent sharing a project in this group with another group.
    pub share_with_group_lock: Option<bool>,
    /// Require two-factor authentication to be a member of this group.
    pub require_two_factor_authentication: Option<bool>,
    /// Time (in hours) for users to enable two-factor before enforcing it.
    pub two_factor_grace_period: Option<u64>,
    /// The access level to the group that is required to create new projects.
    pub project_creation_level: Option<GroupProjectCreationAccessLevel>,
    /// Default to Auto DevOps for new projects in the group.
    pub auto_devops_enabled: Option<bool>,
    /// The access level to the group that is required to create subgroups.
    pub subgroup_creation_level: Option<SubgroupCreationAccessLevel>,
    /// Disable email notifications from the group.
    pub emails_disabled: Option<bool>,
    /// Disable group-wide mentions.
    pub mentions_disabled: Option<bool>,
    /// Whether `git-lfs` is enabled by default for projects within the group.
    pub lfs_enabled: Option<bool>,
    /// Whether access to the group may be requested.
    pub request_access_enabled: Option<bool>,
    /// The parent group ID (for subgroups).
    pub parent_id: Option<u64>,
    /// The default branch protection for projects within the group.
    pub default_branch_protection: Option<BranchProtection>,
    /// Pipeline quota (in minutes) for the group on shared runners.
    pub shared_runners_minutes_limit: Option<u64>,
    /// Pipeline quota excess (in minutes) for the group on shared runners.
    pub extra_shared_runners_minutes_limit: Option<u64>,
}

/// Builder for [`CreateGroup`].
#[derive(Debug, Clone)]
pub struct CreateGroupBuilder {
    /// The name of the group.
    pub name: Option<String>,
    /// The path of the group.
    pub path: Option<String>,
    /// A short description for the group.
    pub description: Option<String>,
    /// Prevent adding members directly to projects within the group.
    pub membership_lock: Option<bool>,
    /// The visibility of the group.
    pub visibility: Option<VisibilityLevel>,
    /// Prevent sharing a project in this group with another group.
    pub share_with_group_lock: Option<bool>,
    /// Require two-factor authentication to be a member of this group.
    pub require_two_factor_authentication: Option<bool>,
    /// Time (in hours) for users to enable two-factor before enforcing it.
    pub two_factor_grace_period: Option<u64>,
    /// The access level to the group that is required to create new projects.
    pub project_creation_level: Option<GroupProjectCreationAccessLevel>,
    /// Default to Auto DevOps for new projects in the group.
    pub auto_devops_enabled: Option<bool>,
    /// The access level to the group that is required to create subgroups.
    pub subgroup_creation_level: Option<SubgroupCreationAccessLevel>,
    /// Disable email notifications from the group.
    pub emails_disabled: Option<bool>,
    /// Disable group-wide mentions.
    pub mentions_disabled: Option<bool>,
    /// Whether `git-lfs` is enabled by default for projects within the group.
    pub lfs_enabled: Option<bool>,
    /// Whether access to the group may be requested.
    pub request_access_enabled: Option<bool>,
    /// The parent group ID (for subgroups).
    pub parent_id: Option<u64>,
    /// The default branch protection for projects within the group.
    pub default_branch_protection: Option<BranchProtection>,
    /// Pipeline quota (in minutes) for the group on shared runners.
    pub shared_runners_minutes_limit: Option<u64>,
    /// Pipeline quota excess (in minutes) for the group on shared runners.
    pub extra_shared_runners_minutes_limit: Option<u64>,
}

impl CreateGroup {
    /// Create a builder for the endpoint.
    pub fn builder() -> (r: CreateGroupBuilder)
        ensures
            r.name is None,
            r.path is None,
            r.description is None,
            r.membership_lock is None,
            r.visibility is None,
            r.share_with_group_lock is None,
            r.require_two_factor_authentication is None,
            r.two_factor_grace_period is None,
            r.project_creation_level is None,
            r.auto_devops_enabled is None,
            r.subgroup_creation_level is None,
            r.emails_disabled is None,
            r.mentions_disabled is None,
            r.lfs_enabled is None,
            r.request_access_enabled is None,
            r.parent_id is None,
            r.default_branch_protection is None,
            r.shared_runners_minutes_limit is None,
            r.extra_shared_runners_minutes_limit is None,
    {
        CreateGroupBuilder { name: None, path: None, description: None, membership_lock: None, visibility: None, share_with_group_lock: None, require_two_factor_authentication: None, two_factor_grace_period: None, project_creation_level: None, auto_devops_enabled: None, subgroup_creation_level: None, emails_disabled: None, mentions_disabled: None, lfs_enabled: None, request_access_enabled: None, parent_id: None, default_branch_protection: None, shared_runners_minutes_limit: None, extra_shared_runners_minutes_limit: None }
    }

    /// The path of the endpoint.
    pub fn endpoint(&self) -> (r: String)
        ensures
            r@ == "groups"@,
    {
        let mut r = String::from_str("groups");
        r
    }

    /// The parameters of the request, in the order they are sent.
    pub open spec fn spec_body(&self) -> ParamsView {
        Seq::<(Seq<char>, Seq<char>)>::empty()
            + seq![("name"@, self.name@)]
            + seq![("path"@, self.path@)]
            + opt_param("description"@, opt_view(self.description))
            + opt_param("membership_lock"@, flag_opt(self.membership_lock))
            + opt_param(
                "visibility"@,
                match self.visibility {
                    Some(x) => Some(x.spec_str()),
                    None => None,
                },
            )
            + opt_param("share_with_group_lock"@, flag_opt(self.share_with_group_lock))
            + opt_param("require_two_factor_authentication"@, flag_opt(self.require_two_factor_authentication))
            + opt_param("two_factor_grace_period"@, number_opt(self.two_factor_grace_period))
            + opt_param(
                "project_creation_level"@,
                match self.project_creation_level {
                    Some(x) => Some(x.spec_str()),
                    None => None,
                },
            )
            + opt_param("auto_devops_enabled"@, flag_opt(self.auto_devops_enabled))
            + opt_param(
                "subgroup_creation_level"@,
                match self.subgroup_creation_level {
                    Some(x) => Some(x.spec_str()),
                    None => None,
                },
            )
            + opt_param("emails_disabled"@, flag_opt(self.emails_disabled))
            + opt_param("mentions_disabled"@, flag_opt(self.mentions_disabled))
            + opt_param("lfs_enabled"@, flag_opt(self.lfs_enabled))
            + opt_param("request_access_enabled"@, flag_opt(self.request_access_enabled))
            + opt_param("parent_id"@, number_opt(self.parent_id))
            + opt_param(
                "default_branch_protection"@,
                match self.default_branch_protection {
                    Some(x) => Some(x.spec_str()),
                    None => None,
                },
            )
            + opt_param("shared_runners_minutes_limit"@, number_opt(self.shared_runners_minutes_limit))
            + opt_param("extra_shared_runners_minutes_limit"@, number_opt(self.extra_shared_runners_minutes_limit))
    }

    /// The form parameters of the request.
    pub fn body(&self) -> (r: Vec<(String, String)>)
        ensures
            params_view(r@) == self.spec_body(),
    {
        let mut params: Vec<(String, String)> = Vec::new();
        push_param(&mut params, "name", self.name.clone());
        push_param(&mut params, "path", self.path.clone());
        push_opt(&mut params, "description", opt_text(&self.description));
        push_opt(&mut params, "membership_lock", opt_flag(self.membership_lock));
        let value = match self.visibility {
            Some(x) => Some(String::from_str(x.as_str())),
            None => None,
        };
        push_opt(&mut params, "visibility", value);
        push_opt(&mut params, "share_with_group_lock", opt_flag(self.share_with_group_lock));
        push_opt(&mut params, "require_two_factor_authentication", opt_flag(self.require_two_factor_authentication));
        push_opt(&mut params, "two_factor_grace_period", opt_number(self.two_factor_grace_period));
        let value = match self.project_creation_level {
            Some(x) => Some(String::from_str(x.as_str())),
            None => None,
        };
        push_opt(&mut params, "project_creation_level", value);
        push_opt(&mut params, "auto_devops_enabled", opt_flag(self.auto_devops_enabled));
        let value = match self.subgroup_creation_level {
            Some(x) => Some(String::from_str(x.as_str())),
            None => None,
        };
        push_opt(&mut params, "subgroup_creation_level", value);
        push_opt(&mut params, "emails_disabled", opt_flag(self.emails_disabled));
        push_opt(&mut params, "mentions_disabled", opt_flag(self.mentions_disabled));
        push_opt(&mut params, "lfs_enabled", opt_flag(self.lfs_enabled));
        push_opt(&mut params, "request_access_enabled", opt_flag(self.request_access_enabled));
        push_opt(&mut params, "parent_id", opt_number(self.parent_id));
        let value = match self.default_branch_protection {
            Some(x) => Some(String::from_str(x.as_str())),
            None => None,
        };
        push_opt(&mut params, "default_branch_protection", value);
        push_opt(&mut params, "shared_runners_minutes_limit", opt_number(self.shared_runners_minutes_limit));
        push_opt(&mut params, "extra_shared_runners_minutes_limit", opt_number(self.extra_shared_runners_minutes_limit));
        params
    }
}

impl CreateGroupBuilder {
    /// Set the name of the group.
    pub fn name(self, name: String) -> (r: Self)
        ensures
            r == (CreateGroupBuilder { name: Some(name), ..self }),
    {
        let mut b = self;
        b.name = Some(name);
        b
    }

    /// Set the path of the group.
    pub fn path(self, path: String) -> (r: Self)
        ensures
            r == (CreateGroupBuilder { path: Some(path), ..self }),
    {
        let mut b = self;
        b.path = Some(path);
        b
    }

    /// Set a short description for the group.
    pub fn description(self, description: String) -> (r: Self)
        ensures
            r == (CreateGroupBuilder { description: Some(description), ..self }),
    {
        let mut b = self;
        b.description = Some(description);
        b
    }

    /// Set prevent adding members directly to projects within the group.
    pub fn membership_lock(self, membership_lock: bool) -> (r: Self)
        ensures
            r == (CreateGroupBuilder { membership_lock: Some(membership_lock), ..self }),
    {
        let mut b = self;
        b.membership_lock = Some(membership_lock);
        b
    }

    /// Set the visibility of the group.
    pub fn visibility(self, visibility: VisibilityLevel) -> (r: Self)
        ensures
            r == (CreateGroupBuilder { visibility: Some(visibility), ..self }),
    {
        let mut b = self;
        b.visibility = Some(visibility);
        b
    }

    /// Set prevent sharing a project in this group with another group.
    pub fn share_with_group_lock(self, share_with_group_lock: bool) -> (r: Self)
        ensures
            r == (CreateGroupBuilder { share_with_group_lock: Some(share_with_group_lock), ..self }),
    {
        let mut b = self;
        b.share_with_group_lock = Some(share_with_group_lock);
        b
    }

    /// Set require two-factor authentication to be a member of this group.
    pub fn require_two_factor_authentication(self, require_two_factor_authentication: bool) -> (r: Self)
        ensures
            r == (CreateGroupBuilder { require_two_factor_authentication: Some(require_two_factor_authentication), ..self }),
    {
        let mut b = self;
        b.require_two_factor_authentication = Some(require_two_factor_authentication);
        b
    }

    /// Set time (in hours) for users to enable two-factor before enforcing it.
    pub fn two_factor_grace_period(self, two_factor_grace_period: u64) -> (r: Self)
        ensures
            r == (CreateGroupBuilder { two_factor_grace_period: Some(two_factor_grace_period), ..self }),
    {
        let mut b = self;
        b.two_factor_grace_period = Some(two_factor_grace_period);
        b
    }

    /// Set the access level to the group that is required to create new projects.
    pub fn project_creation_level(self, project_creation_level: GroupProjectCreationAccessLevel) -> (r: Self)
        ensures
            r == (CreateGroupBuilder { project_creation_level: Some(project_creation_level), ..self }),
    {
        let mut b = self;
        b.project_creation_level = Some(project_creation_level);
        b
    }

    /// Set default to Auto DevOps for new projects in the group.
    pub fn auto_devops_enabled(self, auto_devops_enabled: bool) -> (r: Self)
        ensures
            r == (CreateGroupBuilder { auto_devops_enabled: Some(auto_devops_enabled), ..self }),
    {
        let mut b = self;
        b.auto_devops_enabled = Some(auto_devops_enabled);
        b
    }

    /// Set the access level to the group that is required to create subgroups.
    pub fn subgroup_creation_level(self, subgroup_creation_level: SubgroupCreationAccessLevel) -> (r: Self)
        ensures
            r == (CreateGroupBuilder { subgroup_creation_level: Some(subgroup_creation_level), ..self }),
    {
        let mut b = self;
        b.subgroup_creation_level = Some(subgroup_creation_level);
        b
    }

    /// Set disable email notifications from the group.
    pub fn emails_disabled(self, emails_disabled: bool) -> (r: Self)
        ensures
            r == (CreateGroupBuilder { emails_disabled: Some(emails_disabled), ..self }),
    {
        let mut b = self;
        b.emails_disabled = Some(emails_disabled);
        b
    }

    /// Set disable group-wide mentions.
    pub fn mentions_disabled(self, mentions_disabled: bool) -> (r: Self)
        ensures
            r == (CreateGroupBuilder { mentions_disabled: Some(mentions_disabled), ..self }),
    {
        let mut b = self;
        b.mentions_disabled = Some(mentions_disabled);
        b
    }

    /// Set whether `git-lfs` is enabled by default for projects within the group.
    pub fn lfs_enabled(self, lfs_enabled: bool) -> (r: Self)
        ensures
            r == (CreateGroupBuilder { lfs_enabled: Some(lfs_enabled), ..self }),
    {
        let mut b = self;
        b.lfs_enabled = Some(lfs_enabled);
        b
    }

    /// Set whether access to the group may be requested.
    pub fn request_access_enabled(self, request_access_enabled: bool) -> (r: Self)
        ensures
            r == (CreateGroupBuilder { request_access_enabled: Some(request_access_enabled), ..self }),
    {
        let mut b = self;
        b.request_access_enabled = Some(request_access_enabled);
        b
    }

    /// Set the parent group ID (for subgroups).
    pub fn parent_id(self, parent_id: u64) -> (r: Self)
        ensures
            r == (CreateGroupBuilder { parent_id: Some(parent_id), ..self }),
    {
        let mut b = self;
        b.parent_id = Some(parent_id);
        b
    }

    /// Set the default branch protection for projects within the group.
    pub fn default_branch_protection(self, default_branch_protection: BranchProtection) -> (r: Self)
        ensures
            r == (CreateGroupBuilder { default_branch_protection: Some(default_branch_protection), ..self }),
    {
        let mut b = self;
        b.default_branch_protection = Some(default_branch_protection);
        b
    }

    /// Set pipeline quota (in minutes) for the group on shared runners.
    pub fn shared_runners_minutes_limit(self, shared_runners_minutes_limit: u64) -> (r: Self)
        ensures
            r == (CreateGroupBuilder { shared_runners_minutes_limit: Some(shared_runners_minutes_limit), ..self }),
    {
        let mut b = self;
        b.shared_runners_minutes_limit = Some(shared_runners_minutes_limit);
        b
    }

    /// Set pipeline quota excess (in minutes) for the group on shared runners.
    pub fn extra_shared_runners_minutes_limit(self, extra_shared_runners_minutes_limit: u64) -> (r: Self)
        ensures
            r == (CreateGroupBuilder { extra_shared_runners_minutes_limit: Some(extra_shared_runners_minutes_limit), ..self }),
    {
        let mut b = self;
        b.extra_shared_runners_minutes_limit = Some(extra_shared_runners_minutes_limit);
        b
    }

    /// The endpoint, where every required field is set; else the first
    /// required field that is not.
    pub fn build(self) -> (r: Result<CreateGroup, String>)
        ensures
            match r {
                Ok(q) => self.name == Some(q.name)
                    && self.path == Some(q.path)
                    && q.description == self.description
                    && q.membership_lock == self.membership_lock
                    && q.visibility == self.visibility
                    && q.share_with_group_lock == self.share_with_group_lock
                    && q.require_two_factor_authentication == self.require_two_factor_authentication
                    && q.two_factor_grace_period == self.two_factor_grace_period
                    && q.project_creation_level == self.project_creation_level
                    && q.auto_devops_enabled == self.auto_devops_enabled
                    && q.subgroup_creation_level == self.subgroup_creation_level
                    && q.emails_disabled == self.emails_disabled
                    && q.mentions_disabled == self.mentions_disabled
                    && q.lfs_enabled == self.lfs_enabled
                    && q.request_access_enabled == self.request_access_enabled
                    && q.parent_id == self.parent_id
                    && q.default_branch_protection == self.default_branch_protection
                    && q.shared_runners_minutes_limit == self.shared_runners_minutes_limit
                    && q.extra_shared_runners_minutes_limit == self.extra_shared_runners_minutes_limit,
                Err(e) => (self.name is None && e@ == "`name` must be initialized"@)
                    || (self.path is None && self.name is Some && e@ == "`path` must be initialized"@),
            },
    {
        let name = match self.name {
            Some(v) => v,
            None => {
                return Err(String::from_str("`name` must be initialized"));
            },
        };
        let path = match self.path {
            Some(v) => v,
            None => {
                return Err(String::from_str("`path` must be initialized"));
            },
        };
        Ok(CreateGroup { name, path, description: self.description, membership_lock: self.membership_lock, visibility: self.visibility, share_with_group_lock: self.share_with_group_lock, require_two_factor_authentication: self.require_two_factor_authentication, two_factor_grace_period: self.two_factor_grace_period, project_creation_level: self.project_creation_level, auto_devops_enabled: self.auto_devops_enabled, subgroup_creation_level: self.subgroup_creation_level, emails_disabled: self.emails_disabled, mentions_disabled: self.mentions_disabled, lfs_enabled: self.lfs_enabled, request_access_enabled: self.request_access_enabled, parent_id: self.parent_id, default_branch_protection: self.default_branch_protection, shared_runners_minutes_limit: self.shared_runners_minutes_limit, extra_shared_runners_minutes_limit: self.extra_shared_runners_minutes_limit })
    }
}

/// Query for a specific group on an instance.
#[derive(Debug, Clone)]
pub struct Group {
    /// The group to get.
    pub group: NameOrId,
    /// Include custom attributes in the response.
    pub with_custom_attributes: Option<bool>,
    /// Include project information.
    pub with_projects: Option<bool>,
}

/// Builder for [`Group`].
#[derive(Debug, Clone)]
pub struct GroupBuilder {
    /// The group to get.
    pub group: Option<NameOrId>,
    /// Include custom attributes in the response.
    pub with_custom_attributes: Option<bool>,
    /// Include project information.
    pub with_projects: Option<bool>,
}

impl Group {
    /// Create a builder for the endpoint.
    pub fn builder() -> (r: GroupBuilder)
        ensures
            r.group is None,
            r.with_custom_attributes is None,
            r.with_projects is None,
    {
        GroupBuilder { group: None, with_custom_attributes: None, with_projects: None }
    }

    /// The path of the endpoint.
    pub fn endpoint(&self) -> (r: String)
        ensures
            r@ == "groups/"@ + self.group.spec_path(),
    {
        let mut r = String::from_str("groups/");
        let part = self.group.to_string();
        r.append(part.as_str());
        r
    }

    /// The parameters of the request, in the order they are sent.
    pub open spec fn spec_parameters(&self) -> ParamsView {
        Seq::<(Seq<char>, Seq<char>)>::empty()
            + opt_param("with_custom_attributes"@, flag_opt(self.with_custom_attributes))
            + opt_param("with_projects"@, flag_opt(self.with_projects))
    }

    /// The query parameters of the request.
    pub fn parameters(&self) -> (r: Vec<(String, String)>)
        ensures
            params_view(r@) == self.spec_parameters(),
    {
        let mut params: Vec<(String, String)> = Vec::new();
        push_opt(&mut params, "with_custom_attributes", opt_flag(self.with_custom_attributes));
        push_opt(&mut params, "with_projects", opt_flag(self.with_projects));
        params
    }
}

impl GroupBuilder {
    /// Set the group to get.
    pub fn group(self, group: NameOrId) -> (r: Self)
        ensures
            r == (GroupBuilder { group: Some(group), ..self }),
    {
        let mut b = self;
        b.group = Some(group);
        b
    }

    /// Set include custom attributes in the response.
    pub fn with_custom_attributes(self, with_custom_attributes: bool) -> (r: Self)
        ensures
            r == (GroupBuilder { with_custom_attributes: Some(with_custom_attributes), ..self }),
    {
        let mut b = self;
        b.with_custom_attributes = Some(with_custom_attributes);
        b
    }

    /// Set include project information.
    pub fn with_projects(self, with_projects: bool) -> (r: Self)
        ensures
            r == (GroupBuilder { with_projects: Some(with_projects), ..self }),
    {
        let mut b = self;
        b.with_projects = Some(with_projects);
        b
    }

    /// The endpoint, where every required field is set; else the first
    /// required field that is not.
    pub fn build(self) -> (r: Result<Group, String>)
        ensures
            match r {
                Ok(q) => self.group == Some(q.group)
                    && q.with_custom_attributes == self.with_custom_attributes
                    && q.with_projects == self.with_projects,
                Err(e) => (self.group is None && e@ == "`group` must be initialized"@),
            },
    {
        let group = match self.group {
            Some(v) => v,
            None => {
                return Err(String::from_str("`group` must be initialized"));
            },
        };
        Ok(Group { group, with_custom_attributes: self.with_custom_attributes, with_projects: self.with_projects })
    }
}

} // verus!
