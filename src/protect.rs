//! Protected branches.

use vstd::prelude::*;
use vstd::string::*;

use crate::common::NameOrId;
use crate::params::{flag_opt, opt_flag, opt_param, params_view, push_opt, push_param, ParamsView};
use crate::text::{decimal, to_decimal};

verus! {

/// Access levels for protected branches.
#[derive(Debug, Clone, Copy, PartialEq, Eq, Hash, Structural)]
pub enum ProtectedAccessLevel {
    /// The action is not allowed at all.
    NoAccess,
    /// Developers and maintainers may perform the action.
    Developer,
    /// Maintainers may perform the action.
    Maintainer,
    /// Only administrators may perform the action.
    Admin,
}

impl Default for ProtectedAccessLevel {
    fn default() -> (r: Self)
        ensures
            r == ProtectedAccessLevel::Maintainer,
    {
        ProtectedAccessLevel::Maintainer
    }
}

impl ProtectedAccessLevel {
    /// The parameter value.
    pub open spec fn spec_str(self) -> Seq<char> {
        match self {
            ProtectedAccessLevel::NoAccess => "0"@,
            ProtectedAccessLevel::Developer => "30"@,
            ProtectedAccessLevel::Maintainer => "40"@,
            ProtectedAccessLevel::Admin => "60"@,
        }
    }

    /// The string representation.
    pub fn as_str(self) -> (r: &'static str)
        ensures
            r@ == self.spec_str(),
    {
        match self {
            ProtectedAccessLevel::NoAccess => "0",
            ProtectedAccessLevel::Developer => "30",
            ProtectedAccessLevel::Maintainer => "40",
            ProtectedAccessLevel::Admin => "60",
        }
    }
}

/// Granular protected access controls for branches.
#[derive(Debug, Clone, Copy, PartialEq, Eq, Hash, Structural)]
pub enum ProtectedAccess {
    /// Give a specific user access.
    User(u64),
    /// Give a group access.
    Group(u64),
    /// Give access to anyone with at least an access level.
    Level(ProtectedAccessLevel),
}

impl ProtectedAccess {
    /// The form parameter for the access under the list `name`.
    pub open spec fn spec_param(self, name: Seq<char>) -> (Seq<char>, Seq<char>) {
        match self {
            ProtectedAccess::User(user) => (name + "[][user_id]"@, decimal(user as nat)),
            ProtectedAccess::Group(group) => (name + "[][group_id]"@, decimal(group as nat)),
            ProtectedAccess::Level(level) => (name + "[][access_level]"@, level.spec_str()),
        }
    }

    /// Appends the form parameter for the access under the list `name`.
    pub fn add_query(self, name: &str, params: &mut Vec<(String, String)>)
        ensures
            final(params)@.len() == old(params)@.len() + 1,
            final(params)@.subrange(0, old(params)@.len() as int) == old(params)@,
            ({
                let p = final(params)@.last();
                (p.0@, p.1@) == self.spec_param(name@)
            }),
    {
        let mut key = String::from_str(name);
        match self {
            ProtectedAccess::User(user) => {
                key.append("[][user_id]");
                params.push((key, to_decimal(user)));
            },
            ProtectedAccess::Group(group) => {
                key.append("[][group_id]");
                params.push((key, to_decimal(group)));
            },
            ProtectedAccess::Level(level) => {
                key.append("[][access_level]");
                params.push((key, String::from_str(level.as_str())));
            },
        }
        assert(final(params)@.subrange(0, old(params)@.len() as int) =~= old(params)@);
    }
}

impl From<ProtectedAccessLevel> for ProtectedAccess {
    fn from(access: ProtectedAccessLevel) -> (r: Self) {
        ProtectedAccess::Level(access)
    }
}

impl vstd::std_specs::convert::FromSpecImpl<ProtectedAccessLevel> for ProtectedAccess {
    open spec fn obeys_from_spec() -> bool {
        true
    }

    open spec fn from_spec(access: ProtectedAccessLevel) -> Self {
        ProtectedAccess::Level(access)
    }
}

/// The accesses with `access` added, unless it is already there.
pub open spec fn with_access(accesses: Seq<ProtectedAccess>, access: ProtectedAccess) -> Seq<
    ProtectedAccess,
> {
    if accesses.contains(access) {
        accesses
    } else {
        accesses.push(access)
    }
}

/// Adds an access to a list unless it is already there.
fn add_access(accesses: &mut Vec<ProtectedAccess>, access: ProtectedAccess)
    ensures
        final(accesses)@ == with_access(old(accesses)@, access),
{
    let mut i: usize = 0;
    while i < accesses.len()
        invariant
            i <= accesses.len(),
            accesses@ == old(accesses)@,
            forall|j: int| 0 <= j < i ==> accesses@[j] != access,
        decreases accesses.len() - i,
    {
        if accesses[i] == access {
            assert(accesses@[i as int] == access);
            return;
        }
        i = i + 1;
    }
    accesses.push(access);
}

/// The form parameters of a list of accesses under the list `name`.
pub open spec fn access_params(name: Seq<char>, accesses: Seq<ProtectedAccess>) -> ParamsView {
    accesses.map_values(|a: ProtectedAccess| a.spec_param(name))
}

/// Appends the form parameters of a list of accesses under the list `name`.
fn push_accesses(params: &mut Vec<(String, String)>, name: &str, accesses: &Vec<ProtectedAccess>)
    ensures
        params_view(final(params)@) == params_view(old(params)@) + access_params(name@, accesses@),
{
    let ghost start = params_view(params@);
    let mut i: usize = 0;
    assert(start + access_params(name@, accesses@.subrange(0, 0)) =~= start);
    while i < accesses.len()
        invariant
            i <= accesses.len(),
            params_view(params@) == start + access_params(name@, accesses@.subrange(0, i as int)),
        decreases accesses.len() - i,
    {
        let ghost before = params@;
        accesses[i].add_query(name, params);
        assert(params@ =~= before.push(params@.last()));
        assert(params_view(params@) =~= params_view(before).push(accesses@[i as int].spec_param(name@)));
        assert(access_params(name@, accesses@.subrange(0, i + 1)) =~= access_params(
            name@,
            accesses@.subrange(0, i as int),
        ).push(accesses@[i as int].spec_param(name@)));
        i = i + 1;
    }
    assert(accesses@.subrange(0, i as int) =~= accesses@);
}

/// Protect a branch or set of branches on a project.
#[derive(Debug)]
pub struct ProtectBranch {
    /// The project to protect a branch within.
    pub project: NameOrId,
    /// The name or glob of the branch to protect.
    pub name: String,
    /// The minimum access level required to push to the branch.
    pub push_access_level: Option<ProtectedAccessLevel>,
    /// The minimum access level required to merge into the branch.
    pub merge_access_level: Option<ProtectedAccessLevel>,
    /// The minimum access level required to unprotect the branch.
    pub unprotect_access_level: Option<ProtectedAccessLevel>,
    /// A discrete set of accesses allowed to push to the branch.
    pub allowed_to_push: Vec<ProtectedAccess>,
    /// A discrete set of accesses allowed to merge into the branch.
    pub allowed_to_merge: Vec<ProtectedAccess>,
    /// A discrete set of accesses allowed to unprotect the branch.
    pub allowed_to_unprotect: Vec<ProtectedAccess>,
    /// Whether code owner approval is required to merge.
    pub code_owner_approval_required: Option<bool>,
}

/// Builder for [`ProtectBranch`].
#[derive(Debug)]
pub struct ProtectBranchBuilder {
    /// The project to protect a branch within.
    pub project: Option<NameOrId>,
    /// The name or glob of the branch to protect.
    pub name: Option<String>,
    /// The minimum access level required to push to the branch.
    pub push_access_level: Option<ProtectedAccessLevel>,
    /// The minimum access level required to merge into the branch.
    pub merge_access_level: Option<ProtectedAccessLevel>,
    /// The minimum access level required to unprotect the branch.
    pub unprotect_access_level: Option<ProtectedAccessLevel>,
    /// A discrete set of accesses allowed to push to the branch.
    pub allowed_to_push: Vec<ProtectedAccess>,
    /// A discrete set of accesses allowed to merge into the branch.
    pub allowed_to_merge: Vec<ProtectedAccess>,
    /// A discrete set of accesses allowed to unprotect the branch.
    pub allowed_to_unprotect: Vec<ProtectedAccess>,
    /// Whether code owner approval is required to merge.
    pub code_owner_approval_required: Option<bool>,
}

impl ProtectBranch {
    /// Create a builder for the endpoint.
    pub fn builder() -> (r: ProtectBranchBuilder)
        ensures
            r.project is None,
            r.name is None,
            r.push_access_level is None,
            r.merge_access_level is None,
            r.unprotect_access_level is None,
            r.allowed_to_push@ == Seq::<ProtectedAccess>::empty(),
            r.allowed_to_merge@ == Seq::<ProtectedAccess>::empty(),
            r.allowed_to_unprotect@ == Seq::<ProtectedAccess>::empty(),
            r.code_owner_approval_required is None,
    {
        ProtectBranchBuilder { project: None, name: None, push_access_level: None, merge_access_level: None, unprotect_access_level: None, allowed_to_push: Vec::new(), allowed_to_merge: Vec::new(), allowed_to_unprotect: Vec::new(), code_owner_approval_required: None }
    }

    /// The path of the endpoint.
    pub fn endpoint(&self) -> (r: String)
        ensures
            r@ == "projects/"@ + self.project.spec_path() + "/protected_branches"@,
    {
        let mut r = String::from_str("projects/");
        let part = self.project.to_string();
        r.append(part.as_str());
        r.append("/protected_branches");
        r
    }

    /// The parameters of the request, in the order they are sent.
    pub open spec fn spec_body(&self) -> ParamsView {
        Seq::<(Seq<char>, Seq<char>)>::empty()
            + seq![("name"@, self.name@)]
            + opt_param(
                "push_access_level"@,
                match self.push_access_level {
                    Some(x) => Some(x.spec_str()),
                    None => None,
                },
            )
            + opt_param(
                "merge_access_level"@,
                match self.merge_access_level {
                    Some(x) => Some(x.spec_str()),
                    None => None,
                },
            )
            + opt_param(
                "unprotect_access_level"@,
                match self.unprotect_access_level {
                    Some(x) => Some(x.spec_str()),
                    None => None,
                },
            )
            + opt_param("code_owner_approval_required"@, flag_opt(self.code_owner_approval_required))
            + access_params("allowed_to_push"@, self.allowed_to_push@)
            + access_params("allowed_to_merge"@, self.allowed_to_merge@)
            + access_params("allowed_to_unprotect"@, self.allowed_to_unprotect@)
    }

    /// The form parameters of the request.
    pub fn body(&self) -> (r: Vec<(String, String)>)
        ensures
            params_view(r@) == self.spec_body(),
    {
        let mut params: Vec<(String, String)> = Vec::new();
        push_param(&mut params, "name", self.name.clone());
        let value = match self.push_access_level {
            Some(x) => Some(String::from_str(x.as_str())),
            None => None,
        };
        push_opt(&mut params, "push_access_level", value);
        let value = match self.merge_access_level {
            Some(x) => Some(String::from_str(x.as_str())),
            None => None,
        };
        push_opt(&mut params, "merge_access_level", value);
        let value = match self.unprotect_access_level {
            Some(x) => Some(String::from_str(x.as_str())),
            None => None,
        };
        push_opt(&mut params, "unprotect_access_level", value);
        push_opt(&mut params, "code_owner_approval_required", opt_flag(self.code_owner_approval_required));
        push_accesses(&mut params, "allowed_to_push", &self.allowed_to_push);
        push_accesses(&mut params, "allowed_to_merge", &self.allowed_to_merge);
        push_accesses(&mut params, "allowed_to_unprotect", &self.allowed_to_unprotect);
        params
    }
}

impl ProtectBranchBuilder {
    /// Add access to push to the branch.
    pub fn allowed_to_push(self, access: ProtectedAccess) -> (r: Self)
        ensures
            r.allowed_to_push@ == with_access(self.allowed_to_push@, access),
            r == (ProtectBranchBuilder { allowed_to_push: r.allowed_to_push, ..self }),
    {
        let mut b = self;
        add_access(&mut b.allowed_to_push, access);
        b
    }

    /// Add access to merge into the branch.
    pub fn allowed_to_merge(self, access: ProtectedAccess) -> (r: Self)
        ensures
            r.allowed_to_merge@ == with_access(self.allowed_to_merge@, access),
            r == (ProtectBranchBuilder { allowed_to_merge: r.allowed_to_merge, ..self }),
    {
        let mut b = self;
        add_access(&mut b.allowed_to_merge, access);
        b
    }

    /// Add access to unprotect the branch.
    pub fn allowed_to_unprotect(self, access: ProtectedAccess) -> (r: Self)
        ensures
            r.allowed_to_unprotect@ == with_access(self.allowed_to_unprotect@, access),
            r == (ProtectBranchBuilder { allowed_to_unprotect: r.allowed_to_unprotect, ..self }),
    {
        let mut b = self;
        add_access(&mut b.allowed_to_unprotect, access);
        b
    }

    /// Set the project to protect a branch within.
    pub fn project(self, project: NameOrId) -> (r: Self)
        ensures
            r == (ProtectBranchBuilder { project: Some(project), ..self }),
    {
        let mut b = self;
        b.project = Some(project);
        b
    }

    /// Set the name or glob of the branch to protect.
    pub fn name(self, name: String) -> (r: Self)
        ensures
            r == (ProtectBranchBuilder { name: Some(name), ..self }),
    {
        let mut b = self;
        b.name = Some(name);
        b
    }

    /// Set the minimum access level required to push to the branch.
    pub fn push_access_level(self, push_access_level: ProtectedAccessLevel) -> (r: Self)
        ensures
            r == (ProtectBranchBuilder { push_access_level: Some(push_access_level), ..self }),
    {
        let mut b = self;
        b.push_access_level = Some(push_access_level);
        b
    }

    /// Set the minimum access level required to merge into the branch.
    pub fn merge_access_level(self, merge_access_level: ProtectedAccessLevel) -> (r: Self)
        ensures
            r == (ProtectBranchBuilder { merge_access_level: Some(merge_access_level), ..self }),
    {
        let mut b = self;
        b.merge_access_level = Some(merge_access_level);
        b
    }

    /// Set the minimum access level required to unprotect the branch.
    pub fn unprotect_access_level(self, unprotect_access_level: ProtectedAccessLevel) -> (r: Self)
        ensures
            r == (ProtectBranchBuilder { unprotect_access_level: Some(unprotect_access_level), ..self }),
    {
        let mut b = self;
        b.unprotect_access_level = Some(unprotect_access_level);
        b
    }

    /// Set whether code owner approval is required to merge.
    pub fn code_owner_approval_required(self, code_owner_approval_required: bool) -> (r: Self)
        ensures
            r == (ProtectBranchBuilder { code_owner_approval_required: Some(code_owner_approval_required), ..self }),
    {
        let mut b = self;
        b.code_owner_approval_required = Some(code_owner_approval_required);
        b
    }

    /// The endpoint, where every required field is set; else the first
    /// required field that is not.
    pub fn build(self) -> (r: Result<ProtectBranch, String>)
        ensures
            match r {
                Ok(q) => self.project == Some(q.project)
                    && self.name == Some(q.name)
                    && q.push_access_level == self.push_access_level
                    && q.merge_access_level == self.merge_access_level
                    && q.unprotect_access_level == self.unprotect_access_level
                    && q.allowed_to_push == self.allowed_to_push
                    && q.allowed_to_merge == self.allowed_to_merge
                    && q.allowed_to_unprotect == self.allowed_to_unprotect
                    && q.code_owner_approval_required == self.code_owner_approval_required,
                Err(e) => (self.project is None && e@ == "`project` must be initialized"@)
                    || (self.name is None && self.project is Some && e@ == "`name` must be initialized"@),
            },
    {
        let project = match self.project {
            Some(v) => v,
            None => {
                return Err(String::from_str("`project` must be initialized"));
            },
        };
        let name = match self.name {
            Some(v) => v,
            None => {
                return Err(String::from_str("`name` must be initialized"));
            },
        };
        Ok(ProtectBranch { project, name, push_access_level: self.push_access_level, merge_access_level: self.merge_access_level, unprotect_access_level: self.unprotect_access_level, allowed_to_push: self.allowed_to_push, allowed_to_merge: self.allowed_to_merge, allowed_to_unprotect: self.allowed_to_unprotect, code_owner_approval_required: self.code_owner_approval_required })
    }
}

} // verus!
