//! Label endpoints.

use vstd::prelude::*;
use vstd::string::*;

use crate::common::NameOrId;
use crate::link::opt_view;
use crate::params::{flag_opt, number_opt, opt_flag, opt_number, opt_param, opt_text, params_view, push_opt, push_param, ParamsView};

verus! {

/// Create a label within a project.
#[derive(Debug, Clone)]
pub struct CreateLabel {
    /// The project to create a label within.
    pub project: NameOrId,
    /// The name of the label.
    pub name: String,
    /// The color of the label.
    pub color: String,
    /// The description of the label.
    pub description: Option<String>,
    /// The priority of the label.
    pub priority: Option<u64>,
}

/// Builder for [`CreateLabel`].
#[derive(Debug, Clone)]
pub struct CreateLabelBuilder {
    /// The project to create a label within.
    pub project: Option<NameOrId>,
    /// The name of the label.
    pub name: Option<String>,
    /// The color of the label.
    pub color: Option<String>,
    /// The description of the label.
    pub description: Option<String>,
    /// The priority of the label.
    pub priority: Option<u64>,
}

impl CreateLabel {
    /// Create a builder for the endpoint.
    pub fn builder() -> (r: CreateLabelBuilder)
        ensures
            r.project is None,
            r.name is None,
            r.color is None,
            r.description is None,
            r.priority is None,
    {
        CreateLabelBuilder { project: None, name: None, color: None, description: None, priority: None }
    }

    /// The path of the endpoint.
    pub fn endpoint(&self) -> (r: String)
        ensures
            r@ == "projects/"@ + self.project.spec_path() + "/labels"@,
    {
        let mut r = String::from_str("projects/");
        let part = self.project.to_string();
        r.append(part.as_str());
        r.append("/labels");
        r
    }

    /// The parameters of the request, in the order they are sent.
    pub open spec fn spec_parameters(&self) -> ParamsView {
        Seq::<(Seq<char>, Seq<char>)>::empty()
            + seq![("name"@, self.name@)]
            + seq![("color"@, self.color@)]
            + opt_param("description"@, opt_view(self.description))
            + opt_param("priority"@, number_opt(self.priority))
    }

    /// The query parameters of the request.
    pub fn parameters(&self) -> (r: Vec<(String, String)>)
        ensures
            params_view(r@) == self.spec_parameters(),
    {
        let mut params: Vec<(String, String)> = Vec::new();
        push_param(&mut params, "name", self.name.clone());
        push_param(&mut params, "color", self.color.clone());
        push_opt(&mut params, "description", opt_text(&self.description));
        push_opt(&mut params, "priority", opt_number(self.priority));
        params
    }
}

impl CreateLabelBuilder {
    /// Set the project to create a label within.
    pub fn project(self, project: NameOrId) -> (r: Self)
        ensures
            r == (CreateLabelBuilder { project: Some(project), ..self }),
    {
        let mut b = self;
        b.project = Some(project);
        b
    }

    /// Set the name of the label.
    pub fn name(self, name: String) -> (r: Self)
        ensures
            r == (CreateLabelBuilder { name: Some(name), ..self }),
    {
        let mut b = self;
        b.name = Some(name);
        b
    }

    /// Set the color of the label.
    pub fn color(self, color: String) -> (r: Self)
        ensures
            r == (CreateLabelBuilder { color: Some(color), ..self }),
    {
        let mut b = self;
        b.color = Some(color);
        b
    }

    /// Set the description of the label.
    pub fn description(self, description: String) -> (r: Self)
        ensures
            r == (CreateLabelBuilder { description: Some(description), ..self }),
    {
        let mut b = self;
        b.description = Some(description);
        b
    }

    /// Set the priority of the label.
    pub fn priority(self, priority: u64) -> (r: Self)
        ensures
            r == (CreateLabelBuilder { priority: Some(priority), ..self }),
    {
        let mut b = self;
        b.priority = Some(priority);
        b
    }

    /// The endpoint, where every required field is set; else the first
    /// required field that is not.
    pub fn build(self) -> (r: Result<CreateLabel, String>)
        ensures
            match r {
                Ok(q) => self.project == Some(q.project)
                    && self.name == Some(q.name)
                    && self.color == Some(q.color)
                    && q.description == self.description
                    && q.priority == self.priority,
                Err(e) => (self.project is None && e@ == "`project` must be initialized"@)
                    || (self.name is None && self.project is Some && e@ == "`name` must be initialized"@)
                    || (self.color is None && self.project is Some && self.name is Some && e@ == "`color` must be initialized"@),
            },
    {
        let project = match self.project {
            Some(v) => v,
            None => {
                return Err(String::from_str("`project` must be initialized"));
            },
        };
        let name = match self.name {
            Some(v) => v,
            None => {
                return Err(String::from_str("`name` must be initialized"));
            },
        };
        let color = match self.color {
            Some(v) => v,
            None => {
                return Err(String::from_str("`color` must be initialized"));
            },
        };
        Ok(CreateLabel { project, name, color, description: self.description, priority: self.priority })
    }
}

/// Query for labels within a project.
#[derive(Debug, Clone)]
pub struct Labels {
    /// The project to query for labels.
    pub project: NameOrId,
    /// Include issue and merge request counts.
    pub with_counts: Option<bool>,
    /// Include ancestor groups.
    pub include_ancestor_groups: Option<bool>,
}

/// Builder for [`Labels`].
#[derive(Debug, Clone)]
pub struct LabelsBuilder {
    /// The project to query for labels.
    pub project: Option<NameOrId>,
    /// Include issue and merge request counts.
    pub with_counts: Option<bool>,
    /// Include ancestor groups.
    pub include_ancestor_groups: Option<bool>,
}

impl Labels {
    /// Create a builder for the endpoint.
    pub fn builder() -> (r: LabelsBuilder)
        ensures
            r.project is None,
            r.with_counts is None,
            r.include_ancestor_groups is None,
    {
        LabelsBuilder { project: None, with_counts: None, include_ancestor_groups: None }
    }

    /// The path of the endpoint.
    pub fn endpoint(&self) -> (r: String)
        ensures
            r@ == "projects/"@ + self.project.spec_path() + "/labels"@,
    {
        let mut r = String::from_str("projects/");
        let part = self.project.to_string();
        r.append(part.as_str());
        r.append("/labels");
        r
    }

    /// The parameters of the request, in the order they are sent.
    pub open spec fn spec_parameters(&self) -> ParamsView {
        Seq::<(Seq<char>, Seq<char>)>::empty()
            + opt_param("with_counts"@, flag_opt(self.with_counts))
            + opt_param("include_ancestor_groups"@, flag_opt(self.include_ancestor_groups))
    }

    /// The query parameters of the request.
    pub fn parameters(&self) -> (r: Vec<(String, String)>)
        ensures
            params_view(r@) == self.spec_parameters(),
    {
        let mut params: Vec<(String, String)> = Vec::new();
        push_opt(&mut params, "with_counts", opt_flag(self.with_counts));
        push_opt(&mut params, "include_ancestor_groups", opt_flag(self.include_ancestor_groups));
        params
    }
}

impl LabelsBuilder {
    /// Set the project to query for labels.
    pub fn project(self, project: NameOrId) -> (r: Self)
        ensures
            r == (LabelsBuilder { project: Some(project), ..self }),
    {
        let mut b = self;
        b.project = Some(project);
        b
    }

    /// Set include issue and merge request counts.
    pub fn with_counts(self, with_counts: bool) -> (r: Self)
        ensures
            r == (LabelsBuilder { with_counts: Some(with_counts), ..self }),
    {
        let mut b = self;
        b.with_counts = Some(with_counts);
        b
    }

    /// Set include ancestor groups.
    pub fn include_ancestor_groups(self, include_ancestor_groups: bool) -> (r: Self)
        ensures
            r == (LabelsBuilder { include_ancestor_groups: Some(include_ancestor_groups), ..self }),
    {
        let mut b = self;
        b.include_ancestor_groups = Some(include_ancestor_groups);
        b
    }

    /// The endpoint, where every required field is set; else the first
    /// required field that is not.
    pub fn build(self) -> (r: Result<Labels, String>)
        ensures
            match r {
                Ok(q) => self.project == Some(q.project)
                    && q.with_counts == self.with_counts
                    && q.include_ancestor_groups == self.include_ancestor_groups,
                Err(e) => (self.project is None && e@ == "`project` must be initialized"@),
            },
    {
        let project = match self.project {
            Some(v) => v,
            None => {
                return Err(String::from_str("`project` must be initialized"));
            },
        };
        Ok(Labels { project, with_counts: self.with_counts, include_ancestor_groups: self.include_ancestor_groups })
    }
}

} // verus!
