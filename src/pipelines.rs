//! Pipeline endpoints.

use vstd::prelude::*;
use vstd::string::*;

use crate::common::NameOrId;
use crate::paged::Pageable;
use crate::params::{params_view, ParamsView};
use crate::text::{decimal, to_decimal};

verus! {

/// Delete a pipeline.
#[derive(Debug, Clone)]
pub struct DeletePipeline {
    /// The project of the pipeline.
    pub project: NameOrId,
    /// The ID of the pipeline.
    pub pipeline: u64,
}

/// Builder for [`DeletePipeline`].
#[derive(Debug, Clone)]
pub struct DeletePipelineBuilder {
    /// The project of the pipeline.
    pub project: Option<NameOrId>,
    /// The ID of the pipeline.
    pub pipeline: Option<u64>,
}

impl DeletePipeline {
    /// Create a builder for the endpoint.
    pub fn builder() -> (r: DeletePipelineBuilder)
        ensures
            r.project is None,
            r.pipeline is None,
    {
        DeletePipelineBuilder { project: None, pipeline: None }
    }

    /// The path of the endpoint.
    pub fn endpoint(&self) -> (r: String)
        ensures
            r@ == "projects/"@ + self.project.spec_path() + "/pipelines/"@ + decimal(self.pipeline as nat),
    {
        let mut r = String::from_str("projects/");
        let part = self.project.to_string();
        r.append(part.as_str());
        r.append("/pipelines/");
        let part = to_decimal(self.pipeline);
        r.append(part.as_str());
        r
    }
}

impl DeletePipelineBuilder {
    /// Set the project of the pipeline.
    pub fn project(self, project: NameOrId) -> (r: Self)
        ensures
            r == (DeletePipelineBuilder { project: Some(project), ..self }),
    {
        let mut b = self;
        b.project = Some(project);
        b
    }

    /// Set the ID of the pipeline.
    pub fn pipeline(self, pipeline: u64) -> (r: Self)
        ensures
            r == (DeletePipelineBuilder { pipeline: Some(pipeline), ..self }),
    {
        let mut b = self;
        b.pipeline = Some(pipeline);
        b
    }

    /// The endpoint, where every required field is set; else the first
    /// required field that is not.
    pub fn build(self) -> (r: Result<DeletePipeline, String>)
        ensures
            match r {
                Ok(q) => self.project == Some(q.project)
                    && self.pipeline == Some(q.pipeline),
                Err(e) => (self.project is None && e@ == "`project` must be initialized"@)
                    || (self.pipeline is None && self.project is Some && e@ == "`pipeline` must be initialized"@),
            },
    {
        let project = match self.project {
            Some(v) => v,
            None => {
                return Err(String::from_str("`project` must be initialized"));
            },
        };
        let pipeline = match self.pipeline {
            Some(v) => v,
            None => {
                return Err(String::from_str("`pipeline` must be initialized"));
            },
        };
        Ok(DeletePipeline { project, pipeline })
    }
}

/// Query for the jobs of a pipeline.
#[derive(Debug, Clone)]
pub struct Jobs {
    /// The project of the pipeline.
    pub project: NameOrId,
    /// The ID of the pipeline.
    pub pipeline: u64,
}

/// Builder for [`Jobs`].
#[derive(Debug, Clone)]
pub struct JobsBuilder {
    /// The project of the pipeline.
    pub project: Option<NameOrId>,
    /// The ID of the pipeline.
    pub pipeline: Option<u64>,
}

impl Jobs {
    /// Create a builder for the endpoint.
    pub fn builder() -> (r: JobsBuilder)
        ensures
            r.project is None,
            r.pipeline is None,
    {
        JobsBuilder { project: None, pipeline: None }
    }

    /// The path of the endpoint.
    pub fn endpoint(&self) -> (r: String)
        ensures
            r@ == "projects/"@ + self.project.spec_path() + "/pipelines/"@ + decimal(self.pipeline as nat) + "/jobs"@,
    {
        let mut r = String::from_str("projects/");
        let part = self.project.to_string();
        r.append(part.as_str());
        r.append("/pipelines/");
        let part = to_decimal(self.pipeline);
        r.append(part.as_str());
        r.append("/jobs");
        r
    }
}

impl JobsBuilder {
    /// Set the project of the pipeline.
    pub fn project(self, project: NameOrId) -> (r: Self)
        ensures
            r == (JobsBuilder { project: Some(project), ..self }),
    {
        let mut b = self;
        b.project = Some(project);
        b
    }

    /// Set the ID of the pipeline.
    pub fn pipeline(self, pipeline: u64) -> (r: Self)
        ensures
            r == (JobsBuilder { pipeline: Some(pipeline), ..self }),
    {
        let mut b = self;
        b.pipeline = Some(pipeline);
        b
    }

    /// The endpoint, where every required field is set; else the first
    /// required field that is not.
    pub fn build(self) -> (r: Result<Jobs, String>)
        ensures
            match r {
                Ok(q) => self.project == Some(q.project)
                    && self.pipeline == Some(q.pipeline),
                Err(e) => (self.project is None && e@ == "`project` must be initialized"@)
                    || (self.pipeline is None && self.project is Some && e@ == "`pipeline` must be initialized"@),
            },
    {
        let project = match self.project {
            Some(v) => v,
            None => {
                return Err(String::from_str("`project` must be initialized"));
            },
        };
        let pipeline = match self.pipeline {
            Some(v) => v,
            None => {
                return Err(String::from_str("`pipeline` must be initialized"));
            },
        };
        Ok(Jobs { project, pipeline })
    }
}

impl Pageable for Jobs {
    open spec fn keyset(&self) -> bool {
        false
    }

    open spec fn spec_path(&self) -> Seq<char> {
        "projects/"@ + self.project.spec_path() + "/pipelines/"@ + decimal(self.pipeline as nat) + "/jobs"@
    }

    open spec fn spec_query(&self) -> ParamsView {
        Seq::<(Seq<char>, Seq<char>)>::empty()
    }

    fn use_keyset_pagination(&self) -> (r: bool) {
        false
    }

    fn path(&self) -> (r: String) {
        self.endpoint()
    }

    fn query_params(&self) -> (r: Vec<(String, String)>) {
        let r: Vec<(String, String)> = Vec::new();
        assert(params_view(r@) =~= Seq::<(Seq<char>, Seq<char>)>::empty());
        r
    }
}

/// Retry the failed jobs of a pipeline.
#[derive(Debug, Clone)]
pub struct RetryPipeline {
    /// The project of the pipeline.
    pub project: NameOrId,
    /// The ID of the pipeline.
    pub pipeline: u64,
}

/// Builder for [`RetryPipeline`].
#[derive(Debug, Clone)]
pub struct RetryPipelineBuilder {
    /// The project of the pipeline.
    pub project: Option<NameOrId>,
    /// The ID of the pipeline.
    pub pipeline: Option<u64>,
}

impl RetryPipeline {
    /// Create a builder for the endpoint.
    pub fn builder() -> (r: RetryPipelineBuilder)
        ensures
            r.project is None,
            r.pipeline is None,
    {
        RetryPipelineBuilder { project: None, pipeline: None }
    }

    /// The path of the endpoint.
    pub fn endpoint(&self) -> (r: String)
        ensures
            r@ == "projects/"@ + self.project.spec_path() + "/pipelines/"@ + decimal(self.pipeline as nat) + "/retry"@,
    {
        let mut r = String::from_str("projects/");
        let part = self.project.to_string();
        r.append(part.as_str());
        r.append("/pipelines/");
        let part = to_decimal(self.pipeline);
        r.append(part.as_str());
        r.append("/retry");
        r
    }
}

impl RetryPipelineBuilder {
    /// Set the project of the pipeline.
    pub fn project(self, project: NameOrId) -> (r: Self)
        ensures
            r == (RetryPipelineBuilder { project: Some(project), ..self }),
    {
        let mut b = self;
        b.project = Some(project);
        b
    }

    /// Set the ID of the pipeline.
    pub fn pipeline(self, pipeline: u64) -> (r: Self)
        ensures
            r == (RetryPipelineBuilder { pipeline: Some(pipeline), ..self }),
    {
        let mut b = self;
        b.pipeline = Some(pipeline);
        b
    }

    /// The endpoint, where every required field is set; else the first
    /// required field that is not.
    pub fn build(self) -> (r: Result<RetryPipeline, String>)
        ensures
            match r {
                Ok(q) => self.project == Some(q.project)
                    && self.pipeline == Some(q.pipeline),
                Err(e) => (self.project is None && e@ == "`project` must be initialized"@)
                    || (self.pipeline is None && self.project is Some && e@ == "`pipeline` must be initialized"@),
            },
    {
        let project = match self.project {
            Some(v) => v,
            None => {
                return Err(String::from_str("`project` must be initialized"));
            },
        };
        let pipeline = match self.pipeline {
            Some(v) => v,
            None => {
                return Err(String::from_str("`pipeline` must be initialized"));
            },
        };
        Ok(RetryPipeline { project, pipeline })
    }
}

/// Query for the variables of a pipeline.
#[derive(Debug, Clone)]
pub struct PipelineVariables {
    /// The project of the pipeline.
    pub project: NameOrId,
    /// The ID of the pipeline.
    pub pipeline: u64,
}

/// Builder for [`PipelineVariables`].
#[derive(Debug, Clone)]
pub struct PipelineVariablesBuilder {
    /// The project of the pipeline.
    pub project: Option<NameOrId>,
    /// The ID of the pipeline.
    pub pipeline: Option<u64>,
}

impl PipelineVariables {
    /// Create a builder for the endpoint.
    pub fn builder() -> (r: PipelineVariablesBuilder)
        ensures
            r.project is None,
            r.pipeline is None,
    {
        PipelineVariablesBuilder { project: None, pipeline: None }
    }

    /// The path of the endpoint.
    pub fn endpoint(&self) -> (r: String)
        ensures
            r@ == "projects/"@ + self.project.spec_path() + "/pipelines/"@ + decimal(self.pipeline as nat) + "/variables"@,
    {
        let mut r = String::from_str("projects/");
        let part = self.project.to_string();
        r.append(part.as_str());
        r.append("/pipelines/");
        let part = to_decimal(self.pipeline);
        r.append(part.as_str());
        r.append("/variables");
        r
    }
}

impl PipelineVariablesBuilder {
    /// Set the project of the pipeline.
    pub fn project(self, project: NameOrId) -> (r: Self)
        ensures
            r == (PipelineVariablesBuilder { project: Some(project), ..self }),
    {
        let mut b = self;
        b.project = Some(project);
        b
    }

    /// Set the ID of the pipeline.
    pub fn pipeline(self, pipeline: u64) -> (r: Self)
        ensures
            r == (PipelineVariablesBuilder { pipeline: Some(pipeline), ..self }),
    {
        let mut b = self;
        b.pipeline = Some(pipeline);
        b
    }

    /// The endpoint, where every required field is set; else the first
    /// required field that is not.
    pub fn build(self) -> (r: Result<PipelineVariables, String>)
        ensures
            match r {
                Ok(q) => self.project == Some(q.project)
                    && self.pipeline == Some(q.pipeline),
                Err(e) => (self.project is None && e@ == "`project` must be initialized"@)
                    || (self.pipeline is None && self.project is Some && e@ == "`pipeline` must be initialized"@),
            },
    {
        let project = match self.project {
            Some(v) => v,
            None => {
                return Err(String::from_str("`project` must be initialized"));
            },
        };
        let pipeline = match self.pipeline {
            Some(v) => v,
            None => {
                return Err(String::from_str("`pipeline` must be initialized"));
            },
        };
        Ok(PipelineVariables { project, pipeline })
    }
}

} // verus!
