//! Job endpoints.

use vstd::prelude::*;
use vstd::string::*;

use crate::common::NameOrId;
use crate::text::{decimal, to_decimal};

verus! {

/// Query for the trace of a job.
#[derive(Debug, Clone)]
pub struct JobTrace {
    /// The project to query for the job.
    pub project: NameOrId,
    /// The ID of the job.
    pub job: u64,
}

/// Builder for [`JobTrace`].
#[derive(Debug, Clone)]
pub struct JobTraceBuilder {
    /// The project to query for the job.
    pub project: Option<NameOrId>,
    /// The ID of the job.
    pub job: Option<u64>,
}

impl JobTrace {
    /// Create a builder for the endpoint.
    pub fn builder() -> (r: JobTraceBuilder)
        ensures
            r.project is None,
            r.job is None,
    {
        JobTraceBuilder { project: None, job: None }
    }

    /// The path of the endpoint.
    pub fn endpoint(&self) -> (r: String)
        ensures
            r@ == "projects/"@ + self.project.spec_path() + "/jobs/"@ + decimal(self.job as nat) + "/trace"@,
    {
        let mut r = String::from_str("projects/");
        let part = self.project.to_string();
        r.append(part.as_str());
        r.append("/jobs/");
        let part = to_decimal(self.job);
        r.append(part.as_str());
        r.append("/trace");
        r
    }
}

impl JobTraceBuilder {
    /// Set the project to query for the job.
    pub fn project(self, project: NameOrId) -> (r: Self)
        ensures
            r == (JobTraceBuilder { project: Some(project), ..self }),
    {
        let mut b = self;
        b.project = Some(project);
        b
    }

    /// Set the ID of the job.
    pub fn job(self, job: u64) -> (r: Self)
        ensures
            r == (JobTraceBuilder { job: Some(job), ..self }),
    {
        let mut b = self;
        b.job = Some(job);
        b
    }

    /// The endpoint, where every required field is set; else the first
    /// required field that is not.
    pub fn build(self) -> (r: Result<JobTrace, String>)
        ensures
            match r {
                Ok(q) => self.project == Some(q.project)
                    && self.job == Some(q.job),
                Err(e) => (self.project is None && e@ == "`project` must be initialized"@)
                    || (self.job is None && self.project is Some && e@ == "`job` must be initialized"@),
            },
    {
        let project = match self.project {
            Some(v) => v,
            None => {
                return Err(String::from_str("`project` must be initialized"));
            },
        };
        let job = match self.job {
            Some(v) => v,
            None => {
                return Err(String::from_str("`job` must be initialized"));
            },
        };
        Ok(JobTrace { project, job })
    }
}

} // verus!
