//! Commit endpoints.

use vstd::prelude::*;
use vstd::string::*;

use vstd::utf8::encode_utf8;

use crate::common::{escaped, path_escaped, NameOrId};
use crate::paged::Pageable;
use crate::params::{params_view, ParamsView};

verus! {

/// Query for the comments on a commit.
#[derive(Debug, Clone)]
pub struct CommitComments {
    /// The project to get a commit from.
    pub project: NameOrId,
    /// The commit to get comments from.
    pub commit: String,
}

/// Builder for [`CommitComments`].
#[derive(Debug, Clone)]
pub struct CommitCommentsBuilder {
    /// The project to get a commit from.
    pub project: Option<NameOrId>,
    /// The commit to get comments from.
    pub commit: Option<String>,
}

impl CommitComments {
    /// Create a builder for the endpoint.
    pub fn builder() -> (r: CommitCommentsBuilder)
        ensures
            r.project is None,
            r.commit is None,
    {
        CommitCommentsBuilder { project: None, commit: None }
    }

    /// The path of the endpoint; the commit is escaped as a path segment.
    pub fn endpoint(&self) -> (r: String)
        ensures
            r@ == "projects/"@ + self.project.spec_path() + "/repository/commits/"@ + escaped(encode_utf8(self.commit@)) + "/comments"@,
    {
        let mut r = String::from_str("projects/");
        let part = self.project.to_string();
        r.append(part.as_str());
        r.append("/repository/commits/");
        let part = path_escaped(self.commit.as_str());
        r.append(part.as_str());
        r.append("/comments");
        r
    }
}

impl CommitCommentsBuilder {
    /// Set the project to get a commit from.
    pub fn project(self, project: NameOrId) -> (r: Self)
        ensures
            r == (CommitCommentsBuilder { project: Some(project), ..self }),
    {
        let mut b = self;
        b.project = Some(project);
        b
    }

    /// Set the commit to get comments from.
    pub fn commit(self, commit: String) -> (r: Self)
        ensures
            r == (CommitCommentsBuilder { commit: Some(commit), ..self }),
    {
        let mut b = self;
        b.commit = Some(commit);
        b
    }

    /// The endpoint, where every required field is set; else the first
    /// required field that is not.
    pub fn build(self) -> (r: Result<CommitComments, String>)
        ensures
            match r {
                Ok(q) => self.project == Some(q.project)
                    && self.commit == Some(q.commit),
                Err(e) => (self.project is None && e@ == "`project` must be initialized"@)
                    || (self.commit is None && self.project is Some && e@ == "`commit` must be initialized"@),
            },
    {
        let project = match self.project {
            Some(v) => v,
            None => {
                return Err(String::from_str("`project` must be initialized"));
            },
        };
        let commit = match self.commit {
            Some(v) => v,
            None => {
                return Err(String::from_str("`commit` must be initialized"));
            },
        };
        Ok(CommitComments { project, commit })
    }
}

impl Pageable for CommitComments {
    open spec fn keyset(&self) -> bool {
        false
    }

    open spec fn spec_path(&self) -> Seq<char> {
        "projects/"@ + self.project.spec_path() + "/repository/commits/"@ + escaped(encode_utf8(self.commit@)) + "/comments"@
    }

    open spec fn spec_query(&self) -> ParamsView {
        Seq::<(Seq<char>, Seq<char>)>::empty()
    }

    fn use_keyset_pagination(&self) -> (r: bool) {
        false
    }

    fn path(&self) -> (r: String) {
        self.endpoint()
    }

    fn query_params(&self) -> (r: Vec<(String, String)>) {
        let r: Vec<(String, String)> = Vec::new();
        assert(params_view(r@) =~= Seq::<(Seq<char>, Seq<char>)>::empty());
        r
    }
}

} // verus!
