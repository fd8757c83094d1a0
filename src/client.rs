//! Client settings and query modifiers.

use vstd::prelude::*;
use vstd::string::*;

verus! {

/// States of merge requests to filter by.
#[derive(Debug, Clone, Copy, PartialEq, Eq, Structural)]
pub enum MergeRequestStateFilter {
    /// Get the opened/reopened merge requests.
    Opened,
    /// Get the closed merge requests.
    Closed,
    /// Get the merged merge requests.
    Merged,
}

impl MergeRequestStateFilter {
    /// The parameter value.
    pub open spec fn spec_str(self) -> Seq<char> {
        match self {
            MergeRequestStateFilter::Opened => "opened"@,
            MergeRequestStateFilter::Closed => "closed"@,
            MergeRequestStateFilter::Merged => "merged"@,
        }
    }

    /// The string representation.
    pub fn as_str(self) -> (r: &'static str)
        ensures
            r@ == self.spec_str(),
    {
        match self {
            MergeRequestStateFilter::Opened => "opened",
            MergeRequestStateFilter::Closed => "closed",
            MergeRequestStateFilter::Merged => "merged",
        }
    }
}

/// Optional information for commit statuses.
#[derive(Debug, Clone, PartialEq, Eq)]
pub struct CommitStatusInfo {
    /// The refname of the commit being tested.
    pub refname: Option<String>,
    /// The name of the status (defaults to `"default"` on the GitLab side).
    pub name: Option<String>,
    /// A URL to associate with the status.
    pub target_url: Option<String>,
    /// A description of the status check.
    pub description: Option<String>,
}

/// Settings for a GitLab API client.
#[derive(Debug)]
pub struct GitlabBuilder {
    /// The protocol: `https`, or `http` for an insecure client.
    pub protocol: &'static str,
    /// The host of the instance.
    pub host: String,
    /// The secret token to authenticate with.
    pub token: String,
}

impl GitlabBuilder {
    /// Create a new GitLab API client builder, for `https`.
    pub fn new(host: &str, token: &str) -> (r: Self)
        ensures
            r.protocol@ == "https"@,
            r.host@ == host@,
            r.token@ == token@,
    {
        GitlabBuilder {
            protocol: "https",
            host: String::from_str(host),
            token: String::from_str(token),
        }
    }

    /// Switch to an insecure protocol (http instead of https).
    pub fn insecure(&mut self) -> (r: &mut Self)
        ensures
            r.protocol@ == "http"@,
            r.host == old(self).host,
            r.token == old(self).token,
            *final(self) == *final(r),
    {
        self.protocol = "http";
        self
    }

    /// The base URL of the instance's API.
    pub fn base_url(&self) -> (r: String)
        ensures
            r@ == self.protocol@ + "://"@ + self.host@ + "/api/v4/"@,
    {
        let mut r = String::from_str(self.protocol);
        r.append("://");
        r.append(self.host.as_str());
        r.append("/api/v4/");
        r
    }
}

/// A query modifier that returns the raw data from the endpoint.
#[derive(Debug, Clone, Copy, PartialEq, Eq)]
pub struct Raw<E> {
    /// The endpoint to query.
    pub endpoint: E,
}

/// Return the raw data from the endpoint.
pub fn raw<E>(endpoint: E) -> (r: Raw<E>)
    ensures
        r.endpoint == endpoint,
{
    Raw { endpoint }
}

} // verus!
