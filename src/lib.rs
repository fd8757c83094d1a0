//! A library for communicating with GitLab instances: query parameters,
//! endpoint descriptions and the pagination engine that collects the pages of
//! a paginated collection.

pub mod client;
pub mod commits;
pub mod common;
pub mod groups;
pub mod issues;
pub mod jobs;
pub mod labels;
pub mod link;
pub mod paged;
pub mod params;
pub mod pipelines;
pub mod projects;
pub mod protect;
pub mod sets;
pub mod text;
pub mod timestamp;
pub mod users;
