use gitlab::client::{raw, GitlabBuilder, MergeRequestStateFilter};
use gitlab::common::{AccessLevel, EnableState, SortOrder, VisibilityLevel};
use gitlab::groups::{BranchProtection, CreateGroup, Group};
use gitlab::users::ExternalProvider;
use gitlab::commits::CommitComments;
use gitlab::jobs::JobTrace;
use gitlab::labels::{CreateLabel, Labels};
use gitlab::paged::{paged, Pageable, Pagination};
use gitlab::pipelines::{DeletePipeline, Jobs, PipelineVariables, RetryPipeline};
use gitlab::projects::{bool_as_str, ProjectOrderBy, Projects};
use gitlab::protect::{ProtectBranch, ProtectedAccess, ProtectedAccessLevel};
use gitlab::users::{CurrentUser, User, UserOrderBy, Users};

#[test]
fn protect_protected_access_level_default() {
    assert_eq!(
        ProtectedAccessLevel::default(),
        ProtectedAccessLevel::Maintainer,
    );
}

#[test]
fn protect_protected_access_level_as_str() {
    let items = &[
        (ProtectedAccessLevel::NoAccess, "0"),
        (ProtectedAccessLevel::Developer, "30"),
        (ProtectedAccessLevel::Maintainer, "40"),
        (ProtectedAccessLevel::Admin, "60"),
    ];

    for (i, s) in items {
        assert_eq!(i.as_str(), *s);
    }
}

#[test]
fn project_and_job_are_needed() {
    let err = JobTrace::builder().build().unwrap_err();
    assert_eq!(err, "`project` must be initialized");
}

#[test]
fn trace_project_is_needed() {
    let err = JobTrace::builder().job(1).build().unwrap_err();
    assert_eq!(err, "`project` must be initialized");
}

#[test]
fn job_is_needed() {
    let err = JobTrace::builder().project(1.into()).build().unwrap_err();
    assert_eq!(err, "`job` must be initialized");
}

#[test]
fn project_and_job_are_sufficient() {
    JobTrace::builder().project(1.into()).job(1).build().unwrap();
}

#[test]
fn delete_project_and_pipeline_are_needed() {
    let err = DeletePipeline::builder().build().unwrap_err();
    assert_eq!(err, "`project` must be initialized");
}

#[test]
fn delete_project_is_needed() {
    let err = DeletePipeline::builder().pipeline(1).build().unwrap_err();
    assert_eq!(err, "`project` must be initialized");
}

#[test]
fn delete_pipeline_is_needed() {
    let err = DeletePipeline::builder().project(1.into()).build().unwrap_err();
    assert_eq!(err, "`pipeline` must be initialized");
}

#[test]
fn delete_project_and_pipeline_are_sufficient() {
    DeletePipeline::builder().project(1.into()).pipeline(1).build().unwrap();
}

#[test]
fn jobs_project_and_pipeline_are_needed() {
    let err = Jobs::builder().build().unwrap_err();
    assert_eq!(err, "`project` must be initialized");
}

#[test]
fn jobs_project_is_needed() {
    let err = Jobs::builder().pipeline(1).build().unwrap_err();
    assert_eq!(err, "`project` must be initialized");
}

#[test]
fn jobs_pipeline_is_needed() {
    let err = Jobs::builder().project(1.into()).build().unwrap_err();
    assert_eq!(err, "`pipeline` must be initialized");
}

#[test]
fn jobs_project_and_pipeline_are_sufficient() {
    Jobs::builder().project(1.into()).pipeline(1).build().unwrap();
}

#[test]
fn retry_project_and_pipeline_are_needed() {
    let err = RetryPipeline::builder().build().unwrap_err();
    assert_eq!(err, "`project` must be initialized");
}

#[test]
fn retry_project_is_needed() {
    let err = RetryPipeline::builder().pipeline(1).build().unwrap_err();
    assert_eq!(err, "`project` must be initialized");
}

#[test]
fn retry_pipeline_is_needed() {
    let err = RetryPipeline::builder().project(1.into()).build().unwrap_err();
    assert_eq!(err, "`pipeline` must be initialized");
}

#[test]
fn retry_project_and_pipeline_are_sufficient() {
    RetryPipeline::builder().project(1.into()).pipeline(1).build().unwrap();
}

#[test]
fn variables_project_and_pipeline_are_needed() {
    let err = PipelineVariables::builder().build().unwrap_err();
    assert_eq!(err, "`project` must be initialized");
}

#[test]
fn variables_project_is_needed() {
    let err = PipelineVariables::builder().pipeline(1).build().unwrap_err();
    assert_eq!(err, "`project` must be initialized");
}

#[test]
fn variables_pipeline_is_needed() {
    let err = PipelineVariables::builder().project(1.into()).build().unwrap_err();
    assert_eq!(err, "`pipeline` must be initialized");
}

#[test]
fn variables_project_and_pipeline_are_sufficient() {
    PipelineVariables::builder().project(1.into()).pipeline(1).build().unwrap();
}

#[test]
fn project_and_commit_are_necessary() {
    let err = CommitComments::builder().build().unwrap_err();
    assert_eq!(err, "`project` must be initialized");
}

#[test]
fn comments_project_is_necessary() {
    let err = CommitComments::builder().commit("master".into()).build().unwrap_err();
    assert_eq!(err, "`project` must be initialized");
}

#[test]
fn commit_is_necessary() {
    let err = CommitComments::builder().project(1.into()).build().unwrap_err();
    assert_eq!(err, "`commit` must be initialized");
}

#[test]
fn project_and_commit_are_sufficient() {
    CommitComments::builder().project(1.into()).commit("master".into()).build().unwrap();
}

#[test]
fn project_and_name_are_needed() {
    let err = ProtectBranch::builder().build().unwrap_err();
    assert_eq!(err, "`project` must be initialized");
}

#[test]
fn project_is_required() {
    let err = ProtectBranch::builder().name("master".into()).build().unwrap_err();
    assert_eq!(err, "`project` must be initialized");
}

#[test]
fn branch_is_required() {
    let err = ProtectBranch::builder().project(1.into()).build().unwrap_err();
    assert_eq!(err, "`name` must be initialized");
}

#[test]
fn project_and_branch_are_sufficient() {
    ProtectBranch::builder().project(1.into()).name("master".into()).build().unwrap();
}

#[test]
fn project_name_and_color_are_necessary() {
    let err = CreateLabel::builder().build().unwrap_err();
    assert_eq!(err, "`project` must be initialized");
}

#[test]
fn create_project_is_necessary() {
    let err = CreateLabel::builder()
        .name("label".into())
        .color("#f100fe".into())
        .build()
        .unwrap_err();
    assert_eq!(err, "`project` must be initialized");
}

#[test]
fn label_name_is_necessary() {
    let err = CreateLabel::builder()
        .project(1.into())
        .color("#f100fe".into())
        .build()
        .unwrap_err();
    assert_eq!(err, "`name` must be initialized");
}

#[test]
fn color_is_necessary() {
    let err = CreateLabel::builder()
        .project(1.into())
        .name("label".into())
        .build()
        .unwrap_err();
    assert_eq!(err, "`color` must be initialized");
}

#[test]
fn project_name_and_color_are_sufficient() {
    CreateLabel::builder()
        .project(1.into())
        .name("label".into())
        .color("#f100fe".into())
        .build()
        .unwrap();
}

#[test]
fn labels_project_is_needed() {
    let err = Labels::builder().build().unwrap_err();
    assert_eq!(err, "`project` must be initialized");
}

#[test]
fn labels_project_is_sufficient() {
    Labels::builder().project(1.into()).build().unwrap();
}

#[test]
fn projects_defaults_work() {
    Projects::builder().build().unwrap();
}

#[test]
fn users_defaults_work() {
    Users::builder().build().unwrap();
}

#[test]
fn defaults_are_sufficient() {
    CurrentUser::builder().build().unwrap();
}

#[test]
fn user_is_needed() {
    let err = User::builder().build().unwrap_err();
    assert_eq!(err, "`user` must be initialized");
}

#[test]
fn user_is_sufficient() {
    User::builder().user(1).build().unwrap();
}

#[test]
fn endpoint() {
    let endpoint = User::builder().user(1).build().unwrap();
    assert_eq!(endpoint.endpoint(), "users/1");
}

#[test]
fn endpoint_paths() {
    let trace = JobTrace::builder().project("a b".into()).job(7).build().unwrap();
    assert_eq!(trace.endpoint(), "projects/a%20b/jobs/7/trace");
    let retry = RetryPipeline::builder().project(3.into()).pipeline(9).build().unwrap();
    assert_eq!(retry.endpoint(), "projects/3/pipelines/9/retry");
    let delete = DeletePipeline::builder().project(3.into()).pipeline(9).build().unwrap();
    assert_eq!(delete.endpoint(), "projects/3/pipelines/9");
    let vars = PipelineVariables::builder().project(3.into()).pipeline(9).build().unwrap();
    assert_eq!(vars.endpoint(), "projects/3/pipelines/9/variables");
    let jobs = Jobs::builder().project(3.into()).pipeline(9).build().unwrap();
    assert_eq!(jobs.endpoint(), "projects/3/pipelines/9/jobs");
    let comments = CommitComments::builder()
        .project(1.into())
        .commit("feature/x".into())
        .build()
        .unwrap();
    assert_eq!(comments.endpoint(), "projects/1/repository/commits/feature%2Fx/comments");
    let labels = Labels::builder().project(1.into()).build().unwrap();
    assert_eq!(labels.endpoint(), "projects/1/labels");
    assert_eq!(CurrentUser::builder().build().unwrap().endpoint(), "user");
}

#[test]
fn protected_access_form_params() {
    let mut params = Vec::new();
    ProtectedAccess::User(5).add_query("allowed_to_push", &mut params);
    ProtectedAccess::Group(6).add_query("allowed_to_merge", &mut params);
    ProtectedAccess::from(ProtectedAccessLevel::Developer).add_query("allowed_to_unprotect", &mut params);
    assert_eq!(
        params,
        vec![
            ("allowed_to_push[][user_id]".to_string(), "5".to_string()),
            ("allowed_to_merge[][group_id]".to_string(), "6".to_string()),
            ("allowed_to_unprotect[][access_level]".to_string(), "30".to_string()),
        ],
    );
}

#[test]
fn protect_branch_accesses_are_kept_once() {
    let protect = ProtectBranch::builder()
        .project(1.into())
        .name("main".into())
        .allowed_to_push(ProtectedAccess::User(1))
        .allowed_to_push(ProtectedAccess::User(1))
        .allowed_to_push(ProtectedAccess::Group(2))
        .build()
        .unwrap();
    assert_eq!(
        protect.allowed_to_push,
        vec![ProtectedAccess::User(1), ProtectedAccess::Group(2)],
    );
    assert_eq!(protect.endpoint(), "projects/1/protected_branches");
}

#[test]
fn project_order_by_keyset() {
    assert!(ProjectOrderBy::Id.use_keyset_pagination());
    assert!(!ProjectOrderBy::Name.use_keyset_pagination());
    assert_eq!(ProjectOrderBy::default(), ProjectOrderBy::CreatedAt);
    assert_eq!(ProjectOrderBy::LastActivityAt.as_str(), "last_activity_at");
    let by_id = Projects::builder().order_by(ProjectOrderBy::Id).build().unwrap();
    assert!(by_id.use_keyset_pagination());
    let plain = Projects::builder().build().unwrap();
    assert!(!plain.use_keyset_pagination());
    let query = paged(plain, Pagination::Limit(5));
    assert_eq!(query.pagination, Pagination::Limit(5));
}

#[test]
fn custom_attributes_later_value_wins() {
    let projects = Projects::builder()
        .custom_attribute("a".into(), "1".into())
        .custom_attributes(vec![("b".into(), "2".into()), ("a".into(), "3".into())])
        .build()
        .unwrap();
    assert_eq!(projects.custom_attributes.get_value("a"), Some("3".to_string()));
    assert_eq!(projects.custom_attributes.get_value("b"), Some("2".to_string()));
    assert_eq!(projects.custom_attributes.get_value("c"), None);
    let cleared = Users::builder()
        .custom_attribute("a".into(), "1".into())
        .clear_custom_attributes()
        .build()
        .unwrap();
    assert_eq!(cleared.custom_attributes.get_value("a"), None);
}

#[test]
fn user_order_by_and_flags() {
    assert_eq!(UserOrderBy::default(), UserOrderBy::Id);
    assert_eq!(UserOrderBy::Username.as_str(), "username");
    assert_eq!(bool_as_str(true), "true");
    assert_eq!(bool_as_str(false), "false");
    assert_eq!(MergeRequestStateFilter::Merged.as_str(), "merged");
}

#[test]
fn gitlab_builder_base_url() {
    let mut builder = GitlabBuilder::new("gitlab.example.com", "SECRET-REDACTED");
    assert_eq!(builder.base_url(), "https://gitlab.example.com/api/v4/");
    builder.insecure();
    assert_eq!(builder.base_url(), "http://gitlab.example.com/api/v4/");
    assert_eq!(raw(7u8).endpoint, 7u8);
}

fn pairs(v: &[(&str, &str)]) -> Vec<(String, String)> {
    v.iter().map(|(k, v)| (k.to_string(), v.to_string())).collect()
}

#[test]
fn projects_parameters_in_order() {
    let projects = Projects::builder()
        .search("tool".to_string())
        .visibility(VisibilityLevel::Internal)
        .owned(true)
        .min_access_level(AccessLevel::Developer)
        .id_after(10)
        .custom_attribute("zone".into(), "eu".into())
        .custom_attribute("area".into(), "ops".into())
        .order_by(ProjectOrderBy::Id)
        .sort(SortOrder::Descending)
        .build()
        .unwrap();
    assert_eq!(
        projects.parameters(),
        pairs(&[
            ("search", "tool"),
            ("visibility", "internal"),
            ("owned", "true"),
            ("min_access_level", "30"),
            ("id_after", "10"),
            ("custom_attribute[area]", "ops"),
            ("custom_attribute[zone]", "eu"),
            ("order_by", "id"),
            ("sort", "desc"),
        ]),
    );
    assert!(Projects::builder().build().unwrap().parameters().is_empty());
}

#[test]
fn users_parameters_in_order() {
    let users = Users::builder()
        .username("bob".to_string())
        .active(())
        .external_provider(ExternalProvider {
            id: 77,
            name: "ldap".to_string(),
        })
        .two_factor(EnableState::Disabled)
        .without_projects(true)
        .build()
        .unwrap();
    assert_eq!(
        users.parameters(),
        pairs(&[
            ("username", "bob"),
            ("active", "true"),
            ("extern_uid", "77"),
            ("provider", "ldap"),
            ("two_factor", "disabled"),
            ("without_projects", "true"),
        ]),
    );
}

#[test]
fn group_form_and_query_parameters() {
    let create = CreateGroup::builder()
        .name("Name".into())
        .path("path".into())
        .lfs_enabled(false)
        .parent_id(12)
        .default_branch_protection(BranchProtection::Full)
        .build()
        .unwrap();
    assert_eq!(
        create.body(),
        pairs(&[
            ("name", "Name"),
            ("path", "path"),
            ("lfs_enabled", "false"),
            ("parent_id", "12"),
            ("default_branch_protection", "2"),
        ]),
    );
    let group = Group::builder().group(1.into()).with_projects(true).build().unwrap();
    assert_eq!(group.parameters(), pairs(&[("with_projects", "true")]));
}

#[test]
fn label_parameters() {
    let create = CreateLabel::builder()
        .project(1.into())
        .name("bug".into())
        .color("#ff0000".into())
        .priority(2)
        .build()
        .unwrap();
    assert_eq!(
        create.parameters(),
        pairs(&[("name", "bug"), ("color", "#ff0000"), ("priority", "2")]),
    );
    let labels = Labels::builder().project(1.into()).with_counts(true).build().unwrap();
    assert_eq!(labels.parameters(), pairs(&[("with_counts", "true")]));
}

#[test]
fn protect_branch_form() {
    let protect = ProtectBranch::builder()
        .project(1.into())
        .name("main".into())
        .push_access_level(ProtectedAccessLevel::Maintainer)
        .allowed_to_merge(ProtectedAccess::User(4))
        .allowed_to_unprotect(ProtectedAccess::Level(ProtectedAccessLevel::Admin))
        .build()
        .unwrap();
    assert_eq!(
        protect.body(),
        pairs(&[
            ("name", "main"),
            ("push_access_level", "40"),
            ("allowed_to_merge[][user_id]", "4"),
            ("allowed_to_unprotect[][access_level]", "60"),
        ]),
    );
}

#[test]
fn paged_query_takes_keyset_path_and_params_from_endpoint() {
    let projects = Projects::builder().order_by(ProjectOrderBy::Id).build().unwrap();
    let query = paged(projects, Pagination::All);
    let cursor = query.cursor::<u32>();
    let first = cursor.request();
    assert_eq!(first, gitlab::paged::PageRequest::KeysetStart { per_page: 100 });
    let parts = query.query();
    assert_eq!(parts.path, "projects");
    assert_eq!(parts.params, pairs(&[("order_by", "id")]));
    assert_eq!(
        parts.url_pairs(&first),
        pairs(&[("order_by", "id"), ("per_page", "100"), ("pagination", "keyset")]),
    );
    let follow = gitlab::paged::PageRequest::Follow {
        url: "https://x/next".to_string(),
    };
    assert!(parts.url_pairs(&follow).is_empty());

    let jobs = Jobs::builder().project(3.into()).pipeline(9).build().unwrap();
    let query = paged(jobs, Pagination::Limit(20));
    assert_eq!(
        query.cursor::<u32>().request(),
        gitlab::paged::PageRequest::Offset { per_page: 20, page: 1 },
    );
    let parts = query.query();
    assert_eq!(parts.path, "projects/3/pipelines/9/jobs");
    assert_eq!(
        parts.url_pairs(&query.cursor::<u32>().request()),
        pairs(&[("per_page", "20"), ("page", "1")]),
    );
    let users = paged(Users::builder().username("bob".to_string()).build().unwrap(), Pagination::All);
    assert!(!users.endpoint.use_keyset_pagination());
    assert_eq!(users.query().path, "users");
}
