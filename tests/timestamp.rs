use gitlab::common::NameOrId;
use gitlab::issues::Issues;
use gitlab::projects::Projects;
use gitlab::timestamp::{Timestamp, MAX_SECS};
use gitlab::users::Users;

#[test]
fn timestamp_renders_rfc3339() {
    let epoch = Timestamp::from_unix(0).unwrap();
    assert_eq!(epoch.to_rfc3339_z(), "1970-01-01T00:00:00Z");
    assert_eq!(epoch.to_rfc3339(), "1970-01-01T00:00:00+00:00");
    let later = Timestamp::from_unix(1_600_000_000).unwrap();
    assert_eq!(later.to_rfc3339_z(), "2020-09-13T12:26:40Z");
    assert_eq!(later.unix(), 1_600_000_000);
}

#[test]
fn timestamp_range() {
    assert!(Timestamp::from_unix(MAX_SECS).is_some());
    assert!(Timestamp::from_unix(-MAX_SECS).is_some());
    assert!(Timestamp::from_unix(MAX_SECS + 1).is_none());
    assert!(Timestamp::from_unix(i64::MIN).is_none());
    assert!(!Timestamp::from_unix(MAX_SECS).unwrap().to_rfc3339_z().is_empty());
    assert!(!Timestamp::from_unix(-MAX_SECS).unwrap().to_rfc3339().is_empty());
}

#[test]
fn date_filters_in_parameters() {
    let issues = Issues::builder()
        .project(NameOrId::Id(1))
        .created_after(Timestamp::from_unix(86_400).unwrap())
        .updated_before(Timestamp::from_unix(0).unwrap())
        .build()
        .unwrap();
    assert_eq!(
        issues.parameters(),
        vec![
            ("created_after".to_string(), "1970-01-02T00:00:00Z".to_string()),
            ("updated_before".to_string(), "1970-01-01T00:00:00Z".to_string()),
        ],
    );
    let projects = Projects::builder()
        .last_activity_after(Timestamp::from_unix(0).unwrap())
        .build()
        .unwrap();
    assert_eq!(
        projects.parameters(),
        vec![("last_activity_after".to_string(), "1970-01-01T00:00:00Z".to_string())],
    );
    let users = Users::builder()
        .created_after(Timestamp::from_unix(0).unwrap())
        .build()
        .unwrap();
    assert_eq!(
        users.parameters(),
        vec![("created_after".to_string(), "1970-01-01T00:00:00+00:00".to_string())],
    );
}
