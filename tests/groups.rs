use gitlab::groups::{
    BranchProtection, CreateGroup, Group, GroupProjectCreationAccessLevel,
    SubgroupCreationAccessLevel,
};

#[test]
fn group_project_creation_access_level_as_str() {
    let items = &[
        (GroupProjectCreationAccessLevel::NoOne, "noone"),
        (GroupProjectCreationAccessLevel::Maintainer, "maintainer"),
        (GroupProjectCreationAccessLevel::Developer, "developer"),
    ];

    for (i, s) in items {
        assert_eq!(i.as_str(), *s);
    }
}

#[test]
fn subgroup_creation_access_level_as_str() {
    let items = &[
        (SubgroupCreationAccessLevel::Owner, "owner"),
        (SubgroupCreationAccessLevel::Maintainer, "maintainer"),
    ];

    for (i, s) in items {
        assert_eq!(i.as_str(), *s);
    }
}

#[test]
fn branch_protection_as_str() {
    let items = &[
        (BranchProtection::Unprotected, "0"),
        (BranchProtection::Partial, "1"),
        (BranchProtection::Full, "2"),
    ];

    for (i, s) in items {
        assert_eq!(i.as_str(), *s);
    }
}

#[test]
fn name_and_path_are_necessary() {
    let err = CreateGroup::builder().build().unwrap_err();
    assert_eq!(err, "`name` must be initialized");
}

#[test]
fn create_name_is_necessary() {
    let err = CreateGroup::builder().path("path".into()).build().unwrap_err();
    assert_eq!(err, "`name` must be initialized");
}

#[test]
fn path_is_necessary() {
    let err = CreateGroup::builder().name("name".into()).build().unwrap_err();
    assert_eq!(err, "`path` must be initialized");
}

#[test]
fn name_and_path_are_sufficient() {
    CreateGroup::builder()
        .name("name".into())
        .path("path".into())
        .build()
        .unwrap();
}

#[test]
fn group_is_necessary() {
    let err = Group::builder().build().unwrap_err();
    assert_eq!(err, "`group` must be initialized");
}

#[test]
fn group_is_sufficient() {
    Group::builder().group(1.into()).build().unwrap();
}

#[test]
fn group_endpoint_escapes_the_name() {
    let group = Group::builder().group("a/b".into()).build().unwrap();
    assert_eq!(group.endpoint(), "groups/a%2Fb");
    let create = CreateGroup::builder()
        .name("name".into())
        .path("path".into())
        .build()
        .unwrap();
    assert_eq!(create.endpoint(), "groups");
}
