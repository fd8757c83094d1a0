use gitlab::common::NameOrId;
use gitlab::issues::{
    Assignee, IssueOrderBy, IssueScope, IssueState, IssueWeight, Issues, Labels, Milestone,
    ReactionEmoji,
};
use gitlab::sets::StrSet;

#[test]
fn issue_state_as_str() {
    let items = &[
        (IssueState::Opened, "opened"),
        (IssueState::Closed, "closed"),
    ];

    for (i, s) in items {
        assert_eq!(i.as_str(), *s);
    }
}

#[test]
fn issue_labels_as_str() {
    let one_user = {
        let mut set = StrSet::new();
        set.insert("one".into());
        set
    };
    let two_users = {
        let mut set = StrSet::new();
        set.insert("one".into());
        set.insert("two".into());
        set
    };

    let items = &[
        (Labels::Any, "Any"),
        (Labels::Unlabeled, "None"),
        (Labels::AllOf(one_user), "one"),
        (Labels::AllOf(two_users), "one,two"),
    ];

    for (i, s) in items {
        assert_eq!(i.as_str(), *s);
    }
}

#[test]
fn issue_milestone_as_str() {
    let items = &[
        (Milestone::Any, "Any"),
        (Milestone::Without, "None"),
        (Milestone::Named("milestone".into()), "milestone"),
    ];

    for (i, s) in items {
        assert_eq!(i.as_str(), *s);
    }
}

#[test]
fn issue_scope_as_str() {
    let items = &[
        (IssueScope::CreatedByMe, "created_by_me"),
        (IssueScope::AssignedToMe, "assigned_to_me"),
        (IssueScope::All, "all"),
    ];

    for (i, s) in items {
        assert_eq!(i.as_str(), *s);
    }
}

#[test]
fn reaction_emoji_as_str() {
    let items = &[
        (ReactionEmoji::NoReaction, "None"),
        (ReactionEmoji::Any, "Any"),
        (ReactionEmoji::Emoji("emoji".into()), "emoji"),
    ];

    for (i, s) in items {
        assert_eq!(i.as_str(), *s);
    }
}

#[test]
fn issue_weight_as_str() {
    let items = &[
        (IssueWeight::Any, "Any"),
        (IssueWeight::Unweighted, "None"),
        (IssueWeight::Weight(0), "0"),
    ];

    for (i, s) in items {
        assert_eq!(i.as_str(), *s);
    }
}

#[test]
fn issue_weight_renders_large_numbers() {
    assert_eq!(IssueWeight::Weight(1234567890).as_str(), "1234567890");
    assert_eq!(IssueWeight::Weight(u64::MAX).as_str(), "18446744073709551615");
}

#[test]
fn issue_order_by_default() {
    assert_eq!(IssueOrderBy::default(), IssueOrderBy::CreatedAt);
}

#[test]
fn issue_order_by_as_str() {
    let items = &[
        (IssueOrderBy::CreatedAt, "created_at"),
        (IssueOrderBy::UpdatedAt, "updated_at"),
        (IssueOrderBy::Priority, "priority"),
        (IssueOrderBy::DueDate, "due_date"),
        (IssueOrderBy::RelativePosition, "relative_position"),
        (IssueOrderBy::LabelPriority, "label_priority"),
        (IssueOrderBy::MilestoneDue, "milestone_due"),
        (IssueOrderBy::Popularity, "popularity"),
        (IssueOrderBy::WeightFields, "weight_fields"),
    ];

    for (i, s) in items {
        assert_eq!(i.as_str(), *s);
    }
}

#[test]
fn issues_project_is_needed() {
    let err = Issues::builder().build().unwrap_err();
    assert_eq!(err, "`project` must be initialized");
}

#[test]
fn issues_project_is_sufficient() {
    Issues::builder().project(1.into()).build().unwrap();
}

#[test]
fn labels_are_kept_sorted_and_unique() {
    let issues = Issues::builder()
        .project(NameOrId::Id(1))
        .label("zeta")
        .labels(&vec!["alpha".to_string(), "zeta".to_string(), "beta".to_string()])
        .label("alpha")
        .build()
        .unwrap();
    assert_eq!(issues.filters.labels.unwrap().as_str(), "alpha,beta,zeta");
}

#[test]
fn label_after_unlabeled_starts_a_new_set() {
    let issues = Issues::builder()
        .project(NameOrId::Id(1))
        .unlabeled()
        .label("bug")
        .build()
        .unwrap();
    assert_eq!(issues.filters.labels.unwrap().as_str(), "bug");
}

#[test]
fn assignee_params() {
    let mut params = Vec::new();
    Assignee::Id(42).add_params(&mut params);
    Assignee::Assigned.add_params(&mut params);
    Assignee::Unassigned.add_params(&mut params);
    let mut names = StrSet::new();
    names.insert("bob".into());
    names.insert("alice".into());
    Assignee::Usernames(names).add_params(&mut params);
    let expected = [
        ("assignee_id", "42"),
        ("assignee_id", "Any"),
        ("assignee_id", "None"),
        ("assignee_username[]", "alice"),
        ("assignee_username[]", "bob"),
    ];
    assert_eq!(params.len(), expected.len());
    for ((k, v), (ek, ev)) in params.iter().zip(expected.iter()) {
        assert_eq!(k, ek);
        assert_eq!(v, ev);
    }
}

#[test]
fn issues_endpoint_and_iids() {
    let issues = Issues::builder()
        .project("group/project".into())
        .iid(3)
        .iids(&vec![1, 3, 2])
        .build()
        .unwrap();
    assert_eq!(issues.endpoint(), "projects/group%2Fproject/issues");
    assert_eq!(issues.filters.iids.to_vec(), vec![1, 2, 3]);
}

fn pairs(v: &[(&str, &str)]) -> Vec<(String, String)> {
    v.iter().map(|(k, v)| (k.to_string(), v.to_string())).collect()
}

#[test]
fn issues_parameters_in_order() {
    let issues = Issues::builder()
        .project(NameOrId::Id(1))
        .iids(&vec![5, 2])
        .state(IssueState::Opened)
        .label("b")
        .label("a")
        .with_labels_details(true)
        .milestone("v1")
        .scope(IssueScope::All)
        .my_reaction("tada")
        .weight(IssueWeight::Weight(3))
        .search("crash".to_string())
        .confidential(false)
        .order_by(IssueOrderBy::DueDate)
        .sort(gitlab::common::SortOrder::Ascending)
        .author(NameOrId::Name("alice".to_string()))
        .assignee_id(9)
        .build()
        .unwrap();
    assert_eq!(
        issues.parameters(),
        pairs(&[
            ("iids[]", "2"),
            ("iids[]", "5"),
            ("state", "opened"),
            ("labels", "a,b"),
            ("with_labels_details", "true"),
            ("milestone", "v1"),
            ("scope", "all"),
            ("my_reaction_emoji", "tada"),
            ("weight", "3"),
            ("search", "crash"),
            ("confidential", "false"),
            ("order_by", "due_date"),
            ("sort", "asc"),
            ("author_username", "alice"),
            ("assignee_id", "9"),
        ]),
    );
    let bare = Issues::builder().project(NameOrId::Id(1)).author(NameOrId::Id(4)).build().unwrap();
    assert_eq!(bare.parameters(), pairs(&[("author_id", "4")]));
}
