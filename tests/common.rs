use std::cmp;

use gitlab::common::{
    AccessLevel, EnableState, NameOrId, ProtectedAccessLevel, SortOrder, VisibilityLevel, YesNo,
};
use gitlab::common::path_escaped;

#[test]
fn access_level_as_str() {
    let items = &[
        (AccessLevel::Anonymous, "anonymous", 0),
        (AccessLevel::Minimal, "minimal", 5),
        (AccessLevel::Guest, "guest", 10),
        (AccessLevel::Reporter, "reporter", 20),
        (AccessLevel::Developer, "developer", 30),
        (AccessLevel::Maintainer, "maintainer", 40),
        (AccessLevel::Owner, "owner", 50),
        (AccessLevel::Admin, "admin", 60),
    ];

    for (i, s, u) in items {
        assert_eq!(i.as_str(), *s);
        assert_eq!(i.as_u64(), *u);
    }
}

#[test]
fn access_level_ordering() {
    let items = &[
        AccessLevel::Anonymous,
        AccessLevel::Guest,
        AccessLevel::Reporter,
        AccessLevel::Developer,
        AccessLevel::Maintainer,
        AccessLevel::Owner,
        AccessLevel::Admin,
    ];

    let mut last = None;
    for item in items {
        if let Some(prev) = last {
            assert!(prev < item);
        }
        last = Some(item);
    }
}

#[test]
fn sort_order_default() {
    assert_eq!(SortOrder::default(), SortOrder::Descending);
}

#[test]
fn sort_order_as_str() {
    let items = &[
        (SortOrder::Ascending, "asc"),
        (SortOrder::Descending, "desc"),
    ];

    for (i, s) in items {
        assert_eq!(i.as_str(), *s);
    }
}

#[test]
fn enable_state_as_str() {
    let items = &[
        (EnableState::Enabled, "enabled"),
        (EnableState::Disabled, "disabled"),
    ];

    for (i, s) in items {
        assert_eq!(i.as_str(), *s);
    }
}

#[test]
fn enable_state_from_bool() {
    let items = &[(EnableState::Enabled, true), (EnableState::Disabled, false)];

    for (i, s) in items {
        assert_eq!(*i, (*s).into());
    }
}

#[test]
fn name_or_id_as_str() {
    let items: &[(NameOrId, _)] = &[
        ("user".into(), "user"),
        ("special/name".into(), "special%2Fname"),
        (
            "special/name?string".to_string().into(),
            "special%2Fname%3Fstring",
        ),
        (1.into(), "1"),
    ];

    for (i, s) in items {
        assert_eq!(i.to_string(), *s);
    }
}

#[test]
fn visibility_level_as_str() {
    let items = &[
        (VisibilityLevel::Public, "public"),
        (VisibilityLevel::Internal, "internal"),
        (VisibilityLevel::Private, "private"),
    ];

    for (i, s) in items {
        assert_eq!(i.as_str(), *s);
    }
}

#[test]
fn yes_no_as_str() {
    let items = &[(YesNo::Yes, "yes"), (YesNo::No, "no")];

    for (i, s) in items {
        assert_eq!(i.as_str(), *s);
    }
}

#[test]
fn yes_no_from_bool() {
    let items = &[(YesNo::Yes, true), (YesNo::No, false)];

    for (i, s) in items {
        assert_eq!(*i, (*s).into());
    }
}

#[test]
fn common_protected_access_level_default() {
    assert_eq!(
        ProtectedAccessLevel::default(),
        ProtectedAccessLevel::Maintainer,
    );
}

#[test]
fn protected_access_level_ord() {
    let items = &[
        ProtectedAccessLevel::Developer,
        ProtectedAccessLevel::Maintainer,
        ProtectedAccessLevel::Admin,
        ProtectedAccessLevel::NoAccess,
    ];

    for i in items {
        assert_eq!(*i, *i);
        assert_eq!(i.cmp(i), cmp::Ordering::Equal);

        let mut expect = cmp::Ordering::Greater;
        for j in items {
            let is_same = i == j;
            if is_same {
                expect = cmp::Ordering::Equal;
            }
            assert_eq!(i.cmp(j), expect);
            if is_same {
                expect = cmp::Ordering::Less;
            }
        }

        let mut expect = cmp::Ordering::Less;
        for j in items.iter().rev() {
            let is_same = i == j;
            if is_same {
                expect = cmp::Ordering::Equal;
            }
            assert_eq!(i.cmp(j), expect);
            if is_same {
                expect = cmp::Ordering::Greater;
            }
        }
    }
}

#[test]
fn common_protected_access_level_as_str() {
    let items = &[
        (ProtectedAccessLevel::Developer, "30"),
        (ProtectedAccessLevel::Maintainer, "40"),
        (ProtectedAccessLevel::Admin, "60"),
        (ProtectedAccessLevel::NoAccess, "0"),
    ];

    for (i, s) in items {
        assert_eq!(i.as_str(), *s);
    }
}

#[test]
fn path_escaped_escapes_the_segment_set() {
    assert_eq!(path_escaped("a b\"#<>`?{}%/c"), "a%20b%22%23%3C%3E%60%3F%7B%7D%25%2Fc");
    assert_eq!(path_escaped("plain-name_1.2~"), "plain-name_1.2~");
    assert_eq!(path_escaped(""), "");
}

#[test]
fn path_escaped_escapes_controls_and_non_ascii() {
    assert_eq!(path_escaped("\t\u{7f}"), "%09%7F");
    assert_eq!(path_escaped("caf\u{e9}"), "caf%C3%A9");
}
