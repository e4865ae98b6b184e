use clawrs_feishu::guard::SecurityGuard;
use clawrs_feishu::policy::{DmPolicy, GroupPolicy};

#[test]
fn empty_allowlist_denies_everyone() {
    let guard = SecurityGuard::new(vec![]);
    assert!(!guard.is_user_allowed("ou_abc"));
    assert!(!guard.is_dm_allowed("ou_abc"));
}

#[test]
fn wildcard_allows_everyone() {
    let guard = SecurityGuard::new(vec!["*".into()]);
    assert!(guard.is_user_allowed("ou_abc"));
    assert!(guard.is_dm_allowed("anyone"));
}

#[test]
fn specific_allowlist() {
    let guard = SecurityGuard::new(vec!["ou_abc".into(), "ou_def".into()]);
    assert!(guard.is_dm_allowed("ou_abc"));
    assert!(guard.is_dm_allowed("ou_def"));
    assert!(!guard.is_dm_allowed("ou_xyz"));
}

#[test]
fn exact_match_not_substring() {
    let guard = SecurityGuard::new(vec!["ou_abc".into()]);
    assert!(!guard.is_dm_allowed("ou_abcdef"));
    assert!(!guard.is_dm_allowed("ou_ab"));
}

#[test]
fn empty_user_denied() {
    let guard = SecurityGuard::new(vec!["ou_abc".into()]);
    assert!(!guard.is_dm_allowed(""));
}

#[test]
fn any_identity_allowed() {
    let guard = SecurityGuard::new(vec!["ou_abc".into()]);
    assert!(guard.is_any_allowed(&["unknown", "ou_abc"]));
    assert!(!guard.is_any_allowed(&["unknown", "ou_xyz"]));
}

#[test]
fn dm_policy_deny() {
    let guard = SecurityGuard::with_policies(
        vec!["ou_abc".into()],
        Some(DmPolicy::Deny),
        vec![],
        None,
    );
    assert!(!guard.is_dm_allowed("ou_abc"));
}

#[test]
fn dm_policy_open() {
    let guard = SecurityGuard::with_policies(vec![], Some(DmPolicy::Open), vec![], None);
    assert!(guard.is_dm_allowed("ou_anyone"));
}

#[test]
fn group_policy_open() {
    let guard = SecurityGuard::with_policies(
        vec![],
        Some(DmPolicy::Deny),
        vec![],
        Some(GroupPolicy::Open),
    );
    assert!(guard.is_group_allowed("ou_anyone"));
}

#[test]
fn group_policy_allowlist() {
    let guard = SecurityGuard::with_policies(
        vec![],
        Some(DmPolicy::Deny),
        vec!["ou_grp1".into()],
        Some(GroupPolicy::Allowlist),
    );
    assert!(guard.is_group_allowed("ou_grp1"));
    assert!(!guard.is_group_allowed("ou_grp2"));
}

#[test]
fn default_policies() {
    assert_eq!(DmPolicy::default(), DmPolicy::Pairing);
    assert_eq!(GroupPolicy::default(), GroupPolicy::Allowlist);
}

#[test]
fn dm_policy_from_allowlist() {
    assert_eq!(DmPolicy::from_allowlist(&[]), DmPolicy::Deny);
    assert_eq!(DmPolicy::from_allowlist(&["*".into()]), DmPolicy::Open);
    assert_eq!(DmPolicy::from_allowlist(&["ou_abc".into()]), DmPolicy::Pairing);
}

#[test]
fn wildcard_admits_every_identity_for_groups_too() {
    let guard = SecurityGuard::with_policies(
        vec!["ou_a".into(), "*".into()],
        Some(DmPolicy::Pairing),
        vec!["*".into()],
        Some(GroupPolicy::Allowlist),
    );
    for identity in ["ou_a", "ou_b", "*", " ", "\u{4f60}"] {
        assert!(guard.is_dm_allowed(identity), "{identity}");
        assert!(guard.is_group_allowed(identity), "{identity}");
    }
}

#[test]
fn deny_rejects_everyone_even_with_a_wildcard() {
    let guard = SecurityGuard::with_policies(
        vec!["*".into(), "ou_a".into()],
        Some(DmPolicy::Deny),
        vec!["*".into(), "ou_a".into()],
        Some(GroupPolicy::Deny),
    );
    for identity in ["ou_a", "ou_b", "*", ""] {
        assert!(!guard.is_dm_allowed(identity), "{identity}");
        assert!(!guard.is_group_allowed(identity), "{identity}");
        assert!(!guard.is_user_allowed(identity), "{identity}");
    }
    assert!(!guard.is_any_allowed(&["ou_a", "*"]));
}

#[test]
fn empty_identity_is_rejected_under_every_policy() {
    for dm in [DmPolicy::Pairing, DmPolicy::Open, DmPolicy::Deny] {
        for group in [GroupPolicy::Allowlist, GroupPolicy::Open, GroupPolicy::Deny] {
            let guard = SecurityGuard::with_policies(
                vec!["*".into(), "".into()],
                Some(dm),
                vec!["*".into(), "".into()],
                Some(group),
            );
            assert!(!guard.is_dm_allowed(""));
            assert!(!guard.is_group_allowed(""));
            assert!(!guard.is_any_allowed(&["", ""]));
        }
    }
    assert!(!SecurityGuard::new(vec![]).is_any_allowed(&[]));
}

#[test]
fn guard_clone_decides_alike() {
    let guard = SecurityGuard::with_policies(
        vec!["ou_a".into()],
        None,
        vec!["ou_g".into()],
        Some(GroupPolicy::Allowlist),
    );
    let copy = guard.clone();
    assert!(copy.is_dm_allowed("ou_a"));
    assert!(!copy.is_dm_allowed("ou_g"));
    assert!(copy.is_group_allowed("ou_g"));
    assert!(!copy.is_group_allowed("ou_a"));
}

#[test]
fn missing_policies_are_derived() {
    let open = SecurityGuard::with_policies(vec!["*".into()], None, vec![], None);
    assert!(open.is_dm_allowed("anyone"));
    assert!(open.is_group_allowed("anyone"));
    let closed = SecurityGuard::with_policies(vec![], None, vec!["ou_g".into()], None);
    assert!(!closed.is_dm_allowed("anyone"));
    assert!(closed.is_group_allowed("anyone"));
}

#[test]
fn policy_decisions() {
    let list = vec!["ou_a".to_string()];
    assert!(DmPolicy::Pairing.permits(&list, "ou_a"));
    assert!(!DmPolicy::Pairing.permits(&list, "ou_b"));
    assert!(!DmPolicy::Pairing.permits(&vec![], "ou_a"));
    assert!(DmPolicy::Open.permits(&vec![], "ou_b"));
    assert!(!DmPolicy::Open.permits(&list, ""));
    assert!(!DmPolicy::Deny.permits(&list, "ou_a"));
    assert!(GroupPolicy::Allowlist.permits(&list, "ou_a"));
    assert!(!GroupPolicy::Allowlist.permits(&list, "ou_A"));
    assert!(GroupPolicy::Open.permits(&vec![], "ou_b"));
    assert!(!GroupPolicy::Deny.permits(&vec!["*".to_string()], "ou_a"));
}
