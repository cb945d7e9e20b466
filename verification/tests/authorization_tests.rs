use wiab_app::authorization_service::{
    acting_role, authorizing_role, is_owner, org_role, Role, RoleAssignment, Scope, TokenScope,
};

fn grant(number: u64, user: u64, scope: Scope, role: Role) -> RoleAssignment {
    RoleAssignment { number, user, scope, role }
}

#[test]
fn the_highest_org_scoped_grant_counts() {
    let grants = vec![
        grant(1, 1, Scope::Org(1), Role::Write),
        grant(2, 1, Scope::Org(1), Role::Admin),
        grant(3, 1, Scope::Org(2), Role::Owner),
        grant(4, 1, Scope::Project(1), Role::Owner),
        grant(5, 2, Scope::Org(1), Role::Owner),
    ];
    assert_eq!(org_role(&grants, 1, 1), Some(Role::Admin));
    assert_eq!(org_role(&grants, 1, 3), None);
    assert_eq!(org_role(&grants, 3, 1), None);
}

#[test]
fn owning_anything_makes_an_owner() {
    let grants = vec![
        grant(1, 1, Scope::Repo(4), Role::Owner),
        grant(2, 2, Scope::Org(1), Role::Admin),
    ];
    assert!(is_owner(&grants, 1));
    assert!(!is_owner(&grants, 2));
    assert!(!is_owner(&Vec::new(), 1));
}

#[test]
fn ssh_acts_with_the_full_role() {
    assert_eq!(acting_role(Some(Role::Admin), None, 1, 7), Some(Role::Admin));
    assert_eq!(acting_role(None, None, 1, 7), None);
}

#[test]
fn a_read_only_token_caps_at_read() {
    let token = TokenScope { read_only: true, repos: None, orgs: None };
    assert_eq!(acting_role(Some(Role::Owner), Some(&token), 1, 7), Some(Role::Read));
}

#[test]
fn a_token_restricted_elsewhere_grants_nothing() {
    let repos = TokenScope { read_only: false, repos: Some(vec![8]), orgs: None };
    assert_eq!(acting_role(Some(Role::Write), Some(&repos), 1, 7), None);
    let orgs = TokenScope { read_only: false, repos: None, orgs: Some(vec![2]) };
    assert_eq!(acting_role(Some(Role::Write), Some(&orgs), 1, 7), None);
    let both = TokenScope { read_only: false, repos: Some(vec![7]), orgs: Some(vec![1]) };
    assert_eq!(acting_role(Some(Role::Write), Some(&both), 1, 7), Some(Role::Write));
}

/// The operation is allowed from Write up, as a push would be.
fn allows_push(role: Role) -> bool {
    !matches!(role, Role::Read)
}

#[test]
fn a_missing_repo_chain_or_role_is_never_authorized() {
    assert_eq!(authorizing_role(None, Some(Role::Owner), None, 5), None);
    assert_eq!(authorizing_role(Some(1), None, None, 5), None);
}

#[test]
fn without_a_token_the_effective_role_decides() {
    let role = authorizing_role(Some(1), Some(Role::Write), None, 5);
    assert_eq!(role, Some(Role::Write));
    assert!(role.is_some_and(allows_push));
}

#[test]
fn a_token_can_only_narrow_what_a_request_may_do() {
    let read_only = TokenScope { read_only: true, repos: None, orgs: None };
    let role = authorizing_role(Some(1), Some(Role::Admin), Some(&read_only), 5);
    assert_eq!(role, Some(Role::Read));
    assert!(!role.is_some_and(allows_push));

    let elsewhere = TokenScope { read_only: false, repos: Some(vec![6]), orgs: None };
    assert_eq!(authorizing_role(Some(1), Some(Role::Admin), Some(&elsewhere), 5), None);
    let other_org = TokenScope { read_only: false, repos: None, orgs: Some(vec![2]) };
    assert_eq!(authorizing_role(Some(1), Some(Role::Admin), Some(&other_org), 5), None);
    let here = TokenScope { read_only: false, repos: Some(vec![5]), orgs: Some(vec![1]) };
    assert_eq!(authorizing_role(Some(1), Some(Role::Admin), Some(&here), 5), Some(Role::Admin));
}
