use actix_casbin::{BrokerError, CasbinActor, CasbinCmd, CasbinResult};
use std::sync::{Arc, Mutex};

const RBAC_MODEL: &str = "\
[request_definition]\n\
r = sub, obj, act\n\
[policy_definition]\n\
p = sub, obj, act\n\
[role_definition]\n\
g = _, _\n\
[policy_effect]\n\
e = some(where (p.eft == allow))\n\
[matchers]\n\
m = g(r.sub, p.sub) && r.obj == p.obj && r.act == p.act\n";

fn row(items: &[&str]) -> Vec<String> {
    items.iter().map(|s| s.to_string()).collect()
}

fn rows(items: &[&[&str]]) -> Vec<Vec<String>> {
    items.iter().map(|r| row(r)).collect()
}

fn expect_bool(r: Result<CasbinResult, BrokerError>) -> bool {
    match r {
        Ok(CasbinResult::Enforce(b)) => b,
        Ok(CasbinResult::AddPolicy(b)) => b,
        Ok(CasbinResult::AddPolicies(b)) => b,
        Ok(CasbinResult::AddGroupingPolicy(b)) => b,
        Ok(CasbinResult::RemovePolicy(b)) => b,
        Ok(CasbinResult::RemovePolicies(b)) => b,
        Ok(CasbinResult::RemoveFilteredNamedPolicy(b)) => b,
        Ok(CasbinResult::AddRoleForUser(b)) => b,
        Ok(CasbinResult::AddRolesForUser(b)) => b,
        Ok(CasbinResult::DeleteRoleForUser(b)) => b,
        Ok(CasbinResult::DeleteRolesForUser(b)) => b,
        other => panic!("unexpected outcome: {:?}", other.is_ok()),
    }
}

fn setup(policies: &[&[&str]], groupings: &[&[&str]]) -> CasbinActor {
    let mut actor = CasbinActor::new(RBAC_MODEL).unwrap();
    if !policies.is_empty() {
        assert!(expect_bool(actor.handle(CasbinCmd::AddPolicies(rows(policies)))));
    }
    for g in groupings {
        assert!(expect_bool(actor.handle(CasbinCmd::AddGroupingPolicy(row(g)))));
    }
    actor
}

fn base_actor() -> CasbinActor {
    setup(
        &[
            &["alice", "data1", "read"],
            &["bob", "data2", "write"],
            &["data2_admin", "data2", "read"],
            &["data2_admin", "data2", "write"],
        ],
        &[&["alice", "data2_admin"]],
    )
}

fn hierarchy_actor() -> CasbinActor {
    setup(
        &[
            &["alice", "data1", "read"],
            &["bob", "data2", "write"],
            &["data1_admin", "data1", "read"],
            &["data1_admin", "data1", "write"],
            &["data2_admin", "data2", "read"],
            &["data2_admin", "data2", "write"],
        ],
        &[
            &["alice", "admin"],
            &["admin", "data1_admin"],
            &["admin", "data2_admin"],
        ],
    )
}

#[test]
fn test_enforcer() {
    let mut actor = base_actor();
    let allowed = expect_bool(actor.handle(CasbinCmd::Enforce(row(&["alice", "data1", "read"]))));
    assert_eq!(true, allowed);
}

#[test]
fn test_enforcer_threads() {
    let actor = base_actor();
    let shared = Arc::new(Mutex::new(actor));
    let rt = tokio::runtime::Runtime::new().unwrap();
    let mut handles = Vec::new();
    for _ in 0..8 {
        let cloned = Arc::clone(&shared);
        handles.push(rt.spawn(futures::future::lazy(move |_| {
            let mut actor = cloned.lock().unwrap();
            let allowed =
                expect_bool(actor.handle(CasbinCmd::Enforce(row(&["alice", "data1", "read"]))));
            assert_eq!(true, allowed);
        })));
    }
    for h in handles {
        rt.block_on(h).unwrap();
    }
}

#[test]
fn test_policy_command() {
    let mut actor = base_actor();

    let removed = expect_bool(actor.handle(CasbinCmd::RemovePolicy(row(&[
        "alice", "data1", "read",
    ]))));
    assert_eq!(true, removed);

    let filtered = expect_bool(actor.handle(CasbinCmd::RemoveFilteredNamedPolicy(
        "p".to_string(),
        1,
        row(&["data2"]),
    )));
    assert_eq!(true, filtered);

    let added = expect_bool(actor.handle(CasbinCmd::AddPolicy(row(&["eve", "data3", "read"]))));
    assert_eq!(true, added);

    let added_batch = expect_bool(actor.handle(CasbinCmd::AddPolicies(rows(&[
        &["lucy", "data3", "write"],
        &["jack", "data4", "read"],
    ]))));
    assert_eq!(true, added_batch);

    let removed_batch = expect_bool(actor.handle(CasbinCmd::RemovePolicies(rows(&[
        &["lucy", "data3", "write"],
        &["jack", "data4", "read"],
    ]))));
    assert_eq!(true, removed_batch);
}

#[test]
fn test_roles_command() {
    let mut actor = base_actor();

    let added = expect_bool(actor.handle(CasbinCmd::AddRoleForUser(
        "alice".to_string(),
        "data1_admin".to_string(),
        None,
    )));
    assert_eq!(true, added);

    let added_many = expect_bool(actor.handle(CasbinCmd::AddRolesForUser(
        "bob".to_string(),
        row(&["data1_admin", "data2_admin"]),
        None,
    )));
    assert_eq!(true, added_many);

    let deleted = expect_bool(actor.handle(CasbinCmd::DeleteRoleForUser(
        "alice".to_string(),
        "data1_admin".to_string(),
        None,
    )));
    assert_eq!(true, deleted);

    let deleted_all = expect_bool(actor.handle(CasbinCmd::DeleteRolesForUser(
        "bob".to_string(),
        None,
    )));
    assert_eq!(true, deleted_all);
}

#[test]
fn test_implicit_roles_command() {
    let mut actor = hierarchy_actor();

    let mut roles = match actor.handle(CasbinCmd::GetImplicitRolesForUser(
        "alice".to_string(),
        None,
    )) {
        Ok(CasbinResult::GetImplicitRolesForUser(r)) => r,
        _ => panic!("unexpected outcome"),
    };
    roles.sort_unstable();
    assert_eq!(vec!["admin", "data1_admin", "data2_admin"], roles);

    let none = match actor.handle(CasbinCmd::GetImplicitRolesForUser("bob".to_string(), None)) {
        Ok(CasbinResult::GetImplicitRolesForUser(r)) => r,
        _ => panic!("unexpected outcome"),
    };
    assert_eq!(vec![String::new(); 0], none);
}

#[test]
fn test_implicit_permissions_command() {
    let mut actor = hierarchy_actor();

    let mut perms = match actor.handle(CasbinCmd::GetImplicitPermissionsForUser(
        "alice".to_string(),
        None,
    )) {
        Ok(CasbinResult::GetImplicitPermissionsForUser(p)) => p,
        _ => panic!("unexpected outcome"),
    };
    perms.sort_unstable();
    assert_eq!(
        rows(&[
            &["alice", "data1", "read"],
            &["data1_admin", "data1", "read"],
            &["data1_admin", "data1", "write"],
            &["data2_admin", "data2", "read"],
            &["data2_admin", "data2", "write"],
        ]),
        perms
    );

    let bob = match actor.handle(CasbinCmd::GetImplicitPermissionsForUser(
        "bob".to_string(),
        None,
    )) {
        Ok(CasbinResult::GetImplicitPermissionsForUser(p)) => p,
        _ => panic!("unexpected outcome"),
    };
    assert_eq!(rows(&[&["bob", "data2", "write"]]), bob);
}
