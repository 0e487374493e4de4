use actix_casbin::{BrokerError, CasbinActor, CasbinCmd, CasbinResult};

const RBAC_MODEL: &str = "\
[request_definition]\n\
r = sub, obj, act\n\
[policy_definition]\n\
p = sub, obj, act\n\
[role_definition]\n\
g = _, _\n\
[policy_effect]\n\
e = some(where (p.eft == allow))\n\
[matchers]\n\
m = g(r.sub, p.sub) && r.obj == p.obj && r.act == p.act\n";

fn row(items: &[&str]) -> Vec<String> {
    items.iter().map(|s| s.to_string()).collect()
}

fn rows(items: &[&[&str]]) -> Vec<Vec<String>> {
    items.iter().map(|r| row(r)).collect()
}

fn expect_bool(r: Result<CasbinResult, BrokerError>) -> bool {
    match r {
        Ok(CasbinResult::Enforce(b)) => b,
        Ok(CasbinResult::AddPolicy(b)) => b,
        Ok(CasbinResult::AddPolicies(b)) => b,
        Ok(CasbinResult::RemovePolicy(b)) => b,
        _ => panic!("unexpected outcome"),
    }
}

fn empty_actor() -> CasbinActor {
    CasbinActor::new(RBAC_MODEL).unwrap()
}

#[test]
fn test_idempotent_mutation_reporting() {
    let mut actor = empty_actor();
    let first = expect_bool(actor.handle(CasbinCmd::AddPolicy(row(&["eve", "data3", "read"]))));
    assert_eq!(true, first);
    let again = expect_bool(actor.handle(CasbinCmd::AddPolicy(row(&["eve", "data3", "read"]))));
    assert_eq!(false, again);
    let absent = expect_bool(actor.handle(CasbinCmd::RemovePolicy(row(&[
        "lucy", "data4", "write",
    ]))));
    assert_eq!(false, absent);
}

#[test]
fn test_read_your_write() {
    let mut actor = empty_actor();
    let before = expect_bool(actor.handle(CasbinCmd::Enforce(row(&["eve", "data3", "read"]))));
    assert_eq!(false, before);
    let added = expect_bool(actor.handle(CasbinCmd::AddPolicy(row(&["eve", "data3", "read"]))));
    assert_eq!(true, added);
    let after = expect_bool(actor.handle(CasbinCmd::Enforce(row(&["eve", "data3", "read"]))));
    assert_eq!(true, after);
}

#[test]
fn test_batch_reporting() {
    let mut actor = empty_actor();
    let batch = rows(&[&["lucy", "data3", "write"], &["jack", "data4", "read"]]);
    let first = expect_bool(actor.handle(CasbinCmd::AddPolicies(batch.clone())));
    assert_eq!(true, first);
    let again = expect_bool(actor.handle(CasbinCmd::AddPolicies(batch.clone())));
    assert_eq!(false, again);
    let partial = expect_bool(actor.handle(CasbinCmd::AddPolicies(rows(&[
        &["new", "data5", "read"],
        &["jack", "data4", "read"],
    ]))));
    assert_eq!(false, partial);

    // nothing is stored on an empty batch or an undefined tag: no change,
    // reported as none
    let empty = expect_bool(actor.handle(CasbinCmd::AddPolicies(Vec::new())));
    assert_eq!(false, empty);
    match actor.handle(CasbinCmd::AddNamedPolicies(
        "p9".to_string(),
        rows(&[&["a", "b", "c"]]),
    )) {
        Ok(CasbinResult::AddNamedPolicies(false)) => {}
        _ => panic!("unexpected outcome"),
    }
    match actor.handle(CasbinCmd::RemoveNamedPolicies(
        "p9".to_string(),
        rows(&[&["a", "b", "c"]]),
    )) {
        Ok(CasbinResult::RemoveNamedPolicies(false)) => {}
        _ => panic!("unexpected outcome"),
    }
    match actor.handle(CasbinCmd::RemovePolicies(Vec::new())) {
        Ok(CasbinResult::RemovePolicies(false)) => {}
        _ => panic!("unexpected outcome"),
    }
}

#[test]
fn test_enforce_unsupported_effect() {
    // the engine accepts this model at construction but its effector would
    // abort on the effect entry: enforcement is a dispatcher fault
    let model = "\
[request_definition]\n\
r = sub, obj, act\n\
[policy_definition]\n\
p = sub, obj, act\n\
[policy_effect]\n\
e = some(where (p.eft == allow)) || extra\n\
[matchers]\n\
m = r.sub == p.sub && r.obj == p.obj && r.act == p.act\n";
    let mut actor = CasbinActor::new(model).unwrap();
    match actor.handle(CasbinCmd::Enforce(row(&["alice", "data1", "read"]))) {
        Err(BrokerError::NotConnected) => {}
        _ => panic!("an unsupported effect entry is a dispatcher fault"),
    }
    match actor.handle(CasbinCmd::Enforce(row(&["alice", "data1", "read"]))) {
        Err(BrokerError::NotConnected) => {}
        _ => panic!("the dispatcher must stay unavailable after a fault"),
    }
}

#[test]
fn test_implicit_permissions_short_row_fault() {
    let mut actor = empty_actor();
    // an empty policy row is storable, but the permission query would read
    // its first field unchecked: the broker refuses instead
    let added = expect_bool(actor.handle(CasbinCmd::AddPolicy(Vec::new())));
    assert_eq!(true, added);
    match actor.handle(CasbinCmd::GetImplicitPermissionsForUser(
        "alice".to_string(),
        None,
    )) {
        Err(BrokerError::NotConnected) => {}
        _ => panic!("a row too short for the subject filter is a dispatcher fault"),
    }
}

#[test]
fn test_post_restart_unavailable() {
    let mut actor = empty_actor();
    let added = expect_bool(actor.handle(CasbinCmd::AddPolicy(row(&["eve", "data3", "read"]))));
    assert_eq!(true, added);

    actor.restarting();
    assert!(actor.get_enforcer().is_none());

    for _ in 0..2 {
        match actor.handle(CasbinCmd::Enforce(row(&["eve", "data3", "read"]))) {
            Err(BrokerError::NotConnected) => {}
            _ => panic!("a restarted dispatcher must be unavailable"),
        }
    }

    let fresh = empty_actor();
    assert!(fresh.get_enforcer().is_some());
}

#[test]
fn test_enforce_no_match() {
    let mut actor = empty_actor();
    assert!(expect_bool(actor.handle(CasbinCmd::AddPolicy(row(&[
        "alice", "data1", "read",
    ])))));
    let denied = expect_bool(actor.handle(CasbinCmd::Enforce(row(&["eve", "data3", "read"]))));
    assert_eq!(false, denied);
}

#[test]
fn test_enforce_malformed_request() {
    let mut actor = empty_actor();
    match actor.handle(CasbinCmd::Enforce(row(&["alice"]))) {
        Err(BrokerError::Engine(_)) => {}
        _ => panic!("a request of the wrong arity must surface the engine's error"),
    }
    let still = expect_bool(actor.handle(CasbinCmd::AddPolicy(row(&["alice", "data1", "read"]))));
    assert_eq!(true, still);
}

#[test]
fn test_initialization_error() {
    match CasbinActor::new("not a model") {
        Err(_) => {}
        Ok(_) => panic!("a malformed model must fail construction"),
    }
}

#[test]
fn test_filtered_scan_fault() {
    let mut actor = empty_actor();
    assert!(expect_bool(actor.handle(CasbinCmd::AddPolicy(row(&[
        "alice", "data1", "read",
    ])))));
    // the pattern would be read past the end of the stored three-field row
    match actor.handle(CasbinCmd::RemoveFilteredNamedPolicy(
        "p".to_string(),
        2,
        row(&["read", "extra"]),
    )) {
        Err(BrokerError::NotConnected) => {}
        _ => panic!("an untestable pattern is a dispatcher fault"),
    }
    match actor.handle(CasbinCmd::Enforce(row(&["alice", "data1", "read"]))) {
        Err(BrokerError::NotConnected) => {}
        _ => panic!("the dispatcher must stay unavailable after a fault"),
    }
}

#[test]
fn test_delete_roles_scan_fault() {
    let mut actor = empty_actor();
    assert!(expect_bool(actor.handle(CasbinCmd::AddPolicy(row(&[
        "alice", "data1", "read",
    ])))));
    match actor.handle(CasbinCmd::AddRoleForUser(
        "bob".to_string(),
        "data2_admin".to_string(),
        None,
    )) {
        Ok(CasbinResult::AddRoleForUser(true)) => {}
        _ => panic!("unexpected outcome"),
    }
    // with a domain the pattern reaches a third field the stored two-field
    // grouping row does not have
    match actor.handle(CasbinCmd::DeleteRolesForUser(
        "bob".to_string(),
        Some("domain1".to_string()),
    )) {
        Err(BrokerError::NotConnected) => {}
        _ => panic!("an untestable pattern is a dispatcher fault"),
    }
}

#[test]
fn test_named_policy_commands() {
    let mut actor = empty_actor();
    match actor.handle(CasbinCmd::AddNamedPolicy(
        "p".to_string(),
        row(&["carol", "data9", "read"]),
    )) {
        Ok(CasbinResult::AddNamedPolicy(true)) => {}
        _ => panic!("unexpected outcome"),
    }
    match actor.handle(CasbinCmd::RemoveNamedPolicy(
        "p".to_string(),
        row(&["carol", "data9", "read"]),
    )) {
        Ok(CasbinResult::RemoveNamedPolicy(true)) => {}
        _ => panic!("unexpected outcome"),
    }
    // a tag the model does not define stores nothing and reports no change
    match actor.handle(CasbinCmd::AddNamedPolicy(
        "p2".to_string(),
        row(&["carol", "data9", "read"]),
    )) {
        Ok(CasbinResult::AddNamedPolicy(false)) => {}
        _ => panic!("unexpected outcome"),
    }
}

#[test]
fn test_grouping_policy_commands() {
    let mut actor = empty_actor();
    match actor.handle(CasbinCmd::AddNamedGroupingPolicy(
        "g".to_string(),
        row(&["carol", "group1"]),
    )) {
        Ok(CasbinResult::AddNamedGroupingPolicy(true)) => {}
        _ => panic!("unexpected outcome"),
    }
    match actor.handle(CasbinCmd::RemoveGroupingPolicy(row(&["carol", "group1"]))) {
        Ok(CasbinResult::RemoveGroupingPolicy(true)) => {}
        _ => panic!("unexpected outcome"),
    }
    match actor.handle(CasbinCmd::AddGroupingPolicies(rows(&[
        &["carol", "group1"],
        &["dave", "group1"],
    ]))) {
        Ok(CasbinResult::AddGroupingPolicies(true)) => {}
        _ => panic!("unexpected outcome"),
    }
    match actor.handle(CasbinCmd::RemoveGroupingPolicies(rows(&[
        &["carol", "group1"],
        &["dave", "group1"],
    ]))) {
        Ok(CasbinResult::RemoveGroupingPolicies(true)) => {}
        _ => panic!("unexpected outcome"),
    }
    match actor.handle(CasbinCmd::RemoveFilteredNamedGroupingPolicy(
        "g".to_string(),
        0,
        row(&["nobody"]),
    )) {
        Ok(CasbinResult::RemoveFilteredNamedGroupingPolicy(false)) => {}
        _ => panic!("unexpected outcome"),
    }
}
