use actix_casbin::{BrokerError, CasbinActor, CasbinCmd, CasbinResult};

const RBAC_MODEL: &str = "\
[request_definition]\n\
r = sub, obj, act\n\
[policy_definition]\n\
p = sub, obj, act\n\
[role_definition]\n\
g = _, _\n\
[policy_effect]\n\
e = some(where (p.eft == allow))\n\
[matchers]\n\
m = g(r.sub, p.sub) && r.obj == p.obj && r.act == p.act\n";

fn row(items: &[&str]) -> Vec<String> {
    items.iter().map(|s| s.to_string()).collect()
}

fn expect_bool(r: Result<CasbinResult, BrokerError>) -> bool {
    match r {
        Ok(CasbinResult::Enforce(b)) => b,
        Ok(CasbinResult::AddPolicy(b)) => b,
        Ok(CasbinResult::AddGroupingPolicy(b)) => b,
        _ => panic!("unexpected outcome"),
    }
}

#[test]
fn test_set_enforcer() {
    let model = futures::executor::block_on(casbin::DefaultModel::from_str(RBAC_MODEL)).unwrap();
    let enforcer: casbin::Enforcer = futures::executor::block_on(
        <casbin::Enforcer as casbin::CoreApi>::new(model, casbin::MemoryAdapter::default()),
    )
    .unwrap();

    let mut actor = CasbinActor::set_enforcer(enforcer).unwrap();
    assert!(expect_bool(
        actor.handle(CasbinCmd::AddPolicy(row(&["alice", "data1", "read"])))
    ));
    assert!(expect_bool(actor.handle(CasbinCmd::AddGroupingPolicy(row(
        &["alice", "data2_admin"]
    )))));

    let allowed = expect_bool(actor.handle(CasbinCmd::Enforce(row(&["alice", "data1", "read"]))));
    assert_eq!(true, allowed);
}
