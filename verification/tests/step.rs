use crazy_train::step::{Kind, Plan};
use std::collections::HashMap;

#[test]
fn plan_without_context() {
    let plan = Plan::new("steps::Echo", "echo hello");
    assert_eq!(plan.id, "steps::Echo");
    assert_eq!(plan.command, "echo hello");
    assert!(plan.ctx.is_none());
}

#[test]
fn plan_with_context() {
    let ctx = HashMap::from([("foo".to_string(), "bar".to_string())]);
    let plan = Plan::with_ctx("steps::Echo", "echo hello", ctx.clone());
    assert_eq!(plan.id, "steps::Echo");
    assert_eq!(plan.command, "echo hello");
    assert_eq!(plan.ctx, Some(ctx));
}

#[test]
fn plan_can_be_cloned() {
    let ctx = HashMap::from([("foo".to_string(), "bar".to_string())]);
    let plan = Plan::with_ctx("id", "true", ctx);
    let copy = plan.clone();
    assert_eq!(copy.id, plan.id);
    assert_eq!(copy.command, plan.command);
    assert_eq!(copy.ctx, plan.ctx);
}

#[test]
fn kinds_are_told_apart() {
    assert_eq!(Kind::Check, Kind::Check);
    assert_ne!(Kind::Check, Kind::Test);
    assert_ne!(Kind::Setup, Kind::Plan);
    assert_eq!(format!("{:?}", Kind::Setup), "Setup");
}
