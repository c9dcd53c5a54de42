use sliced::engine::apply;
use sliced::error::{next_step, BusErrorKind, PolicyError, RetryStep};
use sliced::policy::Policy;
use sliced::props::Property;
use sliced::registry::{Assignee, Registry};
use sliced::Protection;

fn cpu_policy(w: u16) -> Policy {
    let mut p = Policy::empty(String::from("cpu"));
    p.cpu_weight = Some(w);
    p
}

#[test]
fn apply_builds_one_atomic_call() {
    let call = apply("user-1000.slice", &cpu_policy(250), true).unwrap();
    assert_eq!(call.target, "user-1000.slice");
    assert!(call.runtime);
    assert_eq!(call.properties, vec![Property::CpuWeight(250)]);
}

#[test]
fn apply_rejects_locally_before_any_call() {
    let r = apply("user-1000.slice", &cpu_policy(0), true);
    assert_eq!(r.unwrap_err(), PolicyError::CpuWeightOutOfRange);
}

#[test]
fn retry_steps_by_error_kind() {
    assert_eq!(next_step(BusErrorKind::Connection), RetryStep::Retry);
    assert_eq!(next_step(BusErrorKind::Timeout), RetryStep::Reconcile);
    assert_eq!(next_step(BusErrorKind::NoSuchUnit), RetryStep::Fail);
    assert_eq!(next_step(BusErrorKind::PropertyRejected), RetryStep::Fail);
    assert_eq!(next_step(BusErrorKind::PermissionDenied), RetryStep::Fail);
    assert_eq!(next_step(BusErrorKind::MalformedReply), RetryStep::Fail);
}

#[test]
fn assign_records_user_under_its_slice() {
    let mut reg = Registry::new();
    let uid = Assignee::User(1000);
    let plan = reg.assign_policy(&uid, &cpu_policy(100), true).unwrap();
    assert_eq!(plan.slice, "user-1000.slice");
    assert_eq!(plan.apply_call.target, "user-1000.slice");
    assert!(plan.apply_call.runtime);
    assert_eq!(plan.apply_call.properties, vec![Property::CpuWeight(100)]);
    assert_eq!(plan.reparent_call.target, "user@1000.service");
    assert_eq!(
        plan.reparent_call.properties,
        vec![Property::Slice(String::from("user-1000.slice"))]
    );
    assert_eq!(reg.query_slice(&uid), Some(String::from("user-1000.slice")));
    assert_eq!(reg.len(), 1);
}

#[test]
fn reassign_leaves_exactly_one_assignment() {
    let mut reg = Registry::new();
    let uid = Assignee::User(1000);
    reg.assign_policy(&uid, &cpu_policy(100), true).unwrap();
    let plan_b = reg.assign_policy(&uid, &cpu_policy(900), true).unwrap();
    assert_eq!(reg.len(), 1);
    assert_eq!(reg.query_slice(&uid), Some(plan_b.slice.clone()));
    assert_eq!(plan_b.apply_call.properties, vec![Property::CpuWeight(900)]);
}

#[test]
fn reassign_does_not_touch_other_assignees() {
    let mut reg = Registry::new();
    let alice = Assignee::User(1000);
    let bob = Assignee::User(1001);
    reg.assign_policy(&alice, &cpu_policy(100), true).unwrap();
    reg.assign_policy(&bob, &cpu_policy(200), true).unwrap();
    reg.assign_policy(&alice, &cpu_policy(300), true).unwrap();
    assert_eq!(reg.len(), 2);
    assert_eq!(
        reg.query_slice(&bob),
        Some(String::from("user-1001.slice"))
    );
}

#[test]
fn rejected_policy_changes_nothing() {
    let mut reg = Registry::new();
    let uid = Assignee::User(7);
    let r = reg.assign_policy(&uid, &cpu_policy(10001), false);
    assert_eq!(r.unwrap_err(), PolicyError::CpuWeightOutOfRange);
    assert_eq!(reg.len(), 0);
    assert_eq!(reg.query_slice(&uid), None);
}

#[test]
fn unassign_reparents_to_default_slice() {
    let mut reg = Registry::new();
    let uid = Assignee::User(1000);
    reg.assign_policy(&uid, &cpu_policy(100), true).unwrap();
    let plan = reg.unassign(&uid, true).unwrap();
    assert_eq!(plan.reparent_call.target, "user@1000.service");
    assert_eq!(
        plan.reparent_call.properties,
        vec![Property::Slice(String::from("user.slice"))]
    );
    assert_eq!(reg.query_slice(&uid), None);
    assert_eq!(reg.len(), 0);
    assert!(reg.unassign(&uid, true).is_none());
}

#[test]
fn service_assignee_naming() {
    let mut reg = Registry::new();
    let svc = Assignee::Service(String::from("httpd"));
    let plan = reg.assign_policy(&svc, &cpu_policy(50), false).unwrap();
    assert_eq!(plan.slice, "service-httpd.slice");
    assert!(!plan.apply_call.runtime);
    assert_eq!(plan.reparent_call.target, "httpd.service");
    let off = reg.unassign(&svc, false).unwrap();
    assert_eq!(
        off.reparent_call.properties,
        vec![Property::Slice(String::from("system.slice"))]
    );
}

#[test]
fn query_without_assignment_is_none() {
    let reg = Registry::new();
    assert_eq!(reg.query_slice(&Assignee::User(42)), None);
}

#[test]
fn protection_record_carries_uid_and_name() {
    let p = Protection {
        uid: 1000,
        username: String::from("me"),
    };
    assert_eq!(p.uid, 1000);
    assert_eq!(p.username, "me");
}
