use testsys_controller::finalizer::{MAIN_FINALIZER, POD_FINALIZER};
use testsys_controller::model::{Agent, AgentStatus, Test, TestInterface, TestReport, TestState};
use testsys_controller::provider::{AgentReport, ResourceState, Resources};
use testsys_controller::reconcile::{apply, next_action, phase, Action, Phase};

fn agent() -> Agent {
    Agent {
        name: "agent".to_string(),
        image: "example/agent:1".to_string(),
        pull_secret: None,
        configuration: None,
    }
}

fn new_test(resources: &[&str]) -> TestInterface {
    TestInterface::new(Test {
        name: Some("t1".to_string()),
        uid: Some("uid-1".to_string()),
        agent: agent(),
        resources: resources.iter().map(|r| r.to_string()).collect(),
        finalizers: None,
        deletion_requested: false,
        status: None,
    })
}

/// Sets what the agents have published, as an agent process would.
fn publish(ti: TestInterface, resources: Vec<AgentReport>, test: TestReport) -> TestInterface {
    let mut t = ti.into_test();
    let mut status = t.status.take().unwrap_or(testsys_controller::model::TestStatus {
        controller: None,
        agent: None,
    });
    status.agent = Some(AgentStatus { resources, test });
    t.status = Some(status);
    TestInterface::new(t)
}

fn request_deletion(ti: TestInterface) -> TestInterface {
    let mut t = ti.into_test();
    t.deletion_requested = true;
    TestInterface::new(t)
}

fn finalizers(ti: &TestInterface) -> Vec<String> {
    ti.test().finalizers.clone().unwrap_or_default()
}

/// Runs the controller until it has nothing to do, returning the actions taken.
fn run(ti: &mut TestInterface) -> Vec<Action> {
    let mut actions = Vec::new();
    for _ in 0..100 {
        let a = next_action(ti);
        if a == Action::Requeue || a == Action::Idle {
            break;
        }
        apply(ti, a);
        actions.push(a);
    }
    actions
}

#[test]
fn no_resources_passing_test_runs_to_purge() {
    let mut ti = new_test(&[]);
    assert_eq!(phase(&ti), Phase::Initial);
    assert_eq!(next_action(&ti), Action::AddMainFinalizer);
    apply(&mut ti, Action::AddMainFinalizer);
    assert_eq!(finalizers(&ti), vec![MAIN_FINALIZER.to_string()]);
    assert_eq!(phase(&ti), Phase::TestRunning);
    assert_eq!(next_action(&ti), Action::StartTest);
    apply(&mut ti, Action::StartTest);
    assert!(ti.has_pod_finalizer());
    assert_eq!(next_action(&ti), Action::Requeue);
    let mut ti = publish(ti, vec![], TestReport::Passed);
    assert_eq!(next_action(&ti), Action::RecordTestResult(true));
    apply(&mut ti, Action::RecordTestResult(true));
    assert_eq!(phase(&ti), Phase::Completed);
    assert_eq!(next_action(&ti), Action::Idle);
    assert_eq!(ti.controller_status().test, TestState::Passed);

    let mut ti = request_deletion(ti);
    assert_eq!(phase(&ti), Phase::Deleting);
    let actions = run(&mut ti);
    assert_eq!(actions, vec![Action::RemovePodFinalizer, Action::RemoveMainFinalizer]);
    assert!(!ti.has_finalizers());
    assert!(ti.is_safe_to_delete());
}

#[test]
fn remaining_create_failure_skips_test_and_destroys_once() {
    let mut ti = new_test(&["cluster"]);
    assert_eq!(run(&mut ti), vec![Action::AddMainFinalizer, Action::StartResource(0)]);
    assert_eq!(phase(&ti), Phase::ResourcesPending);
    let mut ti = publish(ti, vec![AgentReport::CreateFailed(Resources::Remaining)], TestReport::Working);
    assert_eq!(run(&mut ti), vec![Action::RecordCreateFailed(0, Resources::Remaining)]);
    assert_eq!(phase(&ti), Phase::Failed);
    assert_eq!(next_action(&ti), Action::Idle);
    assert_eq!(ti.controller_status().test, TestState::NotStarted);

    let mut ti = request_deletion(ti);
    assert_eq!(run(&mut ti), vec![Action::RemovePodFinalizer, Action::StartDestroy(0)]);
    assert_eq!(next_action(&ti), Action::Requeue);
    let mut ti = publish(ti, vec![AgentReport::DestroySucceeded], TestReport::Working);
    assert_eq!(
        run(&mut ti),
        vec![Action::RecordDestroyed(0, true), Action::RemoveMainFinalizer]
    );
    assert_eq!(ti.controller_status().resources, vec![ResourceState::Destroyed]);
    assert!(!ti.has_finalizers());
}

#[test]
fn clear_create_failure_is_never_destroyed() {
    let mut ti = new_test(&["cluster"]);
    run(&mut ti);
    let mut ti = publish(ti, vec![AgentReport::CreateFailed(Resources::Clear)], TestReport::Working);
    assert_eq!(run(&mut ti), vec![Action::RecordCreateFailed(0, Resources::Clear)]);
    let mut ti = request_deletion(ti);
    assert_eq!(
        run(&mut ti),
        vec![Action::RemovePodFinalizer, Action::RemoveMainFinalizer]
    );
}

#[test]
fn dependent_resources_are_destroyed_in_reverse_order() {
    let mut ti = new_test(&["r1", "r2", "r3"]);
    assert_eq!(run(&mut ti), vec![Action::AddMainFinalizer, Action::StartResource(0)]);
    let mut ti = publish(ti, vec![AgentReport::CreateSucceeded], TestReport::Working);
    assert_eq!(run(&mut ti), vec![Action::RecordCreated(0), Action::StartResource(1)]);
    let mut ti = publish(
        ti,
        vec![AgentReport::CreateSucceeded, AgentReport::CreateSucceeded],
        TestReport::Working,
    );
    assert_eq!(run(&mut ti), vec![Action::RecordCreated(1), Action::StartResource(2)]);
    let mut ti = publish(ti, vec![AgentReport::CreateSucceeded; 3], TestReport::Working);
    assert_eq!(run(&mut ti), vec![Action::RecordCreated(2), Action::StartTest]);
    let mut ti = publish(ti, vec![AgentReport::CreateSucceeded; 3], TestReport::Failed);
    assert_eq!(run(&mut ti), vec![Action::RecordTestResult(false)]);
    assert_eq!(phase(&ti), Phase::Failed);

    let mut ti = request_deletion(ti);
    let mut destroyed = Vec::new();
    let mut reports = vec![AgentReport::CreateSucceeded; 3];
    assert_eq!(next_action(&ti), Action::RemovePodFinalizer);
    apply(&mut ti, Action::RemovePodFinalizer);
    for _ in 0..3 {
        match next_action(&ti) {
            Action::StartDestroy(i) => {
                destroyed.push(i);
                apply(&mut ti, Action::StartDestroy(i));
                reports[i] = AgentReport::DestroySucceeded;
                ti = publish(ti, reports.clone(), TestReport::Failed);
                assert_eq!(next_action(&ti), Action::RecordDestroyed(i, true));
                apply(&mut ti, Action::RecordDestroyed(i, true));
            }
            other => panic!("unexpected action {:?}", other),
        }
    }
    assert_eq!(destroyed, vec![2, 1, 0]);
    assert_eq!(next_action(&ti), Action::RemoveMainFinalizer);
}

#[test]
fn foreign_finalizer_holds_back_release() {
    let mut t = new_test(&[]).into_test();
    t.finalizers = Some(vec![MAIN_FINALIZER.to_string(), "other".to_string()]);
    t.deletion_requested = true;
    let ti = TestInterface::new(t);
    assert!(!ti.is_safe_to_delete());
    assert_eq!(next_action(&ti), Action::Requeue);
}

#[test]
fn deletion_without_ownership_does_nothing() {
    let ti = request_deletion(new_test(&["r1"]));
    assert_eq!(next_action(&ti), Action::Idle);
}

#[test]
fn accessors_default_when_absent() {
    let mut t = new_test(&[]).into_test();
    t.name = None;
    t.uid = None;
    let ti = TestInterface::new(t);
    assert_eq!(ti.name(), "");
    assert_eq!(ti.id(), "");
    assert_eq!(ti.agent().name, "agent");
    assert!(ti.controller_status().resources.is_empty());
    assert_eq!(ti.agent_status().test, TestReport::Working);
    assert!(!ti.is_delete_requested());
    let ti = new_test(&[]);
    assert_eq!(ti.name(), "t1");
    assert_eq!(ti.id(), "uid-1");
}

#[test]
fn pod_finalizer_token_is_literal() {
    let mut ti = new_test(&[]);
    ti.add_pod_finalizer();
    assert_eq!(finalizers(&ti), vec!["test-pod".to_string()]);
    assert_eq!(POD_FINALIZER, "test-pod");
    assert_eq!(MAIN_FINALIZER, "owned");
}
