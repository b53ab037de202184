use testsys_controller::error::Error;
use testsys_controller::provider::Resources;
use testsys_controller::reconcile::{
    backoff_secs, requeue_after, Action, BACKOFF_CAP_SECS, POLL_INTERVAL_SECS,
};

#[test]
fn backoff_doubles_up_to_the_cap() {
    assert_eq!(backoff_secs(0), 1);
    assert_eq!(backoff_secs(1), 2);
    assert_eq!(backoff_secs(5), 32);
    assert_eq!(backoff_secs(8), 256);
    assert_eq!(backoff_secs(9), BACKOFF_CAP_SECS);
    assert_eq!(backoff_secs(u32::MAX), BACKOFF_CAP_SECS);
}

#[test]
fn requeue_policy_by_action() {
    assert_eq!(requeue_after(Action::Idle), None);
    assert_eq!(requeue_after(Action::Requeue), Some(POLL_INTERVAL_SECS));
    assert_eq!(requeue_after(Action::AddMainFinalizer), Some(0));
    assert_eq!(requeue_after(Action::RecordCreateFailed(0, Resources::Clear)), Some(0));
}

#[test]
fn errors_carry_test_and_operation() {
    let e = Error::add_finalizer("t1", "owned", "conflict".to_string());
    assert_eq!(e.test_name(), "t1");
    match e {
        Error::AddFinalizer { finalizer, source, .. } => {
            assert_eq!(finalizer, "owned");
            assert_eq!(source, "conflict");
        }
        other => panic!("unexpected {:?}", other),
    }
    assert_eq!(Error::set_controller_status("t2", "gone".to_string()).test_name(), "t2");
    assert!(matches!(
        Error::remove_finalizer("t3", "test-pod", "x".to_string()),
        Error::RemoveFinalizer { .. }
    ));
    assert!(matches!(
        Error::create_job("t4", "job", "x".to_string()),
        Error::CreateJob { .. }
    ));
}
