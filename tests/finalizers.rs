use testsys_controller::finalizer::{
    add_finalizer, has_finalizer, has_finalizers, is_safe_to_delete, remove_finalizer,
    MAIN_FINALIZER, POD_FINALIZER,
};

fn list(items: &[&str]) -> Vec<String> {
    items.iter().map(|s| s.to_string()).collect()
}

#[test]
fn safe_to_delete_only_with_main_or_nothing() {
    assert!(is_safe_to_delete(&list(&[])));
    assert!(is_safe_to_delete(&list(&[MAIN_FINALIZER])));
    assert!(!is_safe_to_delete(&list(&[POD_FINALIZER])));
    assert!(!is_safe_to_delete(&list(&[MAIN_FINALIZER, POD_FINALIZER])));
    assert!(!is_safe_to_delete(&list(&["other"])));
}

#[test]
fn adding_twice_equals_adding_once() {
    let mut once = list(&[MAIN_FINALIZER]);
    add_finalizer(&mut once, POD_FINALIZER);
    let mut twice = list(&[MAIN_FINALIZER]);
    add_finalizer(&mut twice, POD_FINALIZER);
    add_finalizer(&mut twice, POD_FINALIZER);
    assert_eq!(once, twice);
    assert_eq!(once, list(&[MAIN_FINALIZER, POD_FINALIZER]));
}

#[test]
fn removing_absent_token_is_a_no_op() {
    let mut f = list(&[MAIN_FINALIZER]);
    remove_finalizer(&mut f, POD_FINALIZER);
    assert_eq!(f, list(&[MAIN_FINALIZER]));
}

#[test]
fn removing_keeps_order_of_the_rest() {
    let mut f = list(&["a", POD_FINALIZER, "b", POD_FINALIZER, "c"]);
    remove_finalizer(&mut f, POD_FINALIZER);
    assert_eq!(f, list(&["a", "b", "c"]));
}

#[test]
fn membership_queries() {
    let f = list(&[MAIN_FINALIZER]);
    assert!(has_finalizer(&f, MAIN_FINALIZER));
    assert!(!has_finalizer(&f, POD_FINALIZER));
    assert!(has_finalizers(&f));
    assert!(!has_finalizers(&list(&[])));
}
