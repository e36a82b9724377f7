use wavefront::geometry::Scalar;
use wavefront::history::ParameterHistory;
use wavefront::params::{Coefficients, VFParams};

fn params_tagged(tag: u64) -> VFParams {
    let s = Scalar::from_bits(tag);
    let c = Coefficients { p: s, q: s, r: s, s, v: s, w: s, u: s };
    VFParams::new((tag % 3) as usize, 1, 2, c).unwrap()
}

fn never_called() -> VFParams {
    panic!("no new parameter set should be asked for")
}

#[test]
fn new_history_holds_only_the_active_set() {
    let a = params_tagged(1);
    let h = ParameterHistory::new(a);
    assert_eq!(*h.active(), a);
    assert!(!h.can_go_back());
    assert!(!h.can_redo());
}

#[test]
fn back_on_empty_back_stack_changes_nothing() {
    let a = params_tagged(1);
    let mut h = ParameterHistory::new(a);
    assert!(!h.navigate_back());
    assert_eq!(*h.active(), a);
    assert!(!h.can_go_back());
    assert!(!h.can_redo());
    assert!(!h.navigate_back());
    assert_eq!(*h.active(), a);
}

#[test]
fn back_on_empty_back_stack_keeps_the_forward_stack() {
    let a = params_tagged(1);
    let b = params_tagged(2);
    let mut h = ParameterHistory::new(a);
    assert!(h.navigate_forward(|| b));
    assert!(h.navigate_back());
    assert!(!h.can_go_back());
    assert!(h.can_redo());
    assert!(!h.navigate_back());
    assert_eq!(*h.active(), a);
    assert!(h.can_redo());
    assert!(!h.navigate_forward(never_called));
    assert_eq!(*h.active(), b);
}

#[test]
fn forward_past_the_end_generates() {
    let a = params_tagged(1);
    let b = params_tagged(2);
    let mut h = ParameterHistory::new(a);
    let mut calls = 0;
    let generated = h.navigate_forward(|| {
        calls += 1;
        b
    });
    assert!(generated);
    assert_eq!(calls, 1);
    assert_eq!(*h.active(), b);
    assert!(h.can_go_back());
    assert!(!h.can_redo());
}

#[test]
fn forward_then_back_round_trip_without_generation() {
    let a = params_tagged(1);
    let b = params_tagged(2);
    let c = params_tagged(3);
    let mut h = ParameterHistory::new(a);
    h.navigate_forward(|| b);
    h.navigate_forward(|| c);
    h.navigate_back();
    h.navigate_back();
    // Active is `a`, nothing behind, `b` and `c` ahead.
    assert_eq!(*h.active(), a);
    assert!(!h.can_go_back());
    assert!(h.can_redo());

    assert!(!h.navigate_forward(never_called));
    assert_eq!(*h.active(), b);
    assert!(h.navigate_back());
    assert_eq!(*h.active(), a);
    assert!(!h.can_go_back());
    assert!(h.can_redo());

    // Both sets ahead are still there, in order.
    assert!(!h.navigate_forward(never_called));
    assert_eq!(*h.active(), b);
    assert!(!h.navigate_forward(never_called));
    assert_eq!(*h.active(), c);
    assert!(!h.can_redo());
}

#[test]
fn forward_then_back_after_generation_restores_active_and_back() {
    let a = params_tagged(1);
    let b = params_tagged(2);
    let mut h = ParameterHistory::new(a);
    assert!(h.navigate_forward(|| b));
    assert!(h.navigate_back());
    assert_eq!(*h.active(), a);
    assert!(!h.can_go_back());
    // The generated set waits on the forward stack.
    assert!(h.can_redo());
    assert!(!h.navigate_forward(never_called));
    assert_eq!(*h.active(), b);
}

#[test]
fn back_then_forward_round_trip() {
    let a = params_tagged(1);
    let b = params_tagged(2);
    let mut h = ParameterHistory::new(a);
    h.navigate_forward(|| b);
    assert!(h.navigate_back());
    assert!(!h.navigate_forward(never_called));
    assert_eq!(*h.active(), b);
    assert!(h.can_go_back());
    assert!(!h.can_redo());
}

#[test]
fn history_walks_a_long_timeline_in_order() {
    let mut h = ParameterHistory::new(params_tagged(0));
    for tag in 1..20u64 {
        assert!(h.navigate_forward(|| params_tagged(tag)));
        assert_eq!(*h.active(), params_tagged(tag));
    }
    for tag in (0..19u64).rev() {
        assert!(h.navigate_back());
        assert_eq!(*h.active(), params_tagged(tag));
    }
    assert!(!h.navigate_back());
    for tag in 1..20u64 {
        assert!(!h.navigate_forward(never_called));
        assert_eq!(*h.active(), params_tagged(tag));
    }
    assert!(h.navigate_forward(|| params_tagged(99)));
    assert_eq!(*h.active(), params_tagged(99));
}

#[test]
fn equal_sets_may_stand_side_by_side() {
    let a = params_tagged(1);
    let mut h = ParameterHistory::new(a);
    assert!(h.navigate_forward(|| a));
    assert_eq!(*h.active(), a);
    assert!(h.navigate_back());
    assert_eq!(*h.active(), a);
    assert!(h.can_redo());
}
