use std::ops::ControlFlow;
use tap::{Branch, Outcome, TapFallible};

#[test]
fn tap_break_records_failure_payload() {
    let mut recorded = Vec::new();
    let o: Result<i32, &str> = Err("foo");
    let o = o.tap_break(|e| recorded.push(*e));
    assert_eq!(o, Err("foo"));
    assert_eq!(recorded, vec!["foo"]);
    let mut ran = false;
    let o = o.tap_continue(|_| ran = true);
    assert_eq!(o, Err("foo"));
    assert!(!ran);
}

#[test]
fn tap_continue_mut_doubles_success() {
    let o: Result<i32, &str> = Ok(8);
    let o = o.tap_continue_mut(|x| *x *= 2);
    assert_eq!(o, Ok(16));
}

#[test]
fn exactly_one_conditional_tap_fires() {
    let mut on_ok = 0;
    let mut on_err = 0;
    let o: Result<i32, i32> = Ok(1);
    let o = o.tap_continue(|_| on_ok += 1).tap_break(|_| on_err += 1);
    assert_eq!(o, Ok(1));
    assert_eq!((on_ok, on_err), (1, 0));
    let e: Result<i32, i32> = Err(2);
    let e = e.tap_continue(|_| on_ok += 1).tap_break(|_| on_err += 1);
    assert_eq!(e, Err(2));
    assert_eq!((on_ok, on_err), (1, 1));
}

#[test]
fn mutable_conditional_taps_keep_the_class() {
    let e: Result<i32, i32> = Err(3);
    assert_eq!(e.tap_continue_mut(|x| *x = 100), Err(3));
    assert_eq!(e.tap_break_mut(|x| *x = 100), Err(100));
    let o: Result<i32, i32> = Ok(3);
    assert_eq!(o.tap_break_mut(|x| *x = 100), Ok(3));
    assert_eq!(o.tap_continue_mut(|x| *x = 100), Ok(100));
}

#[test]
fn option_taps() {
    let mut seen = 0;
    let s = Some(4).tap_continue(|x| seen = *x);
    assert_eq!(s, Some(4));
    assert_eq!(seen, 4);
    let n: Option<i32> = None;
    let n = n.tap_continue(|x| seen = *x);
    assert_eq!(n, None);
    assert_eq!(seen, 4);
    let n = n.tap_break(|_| seen = 0);
    assert_eq!(n, None);
    assert_eq!(seen, 0);
    assert_eq!(Some(4).tap_continue_mut(|x| *x += 1), Some(5));
}

#[test]
fn branch_taps() {
    let b: Branch<i32, &str> = Branch::Break("stop");
    let b = b.tap_break_mut(|s| *s = "halt");
    assert_eq!(b, Branch::Break("halt"));
    let c: Branch<i32, &str> = Branch::Continue(1);
    assert_eq!(c.tap_continue_mut(|x| *x = 2), Branch::Continue(2));
}

#[test]
fn outcome_decomposes_and_rebuilds() {
    let o: Result<i32, &str> = Ok(3);
    assert_eq!(o.branch(), Branch::Continue(3));
    let e: Result<i32, &str> = Err("x");
    assert_eq!(e.branch(), Branch::Break("x"));
    assert_eq!(<Result<i32, &str>>::from_output(7), Ok(7));
    assert_eq!(<Result<i32, &str>>::from_residual("y"), Err("y"));
    assert_eq!(Some(1).branch(), Branch::Continue(1));
    assert_eq!(None::<i32>.branch(), Branch::Break(()));
    assert_eq!(<Option<i32>>::from_output(2), Some(2));
    assert_eq!(<Option<i32>>::from_residual(()), None);
}

#[test]
fn conditional_debug_taps() {
    let mut count = 0;
    let o: Result<i32, i32> = Ok(5);
    let o = o.tap_continue_dbg(true, |_| count += 1);
    let o = o.tap_continue_mut_dbg(true, |x| *x += 1);
    assert_eq!(o, Ok(6));
    let o = o.tap_continue_dbg(false, |_| count += 1);
    let o = o.tap_continue_mut_dbg(false, |x| *x += 1);
    assert_eq!(o, Ok(6));
    let e: Result<i32, i32> = Err(5);
    let e = e.tap_break_dbg(true, |_| count += 1);
    let e = e.tap_break_mut_dbg(true, |x| *x += 1);
    assert_eq!(e, Err(6));
    let e = e.tap_break_dbg(false, |_| count += 1);
    let e = e.tap_break_mut_dbg(false, |x| *x += 1);
    assert_eq!(e, Err(6));
    assert_eq!(count, 2);
}

#[test]
fn control_flow_taps() {
    let mut seen = 0;
    let c: ControlFlow<&str, i32> = ControlFlow::Continue(3);
    let c = c.tap_continue(|x| seen = *x).tap_break(|_| seen = -1);
    assert_eq!(c, ControlFlow::Continue(3));
    assert_eq!(seen, 3);
    let b: ControlFlow<&str, i32> = ControlFlow::Break("done");
    let b = b.tap_continue_mut(|x| *x = 0).tap_break_mut(|s| *s = "stopped");
    assert_eq!(b, ControlFlow::Break("stopped"));
    assert_eq!(c.branch(), Branch::Continue(3));
    assert_eq!(<ControlFlow<&str, i32>>::from_residual("x"), ControlFlow::Break("x"));
}
