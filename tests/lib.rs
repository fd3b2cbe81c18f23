use tap::{Tap, TapFallible};

#[test]
fn filter_map() {
    let values: &[Result<i32, &str>] = &[Ok(3), Err("foo"), Err("bar"), Ok(8)];
    let _ = values.iter().filter_map(|result| {
        // Error information can be logged before it is discarded.
        result
            .tap_break(|error| println!("Invalid entry: {}", error))
            .ok()
    });
}

#[test]
fn basic() {
    let mut val = 5;

    // `tap` is available on all types
    if 10.tap(|v| val += *v) > 0 {
        assert_eq!(val, 15);
    }

    // results have `tap_break` available
    let _: Result<i32, i32> = Err(5).tap_break(|e| val = *e);
    assert_eq!(val, 5);

    // and so have options
    let _: Option<i32> = None.tap_break(|_| val = 10);
    assert_eq!(val, 10);
}
