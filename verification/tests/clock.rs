use tag::clock::Timestamp;

#[test]
fn seconds_decide_the_order() {
    let early = Timestamp { secs: 10, nanos: 999_999_999 };
    let late = Timestamp { secs: 11, nanos: 0 };
    assert!(early.not_after(&late));
    assert!(!late.not_after(&early));
}

#[test]
fn nanoseconds_break_the_tie() {
    let early = Timestamp { secs: 10, nanos: 5 };
    let late = Timestamp { secs: 10, nanos: 6 };
    assert!(early.not_after(&late));
    assert!(!late.not_after(&early));
    assert!(early.not_after(&early));
}

#[test]
fn instants_before_the_epoch_are_ordered() {
    let early = Timestamp { secs: -2, nanos: 0 };
    let late = Timestamp { secs: -1, nanos: 0 };
    assert!(early.not_after(&late));
    assert!(!late.not_after(&early));
}
