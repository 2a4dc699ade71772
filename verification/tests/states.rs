use bangbang::{settle, BangBangError, BangBangState};

fn handler_failed(code: u8) -> BangBangError {
    BangBangError::StateChangeHandlerFailed {
        from: BangBangState::A,
        to: BangBangState::B,
        code,
    }
}

#[test]
fn false_is_a_and_true_is_b() {
    assert_eq!(BangBangState::from(false), BangBangState::A);
    assert_eq!(BangBangState::from(true), BangBangState::B);
    let through_into: BangBangState = true.into();
    assert_eq!(through_into, BangBangState::B);
}

#[test]
fn a_is_false_and_b_is_true() {
    assert_eq!(bool::from(BangBangState::A), false);
    assert_eq!(bool::from(BangBangState::B), true);
}

#[test]
fn conversion_round_trips() {
    for value in [false, true] {
        assert_eq!(bool::from(BangBangState::from(value)), value);
    }
    for state in [BangBangState::A, BangBangState::B] {
        assert_eq!(BangBangState::from(bool::from(state)), state);
    }
}

#[test]
fn flipped_gives_the_other_state() {
    assert_eq!(BangBangState::A.flipped(), BangBangState::B);
    assert_eq!(BangBangState::B.flipped(), BangBangState::A);
}

#[test]
fn flipped_twice_is_the_same_state() {
    for state in [BangBangState::A, BangBangState::B] {
        assert_ne!(state.flipped(), state);
        assert_eq!(state.flipped().flipped(), state);
    }
}

#[test]
fn flipping_matches_negating_the_boolean() {
    for value in [false, true] {
        assert_eq!(BangBangState::from(!value), BangBangState::from(value).flipped());
    }
}

#[test]
fn settle_moves_on_success() {
    assert_eq!(settle(BangBangState::A, BangBangState::B, &Ok(())), BangBangState::B);
    assert_eq!(settle(BangBangState::B, BangBangState::A, &Ok(())), BangBangState::A);
    assert_eq!(settle(BangBangState::A, BangBangState::A, &Ok(())), BangBangState::A);
    assert_eq!(settle(BangBangState::B, BangBangState::B, &Ok(())), BangBangState::B);
}

#[test]
fn settle_stays_on_failure() {
    let refused = Err(handler_failed(3));
    assert_eq!(settle(BangBangState::A, BangBangState::B, &refused), BangBangState::A);
    assert_eq!(settle(BangBangState::B, BangBangState::A, &refused), BangBangState::B);
    assert_eq!(settle(BangBangState::A, BangBangState::A, &refused), BangBangState::A);
    assert_eq!(settle(BangBangState::B, BangBangState::B, &refused), BangBangState::B);
}

#[test]
fn settle_stays_on_every_kind_of_failure() {
    let failures = [
        BangBangError::StateChangeFailedUnexpectedly {
            from: BangBangState::A,
            to: BangBangState::B,
            code: 1,
        },
        BangBangError::StateChangeTemporarilyConstrained {
            from: BangBangState::A,
            to: BangBangState::B,
            code: 2,
        },
        handler_failed(3),
        BangBangError::ImplementationHandlerUnexpectedError {},
    ];
    for failure in failures {
        assert_eq!(
            settle(BangBangState::A, BangBangState::B, &Err(failure)),
            BangBangState::A
        );
    }
}

#[test]
fn errors_compare_by_variant_and_payload() {
    assert_eq!(handler_failed(1), handler_failed(1));
    assert_ne!(handler_failed(1), handler_failed(2));
    assert_ne!(
        handler_failed(1),
        BangBangError::StateChangeFailedUnexpectedly {
            from: BangBangState::A,
            to: BangBangState::B,
            code: 1,
        }
    );
    assert_ne!(
        BangBangError::StateChangeFailedUnexpectedly {
            from: BangBangState::A,
            to: BangBangState::B,
            code: 1,
        },
        BangBangError::StateChangeFailedUnexpectedly {
            from: BangBangState::B,
            to: BangBangState::A,
            code: 1,
        }
    );
    let copied = handler_failed(9);
    let kept = copied;
    assert_eq!(copied, kept);
}

#[test]
fn states_are_ordered_a_before_b() {
    assert!(BangBangState::A < BangBangState::B);
    assert_eq!(BangBangState::A.clone(), BangBangState::A);
    assert_eq!(format!("{:?}", BangBangState::B), "B");
}
