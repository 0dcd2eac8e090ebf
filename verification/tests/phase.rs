use swapper::phase::Phase;
use swapper::phase::Turn;
use swapper::SwapError;

#[test]
fn a_call_starts_idle_with_its_value() {
    assert_eq!(Phase::start(5u8), Phase::Idle { mine: 5 });
}

#[test]
fn an_occupied_slot_makes_a_consumer() {
    assert_eq!(Phase::after_take(1u8, Some(2u8)), Phase::Consuming { theirs: 2, mine: 1 });
}

#[test]
fn an_empty_slot_makes_a_publisher() {
    assert_eq!(Phase::after_take(1u8, None), Phase::Publishing { mine: 1 });
}

#[test]
fn an_accepted_publication_blocks() {
    assert_eq!(Phase::<u8>::after_publish(Ok(())), Phase::Blocked);
}

#[test]
fn a_refused_publication_goes_back_to_idle() {
    assert_eq!(Phase::after_publish(Err(3u8)), Phase::Idle { mine: 3 });
}

#[test]
fn a_consumer_ends_with_what_it_took() {
    assert_eq!(Phase::after_signal(4u8, Ok(())), Phase::Done { got: 4 });
}

#[test]
fn a_consumer_fails_when_it_cannot_wake_its_partner() {
    assert_eq!(Phase::after_signal(4u8, Err(SwapError)), Phase::Failed { kept: Some(4) });
}

#[test]
fn a_woken_call_ends_with_the_value_of_the_wake_up() {
    assert_eq!(Phase::after_wait(Ok(6u8)), Phase::Done { got: 6 });
}

#[test]
fn a_wait_that_fails_makes_the_call_withdraw() {
    assert_eq!(Phase::<u8>::after_wait(Err(SwapError)), Phase::Withdrawing);
}

#[test]
fn a_call_that_withdraws_keeps_what_it_takes_back() {
    assert_eq!(Phase::after_withdraw(Some(3u8)), Phase::Failed { kept: Some(3) });
    assert_eq!(Phase::<u8>::after_withdraw(None), Phase::Failed { kept: None });
}

#[test]
fn only_a_call_that_is_over_has_an_outcome() {
    assert_eq!(Phase::Done { got: 1u8 }.outcome(), Some(Ok(1)));
    assert_eq!(Phase::Failed { kept: Some(2u8) }.outcome(), Some(Err((SwapError, Some(2)))));
    assert_eq!(Phase::<u8>::Failed { kept: None }.outcome(), Some(Err((SwapError, None))));
    assert_eq!(Phase::<u8>::Withdrawing.outcome(), None);
    assert_eq!(Phase::Idle { mine: 1u8 }.outcome(), None);
    assert_eq!(Phase::Publishing { mine: 1u8 }.outcome(), None);
    assert_eq!(Phase::Consuming { theirs: 2u8, mine: 1u8 }.outcome(), None);
    assert_eq!(Phase::<u8>::Blocked.outcome(), None);
}

#[test]
fn a_call_that_is_over_returns() {
    assert_eq!(Phase::Done { got: 7u8 }.settle(5), Turn::Return(Ok(7)));
    assert_eq!(
        Phase::Failed { kept: Some(3u8) }.settle(5),
        Turn::Return(Err((SwapError, Some(3))))
    );
    assert_eq!(Phase::<u8>::Failed { kept: None }.settle(5), Turn::Return(Err((SwapError, None))));
    assert_eq!(Phase::Done { got: 7u8 }.settle(0), Turn::Return(Ok(7)));
}

#[test]
fn a_refused_call_goes_on_with_one_refusal_less_to_spare() {
    assert_eq!(
        Phase::Idle { mine: 1u8 }.settle(3),
        Turn::GoOn { phase: Phase::Idle { mine: 1 }, budget: 2 }
    );
    assert_eq!(
        Phase::Idle { mine: 1u8 }.settle(1),
        Turn::GoOn { phase: Phase::Idle { mine: 1 }, budget: 0 }
    );
    assert_eq!(
        Phase::Idle { mine: 1u8 }.settle(u64::MAX),
        Turn::GoOn { phase: Phase::Idle { mine: 1 }, budget: u64::MAX - 1 }
    );
}

#[test]
fn a_refused_call_with_nothing_to_spare_fails_and_keeps_its_value() {
    assert_eq!(Phase::Idle { mine: 1u8 }.settle(0), Turn::Return(Err((SwapError, Some(1)))));
}

#[test]
fn a_call_under_way_goes_on_as_it_is() {
    assert_eq!(
        Phase::Publishing { mine: 1u8 }.settle(4),
        Turn::GoOn { phase: Phase::Publishing { mine: 1 }, budget: 4 }
    );
    assert_eq!(
        Phase::Consuming { theirs: 2u8, mine: 1u8 }.settle(0),
        Turn::GoOn { phase: Phase::Consuming { theirs: 2, mine: 1 }, budget: 0 }
    );
    assert_eq!(
        Phase::<u8>::Blocked.settle(9),
        Turn::GoOn { phase: Phase::Blocked, budget: 9 }
    );
    assert_eq!(
        Phase::<u8>::Withdrawing.settle(9),
        Turn::GoOn { phase: Phase::Withdrawing, budget: 9 }
    );
}
