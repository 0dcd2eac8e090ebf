use swapper::phase::Phase;
use swapper::swapper;
use swapper::SwapError;
use swapper::Swapper;

/// A value that can be moved but not copied.
#[derive(Debug, PartialEq, Eq)]
struct Token(u32);

/// Drives a call from `phase` until it is blocked or over.
fn run_until_blocked<T>(end: &Swapper<T>, phase: Phase<T>) -> Phase<T> {
    let mut phase = phase;
    loop {
        match phase {
            Phase::Blocked | Phase::Done { .. } | Phase::Failed { .. } => return phase,
            under_way => phase = end.step(under_way),
        }
    }
}

#[test]
fn test() {
    let (us, them) = swapper();
    // Our call comes first and finds nobody waiting: it publishes and blocks.
    let ours = us.step(Phase::start(String::from("world")));
    assert_eq!(ours, Phase::Publishing { mine: String::from("world") });
    let ours = us.step(ours);
    assert_eq!(ours, Phase::Blocked);
    // Their call finds us blocked, swaps and wakes us.
    let mut hello = String::from("hello");
    hello = them.swap(hello).unwrap();
    assert_eq!(hello, "world");
    let ours = us.step(ours);
    let world = ours.outcome().unwrap().unwrap();
    assert_eq!(world, "hello");
}

#[test]
fn the_later_call_consumes_and_the_earlier_one_is_woken() {
    let (us, them) = swapper();
    let theirs = run_until_blocked(&them, Phase::start(Token(1)));
    assert_eq!(theirs, Phase::Blocked);
    assert_eq!(us.swap(Token(2)), Ok(Token(1)));
    assert_eq!(them.step(theirs), Phase::Done { got: Token(2) });
}

#[test]
fn a_consumer_passes_through_consuming_with_both_values() {
    let (us, them) = swapper();
    let theirs = run_until_blocked(&them, Phase::start(10u32));
    let ours = us.step(Phase::start(20u32));
    assert_eq!(ours, Phase::Consuming { theirs: 10, mine: 20 });
    let ours = us.step(ours);
    assert_eq!(ours, Phase::Done { got: 10 });
    assert_eq!(them.step(theirs), Phase::Done { got: 20 });
}

#[test]
fn a_race_to_publish_is_settled_by_one_retry() {
    let (us, them) = swapper();
    // Both calls find the slot empty.
    let ours = us.step(Phase::start('a'));
    let theirs = them.step(Phase::start('b'));
    assert_eq!(ours, Phase::Publishing { mine: 'a' });
    assert_eq!(theirs, Phase::Publishing { mine: 'b' });
    // We publish first; their publication is refused and they keep their value.
    let ours = us.step(ours);
    assert_eq!(ours, Phase::Blocked);
    let theirs = them.step(theirs);
    assert_eq!(theirs, Phase::Idle { mine: 'b' });
    // On the retry they consume.
    let theirs = them.step(theirs);
    assert_eq!(theirs, Phase::Consuming { theirs: 'a', mine: 'b' });
    assert_eq!(them.step(theirs), Phase::Done { got: 'a' });
    assert_eq!(us.step(ours), Phase::Done { got: 'b' });
}

#[test]
fn only_one_of_two_publications_is_accepted() {
    let (us, them) = swapper();
    let ours = us.step(Phase::start(1u8));
    let theirs = them.step(Phase::start(2u8));
    let theirs = them.step(theirs);
    let ours = us.step(ours);
    assert_eq!(theirs, Phase::Blocked);
    assert_eq!(ours, Phase::Idle { mine: 1 });
}

#[test]
fn swap_retries_after_a_refused_publication() {
    let (us, them) = swapper();
    // They are about to publish when we publish; `swap` then has to retry.
    let theirs = them.step(Phase::start(5u64));
    let ours = run_until_blocked(&us, Phase::start(6u64));
    assert_eq!(ours, Phase::Blocked);
    let theirs = them.step(theirs);
    assert_eq!(theirs, Phase::Idle { mine: 5 });
    match theirs {
        Phase::Idle { mine } => assert_eq!(them.swap(mine), Ok(6)),
        _ => unreachable!(),
    }
    assert_eq!(us.step(ours), Phase::Done { got: 5 });
}

#[test]
fn every_interleaving_of_two_calls_completes() {
    // Bit `i` of `schedule` says which endpoint is given the turn at step `i`.
    // An endpoint that is blocked and not yet woken, or whose call is over,
    // cannot move, and the turn goes to the other.
    for schedule in 0u32..1024 {
        let (left, right) = swapper();
        let mut calls = [Some(Phase::start(100u32)), Some(Phase::start(200u32))];
        let mut woken = [false, false];
        let mut steps = 0;
        loop {
            let over = [
                matches!(calls[0], Some(Phase::Done { .. }) | Some(Phase::Failed { .. })),
                matches!(calls[1], Some(Phase::Done { .. }) | Some(Phase::Failed { .. })),
            ];
            if over[0] && over[1] {
                break;
            }
            let stuck = [
                over[0] || (calls[0] == Some(Phase::Blocked) && !woken[0]),
                over[1] || (calls[1] == Some(Phase::Blocked) && !woken[1]),
            ];
            assert!(!(stuck[0] && stuck[1]), "schedule {} is stuck", schedule);
            let mut turn = ((schedule >> steps) & 1) as usize;
            if stuck[turn] {
                turn = 1 - turn;
            }
            let phase = calls[turn].take().unwrap();
            let consuming = matches!(phase, Phase::Consuming { .. });
            let next = if turn == 0 { left.step(phase) } else { right.step(phase) };
            if consuming {
                assert!(matches!(next, Phase::Done { .. }));
                woken[1 - turn] = true;
            }
            calls[turn] = Some(next);
            steps += 1;
            assert!(steps <= 10, "schedule {} takes too long", schedule);
        }
        assert_eq!(calls[0], Some(Phase::Done { got: 200 }));
        assert_eq!(calls[1], Some(Phase::Done { got: 100 }));
    }
}

#[test]
fn successive_swaps_are_independent() {
    let (us, them) = swapper();
    // First round: we publish, they consume.
    let ours = run_until_blocked(&us, Phase::start(String::from("hello")));
    assert_eq!(them.swap(String::from("world")), Ok(String::from("hello")));
    assert_eq!(us.step(ours), Phase::Done { got: String::from("world") });
    // Second round, the other way round: they publish, we consume.
    let theirs = run_until_blocked(&them, Phase::start(String::from("y")));
    assert_eq!(theirs, Phase::Blocked);
    assert_eq!(us.swap(String::from("x")), Ok(String::from("y")));
    assert_eq!(them.step(theirs), Phase::Done { got: String::from("x") });
    // Nothing is left behind: the next call finds the slot empty.
    assert_eq!(
        us.step(Phase::start(String::from("z"))),
        Phase::Publishing { mine: String::from("z") }
    );
}

#[test]
fn many_rounds_in_a_row() {
    let (us, them) = swapper();
    let mut ours = 0u32;
    let mut theirs = 1000u32;
    for round in 0..50u32 {
        if round % 2 == 0 {
            let call = run_until_blocked(&us, Phase::start(ours));
            let got = them.swap(theirs).unwrap();
            assert_eq!(got, ours);
            let woken = us.step(call).outcome().unwrap().unwrap();
            assert_eq!(woken, theirs);
            ours = woken + 1;
            theirs = got + 1;
        } else {
            let call = run_until_blocked(&them, Phase::start(theirs));
            let got = us.swap(ours).unwrap();
            assert_eq!(got, theirs);
            let woken = them.step(call).outcome().unwrap().unwrap();
            assert_eq!(woken, ours);
            theirs = woken + 1;
            ours = got + 1;
        }
    }
    assert_eq!(ours + theirs, 1000 + 100);
}

#[test]
fn a_fresh_pair_has_an_empty_slot() {
    let (us, them) = swapper();
    assert_eq!(us.step(Phase::start(1i32)), Phase::Publishing { mine: 1 });
    assert_eq!(them.step(Phase::start(2i32)), Phase::Publishing { mine: 2 });
}

#[test]
fn pairs_do_not_share_anything() {
    let (us, _them) = swapper();
    let (other, _partner) = swapper();
    let ours = run_until_blocked(&us, Phase::start(1u8));
    assert_eq!(ours, Phase::Blocked);
    // The other pair's slot is still empty.
    assert_eq!(other.step(Phase::start(2u8)), Phase::Publishing { mine: 2 });
}

#[test]
fn swap_fails_when_the_partner_is_gone() {
    let (us, them) = swapper::<u32>();
    drop(them);
    assert_eq!(us.swap(7), Err((SwapError, Some(7))));
}

#[test]
fn a_failed_call_hands_back_the_value_that_was_offered() {
    let (us, them) = swapper();
    drop(them);
    let world = String::from("world");
    match us.swap(world) {
        Err((error, kept)) => {
            assert_eq!(error, SwapError);
            assert_eq!(kept, Some(String::from("world")));
        }
        Ok(_) => panic!("nobody was there to swap with"),
    }
}

#[test]
fn failure_is_final_and_takes_no_earlier_value() {
    let (us, them) = swapper();
    drop(them);
    assert_eq!(us.swap(String::from("x")), Err((SwapError, Some(String::from("x")))));
    assert_eq!(us.swap(String::from("y")), Err((SwapError, Some(String::from("y")))));
    assert_eq!(us.swap(String::from("z")), Err((SwapError, Some(String::from("z")))));
}

#[test]
fn a_failed_call_leaves_the_slot_empty() {
    let (us, them) = swapper();
    drop(them);
    assert_eq!(us.swap(Token(1)), Err((SwapError, Some(Token(1)))));
    assert_eq!(us.step(Phase::start(Token(2))), Phase::Publishing { mine: Token(2) });
}

#[test]
fn a_blocked_call_withdraws_when_the_partner_is_destroyed() {
    let (us, them) = swapper();
    let ours = run_until_blocked(&us, Phase::start(Token(3)));
    assert_eq!(ours, Phase::Blocked);
    drop(them);
    let ours = us.step(ours);
    assert_eq!(ours, Phase::Withdrawing);
    let ours = us.step(ours);
    assert_eq!(ours, Phase::Failed { kept: Some(Token(3)) });
    assert_eq!(ours.outcome(), Some(Err((SwapError, Some(Token(3))))));
}

#[test]
fn a_consumer_that_cannot_wake_its_partner_keeps_what_it_took() {
    let (us, them) = swapper();
    let ours = run_until_blocked(&us, Phase::start(Token(3)));
    assert_eq!(ours, Phase::Blocked);
    drop(us);
    let theirs = them.step(Phase::start(Token(4)));
    assert_eq!(theirs, Phase::Consuming { theirs: Token(3), mine: Token(4) });
    assert_eq!(them.step(theirs), Phase::Failed { kept: Some(Token(3)) });
}

#[test]
fn a_call_whose_publication_is_gone_has_nothing_to_take_back() {
    let (us, them) = swapper();
    let ours = run_until_blocked(&us, Phase::start(Token(1)));
    // They take our value and are destroyed before they wake us.
    let theirs = them.step(Phase::start(Token(2)));
    assert_eq!(theirs, Phase::Consuming { theirs: Token(1), mine: Token(2) });
    drop(them);
    let ours = us.step(ours);
    assert_eq!(ours, Phase::Withdrawing);
    assert_eq!(us.step(ours), Phase::Failed { kept: None });
}

#[test]
fn a_wake_up_outlives_the_partner_that_sent_it() {
    let (us, them) = swapper();
    let ours = run_until_blocked(&us, Phase::start(Token(1)));
    assert_eq!(them.swap(Token(2)), Ok(Token(1)));
    drop(them);
    assert_eq!(us.step(ours), Phase::Done { got: Token(2) });
    // After that the partner is missed.
    assert_eq!(us.swap(Token(5)), Err((SwapError, Some(Token(5)))));
}

#[test]
fn a_call_that_is_over_stays_as_it_is() {
    let (us, _them) = swapper();
    assert_eq!(us.step(Phase::Done { got: 9u8 }), Phase::Done { got: 9 });
    assert_eq!(us.step(Phase::Failed { kept: Some(9u8) }), Phase::Failed { kept: Some(9) });
    assert_eq!(us.step(Phase::<u8>::Failed { kept: None }), Phase::Failed { kept: None });
}
