use std::cell::RefCell;

use etcd::dispatch::{first_ok, on_each, shuffled_order, FirstOk, OnEach, Round, Step};
use etcd::EtcdError;

fn transport_error() -> reqwest::Error {
    reqwest::Client::new().get("not a url").build().unwrap_err()
}

#[test]
fn shuffled_order_is_a_permutation() {
    for n in 0..20usize {
        let mut order = shuffled_order(n);
        assert_eq!(order.len(), n);
        order.sort();
        let expected: Vec<usize> = (0..n).collect();
        assert_eq!(order, expected);
    }
}

#[test]
fn shuffled_order_reaches_every_arrangement_about_equally_often() {
    let mut counts = [0usize; 6];
    for _ in 0..6000 {
        let order = shuffled_order(3);
        let slot = match (order[0], order[1], order[2]) {
            (0, 1, 2) => 0,
            (0, 2, 1) => 1,
            (1, 0, 2) => 2,
            (1, 2, 0) => 3,
            (2, 0, 1) => 4,
            (2, 1, 0) => 5,
            _ => panic!("not a permutation of three positions"),
        };
        counts[slot] += 1;
    }
    for count in counts.iter() {
        assert!(*count > 800 && *count < 1200);
    }
}

#[test]
fn shuffled_order_changes_from_call_to_call() {
    let first = shuffled_order(64);
    let mut differs = false;
    for _ in 0..8 {
        if shuffled_order(64) != first {
            differs = true;
        }
    }
    assert!(differs);
}

#[test]
fn first_ok_returns_the_first_success_and_stops() {
    let calls: RefCell<Vec<usize>> = RefCell::new(Vec::new());
    let result: Result<usize, String> = first_ok(5, |position: usize| {
        calls.borrow_mut().push(position);
        Ok(position * 10)
    })
    .map_err(|errors: Vec<String>| errors.join(","));
    let calls = calls.into_inner();
    assert_eq!(calls.len(), 1);
    assert_eq!(result, Ok(calls[0] * 10));
}

#[test]
fn first_ok_moves_on_after_a_failure() {
    let calls: RefCell<Vec<usize>> = RefCell::new(Vec::new());
    let result: Result<usize, Vec<String>> = first_ok(4, |position: usize| {
        calls.borrow_mut().push(position);
        if position == 2 {
            Ok(position)
        } else {
            Err(format!("member {} is down", position))
        }
    });
    let calls = calls.into_inner();
    assert_eq!(result, Ok(2));
    assert_eq!(*calls.last().unwrap(), 2);
    let mut seen = calls.clone();
    seen.sort();
    seen.dedup();
    assert_eq!(seen.len(), calls.len());
}

#[test]
fn first_ok_collects_one_error_per_member_in_the_order_of_the_attempts() {
    for n in 1..8usize {
        let calls: RefCell<Vec<usize>> = RefCell::new(Vec::new());
        let result: Result<(), Vec<usize>> = first_ok(n, |position: usize| {
            calls.borrow_mut().push(position);
            Err(position)
        });
        let calls = calls.into_inner();
        let errors = result.unwrap_err();
        assert_eq!(errors.len(), n);
        assert_eq!(errors, calls);
        let mut seen = calls.clone();
        seen.sort();
        let expected: Vec<usize> = (0..n).collect();
        assert_eq!(seen, expected);
    }
}

#[test]
fn first_ok_with_all_endpoints_down_returns_one_http_error_each() {
    let result: Result<(), Vec<EtcdError>> =
        first_ok(2, |_position: usize| Err(EtcdError::Http(transport_error())));
    let errors = result.unwrap_err();
    assert_eq!(errors.len(), 2);
    for error in errors.iter() {
        match error {
            EtcdError::Http(_) => {}
            _ => panic!("expected EtcdError::Http"),
        }
    }
}

#[test]
fn first_ok_without_members_fails_with_no_errors() {
    let result: Result<(), Vec<u8>> = first_ok(0, |_position: usize| Ok(()));
    assert_eq!(result, Err(Vec::new()));
}

#[test]
fn on_each_calls_every_member_in_the_configured_order() {
    let calls: RefCell<Vec<usize>> = RefCell::new(Vec::new());
    let results: Vec<Result<usize, usize>> = on_each(5, |position: usize| {
        calls.borrow_mut().push(position);
        if position % 2 == 0 {
            Ok(position)
        } else {
            Err(position)
        }
    });
    assert_eq!(calls.into_inner(), vec![0, 1, 2, 3, 4]);
    assert_eq!(results, vec![Ok(0), Err(1), Ok(2), Err(3), Ok(4)]);
}

#[test]
fn on_each_without_members_returns_nothing() {
    let results: Vec<u8> = on_each(0, |_position: usize| 1u8);
    assert!(results.is_empty());
}

#[test]
fn the_machine_tries_every_member_once_and_then_gives_all_errors() {
    let mut step: Step<u32, String> = FirstOk::start(3);
    let mut tried: Vec<usize> = Vec::new();
    loop {
        match step {
            Step::Attempt(position, state) => {
                tried.push(position);
                step = state.advance(Err(format!("error {}", tried.len())));
            }
            Step::Done(result) => {
                assert_eq!(
                    result,
                    Err(vec![
                        "error 1".to_owned(),
                        "error 2".to_owned(),
                        "error 3".to_owned()
                    ])
                );
                break;
            }
        }
    }
    tried.sort();
    assert_eq!(tried, vec![0, 1, 2]);
}

#[test]
fn the_machine_ends_with_the_first_good_answer() {
    let step: Step<u32, String> = FirstOk::start(3);
    let state = match step {
        Step::Attempt(_, state) => state,
        Step::Done(_) => panic!("a call to three members begins with an attempt"),
    };
    let state = match state.advance::<u32>(Err("down".to_owned())) {
        Step::Attempt(_, state) => state,
        Step::Done(_) => panic!("two members are left to try"),
    };
    match state.advance(Ok(7u32)) {
        Step::Done(Ok(answer)) => assert_eq!(answer, 7),
        _ => panic!("a good answer ends the call"),
    }
}

#[test]
fn the_machine_follows_a_given_order() {
    let mut step: Step<(), u8> = FirstOk::start_in_order(vec![2, 0, 1]);
    let mut tried: Vec<usize> = Vec::new();
    loop {
        match step {
            Step::Attempt(position, state) => {
                tried.push(position);
                step = state.advance(Err(position as u8));
            }
            Step::Done(result) => {
                assert_eq!(result, Err(vec![2u8, 0u8, 1u8]));
                break;
            }
        }
    }
    assert_eq!(tried, vec![2, 0, 1]);
}

#[test]
fn the_machine_without_members_is_done_at_once() {
    let step: Step<(), u8> = FirstOk::start(0);
    match step {
        Step::Done(Err(errors)) => assert!(errors.is_empty()),
        _ => panic!("a call to no member is over before it begins"),
    }
}

#[test]
fn the_round_asks_every_member_in_the_configured_order() {
    let mut round: Round<String> = OnEach::start(3);
    let mut asked: Vec<usize> = Vec::new();
    loop {
        match round {
            Round::Attempt(position, state) => {
                asked.push(position);
                round = state.advance(format!("answer of {}", position));
            }
            Round::Done(results) => {
                assert_eq!(
                    results,
                    vec![
                        "answer of 0".to_owned(),
                        "answer of 1".to_owned(),
                        "answer of 2".to_owned()
                    ]
                );
                break;
            }
        }
    }
    assert_eq!(asked, vec![0, 1, 2]);
}

#[test]
fn the_round_without_members_is_done_at_once() {
    let round: Round<u8> = OnEach::start(0);
    match round {
        Round::Done(results) => assert!(results.is_empty()),
        Round::Attempt(_, _) => panic!("a call to no member is over before it begins"),
    }
}
