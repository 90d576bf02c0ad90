use key_signer::monitor::await_socket;
use key_signer::monitor::poll_socket;
use key_signer::monitor::AwaitReport;
use key_signer::monitor::PollStep;
use key_signer::monitor::POLL_INTERVAL_MS;
use key_signer::monitor::SOCKET_WAIT_MS;

#[test]
fn the_bounds_are_a_tenth_of_a_second_and_three_seconds() {
    assert_eq!(POLL_INTERVAL_MS, 100);
    assert_eq!(SOCKET_WAIT_MS, 3000);
}

#[test]
fn an_endpoint_that_is_there_ends_the_wait() {
    assert_eq!(poll_socket(0, 3000, true), PollStep::Appeared);
    assert_eq!(poll_socket(2999, 3000, true), PollStep::Appeared);
}

#[test]
fn an_endpoint_that_is_not_there_yet_asks_for_a_pause() {
    assert_eq!(poll_socket(0, 3000, false), PollStep::Wait { millis: 100 });
    assert_eq!(poll_socket(2999, 3000, false), PollStep::Wait { millis: 100 });
}

#[test]
fn the_end_of_the_waiting_time_ends_the_wait() {
    assert_eq!(poll_socket(3000, 3000, false), PollStep::TimedOut);
    assert_eq!(poll_socket(3000, 3000, true), PollStep::TimedOut);
    assert_eq!(poll_socket(u64::MAX, 3000, true), PollStep::TimedOut);
    assert_eq!(poll_socket(0, 0, true), PollStep::TimedOut);
}

#[test]
fn an_endpoint_that_is_there_from_the_start_is_seen_at_once() {
    assert_eq!(
        await_socket(SOCKET_WAIT_MS, Some(0)),
        AwaitReport { appeared: true, waited_ms: 0 }
    );
}

#[test]
fn an_endpoint_is_seen_at_the_first_look_after_its_creation() {
    assert_eq!(await_socket(3000, Some(1)), AwaitReport { appeared: true, waited_ms: 100 });
    assert_eq!(await_socket(3000, Some(100)), AwaitReport { appeared: true, waited_ms: 100 });
    assert_eq!(await_socket(3000, Some(101)), AwaitReport { appeared: true, waited_ms: 200 });
    assert_eq!(await_socket(3000, Some(1234)), AwaitReport { appeared: true, waited_ms: 1300 });
    assert_eq!(await_socket(3000, Some(2900)), AwaitReport { appeared: true, waited_ms: 2900 });
}

#[test]
fn an_endpoint_that_never_comes_is_not_seen() {
    assert_eq!(await_socket(3000, None), AwaitReport { appeared: false, waited_ms: 3000 });
}

#[test]
fn an_endpoint_that_comes_after_the_waiting_time_is_not_seen() {
    assert_eq!(await_socket(3000, Some(3000)), AwaitReport { appeared: false, waited_ms: 3000 });
    assert_eq!(await_socket(3000, Some(9999)), AwaitReport { appeared: false, waited_ms: 3000 });
}

#[test]
fn an_endpoint_that_comes_after_the_last_look_is_not_seen() {
    assert_eq!(await_socket(3000, Some(2901)), AwaitReport { appeared: false, waited_ms: 3000 });
    assert_eq!(await_socket(3000, Some(2950)), AwaitReport { appeared: false, waited_ms: 3000 });
    assert_eq!(await_socket(3000, Some(2999)), AwaitReport { appeared: false, waited_ms: 3000 });
}

#[test]
fn a_waiting_time_between_two_looks_ends_at_the_next_look() {
    assert_eq!(await_socket(250, None), AwaitReport { appeared: false, waited_ms: 300 });
    assert_eq!(await_socket(250, Some(150)), AwaitReport { appeared: true, waited_ms: 200 });
    assert_eq!(await_socket(250, Some(201)), AwaitReport { appeared: false, waited_ms: 300 });
    assert_eq!(await_socket(1, Some(0)), AwaitReport { appeared: true, waited_ms: 0 });
    assert_eq!(await_socket(1, None), AwaitReport { appeared: false, waited_ms: 100 });
}

#[test]
fn no_waiting_time_means_no_look() {
    assert_eq!(await_socket(0, Some(0)), AwaitReport { appeared: false, waited_ms: 0 });
    assert_eq!(await_socket(0, None), AwaitReport { appeared: false, waited_ms: 0 });
}

#[test]
fn a_wait_never_lasts_the_waiting_time_and_an_interval() {
    for timeout in [0u64, 1, 99, 100, 101, 250, 3000, 3001] {
        for created in [None, Some(0u64), Some(1), Some(99), Some(100), Some(2950), Some(5000)] {
            let report = await_socket(timeout, created);
            assert!(report.waited_ms < timeout + POLL_INTERVAL_MS);
            if report.appeared {
                assert!(report.waited_ms < timeout);
                assert!(created.unwrap() <= report.waited_ms);
            } else {
                assert!(report.waited_ms >= timeout);
            }
        }
    }
}

#[test]
fn an_endpoint_created_an_interval_before_the_end_is_always_seen() {
    for timeout in [100u64, 101, 250, 3000] {
        for created in 0..=(timeout - POLL_INTERVAL_MS) {
            assert!(await_socket(timeout, Some(created)).appeared);
        }
    }
}
