use key_signer::ipc::classify_read_failure;
use key_signer::ipc::frame_request;
use key_signer::ipc::key_signer_request;
use key_signer::ipc::Exchange;
use key_signer::ipc::IpcAction;
use key_signer::ipc::IpcError;
use key_signer::ipc::IpcErrorKind;
use key_signer::ipc::IpcEvent;
use key_signer::ipc::IpcState;
use key_signer::ipc::ReadFailure;
use key_signer::ipc::IO_TIMEOUT_SECS;

/// Takes an exchange up to the step at which the response is read.
fn up_to_receive(request: &str) -> Exchange {
    let mut exchange = key_signer_request(request);
    for _ in 0..4 {
        exchange.handle(IpcEvent::Succeeded, "");
    }
    assert_eq!(exchange.state(), IpcState::Receiving);
    exchange
}

fn failure(kind: IpcErrorKind, cause: &str) -> Option<Result<String, IpcError>> {
    Some(Err(IpcError { kind, cause: cause.to_string() }))
}

#[test]
fn the_time_limit_is_ten_seconds() {
    assert_eq!(IO_TIMEOUT_SECS, 10);
}

#[test]
fn a_request_is_framed_with_one_line_feed() {
    assert_eq!(frame_request("ping"), "ping\n");
    assert_eq!(frame_request(""), "\n");
    assert_eq!(frame_request("{\"method\":\"sign\"}"), "{\"method\":\"sign\"}\n");
    assert_eq!(frame_request("a\n"), "a\n\n");
}

#[test]
fn the_steps_come_in_their_fixed_order() {
    let mut exchange = key_signer_request("ping");
    assert_eq!(exchange.state(), IpcState::Connecting);
    assert_eq!(exchange.next_action(), IpcAction::Connect);
    assert_eq!(exchange.result(), None);
    exchange.handle(IpcEvent::Succeeded, "");
    assert_eq!(exchange.next_action(), IpcAction::SetReadTimeout { seconds: 10 });
    exchange.handle(IpcEvent::Succeeded, "");
    assert_eq!(exchange.next_action(), IpcAction::SetWriteTimeout { seconds: 10 });
    exchange.handle(IpcEvent::Succeeded, "");
    assert_eq!(exchange.next_action(), IpcAction::Send);
    assert_eq!(exchange.frame(), "ping\n");
    exchange.handle(IpcEvent::Succeeded, "");
    assert_eq!(exchange.next_action(), IpcAction::Receive);
    assert_eq!(exchange.result(), None);
    exchange.handle(IpcEvent::Succeeded, "pong\n");
    assert_eq!(exchange.state(), IpcState::Completed);
    assert_eq!(exchange.next_action(), IpcAction::Finish);
    assert_eq!(exchange.result(), Some(Ok("pong".to_string())));
}

#[test]
fn an_echoing_listener_answers_ping_with_ping() {
    let mut exchange = up_to_receive("ping");
    let echoed = exchange.frame();
    exchange.handle(IpcEvent::Succeeded, &echoed);
    assert_eq!(exchange.result(), Some(Ok("ping".to_string())));
}

#[test]
fn an_echoing_listener_gives_every_plain_line_back() {
    for request in ["", "x", "  padded  ", "{\"id\":1,\"params\":[\"a b\"]}", "tab\tinside", "é"] {
        let mut exchange = up_to_receive(request);
        let echoed = exchange.frame();
        exchange.handle(IpcEvent::Succeeded, &echoed);
        assert_eq!(exchange.result(), Some(Ok(request.to_string())));
    }
}

#[test]
fn a_silent_listener_ends_in_a_timeout() {
    let mut exchange = up_to_receive("ping");
    exchange.handle(classify_read_failure(ReadFailure::TimedOut), "timed out");
    assert_eq!(exchange.state(), IpcState::Failed(IpcErrorKind::RequestTimedOut));
    assert_eq!(exchange.next_action(), IpcAction::Finish);
    assert_eq!(exchange.result(), failure(IpcErrorKind::RequestTimedOut, "timed out"));
}

#[test]
fn a_read_that_would_block_is_a_timeout_too() {
    assert_eq!(classify_read_failure(ReadFailure::TimedOut), IpcEvent::TimedOut);
    assert_eq!(classify_read_failure(ReadFailure::WouldBlock), IpcEvent::TimedOut);
    assert_eq!(classify_read_failure(ReadFailure::Other), IpcEvent::Failed);
    let mut exchange = up_to_receive("ping");
    exchange.handle(classify_read_failure(ReadFailure::WouldBlock), "would block");
    assert_eq!(exchange.state(), IpcState::Failed(IpcErrorKind::RequestTimedOut));
}

#[test]
fn another_read_failure_is_told_apart_from_a_timeout() {
    let mut exchange = up_to_receive("ping");
    exchange.handle(classify_read_failure(ReadFailure::Other), "connection reset");
    assert_eq!(exchange.result(), failure(IpcErrorKind::ResponseReadFailed, "connection reset"));
}

#[test]
fn a_missing_listener_is_unreachable() {
    let mut exchange = key_signer_request("ping");
    exchange.handle(IpcEvent::Failed, "No such file or directory (os error 2)");
    assert_eq!(exchange.state(), IpcState::Failed(IpcErrorKind::DaemonUnreachable));
    assert_eq!(
        exchange.result(),
        failure(IpcErrorKind::DaemonUnreachable, "No such file or directory (os error 2)")
    );
    let mut exchange = key_signer_request("ping");
    exchange.handle(IpcEvent::TimedOut, "slow");
    assert_eq!(exchange.state(), IpcState::Failed(IpcErrorKind::DaemonUnreachable));
}

#[test]
fn a_rejected_time_limit_ends_the_exchange_before_anything_is_sent() {
    let mut exchange = key_signer_request("ping");
    exchange.handle(IpcEvent::Succeeded, "");
    exchange.handle(IpcEvent::Failed, "invalid argument");
    assert_eq!(exchange.result(), failure(IpcErrorKind::ReadTimeoutRejected, "invalid argument"));

    let mut exchange = key_signer_request("ping");
    exchange.handle(IpcEvent::Succeeded, "");
    exchange.handle(IpcEvent::Succeeded, "");
    exchange.handle(IpcEvent::Failed, "invalid argument");
    assert_eq!(exchange.result(), failure(IpcErrorKind::WriteTimeoutRejected, "invalid argument"));
    assert_eq!(exchange.next_action(), IpcAction::Finish);
}

#[test]
fn a_failed_write_is_a_send_failure_whatever_its_reason() {
    for event in [IpcEvent::Failed, IpcEvent::TimedOut] {
        let mut exchange = key_signer_request("ping");
        for _ in 0..3 {
            exchange.handle(IpcEvent::Succeeded, "");
        }
        exchange.handle(event, "broken pipe");
        assert_eq!(exchange.result(), failure(IpcErrorKind::RequestSendFailed, "broken pipe"));
    }
}

#[test]
fn a_finished_exchange_takes_nothing_more_in() {
    let mut exchange = up_to_receive("ping");
    exchange.handle(IpcEvent::Succeeded, "pong\n");
    for event in [IpcEvent::Succeeded, IpcEvent::Failed, IpcEvent::TimedOut] {
        exchange.handle(event, "later");
        assert_eq!(exchange.state(), IpcState::Completed);
        assert_eq!(exchange.result(), Some(Ok("pong".to_string())));
    }
    let mut exchange = key_signer_request("ping");
    exchange.handle(IpcEvent::Failed, "refused");
    for event in [IpcEvent::Succeeded, IpcEvent::Failed, IpcEvent::TimedOut] {
        exchange.handle(event, "later");
        assert_eq!(exchange.result(), failure(IpcErrorKind::DaemonUnreachable, "refused"));
    }
}

#[test]
fn only_the_line_terminators_at_the_end_are_taken_off_the_response() {
    for (line, response) in [
        ("pong\r\n", "pong"),
        ("pong", "pong"),
        ("", ""),
        ("\n", ""),
        ("  pong  \n", "  pong  "),
        ("a\rb\n", "a\rb"),
        ("{\"result\": \"x y\"}\n", "{\"result\": \"x y\"}"),
    ] {
        let mut exchange = up_to_receive("ping");
        exchange.handle(IpcEvent::Succeeded, line);
        assert_eq!(exchange.result(), Some(Ok(response.to_string())), "for {:?}", line);
    }
}

#[test]
fn each_kind_of_error_has_its_text() {
    let text = |kind: IpcErrorKind| IpcError { kind, cause: "boom".to_string() }.message();
    assert_eq!(
        text(IpcErrorKind::DaemonUnreachable),
        "Failed to connect to KeySigner daemon: boom. Is the daemon running?"
    );
    assert_eq!(text(IpcErrorKind::ReadTimeoutRejected), "Failed to set read timeout: boom");
    assert_eq!(text(IpcErrorKind::WriteTimeoutRejected), "Failed to set write timeout: boom");
    assert_eq!(text(IpcErrorKind::RequestSendFailed), "Failed to send request: boom");
    assert_eq!(
        text(IpcErrorKind::RequestTimedOut),
        "Request timed out - daemon may have crashed or is unresponsive"
    );
    assert_eq!(text(IpcErrorKind::ResponseReadFailed), "Failed to read response: boom");
}

#[test]
fn the_time_limits_can_be_set_one_by_one() {
    let mut exchange = Exchange::with_timeouts("ping", 3, 7);
    assert_eq!(exchange.next_action(), IpcAction::Connect);
    exchange.handle(IpcEvent::Succeeded, "");
    assert_eq!(exchange.next_action(), IpcAction::SetReadTimeout { seconds: 3 });
    exchange.handle(IpcEvent::Succeeded, "");
    assert_eq!(exchange.next_action(), IpcAction::SetWriteTimeout { seconds: 7 });
    exchange.handle(IpcEvent::Succeeded, "");
    assert_eq!(exchange.next_action(), IpcAction::Send);
    assert_eq!(exchange.frame(), "ping\n");
}

#[test]
fn both_time_limits_are_asked_for_before_anything_is_sent() {
    let mut exchange = key_signer_request("ping");
    let mut actions = Vec::new();
    while exchange.result().is_none() {
        actions.push(exchange.next_action());
        exchange.handle(IpcEvent::Succeeded, "pong\n");
    }
    assert_eq!(
        actions,
        vec![
            IpcAction::Connect,
            IpcAction::SetReadTimeout { seconds: 10 },
            IpcAction::SetWriteTimeout { seconds: 10 },
            IpcAction::Send,
            IpcAction::Receive,
        ]
    );
}
