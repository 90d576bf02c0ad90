//! The IPC client: one request and one response over one connection to the
//! daemon's endpoint.
//!
//! A request is one line of text, sent with a line feed behind it; the
//! response is one line, returned without the line terminators at its end.
//! What the lines mean is not this module's business.
//!
//! Like the launch orchestrator, the client decides and never acts. An
//! [`Exchange`] names the next step for the caller to perform on the
//! connection, and takes in what came of it. Nothing is retried: each
//! failure ends the exchange with an error of its own kind.

use crate::text::is_line_terminator;
use crate::text::lemma_strip_appended_terminators;
use crate::text::strip_line_end;
use crate::text::strip_line_terminators;
use vstd::prelude::*;
use vstd::string::*;

verus! {

/// The time that reading and writing on the connection may each take, in
/// seconds, where the caller sets no other.
pub const IO_TIMEOUT_SECS: u64 = 10;

/// The kinds of failure of an exchange.
#[derive(Clone, Copy, Debug, PartialEq, Eq, Structural)]
pub enum IpcErrorKind {
    /// No listener at the endpoint: it is absent, or the connection was
    /// refused.
    DaemonUnreachable,
    /// The connection did not take the time limit for reading.
    ReadTimeoutRejected,
    /// The connection did not take the time limit for writing.
    WriteTimeoutRejected,
    /// The request could not be written.
    RequestSendFailed,
    /// The listener accepted the connection and did not answer in time.
    RequestTimedOut,
    /// The response could not be read, for another reason than time.
    ResponseReadFailed,
}

/// Where an exchange stands.
#[derive(Clone, Copy, Debug, PartialEq, Eq, Structural)]
pub enum IpcState {
    Connecting,
    SettingReadTimeout,
    SettingWriteTimeout,
    Sending,
    Receiving,
    Completed,
    Failed(IpcErrorKind),
}

/// What the caller is to do next on the connection.
#[derive(Clone, Copy, Debug, PartialEq, Eq, Structural)]
pub enum IpcAction {
    /// Open a connection to the endpoint.
    Connect,
    /// Limit the time of each read to this many seconds.
    SetReadTimeout { seconds: u64 },
    /// Limit the time of each write to this many seconds.
    SetWriteTimeout { seconds: u64 },
    /// Write the framed request.
    Send,
    /// Read one line, up to and including its line feed or up to the end of
    /// the stream.
    Receive,
    /// Nothing: the exchange is over.
    Finish,
}

/// How the step that the caller performed ended.
#[derive(Clone, Copy, Debug, PartialEq, Eq, Structural)]
pub enum IpcEvent {
    /// The step succeeded.
    Succeeded,
    /// The step ran out of time.
    TimedOut,
    /// The step failed for another reason.
    Failed,
}

/// The reasons for which reading the response can fail, as far as the client
/// tells them apart.
#[derive(Clone, Copy, Debug, PartialEq, Eq, Structural)]
pub enum ReadFailure {
    /// The time limit for reading passed.
    TimedOut,
    /// The read would have had to wait, which a connection with a time limit
    /// reports when that limit passes.
    WouldBlock,
    /// Anything else.
    Other,
}

/// The event that a failed read amounts to: running out of time is told
/// apart from every other failure.
pub open spec fn read_failure_event(failure: ReadFailure) -> IpcEvent {
    match failure {
        ReadFailure::TimedOut => IpcEvent::TimedOut,
        ReadFailure::WouldBlock => IpcEvent::TimedOut,
        ReadFailure::Other => IpcEvent::Failed,
    }
}

/// The request as it goes over the connection: the line, then one line feed.
pub open spec fn framed(request: Seq<char>) -> Seq<char> {
    request.push('\n')
}

/// The action that is asked for in `state`, in an exchange with the given
/// time limits for reading and for writing, in seconds.
pub open spec fn ipc_action_of(state: IpcState, read_secs: u64, write_secs: u64) -> IpcAction {
    match state {
        IpcState::Connecting => IpcAction::Connect,
        IpcState::SettingReadTimeout => IpcAction::SetReadTimeout { seconds: read_secs },
        IpcState::SettingWriteTimeout => IpcAction::SetWriteTimeout { seconds: write_secs },
        IpcState::Sending => IpcAction::Send,
        IpcState::Receiving => IpcAction::Receive,
        IpcState::Completed => IpcAction::Finish,
        IpcState::Failed(_) => IpcAction::Finish,
    }
}

/// The error with which a step that did not succeed ends the exchange.
///
/// Only while the response is read does running out of time have a kind of
/// its own.
pub open spec fn failure_of(state: IpcState, event: IpcEvent) -> IpcErrorKind {
    match state {
        IpcState::Connecting => IpcErrorKind::DaemonUnreachable,
        IpcState::SettingReadTimeout => IpcErrorKind::ReadTimeoutRejected,
        IpcState::SettingWriteTimeout => IpcErrorKind::WriteTimeoutRejected,
        IpcState::Sending => IpcErrorKind::RequestSendFailed,
        _ => if event is TimedOut {
            IpcErrorKind::RequestTimedOut
        } else {
            IpcErrorKind::ResponseReadFailed
        },
    }
}

/// The state that follows `state` when the pending step ended with `event`.
///
/// A step that succeeds leads to the next one in the fixed order: connect,
/// limit the reading time, limit the writing time, send, receive. A step
/// that does not succeed ends the exchange. Once the exchange is over,
/// nothing changes it.
pub open spec fn ipc_step(state: IpcState, event: IpcEvent) -> IpcState {
    match state {
        IpcState::Completed => state,
        IpcState::Failed(_) => state,
        _ => if event is Succeeded {
            match state {
                IpcState::Connecting => IpcState::SettingReadTimeout,
                IpcState::SettingReadTimeout => IpcState::SettingWriteTimeout,
                IpcState::SettingWriteTimeout => IpcState::Sending,
                IpcState::Sending => IpcState::Receiving,
                _ => IpcState::Completed,
            }
        } else {
            IpcState::Failed(failure_of(state, event))
        },
    }
}

/// The state that an exchange has reached from `state` after the events in
/// `events`, in order.
pub open spec fn ipc_run(state: IpcState, events: Seq<IpcEvent>) -> IpcState
    decreases events.len(),
{
    if events.len() == 0 {
        state
    } else {
        ipc_step(ipc_run(state, events.drop_last()), events.last())
    }
}

/// Whether an exchange in this state is over.
pub open spec fn ipc_finished(state: IpcState) -> bool {
    state is Completed || state is Failed
}

/// The number of steps that have succeeded when an exchange is in `state`.
pub open spec fn steps_done(state: IpcState) -> nat {
    match state {
        IpcState::Connecting => 0,
        IpcState::SettingReadTimeout => 1,
        IpcState::SettingWriteTimeout => 2,
        IpcState::Sending => 3,
        IpcState::Receiving => 4,
        IpcState::Completed => 5,
        IpcState::Failed(_) => 5,
    }
}

/// The text of an error of the kind `kind` with the cause `cause`.
pub open spec fn error_text(kind: IpcErrorKind, cause: Seq<char>) -> Seq<char> {
    match kind {
        IpcErrorKind::DaemonUnreachable => "Failed to connect to KeySigner daemon: "@ + cause
            + ". Is the daemon running?"@,
        IpcErrorKind::ReadTimeoutRejected => "Failed to set read timeout: "@ + cause,
        IpcErrorKind::WriteTimeoutRejected => "Failed to set write timeout: "@ + cause,
        IpcErrorKind::RequestSendFailed => "Failed to send request: "@ + cause,
        IpcErrorKind::RequestTimedOut => {
            "Request timed out - daemon may have crashed or is unresponsive"@
        },
        IpcErrorKind::ResponseReadFailed => "Failed to read response: "@ + cause,
    }
}

/// An exchange never goes back and never repeats a step: every event either
/// ends it or leads to the next step, and once it is over it stays as it is.
/// So at most one request is sent and at most one response is read.
pub proof fn lemma_ipc_progress(state: IpcState, event: IpcEvent)
    ensures
        ipc_finished(state) ==> ipc_step(state, event) == state,
        !ipc_finished(state) ==> steps_done(ipc_step(state, event)) > steps_done(state),
        !ipc_finished(state) && event is Succeeded ==> steps_done(ipc_step(state, event))
            == steps_done(state) + 1,
{
}

/// Both time limits are in place before anything is written or read:
/// whatever is reported, an exchange that has come to sending or receiving
/// has been through both settings, in that order after connecting.
pub proof fn lemma_timeouts_before_io(events: Seq<IpcEvent>)
    ensures
        ({
            let reached = ipc_run(IpcState::Connecting, events);
            (reached is Sending || reached is Receiving || reached is Completed) ==> {
                &&& events.len() >= 3
                &&& ipc_run(IpcState::Connecting, events.take(1)) is SettingReadTimeout
                &&& ipc_run(IpcState::Connecting, events.take(2)) is SettingWriteTimeout
                &&& ipc_run(IpcState::Connecting, events.take(3)) is Sending
            }
        }),
{
    let reached = ipc_run(IpcState::Connecting, events);
    if reached is Sending || reached is Receiving || reached is Completed {
        lemma_ipc_run_prefixes(events, 1);
        lemma_ipc_run_prefixes(events, 2);
        lemma_ipc_run_prefixes(events, 3);
        lemma_ipc_run_counts(events);
        if events.len() >= 1 {
            lemma_ipc_run_counts(events.take(1));
        }
        if events.len() >= 2 {
            lemma_ipc_run_counts(events.take(2));
        }
        if events.len() >= 3 {
            lemma_ipc_run_counts(events.take(3));
        }
    }
}

/// An exchange that has not failed has made exactly one step for each event
/// up to its completion, and none after it.
proof fn lemma_ipc_run_counts(events: Seq<IpcEvent>)
    ensures
        ({
            let reached = ipc_run(IpcState::Connecting, events);
            !(reached is Failed) ==> steps_done(reached) == if events.len() < 5 {
                events.len()
            } else {
                5
            }
        }),
    decreases events.len(),
{
    if events.len() > 0 {
        lemma_ipc_run_counts(events.drop_last());
    }
}

/// An exchange that has not failed after `events` had not failed after any
/// of their prefixes.
proof fn lemma_ipc_run_prefixes(events: Seq<IpcEvent>, k: int)
    requires
        !(ipc_run(IpcState::Connecting, events) is Failed),
    ensures
        0 <= k <= events.len() ==> !(ipc_run(IpcState::Connecting, events.take(k)) is Failed),
    decreases events.len(),
{
    if 0 <= k <= events.len() {
        if k == events.len() {
            assert(events.take(k) =~= events);
        } else {
            assert(events.drop_last().take(k) =~= events.take(k));
            lemma_ipc_run_prefixes(events.drop_last(), k);
        }
    }
}

/// Framing a line and stripping what a listener sends back unchanged gives
/// the line, provided it does not itself end in a line terminator.
pub proof fn lemma_echo_round_trip(request: Seq<char>)
    requires
        request.len() == 0 || !is_line_terminator(request.last()),
    ensures
        strip_line_end(framed(request)) == request,
{
    assert(framed(request) =~= request + seq!['\n']);
    lemma_strip_appended_terminators(request, seq!['\n']);
}

/// A failed exchange: its kind, and the cause that was reported with the
/// step that failed.
#[derive(Clone, Debug, PartialEq, Eq)]
pub struct IpcError {
    pub kind: IpcErrorKind,
    pub cause: String,
}

impl IpcError {
    /// The error as text for the user, with the cause where the kind has
    /// one.
    pub fn message(&self) -> (text: String)
        ensures
            text@ == error_text(self.kind, self.cause@),
    {
        match self.kind {
            IpcErrorKind::DaemonUnreachable => {
                let mut text = String::from_str("Failed to connect to KeySigner daemon: ");
                text.append(self.cause.as_str());
                text.append(". Is the daemon running?");
                text
            },
            IpcErrorKind::ReadTimeoutRejected => {
                let mut text = String::from_str("Failed to set read timeout: ");
                text.append(self.cause.as_str());
                text
            },
            IpcErrorKind::WriteTimeoutRejected => {
                let mut text = String::from_str("Failed to set write timeout: ");
                text.append(self.cause.as_str());
                text
            },
            IpcErrorKind::RequestSendFailed => {
                let mut text = String::from_str("Failed to send request: ");
                text.append(self.cause.as_str());
                text
            },
            IpcErrorKind::RequestTimedOut => String::from_str(
                "Request timed out - daemon may have crashed or is unresponsive",
            ),
            IpcErrorKind::ResponseReadFailed => {
                let mut text = String::from_str("Failed to read response: ");
                text.append(self.cause.as_str());
                text
            },
        }
    }
}

/// Tells the event that a failed read amounts to.
pub fn classify_read_failure(failure: ReadFailure) -> (event: IpcEvent)
    ensures
        event == read_failure_event(failure),
{
    match failure {
        ReadFailure::TimedOut => IpcEvent::TimedOut,
        ReadFailure::WouldBlock => IpcEvent::TimedOut,
        ReadFailure::Other => IpcEvent::Failed,
    }
}

/// Frames a request for the connection.
pub fn frame_request(request: &str) -> (frame: String)
    ensures
        frame@ == framed(request@),
{
    let mut frame = String::from_str(request);
    frame.append("\n");
    proof {
        reveal_strlit("\n");
    }
    frame
}

/// An exchange in progress, as plain values.
pub struct ExchangeView {
    /// The request line, as the caller gave it.
    pub request: Seq<char>,
    /// The time that each read may take, in seconds.
    pub read_timeout_secs: u64,
    /// The time that each write may take, in seconds.
    pub write_timeout_secs: u64,
    /// Where the exchange stands.
    pub state: IpcState,
    /// What was reported with the event that ended the exchange: the line
    /// that was read where it completed, the cause where it failed; empty
    /// while it is under way.
    pub text: Seq<char>,
}

impl ExchangeView {
    /// The step that the caller is to perform next.
    pub open spec fn action(self) -> IpcAction {
        ipc_action_of(self.state, self.read_timeout_secs, self.write_timeout_secs)
    }

    /// The exchange after the pending step ended with `event`, reported
    /// with `text`.
    pub open spec fn after(self, event: IpcEvent, text: Seq<char>) -> ExchangeView {
        let next = ipc_step(self.state, event);
        ExchangeView {
            state: next,
            text: if ipc_finished(next) && !ipc_finished(self.state) {
                text
            } else {
                self.text
            },
            ..self
        }
    }

    /// The outcome of the exchange: `None` while it is under way; the
    /// response without the line terminators at its end where it completed;
    /// the kind and the cause of the failure where it failed.
    pub open spec fn outcome(self) -> Option<Result<Seq<char>, (IpcErrorKind, Seq<char>)>> {
        match self.state {
            IpcState::Completed => Some(Ok(strip_line_end(self.text))),
            IpcState::Failed(kind) => Some(Err((kind, self.text))),
            _ => None,
        }
    }
}

/// A listener that sends every line back as it received it answers a
/// request with the request, provided the request does not itself end in a
/// line terminator.
pub proof fn lemma_echoing_listener(exchange: ExchangeView)
    requires
        exchange.state is Receiving,
        exchange.request.len() == 0 || !is_line_terminator(exchange.request.last()),
    ensures
        exchange.after(IpcEvent::Succeeded, framed(exchange.request)).outcome() == Some(
            Ok::<Seq<char>, (IpcErrorKind, Seq<char>)>(exchange.request),
        ),
{
    lemma_echo_round_trip(exchange.request);
}

/// A listener that accepts the connection and never answers ends the
/// exchange with a timeout, which is told apart from every other failure to
/// read and from a daemon that cannot be reached.
pub proof fn lemma_silent_listener(exchange: ExchangeView, failure: ReadFailure, cause: Seq<char>)
    requires
        exchange.state is Receiving,
    ensures
        exchange.after(read_failure_event(failure), cause).outcome() == Some(
            Err::<Seq<char>, (IpcErrorKind, Seq<char>)>(
                (
                    if failure is Other {
                        IpcErrorKind::ResponseReadFailed
                    } else {
                        IpcErrorKind::RequestTimedOut
                    },
                    cause,
                ),
            ),
        ),
{
}

/// An exchange in progress.
#[derive(Debug)]
pub struct Exchange {
    request: String,
    read_timeout_secs: u64,
    write_timeout_secs: u64,
    state: IpcState,
    text: String,
}

impl View for Exchange {
    type V = ExchangeView;

    closed spec fn view(&self) -> ExchangeView {
        ExchangeView {
            request: self.request@,
            read_timeout_secs: self.read_timeout_secs,
            write_timeout_secs: self.write_timeout_secs,
            state: self.state,
            text: self.text@,
        }
    }
}

/// Begins the exchange that sends `request` to the daemon and reads its
/// response, with the usual time limit for reading and for writing. Nothing
/// has happened on the connection yet: the first step is to connect.
pub fn key_signer_request(request: &str) -> (exchange: Exchange)
    ensures
        exchange@ == (ExchangeView {
            request: request@,
            read_timeout_secs: IO_TIMEOUT_SECS,
            write_timeout_secs: IO_TIMEOUT_SECS,
            state: IpcState::Connecting,
            text: Seq::<char>::empty(),
        }),
{
    Exchange::with_timeouts(request, IO_TIMEOUT_SECS, IO_TIMEOUT_SECS)
}

impl Exchange {
    /// Begins an exchange with time limits of the caller's choice, one for
    /// reading and one for writing, in seconds.
    pub fn with_timeouts(request: &str, read_timeout_secs: u64, write_timeout_secs: u64) -> (exchange:
        Exchange)
        ensures
            exchange@ == (ExchangeView {
                request: request@,
                read_timeout_secs,
                write_timeout_secs,
                state: IpcState::Connecting,
                text: Seq::<char>::empty(),
            }),
    {
        Exchange {
            request: String::from_str(request),
            read_timeout_secs,
            write_timeout_secs,
            state: IpcState::Connecting,
            text: String::new(),
        }
    }

    /// Where the exchange stands.
    pub fn state(&self) -> (state: IpcState)
        ensures
            state == self@.state,
    {
        self.state
    }

    /// The step that the caller is to perform next.
    pub fn next_action(&self) -> (action: IpcAction)
        ensures
            action == self@.action(),
    {
        match self.state {
            IpcState::Connecting => IpcAction::Connect,
            IpcState::SettingReadTimeout => IpcAction::SetReadTimeout {
                seconds: self.read_timeout_secs,
            },
            IpcState::SettingWriteTimeout => IpcAction::SetWriteTimeout {
                seconds: self.write_timeout_secs,
            },
            IpcState::Sending => IpcAction::Send,
            IpcState::Receiving => IpcAction::Receive,
            IpcState::Completed => IpcAction::Finish,
            IpcState::Failed(_) => IpcAction::Finish,
        }
    }

    /// The bytes to write when the step is to send: the request, framed.
    pub fn frame(&self) -> (frame: String)
        ensures
            frame@ == framed(self@.request),
    {
        frame_request(self.request.as_str())
    }

    /// Takes in how the pending step ended.
    ///
    /// `text` is the line that was read where a receive succeeded, and the
    /// cause where a step failed; it is kept only where `event` ends the
    /// exchange.
    pub fn handle(&mut self, event: IpcEvent, text: &str)
        ensures
            final(self)@ == old(self)@.after(event, text@),
    {
        let succeeded: bool = match event {
            IpcEvent::Succeeded => true,
            _ => false,
        };
        let timed_out: bool = match event {
            IpcEvent::TimedOut => true,
            _ => false,
        };
        let next: IpcState = match self.state {
            IpcState::Completed => IpcState::Completed,
            IpcState::Failed(kind) => IpcState::Failed(kind),
            IpcState::Connecting => if succeeded {
                IpcState::SettingReadTimeout
            } else {
                IpcState::Failed(IpcErrorKind::DaemonUnreachable)
            },
            IpcState::SettingReadTimeout => if succeeded {
                IpcState::SettingWriteTimeout
            } else {
                IpcState::Failed(IpcErrorKind::ReadTimeoutRejected)
            },
            IpcState::SettingWriteTimeout => if succeeded {
                IpcState::Sending
            } else {
                IpcState::Failed(IpcErrorKind::WriteTimeoutRejected)
            },
            IpcState::Sending => if succeeded {
                IpcState::Receiving
            } else {
                IpcState::Failed(IpcErrorKind::RequestSendFailed)
            },
            IpcState::Receiving => if succeeded {
                IpcState::Completed
            } else if timed_out {
                IpcState::Failed(IpcErrorKind::RequestTimedOut)
            } else {
                IpcState::Failed(IpcErrorKind::ResponseReadFailed)
            },
        };
        let was_over: bool = match self.state {
            IpcState::Completed => true,
            IpcState::Failed(_) => true,
            _ => false,
        };
        let is_over: bool = match next {
            IpcState::Completed => true,
            IpcState::Failed(_) => true,
            _ => false,
        };
        if is_over && !was_over {
            self.text = String::from_str(text);
        }
        self.state = next;
    }

    /// The outcome of the exchange: `None` while it is under way, the
    /// response without the line terminators at its end where it completed,
    /// and the error where it failed.
    pub fn result(&self) -> (outcome: Option<Result<String, IpcError>>)
        ensures
            match outcome {
                None => self@.outcome() is None,
                Some(Ok(response)) => self@.outcome() == Some(
                    Ok::<Seq<char>, (IpcErrorKind, Seq<char>)>(response@),
                ),
                Some(Err(error)) => self@.outcome() == Some(
                    Err::<Seq<char>, (IpcErrorKind, Seq<char>)>((error.kind, error.cause@)),
                ),
            },
    {
        match self.state {
            IpcState::Completed => Some(Ok(strip_line_terminators(self.text.as_str()))),
            IpcState::Failed(kind) => Some(Err(IpcError { kind, cause: self.text.clone() })),
            _ => None,
        }
    }
}

} // verus!
