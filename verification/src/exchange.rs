//! One request/response exchange with the service, step by step.
//!
//! The caller asks [`Exchange::pending`] what to do, does it, and reports the
//! outcome to [`Exchange::advance`], until the exchange is done. Connecting is
//! tried at a fixed interval until the deadline has passed; only a failure to
//! connect counts as a timeout.

use crate::comms::{
    fresh_response_id, is_response_id, reply_of, reply_of_bytes, request_address,
    request_address_of, request_body, request_body_of, response_address, response_address_of,
    result_view, ApiResponse, ApiResponseView, PipeError, PipeErrorView, CONNECT_INTERVAL_MS,
};
use vstd::prelude::*;
use vstd::string::*;

verus! {

/// What the error of an exchange says when connecting was never tried.
pub const NEVER_CONNECTED: &'static str = "never connected";

/// What the caller of an exchange has to do next.
#[derive(Clone, Copy, PartialEq, Eq, Debug, Structural)]
pub enum ExchangeStep {
    /// Connect to the request channel.
    ConnectRequest,
    /// Wait for the interval, after a failed attempt on the request channel.
    PauseRequest,
    /// Write the request body to the request channel.
    Write,
    /// Connect to the response channel.
    ConnectResponse,
    /// Wait for the interval, after a failed attempt on the response channel.
    PauseResponse,
    /// Read the response channel until the peer closes it.
    Read,
    /// Nothing: the exchange has its result.
    Done,
}

/// What the caller reports back.
#[derive(Debug)]
pub enum ExchangeEvent {
    /// The connection was made.
    Connected,
    /// The connection could not be made, with the system's description.
    ConnectFailed { detail: String },
    /// The interval has passed.
    Paused,
    /// The body was written.
    Written,
    /// The body could not be written, with the system's description.
    WriteFailed { detail: String },
    /// The peer closed the channel after sending `bytes`.
    Received { bytes: Vec<u8> },
    /// The channel could not be read, with the system's description.
    ReadFailed { detail: String },
}

/// The mathematical content of an [`ExchangeEvent`].
pub enum ExchangeEventView {
    Connected,
    ConnectFailed { detail: Seq<char> },
    Paused,
    Written,
    WriteFailed { detail: Seq<char> },
    Received { bytes: Seq<u8> },
    ReadFailed { detail: Seq<char> },
}

impl View for ExchangeEvent {
    type V = ExchangeEventView;

    open spec fn view(&self) -> ExchangeEventView {
        match self {
            ExchangeEvent::Connected => ExchangeEventView::Connected,
            ExchangeEvent::ConnectFailed { detail } => ExchangeEventView::ConnectFailed {
                detail: detail@,
            },
            ExchangeEvent::Paused => ExchangeEventView::Paused,
            ExchangeEvent::Written => ExchangeEventView::Written,
            ExchangeEvent::WriteFailed { detail } => ExchangeEventView::WriteFailed {
                detail: detail@,
            },
            ExchangeEvent::Received { bytes } => ExchangeEventView::Received { bytes: bytes@ },
            ExchangeEvent::ReadFailed { detail } => ExchangeEventView::ReadFailed {
                detail: detail@,
            },
        }
    }
}

/// The state of an exchange.
#[derive(Debug)]
pub struct Exchange {
    command: String,
    timeout: u32,
    channel: String,
    response_id: String,
    step: ExchangeStep,
    attempts_left: u32,
    last_failure: String,
    result: Option<Result<ApiResponse, PipeError>>,
}

/// The mathematical content of an [`Exchange`].
pub struct ExchangeView {
    pub command: Seq<char>,
    pub timeout: u32,
    pub channel: Seq<char>,
    pub response_id: Seq<char>,
    pub step: ExchangeStep,
    /// Attempts to connect that are left in the current round of connecting.
    pub attempts_left: nat,
    /// What the last failed attempt to connect reported.
    pub last_failure: Seq<char>,
    pub result: Option<Result<ApiResponseView, PipeErrorView>>,
}

/// How often connecting is tried: once for each full interval that fits in
/// the timeout.
pub open spec fn connect_attempts(timeout: u32) -> nat {
    (timeout / CONNECT_INTERVAL_MS) as nat
}

impl ExchangeView {
    /// The exchange done, with the given result.
    pub open spec fn finished(
        self,
        result: Result<ApiResponseView, PipeErrorView>,
    ) -> ExchangeView {
        ExchangeView { step: ExchangeStep::Done, result: Some(result), ..self }
    }

    /// The exchange done because no connection was made in time.
    pub open spec fn timed_out(self) -> ExchangeView {
        self.finished(Err(PipeErrorView { message: self.last_failure, is_timeout: true }))
    }

    /// The exchange at the start of a round of connecting, which `step`
    /// names: as many attempts as the timeout allows are ahead; where it
    /// allows none, the exchange has timed out without one.
    pub open spec fn connect_with_timeout(self, step: ExchangeStep) -> ExchangeView {
        let fresh = ExchangeView {
            step,
            attempts_left: connect_attempts(self.timeout),
            last_failure: NEVER_CONNECTED@,
            ..self
        };
        if connect_attempts(self.timeout) == 0 {
            fresh.timed_out()
        } else {
            fresh
        }
    }

    /// The exchange after a failed attempt to connect.
    pub open spec fn refused(self, pause: ExchangeStep, detail: Seq<char>) -> ExchangeView {
        ExchangeView {
            step: pause,
            attempts_left: if self.attempts_left > 0 {
                (self.attempts_left - 1) as nat
            } else {
                0
            },
            last_failure: detail,
            ..self
        }
    }

    /// The exchange after the pause that follows a failed attempt: the next
    /// attempt where one is left, a timeout where none is.
    pub open spec fn resumed(self, connect: ExchangeStep) -> ExchangeView {
        if self.attempts_left > 0 {
            ExchangeView { step: connect, ..self }
        } else {
            self.timed_out()
        }
    }

    /// The first half of the exchange, in which the request is sent: the
    /// request channel is connected to, with retries, and the body is
    /// written. A body that cannot be written ends the exchange with an
    /// error that is no timeout.
    pub open spec fn send_message(self, event: ExchangeEventView) -> ExchangeView {
        match (self.step, event) {
            (ExchangeStep::ConnectRequest, ExchangeEventView::Connected) => ExchangeView {
                step: ExchangeStep::Write,
                ..self
            },
            (ExchangeStep::ConnectRequest, ExchangeEventView::ConnectFailed { detail }) => {
                self.refused(ExchangeStep::PauseRequest, detail)
            },
            (ExchangeStep::PauseRequest, ExchangeEventView::Paused) => self.resumed(
                ExchangeStep::ConnectRequest,
            ),
            (ExchangeStep::Write, ExchangeEventView::Written) => self.connect_with_timeout(
                ExchangeStep::ConnectResponse,
            ),
            (ExchangeStep::Write, ExchangeEventView::WriteFailed { detail }) => self.finished(
                Err(PipeErrorView { message: detail, is_timeout: false }),
            ),
            _ => self,
        }
    }

    /// The second half of the exchange, in which the reply is received: the
    /// response channel is connected to, with retries, and read to its end.
    /// What was read is the result, as [`reply_of`] gives it; a channel that
    /// cannot be read ends the exchange with an error that is no timeout.
    pub open spec fn receive_reply(self, event: ExchangeEventView) -> ExchangeView {
        match (self.step, event) {
            (ExchangeStep::ConnectResponse, ExchangeEventView::Connected) => ExchangeView {
                step: ExchangeStep::Read,
                ..self
            },
            (ExchangeStep::ConnectResponse, ExchangeEventView::ConnectFailed { detail }) => {
                self.refused(ExchangeStep::PauseResponse, detail)
            },
            (ExchangeStep::PauseResponse, ExchangeEventView::Paused) => self.resumed(
                ExchangeStep::ConnectResponse,
            ),
            (ExchangeStep::Read, ExchangeEventView::Received { bytes }) => self.finished(
                reply_of(bytes),
            ),
            (ExchangeStep::Read, ExchangeEventView::ReadFailed { detail }) => self.finished(
                Err(PipeErrorView { message: detail, is_timeout: false }),
            ),
            _ => self,
        }
    }

    /// The exchange after the caller has reported `event`. An event that does
    /// not answer the pending step changes nothing.
    pub open spec fn next(self, event: ExchangeEventView) -> ExchangeView {
        match self.step {
            ExchangeStep::ConnectRequest | ExchangeStep::PauseRequest | ExchangeStep::Write => {
                self.send_message(event)
            },
            ExchangeStep::ConnectResponse | ExchangeStep::PauseResponse | ExchangeStep::Read => {
                self.receive_reply(event)
            },
            ExchangeStep::Done => self,
        }
    }

    /// The exchange has a result exactly when it is done.
    pub open spec fn well_formed(self) -> bool {
        self.step == ExchangeStep::Done <==> self.result is Some
    }

    /// The exchange after the caller has reported `events` in turn.
    pub open spec fn run(self, events: Seq<ExchangeEventView>) -> ExchangeView
        decreases events.len(),
    {
        if events.len() == 0 {
            self
        } else {
            self.run(events.drop_last()).next(events.last())
        }
    }
}

/// An exchange that has not begun: `command` is to be sent to `channel`, the
/// reply is expected on the channel named `response_id`, and every pipe
/// operation is given `timeout` milliseconds.
pub open spec fn exchange_initial(
    command: Seq<char>,
    timeout: u32,
    channel: Seq<char>,
    response_id: Seq<char>,
) -> ExchangeView {
    ExchangeView {
        command,
        timeout,
        channel,
        response_id,
        step: ExchangeStep::ConnectRequest,
        attempts_left: 0,
        last_failure: NEVER_CONNECTED@,
        result: None,
    }.connect_with_timeout(ExchangeStep::ConnectRequest)
}

/// The view of the result of an exchange, where it has one.
pub open spec fn outcome_view(r: Option<Result<ApiResponse, PipeError>>) -> Option<
    Result<ApiResponseView, PipeErrorView>,
> {
    match r {
        Some(r) => Some(result_view(r)),
        None => None,
    }
}

impl View for Exchange {
    type V = ExchangeView;

    closed spec fn view(&self) -> ExchangeView {
        ExchangeView {
            command: self.command@,
            timeout: self.timeout,
            channel: self.channel@,
            response_id: self.response_id@,
            step: self.step,
            attempts_left: self.attempts_left as nat,
            last_failure: self.last_failure@,
            result: outcome_view(self.result),
        }
    }
}

impl Exchange {
    /// Begins an exchange whose reply is expected on the channel named
    /// `response_id`.
    pub fn start(command: &str, timeout: u32, channel: &str, response_id: &str) -> (e: Exchange)
        ensures
            e@ == exchange_initial(command@, timeout, channel@, response_id@),
    {
        let e = Exchange {
            command: String::from_str(command),
            timeout,
            channel: String::from_str(channel),
            response_id: String::from_str(response_id),
            step: ExchangeStep::ConnectRequest,
            attempts_left: 0,
            last_failure: String::from_str(NEVER_CONNECTED),
            result: None,
        };
        e.connect_with_timeout(ExchangeStep::ConnectRequest)
    }

    fn finished(self, result: Result<ApiResponse, PipeError>) -> (e: Exchange)
        ensures
            e@ == self@.finished(result_view(result)),
    {
        Exchange {
            command: self.command,
            timeout: self.timeout,
            channel: self.channel,
            response_id: self.response_id,
            step: ExchangeStep::Done,
            attempts_left: self.attempts_left,
            last_failure: self.last_failure,
            result: Some(result),
        }
    }

    fn timed_out(self) -> (e: Exchange)
        ensures
            e@ == self@.timed_out(),
    {
        let error = PipeError { message: self.last_failure.clone(), is_timeout: true };
        self.finished(Err(error))
    }

    fn connect_with_timeout(self, step: ExchangeStep) -> (e: Exchange)
        ensures
            e@ == self@.connect_with_timeout(step),
    {
        let attempts = self.timeout / CONNECT_INTERVAL_MS;
        let fresh = Exchange {
            command: self.command,
            timeout: self.timeout,
            channel: self.channel,
            response_id: self.response_id,
            step,
            attempts_left: attempts,
            last_failure: String::from_str(NEVER_CONNECTED),
            result: self.result,
        };
        if attempts == 0 {
            fresh.timed_out()
        } else {
            fresh
        }
    }

    fn refused(self, pause: ExchangeStep, detail: String) -> (e: Exchange)
        ensures
            e@ == self@.refused(pause, detail@),
    {
        Exchange {
            command: self.command,
            timeout: self.timeout,
            channel: self.channel,
            response_id: self.response_id,
            step: pause,
            attempts_left: if self.attempts_left > 0 {
                self.attempts_left - 1
            } else {
                0
            },
            last_failure: detail,
            result: self.result,
        }
    }

    fn resumed(self, connect: ExchangeStep) -> (e: Exchange)
        ensures
            e@ == self@.resumed(connect),
    {
        if self.attempts_left > 0 {
            self.at(connect)
        } else {
            self.timed_out()
        }
    }

    fn at(self, step: ExchangeStep) -> (e: Exchange)
        ensures
            e@ == (ExchangeView { step, ..self@ }),
    {
        Exchange {
            command: self.command,
            timeout: self.timeout,
            channel: self.channel,
            response_id: self.response_id,
            step,
            attempts_left: self.attempts_left,
            last_failure: self.last_failure,
            result: self.result,
        }
    }

    fn send_message(self, event: ExchangeEvent) -> (e: Exchange)
        ensures
            e@ == self@.send_message(event@),
    {
        match (self.step, event) {
            (ExchangeStep::ConnectRequest, ExchangeEvent::Connected) => self.at(
                ExchangeStep::Write,
            ),
            (ExchangeStep::ConnectRequest, ExchangeEvent::ConnectFailed { detail }) => {
                self.refused(ExchangeStep::PauseRequest, detail)
            },
            (ExchangeStep::PauseRequest, ExchangeEvent::Paused) => self.resumed(
                ExchangeStep::ConnectRequest,
            ),
            (ExchangeStep::Write, ExchangeEvent::Written) => self.connect_with_timeout(
                ExchangeStep::ConnectResponse,
            ),
            (ExchangeStep::Write, ExchangeEvent::WriteFailed { detail }) => self.finished(
                Err(PipeError { message: detail, is_timeout: false }),
            ),
            _ => self,
        }
    }

    fn receive_reply(self, event: ExchangeEvent) -> (e: Exchange)
        ensures
            e@ == self@.receive_reply(event@),
    {
        match (self.step, event) {
            (ExchangeStep::ConnectResponse, ExchangeEvent::Connected) => self.at(
                ExchangeStep::Read,
            ),
            (ExchangeStep::ConnectResponse, ExchangeEvent::ConnectFailed { detail }) => {
                self.refused(ExchangeStep::PauseResponse, detail)
            },
            (ExchangeStep::PauseResponse, ExchangeEvent::Paused) => self.resumed(
                ExchangeStep::ConnectResponse,
            ),
            (ExchangeStep::Read, ExchangeEvent::Received { bytes }) => {
                let reply = reply_of_bytes(bytes);
                self.finished(reply)
            },
            (ExchangeStep::Read, ExchangeEvent::ReadFailed { detail }) => self.finished(
                Err(PipeError { message: detail, is_timeout: false }),
            ),
            _ => self,
        }
    }

    /// The exchange after the caller has reported `event`.
    pub fn advance(self, event: ExchangeEvent) -> (e: Exchange)
        ensures
            e@ == self@.next(event@),
    {
        match self.step {
            ExchangeStep::ConnectRequest | ExchangeStep::PauseRequest | ExchangeStep::Write => {
                self.send_message(event)
            },
            ExchangeStep::ConnectResponse | ExchangeStep::PauseResponse | ExchangeStep::Read => {
                self.receive_reply(event)
            },
            ExchangeStep::Done => self,
        }
    }

    /// What the caller has to do next.
    pub fn pending(&self) -> (step: ExchangeStep)
        ensures
            step == self@.step,
    {
        self.step
    }

    /// Milliseconds granted to each pipe operation.
    pub fn timeout(&self) -> (timeout: u32)
        ensures
            timeout == self@.timeout,
    {
        self.timeout
    }

    /// Milliseconds to wait at a pause.
    pub fn pause_ms(&self) -> (ms: u32)
        ensures
            ms == CONNECT_INTERVAL_MS,
    {
        CONNECT_INTERVAL_MS
    }

    /// The address to connect to for the request.
    pub fn request_address(&self) -> (address: String)
        ensures
            address@ == request_address_of(self@.channel),
    {
        request_address(self.channel.as_str())
    }

    /// The address to connect to for the reply.
    pub fn response_address(&self) -> (address: String)
        ensures
            address@ == response_address_of(self@.response_id),
    {
        response_address(self.response_id.as_str())
    }

    /// What to write to the request channel.
    pub fn body(&self) -> (body: String)
        ensures
            body@ == request_body_of(self@.command, self@.response_id),
    {
        request_body(self.command.as_str(), self.response_id.as_str())
    }

    /// The result of the exchange, once it is done.
    pub fn result(&self) -> (r: Option<Result<ApiResponse, PipeError>>)
        ensures
            outcome_view(r) == self@.result,
    {
        match &self.result {
            None => None,
            Some(Ok(reply)) => Some(
                Ok(
                    ApiResponse {
                        status_code: reply.status_code.clone(),
                        message: reply.message.clone(),
                        details: reply.details.clone(),
                    },
                ),
            ),
            Some(Err(e)) => Some(
                Err(PipeError { message: e.message.clone(), is_timeout: e.is_timeout }),
            ),
        }
    }
}

/// Begins the exchange that sends `msg` to `channel` and waits for the reply
/// on a response channel with a fresh random name.
pub fn send_message_and_get_reply(msg: &str, timeout: u32, channel: &str) -> (e: Exchange)
    ensures
        is_response_id(e@.response_id),
        e@ == exchange_initial(msg@, timeout, channel@, e@.response_id),
{
    let response_id = fresh_response_id();
    Exchange::start(msg, timeout, channel, response_id.as_str())
}

/// An exchange begins well-formed and stays so: once it is done, and not
/// before, it has its result.
pub proof fn lemma_well_formed(
    command: Seq<char>,
    timeout: u32,
    channel: Seq<char>,
    response_id: Seq<char>,
    s: ExchangeView,
    event: ExchangeEventView,
)
    ensures
        exchange_initial(command, timeout, channel, response_id).well_formed(),
        s.well_formed() ==> s.next(event).well_formed(),
{
}

/// What a caller reports when the peer refuses every connection: for each
/// attempt the failure, then the pause.
pub open spec fn refusals(details: Seq<Seq<char>>) -> Seq<ExchangeEventView>
    decreases details.len(),
{
    if details.len() == 0 {
        Seq::empty()
    } else {
        refusals(details.drop_last()).push(
            ExchangeEventView::ConnectFailed { detail: details.last() },
        ).push(ExchangeEventView::Paused)
    }
}

/// Reporting one more event is one more step.
pub proof fn lemma_run_push(s: ExchangeView, events: Seq<ExchangeEventView>, e: ExchangeEventView)
    ensures
        s.run(events.push(e)) == s.run(events).next(e),
{
    assert(events.push(e).drop_last() =~= events);
}

/// While attempts are left, each refusal is followed by another attempt.
pub proof fn lemma_refused_attempts(s: ExchangeView, details: Seq<Seq<char>>)
    requires
        s.step == ExchangeStep::ConnectRequest,
        details.len() < s.attempts_left,
    ensures
        s.run(refusals(details)) == (ExchangeView {
            attempts_left: (s.attempts_left - details.len()) as nat,
            last_failure: if details.len() == 0 {
                s.last_failure
            } else {
                details.last()
            },
            ..s
        }),
    decreases details.len(),
{
    if details.len() > 0 {
        let before = refusals(details.drop_last());
        let failed = ExchangeEventView::ConnectFailed { detail: details.last() };
        lemma_refused_attempts(s, details.drop_last());
        lemma_run_push(s, before, failed);
        lemma_run_push(s, before.push(failed), ExchangeEventView::Paused);
    }
}

/// A peer that accepts no connection: the exchange tries as often as the
/// timeout allows, pausing after each attempt, and then ends in a timeout that
/// carries what the last attempt reported. The pauses add up to the timeout,
/// less than one interval short at most.
pub proof fn law_unreachable_peer_times_out(
    command: Seq<char>,
    timeout: u32,
    channel: Seq<char>,
    response_id: Seq<char>,
    details: Seq<Seq<char>>,
)
    requires
        details.len() == connect_attempts(timeout),
    ensures
        forall|k: int|
            0 <= k < details.len() ==> (#[trigger] exchange_initial(
                command,
                timeout,
                channel,
                response_id,
            ).run(refusals(details.take(k)))).step == ExchangeStep::ConnectRequest,
        exchange_initial(command, timeout, channel, response_id).run(refusals(details)).step
            == ExchangeStep::Done,
        exchange_initial(command, timeout, channel, response_id).run(refusals(details)).result
            == Some(
            Err::<ApiResponseView, PipeErrorView>(
                PipeErrorView {
                    message: if details.len() == 0 {
                        NEVER_CONNECTED@
                    } else {
                        details.last()
                    },
                    is_timeout: true,
                },
            ),
        ),
        timeout - CONNECT_INTERVAL_MS < details.len() * CONNECT_INTERVAL_MS <= timeout,
{
    let start = exchange_initial(command, timeout, channel, response_id);
    assert forall|k: int| 0 <= k < details.len() implies (#[trigger] start.run(
        refusals(details.take(k)),
    )).step == ExchangeStep::ConnectRequest by {
        lemma_refused_attempts(start, details.take(k));
    }
    if details.len() > 0 {
        let before = refusals(details.drop_last());
        let failed = ExchangeEventView::ConnectFailed { detail: details.last() };
        lemma_refused_attempts(start, details.drop_last());
        lemma_run_push(start, before, failed);
        lemma_run_push(start, before.push(failed), ExchangeEventView::Paused);
    }
}

/// An exchange in which every step succeeds at once ends with what the
/// bytes that were read denote.
pub proof fn law_answered_exchange_gives_the_reply(
    command: Seq<char>,
    timeout: u32,
    channel: Seq<char>,
    response_id: Seq<char>,
    bytes: Seq<u8>,
)
    requires
        connect_attempts(timeout) > 0,
    ensures
        exchange_initial(command, timeout, channel, response_id).next(
            ExchangeEventView::Connected,
        ).next(ExchangeEventView::Written).next(ExchangeEventView::Connected).next(
            ExchangeEventView::Received { bytes },
        ).result == Some(reply_of(bytes)),
{
}

/// Only a failure to connect is a timeout: a step that ends the exchange in
/// an error gives a timeout exactly where the caller was connecting, or was
/// about to and the timeout left no attempt.
pub proof fn law_timeout_means_not_connected(s: ExchangeView, event: ExchangeEventView)
    requires
        s.step != ExchangeStep::Done,
        s.next(event).step == ExchangeStep::Done,
    ensures
        s.next(event).result is Some,
        s.next(event).result matches Some(Err(e)) ==> (e.is_timeout <==> (s.step
            == ExchangeStep::PauseRequest || s.step == ExchangeStep::PauseResponse || (s.step
            == ExchangeStep::Write && event == ExchangeEventView::Written))),
        s.step == ExchangeStep::Read ==> (s.next(event).result matches Some(Err(e))
            ==> !e.is_timeout),
{
}

} // verus!
