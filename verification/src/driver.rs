//! The pipeline driver: a two-state machine that answers every input of its
//! host with the next thing to do.
//!
//! The host pulls events from the stream source and performs the writes; the
//! driver decides. It is fed one [`Input`] at a time and never waits, so a
//! slow or failed write cannot change what it does with the next event.

use crate::event::{RawEvent, RawEventView};
use crate::question::{get_question, record_of};
use crate::sink::{
    outcome_view, request_for, upsert_request, PersistError, PersistErrorView, PersistResult,
    PersistResultView, UpsertRequest, UpsertRequestView,
};
use vstd::prelude::*;

verus! {

/// The two states of the driver.
#[derive(Clone, Copy, Debug, PartialEq, Eq)]
pub enum DriverState {
    /// Events are being consumed.
    Running,
    /// The stream source has closed. There is no way back to `Running`.
    Stopped,
}

/// What the host hands to the driver.
#[derive(Debug, PartialEq, Eq)]
pub enum Input {
    /// The stream source delivered an event.
    Received(RawEvent),
    /// The stream source is closed or exhausted.
    Closed,
    /// A write that the driver asked for has come back, with its outcome.
    Written(UpsertRequest, Result<PersistResult, PersistError>),
}

/// The mathematical value of an [`Input`].
pub enum InputView {
    Received(RawEventView),
    Closed,
    Written(UpsertRequestView, Result<PersistResultView, PersistErrorView>),
}

impl View for Input {
    type V = InputView;

    open spec fn view(&self) -> InputView {
        match *self {
            Input::Received(event) => InputView::Received(event@),
            Input::Closed => InputView::Closed,
            Input::Written(request, outcome) => InputView::Written(request@, outcome_view(outcome)),
        }
    }
}

/// One line for the local log, as data.
#[derive(Clone, Debug, PartialEq, Eq)]
pub enum LogEntry {
    /// A record was stored: who sent it, what it says, and what the store
    /// confirmed.
    Stored { username: String, message: String, result: PersistResult },
    /// A record was not stored and has been dropped: its key and the store's
    /// reason.
    Failed { key: String, error: PersistError },
}

/// The mathematical value of a [`LogEntry`].
pub enum LogEntryView {
    Stored { username: Seq<char>, message: Seq<char>, result: PersistResultView },
    Failed { key: Seq<char>, error: PersistErrorView },
}

impl View for LogEntry {
    type V = LogEntryView;

    open spec fn view(&self) -> LogEntryView {
        match *self {
            LogEntry::Stored { username, message, result } => LogEntryView::Stored {
                username: username@,
                message: message@,
                result: result@,
            },
            LogEntry::Failed { key, error } => LogEntryView::Failed { key: key@, error: error@ },
        }
    }
}

/// What the driver asks of its host.
#[derive(Clone, Debug, PartialEq, Eq)]
pub enum Action {
    /// Carry out this write, then hand back [`Input::Written`].
    Persist(UpsertRequest),
    /// Log this entry, then pull the next event.
    Report(LogEntry),
    /// Nothing to store: pull the next event.
    Continue,
    /// Stop pulling events and attempt no further write.
    Stop,
}

/// The mathematical value of an [`Action`].
pub enum ActionView {
    Persist(UpsertRequestView),
    Report(LogEntryView),
    Continue,
    Stop,
}

impl View for Action {
    type V = ActionView;

    open spec fn view(&self) -> ActionView {
        match *self {
            Action::Persist(request) => ActionView::Persist(request@),
            Action::Report(entry) => ActionView::Report(entry@),
            Action::Continue => ActionView::Continue,
            Action::Stop => ActionView::Stop,
        }
    }
}

/// The log entry for a write that has come back: a success names the sender
/// and the message along with the store's confirmation, a failure names the
/// key and the cause.
pub open spec fn report_of(
    request: UpsertRequestView,
    outcome: Result<PersistResultView, PersistErrorView>,
) -> LogEntryView {
    match outcome {
        Ok(result) => LogEntryView::Stored {
            username: request.body.username,
            message: request.body.message,
            result,
        },
        Err(error) => LogEntryView::Failed { key: request.key, error },
    }
}

/// The driver's transition: the state it moves to on `input`, and the action
/// it answers with.
///
/// While running, an event that maps to a record is answered with the write of
/// that record and any other event with `Continue`; a write that has come back
/// is answered with its log entry, whether it succeeded or failed; the closing
/// of the stream stops the driver. Once stopped, it answers everything with
/// `Stop`.
pub open spec fn transition(state: DriverState, input: InputView) -> (DriverState, ActionView) {
    match state {
        DriverState::Stopped => (DriverState::Stopped, ActionView::Stop),
        DriverState::Running => match input {
            InputView::Received(event) => match record_of(event) {
                Some(record) => (DriverState::Running, ActionView::Persist(request_for(record))),
                None => (DriverState::Running, ActionView::Continue),
            },
            InputView::Closed => (DriverState::Stopped, ActionView::Stop),
            InputView::Written(request, outcome) => (
                DriverState::Running,
                ActionView::Report(report_of(request, outcome)),
            ),
        },
    }
}

/// Describes a write that has come back.
pub fn report(
    request: UpsertRequest,
    outcome: Result<PersistResult, PersistError>,
) -> (entry: LogEntry)
    ensures
        entry@ == report_of(request@, outcome_view(outcome)),
{
    match outcome {
        Ok(result) => LogEntry::Stored {
            username: request.body.username,
            message: request.body.message,
            result,
        },
        Err(error) => LogEntry::Failed { key: request.key, error },
    }
}

/// The driver of one pipeline.
#[derive(Debug)]
pub struct Driver {
    state: DriverState,
}

impl View for Driver {
    type V = DriverState;

    closed spec fn view(&self) -> DriverState {
        self.state
    }
}

impl Driver {
    /// A driver that is running.
    pub fn new() -> (driver: Driver)
        ensures
            driver@ == DriverState::Running,
    {
        Driver { state: DriverState::Running }
    }

    /// The current state.
    pub fn state(&self) -> (state: DriverState)
        ensures
            state == self@,
    {
        self.state
    }

    /// Takes one input and answers with the next action, as [`transition`]
    /// says.
    pub fn step(&mut self, input: Input) -> (action: Action)
        ensures
            (final(self)@, action@) == transition(old(self)@, input@),
    {
        match self.state {
            DriverState::Stopped => Action::Stop,
            DriverState::Running => match input {
                Input::Received(event) => match get_question(event) {
                    Some(record) => Action::Persist(upsert_request(record)),
                    None => Action::Continue,
                },
                Input::Closed => {
                    self.state = DriverState::Stopped;
                    Action::Stop
                },
                Input::Written(request, outcome) => Action::Report(report(request, outcome)),
            },
        }
    }
}

} // verus!
