//! What a backend's status-query worker does with the outcome of one query.

use vstd::prelude::*;
use vstd::string::*;
use crate::error::{message_of, AppError, ErrorKind, ErrorView};
use crate::receiver::{emits, EdgeDetector};

verus! {

/// The worker's reaction to one wakeup.
#[derive(Clone, Debug, PartialEq, Eq)]
pub enum WorkerAction {
    /// Push this status into the inner channel.
    Forward(String),
    /// Write this line to the error log and go on.
    Log(String),
    /// Publish this error as fatal.
    Escalate(AppError),
    /// Do nothing.
    Ignore,
}

/// A worker's reaction, as a specification value.
pub enum WorkerActionView {
    Forward(Seq<char>),
    Log(Seq<char>),
    Escalate(ErrorView),
    Ignore,
}

impl View for WorkerAction {
    type V = WorkerActionView;

    open spec fn view(&self) -> WorkerActionView {
        match self {
            WorkerAction::Forward(status) => WorkerActionView::Forward(status@),
            WorkerAction::Log(line) => WorkerActionView::Log(line@),
            WorkerAction::Escalate(e) => WorkerActionView::Escalate(e@),
            WorkerAction::Ignore => WorkerActionView::Ignore,
        }
    }
}

/// The outcome of a status query, as a specification value.
pub open spec fn query_view(outcome: Result<String, AppError>) -> Result<Seq<char>, ErrorView> {
    match outcome {
        Ok(status) => Ok(status@),
        Err(e) => Err(e@),
    }
}

/// A worker that survives a failed query: the status is forwarded, a failure
/// is only logged.
pub open spec fn tolerant_reaction(outcome: Result<Seq<char>, ErrorView>) -> WorkerActionView {
    match outcome {
        Ok(status) => WorkerActionView::Forward(status),
        Err(e) => WorkerActionView::Log(message_of(e)),
    }
}

/// Reacts to a query as a tolerant worker does.
pub fn react_tolerantly(outcome: Result<String, AppError>) -> (action: WorkerAction)
    ensures
        action@ == tolerant_reaction(query_view(outcome)),
{
    match outcome {
        Ok(status) => WorkerAction::Forward(status),
        Err(e) => WorkerAction::Log(e.message()),
    }
}

/// Whether a worker goes on after a wait on its wakeup channel: the channel
/// delivered something and the tripwire is not set.
pub open spec fn goes_on(delivered: bool, tripped: bool) -> bool {
    delivered && !tripped
}

/// Tells whether a worker goes on after a wait on its wakeup channel.
pub fn keeps_working(delivered: bool, tripped: bool) -> (again: bool)
    ensures
        again == goes_on(delivered, tripped),
{
    delivered && !tripped
}

/// The error that a receiver publishes on shutdown, so that whoever is parked
/// wakes up.
pub open spec fn shutdown_signal() -> ErrorView {
    ErrorView { kind: ErrorKind::Custom, detail: "Receiver shutdown."@ }
}

/// The error that a receiver returns when its inner channel is closed.
pub open spec fn closed_channel(receiver_name: Seq<char>) -> ErrorView {
    ErrorView { kind: ErrorKind::InnerReceiver, detail: receiver_name }
}

/// What a receiver whose detector remembers `memory` returns when its inner
/// channel hands it `incoming`: an error if the channel is closed, the token
/// if it is news, nothing if it repeats the last report.
pub open spec fn received(
    memory: Option<Seq<char>>,
    incoming: Option<Seq<char>>,
    receiver_name: Seq<char>,
) -> Result<Option<Seq<char>>, ErrorView> {
    match incoming {
        None => Err(closed_channel(receiver_name)),
        Some(token) => if emits(memory, token) {
            Ok(Some(token))
        } else {
            Ok(None)
        },
    }
}

/// The view of what a receiver returned.
pub open spec fn received_view(outcome: Result<Option<String>, AppError>) -> Result<
    Option<Seq<char>>,
    ErrorView,
> {
    match outcome {
        Ok(Some(token)) => Ok(Some(token@)),
        Ok(None) => Ok(None),
        Err(e) => Err(e@),
    }
}

/// The view of what an inner channel handed over.
pub open spec fn incoming_view(incoming: Option<String>) -> Option<Seq<char>> {
    match incoming {
        Some(token) => Some(token@),
        None => None,
    }
}

/// What a receiver remembers after its inner channel handed it `incoming`.
pub open spec fn remembered(memory: Option<Seq<char>>, incoming: Option<Seq<char>>) -> Option<
    Seq<char>,
> {
    match incoming {
        Some(token) => Some(token),
        None => memory,
    }
}

/// One step of a receiver's `receive`: judges what the inner channel handed
/// over, with the detector of the receiver named `receiver_name`.
pub fn receive_step(
    detector: &mut EdgeDetector,
    incoming: Option<String>,
    receiver_name: &str,
) -> (outcome: Result<Option<String>, AppError>)
    ensures
        received_view(outcome) == received(
            old(detector)@,
            incoming_view(incoming),
            receiver_name@,
        ),
        final(detector)@ == remembered(old(detector)@, incoming_view(incoming)),
{
    match incoming {
        Some(new_ime_status) => Ok(detector.observe(new_ime_status)),
        None => Err(AppError::InnerReceiverError { receiver_name: String::from_str(receiver_name) }),
    }
}

/// The synthetic fatal error of a shutdown.
pub fn shutdown_error() -> (err: AppError)
    ensures
        err@ == shutdown_signal(),
{
    AppError::CustomError(String::from_str("Receiver shutdown."))
}

} // verus!
