//! The macOS backend: a distributed notification says that the input source
//! changed, and the worker then asks the system for its identifier.

use vstd::prelude::*;
use vstd::string::*;
use crate::error::{AppError, ErrorKind, ErrorView};
use crate::receiver::EdgeDetector;
use crate::worker::{
    incoming_view, query_view, react_tolerantly, receive_step, received, received_view,
    remembered, shutdown_error, shutdown_signal, tolerant_reaction, WorkerAction,
};

verus! {

/// Settings of the macOS backend.
#[derive(Clone, Copy, Debug)]
pub struct MacImeReceiverConfig {
    /// Milliseconds to wait between a wakeup and the query.
    pub delay: u64,
}

impl Default for MacImeReceiverConfig {
    fn default() -> (config: Self)
        ensures
            config.delay == 50,
    {
        Self { delay: 50 }
    }
}

/// How long one slice of the run loop lasts, in seconds.
pub const RUN_LOOP_SLICE_SECS: u64 = 1;

/// The identifier of the current input source, given the `InputSourceID`
/// property as a string, or `None` if the property was no string.
pub fn input_source(property: Option<String>) -> (source: Result<String, AppError>)
    ensures
        match property {
            Some(id) => source == Ok::<String, AppError>(id),
            None => source is Err && source.unwrap_err()@ == (ErrorView {
                kind: ErrorKind::MacApi,
                detail: "Internal bug. Type miss match."@,
            }),
        },
{
    match property {
        Some(id) => Ok(id),
        None => Err(AppError::MacApiError(String::from_str("Internal bug. Type miss match."))),
    }
}

/// Whether the main loop runs another slice: the run loop was not stopped
/// and the tripwire is not set.
pub fn runs_another_slice(stopped: bool, tripped: bool) -> (again: bool)
    ensures
        again == (!stopped && !tripped),
{
    !stopped && !tripped
}

/// The error with which the main loop ends.
pub fn mac_main_loop_stopped() -> (err: AppError)
    ensures
        err@ == (ErrorView {
            kind: ErrorKind::Custom,
            detail: "mac_main_loop: Caught the fatal error."@,
        }),
{
    AppError::CustomError(String::from_str("mac_main_loop: Caught the fatal error."))
}

/// The macOS worker's reaction to the outcome of a query: the identifier is
/// forwarded, a failure is logged.
pub fn worker_step(outcome: Result<String, AppError>) -> (action: WorkerAction)
    ensures
        action@ == tolerant_reaction(query_view(outcome)),
{
    react_tolerantly(outcome)
}

/// The receiving side of the macOS backend.
pub struct MacImeReceiver {
    detector: EdgeDetector,
    delay: u64,
}

impl MacImeReceiver {
    /// What the receiver reported last.
    pub closed spec fn memory(&self) -> Option<Seq<char>> {
        self.detector@
    }

    /// The delay the receiver was made with.
    pub closed spec fn spec_delay(&self) -> u64 {
        self.delay
    }

    /// A receiver that has reported nothing yet.
    pub fn new(config: &MacImeReceiverConfig) -> (receiver: Self)
        ensures
            receiver.memory() is None,
            receiver.spec_delay() == config.delay,
    {
        MacImeReceiver { detector: EdgeDetector::new(), delay: config.delay }
    }

    /// Milliseconds that the worker waits before each query.
    pub fn delay(&self) -> (delay: u64)
        ensures
            delay == self.spec_delay(),
    {
        self.delay
    }

    /// Judges what the inner channel handed over: `Ok(Some(status))` for a
    /// status that differs from the last report, `Ok(None)` for a repetition,
    /// after which the caller reads the channel again, and an error if the
    /// channel is closed (`incoming` is `None`).
    pub fn receive(&mut self, incoming: Option<String>) -> (outcome: Result<
        Option<String>,
        AppError,
    >)
        ensures
            received_view(outcome) == received(
                old(self).memory(),
                incoming_view(incoming),
                "MacImeReceiver inner receiver"@,
            ),
            final(self).memory() == remembered(old(self).memory(), incoming_view(incoming)),
            final(self).spec_delay() == old(self).spec_delay(),
    {
        receive_step(&mut self.detector, incoming, "MacImeReceiver inner receiver")
    }

    /// Ends the receiver and hands back the error to publish, which wakes
    /// whoever is parked.
    pub fn shutdown(self) -> (signal: AppError)
        ensures
            signal@ == shutdown_signal(),
    {
        shutdown_error()
    }
}

} // verus!
