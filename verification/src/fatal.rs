//! The fatal-error channel and the tripwire it feeds.
//!
//! Any worker may publish an unrecoverable error. The first one to reach the
//! catcher is latched into the tripwire, which every worker polls; later ones
//! are dropped.

use vstd::prelude::*;
use vstd::string::*;
use crate::channel::{SingleSlot, SlotView, TryRecv, TrySend};
use crate::error::{message_of, AppError, ErrorView};

verus! {

/// The queue through which workers publish fatal errors.
pub type FatalErrorChannel = SingleSlot<AppError>;

/// The error that waits in the fatal-error queue, as a specification value.
pub open spec fn queued_error(queue: SlotView<AppError>) -> Option<ErrorView> {
    match queue.pending {
        Some(e) => Some(e@),
        None => None,
    }
}

/// The waiting error after `err` was published while `latched` stood in the
/// tripwire: the first one stays, and nothing is queued once an error is
/// latched.
pub open spec fn queued_after_publish(
    queued: Option<ErrorView>,
    latched: Option<ErrorView>,
    err: ErrorView,
) -> Option<ErrorView> {
    if latched is Some {
        queued
    } else {
        match queued {
            Some(first) => Some(first),
            None => Some(err),
        }
    }
}

/// The latched error after the catcher took `queued` out of the queue: an
/// error that is already latched stays.
pub open spec fn latched_after_catch(
    latched: Option<ErrorView>,
    queued: Option<ErrorView>,
) -> Option<ErrorView> {
    match latched {
        Some(first) => Some(first),
        None => queued,
    }
}

/// Whether the catcher writes the fatal log when it takes `queued` out of the
/// queue: only when that error is the one it latches.
pub open spec fn catch_logs(latched: Option<ErrorView>, queued: Option<ErrorView>) -> bool {
    latched is None && queued is Some
}

/// How a publication into the fatal-error queue ended.
#[derive(Clone, Copy, Debug, PartialEq, Eq, Structural)]
pub enum Publish {
    /// The error waits for the catcher.
    Queued,
    /// An error is latched already; this one was dropped.
    DroppedLatched,
    /// An earlier error is still waiting; this one was dropped.
    DroppedFull,
    /// Nobody listens any more; this one was dropped.
    DroppedDisconnected,
}

/// How a publication ends, given the queue and what is latched.
pub open spec fn publish_outcome(queue: SlotView<AppError>, latched: Option<ErrorView>) -> Publish {
    if latched is Some {
        Publish::DroppedLatched
    } else if !queue.receiver_alive {
        Publish::DroppedDisconnected
    } else if queue.pending is Some {
        Publish::DroppedFull
    } else {
        Publish::Queued
    }
}

/// What the catcher found in the queue.
#[derive(Debug, PartialEq, Eq)]
pub enum Caught {
    /// Nothing was waiting.
    Nothing,
    /// This error was waiting and is now latched.
    Latched(AppError),
    /// This error was waiting, but another one is latched already; it was
    /// discarded.
    Discarded(AppError),
}

/// What the catcher finds, given what waits and what is latched.
pub enum CaughtView {
    Nothing,
    Latched(ErrorView),
    Discarded(ErrorView),
}

impl View for Caught {
    type V = CaughtView;

    open spec fn view(&self) -> CaughtView {
        match self {
            Caught::Nothing => CaughtView::Nothing,
            Caught::Latched(e) => CaughtView::Latched(e@),
            Caught::Discarded(e) => CaughtView::Discarded(e@),
        }
    }
}

/// What the catcher reports when it takes `queued` out of the queue while
/// `latched` stands in the tripwire.
pub open spec fn caught(latched: Option<ErrorView>, queued: Option<ErrorView>) -> CaughtView {
    match queued {
        None => CaughtView::Nothing,
        Some(e) => if latched is None {
            CaughtView::Latched(e)
        } else {
            CaughtView::Discarded(e)
        },
    }
}

/// The tripwire: a cell that takes one error and keeps it. While it is empty
/// the workers run; once it holds an error they wind down.
pub struct FatalError {
    latched: Option<AppError>,
}

impl View for FatalError {
    type V = Option<ErrorView>;

    closed spec fn view(&self) -> Option<ErrorView> {
        match self.latched {
            Some(e) => Some(e@),
            None => None,
        }
    }
}

impl FatalError {
    /// An empty tripwire.
    pub fn new() -> (tripwire: FatalError)
        ensures
            tripwire@ is None,
    {
        FatalError { latched: None }
    }

    /// Whether no error has been latched yet.
    pub fn is_none(&self) -> (empty: bool)
        ensures
            empty == (self@ is None),
    {
        self.latched.is_none()
    }

    /// Latches `err` if the tripwire is still empty, and says whether it did.
    pub fn latch(&mut self, err: AppError) -> (won: bool)
        ensures
            won == (old(self)@ is None),
            final(self)@ == latched_after_catch(old(self)@, Some(err@)),
    {
        if self.latched.is_none() {
            self.latched = Some(err);
            true
        } else {
            false
        }
    }

    /// The message of the latched error, if there is one.
    pub fn latched_message(&self) -> (text: Option<String>)
        ensures
            match text {
                Some(t) => self@ is Some && t@ == message_of(self@.unwrap()),
                None => self@ is None,
            },
    {
        match &self.latched {
            Some(e) => Some(e.message()),
            None => None,
        }
    }
}

impl Default for FatalError {
    fn default() -> (tripwire: FatalError)
        ensures
            tripwire@ is None,
    {
        FatalError { latched: None }
    }
}

/// Publishes `err` through the fatal-error queue without waiting. The error
/// is dropped if one is latched in `fatal_error` already, if an earlier one
/// still waits, or if the catcher's end is gone.
pub fn send_fatal_error(queue: &mut FatalErrorChannel, fatal_error: &FatalError, err: AppError) -> (outcome:
    Publish)
    ensures
        outcome == publish_outcome(old(queue)@, fatal_error@),
        outcome == Publish::Queued ==> final(queue)@ == old(queue)@.holding(err),
        outcome != Publish::Queued ==> final(queue)@ == old(queue)@,
        old(queue)@.receiver_alive ==> queued_error(final(queue)@) == queued_after_publish(
            queued_error(old(queue)@),
            fatal_error@,
            err@,
        ),
{
    if !fatal_error.is_none() {
        return Publish::DroppedLatched;
    }
    match queue.try_send(err) {
        TrySend::Sent => Publish::Queued,
        TrySend::Full(_) => Publish::DroppedFull,
        TrySend::Disconnected(_) => Publish::DroppedDisconnected,
    }
}

/// The line that the catcher writes to the error log for the error it
/// latched.
pub fn fatal_log_line(err: &AppError) -> (line: String)
    ensures
        line@ == "Caught the FatalError: "@ + message_of(err@),
{
    String::from_str("Caught the FatalError: ").concat(err.message().as_str())
}

/// Takes the waiting error out of the queue, if there is one, latches it
/// into `fatal_error` unless an error is latched there already, and returns
/// it. The fatal log is due exactly when the result is `Latched`.
///
/// The caller waits until an error is in the queue before it calls this.
pub fn catch_fatal_error(fatal_error: &mut FatalError, queue: &mut FatalErrorChannel) -> (found:
    Caught)
    ensures
        found@ == caught(old(fatal_error)@, queued_error(old(queue)@)),
        found is Latched <==> catch_logs(old(fatal_error)@, queued_error(old(queue)@)),
        final(queue)@ == old(queue)@.emptied(),
        final(fatal_error)@ == latched_after_catch(old(fatal_error)@, queued_error(old(queue)@)),
{
    match queue.try_recv() {
        TryRecv::Value(app_err) => {
            let copy = app_err.duplicate();
            if fatal_error.latch(app_err) {
                Caught::Latched(copy)
            } else {
                Caught::Discarded(copy)
            }
        },
        _ => Caught::Nothing,
    }
}

/// Starts an iteration of the supervisor: discards an error left in the queue
/// by the iteration before, and hands out a fresh, empty tripwire.
pub fn initialize_fatal_error(queue: &mut FatalErrorChannel) -> (tripwire: FatalError)
    ensures
        final(queue)@ == old(queue)@.emptied(),
        tripwire@ is None,
{
    let _unused_fatal_error = queue.try_recv();
    FatalError::new()
}

/// One event at the fatal-error channel: a worker publishes an error, or the
/// catcher takes what waits and latches it.
pub enum FatalOp {
    Publish(ErrorView),
    Catch,
}

/// The fatal-error channel with its tripwire, as a specification value.
pub struct FatalState {
    pub queued: Option<ErrorView>,
    pub latched: Option<ErrorView>,
}

/// The state in which an iteration starts: nothing queued, nothing latched.
pub open spec fn fresh_state() -> FatalState {
    FatalState { queued: None, latched: None }
}

/// The state after one event.
pub open spec fn fatal_step(s: FatalState, op: FatalOp) -> FatalState {
    match op {
        FatalOp::Publish(e) => FatalState {
            queued: queued_after_publish(s.queued, s.latched, e),
            ..s
        },
        FatalOp::Catch => FatalState {
            queued: None,
            latched: latched_after_catch(s.latched, s.queued),
        },
    }
}

/// The state after a run of events that starts in `s`.
pub open spec fn fatal_run(s: FatalState, ops: Seq<FatalOp>) -> FatalState
    decreases ops.len(),
{
    if ops.len() == 0 {
        s
    } else {
        fatal_step(fatal_run(s, ops.drop_last()), ops.last())
    }
}

/// How many fatal log lines a run of events that starts in `s` writes.
pub open spec fn fatal_logs(s: FatalState, ops: Seq<FatalOp>) -> nat
    decreases ops.len(),
{
    if ops.len() == 0 {
        0
    } else {
        let before = fatal_run(s, ops.drop_last());
        let here: nat = if ops.last() is Catch && catch_logs(before.latched, before.queued) {
            1
        } else {
            0
        };
        fatal_logs(s, ops.drop_last()) + here
    }
}

/// The error of the first publication in a run of events.
pub open spec fn first_published(ops: Seq<FatalOp>) -> Option<ErrorView>
    decreases ops.len(),
{
    if ops.len() == 0 {
        None
    } else {
        match first_published(ops.drop_last()) {
            Some(e) => Some(e),
            None => match ops.last() {
                FatalOp::Publish(e) => Some(e),
                FatalOp::Catch => None,
            },
        }
    }
}

/// The latch is idempotent: in whatever order workers publish errors and the
/// catcher runs, starting from a fresh iteration, at most one error is
/// latched, it is the one published first, and the fatal log is written once
/// exactly when an error is latched. Until the catcher has run, the error
/// that waits in the queue is the one published first.
pub proof fn lemma_first_error_wins(ops: Seq<FatalOp>)
    ensures
        fatal_logs(fresh_state(), ops) <= 1,
        fatal_run(fresh_state(), ops).latched is Some <==> fatal_logs(fresh_state(), ops) == 1,
        fatal_run(fresh_state(), ops).latched is Some ==> fatal_run(fresh_state(), ops).latched
            == first_published(ops),
        fatal_run(fresh_state(), ops).latched is None ==> fatal_run(fresh_state(), ops).queued
            == first_published(ops),
    decreases ops.len(),
{
    if ops.len() > 0 {
        lemma_first_error_wins(ops.drop_last());
    }
}

/// Once an error is latched no event changes it, no further log is written,
/// and no later publication is queued.
pub proof fn lemma_latch_is_final(s: FatalState, ops: Seq<FatalOp>)
    requires
        s.latched is Some,
    ensures
        fatal_run(s, ops).latched == s.latched,
        fatal_logs(s, ops) == 0,
        s.queued is None ==> fatal_run(s, ops).queued is None,
    decreases ops.len(),
{
    if ops.len() > 0 {
        lemma_latch_is_final(s, ops.drop_last());
    }
}

} // verus!
