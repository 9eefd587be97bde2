//! The supervisor's protocol: the order in which one iteration connects,
//! starts its threads, tears them down after a fatal error, and restarts.

use vstd::prelude::*;
use vstd::string::*;
use crate::args::Backend;
use crate::error::{AppError, ErrorKind, ErrorView};

verus! {

/// Seconds to wait for the connection to the engine.
pub const CONNECT_TIMEOUT_SECS: u64 = 30;

/// Seconds to wait for a write to the engine.
pub const WRITE_TIMEOUT_SECS: u64 = 5;

/// Milliseconds before the first retry of a failed connection.
pub const RETRY_MIN_DELAY_MS: u64 = 100;

/// Milliseconds that the wait between two retries never exceeds.
pub const RETRY_MAX_DELAY_MS: u64 = 10000;

/// How often a failed connection is retried.
pub const RETRY_MAX_TIMES: usize = 10;

/// Milliseconds between the teardown of one iteration and the next.
pub const RESTART_PAUSE_MS: u64 = 100;

/// Milliseconds that a call on the message bus may take.
pub const DBUS_TIMEOUT_MS: u64 = 500;

/// Milliseconds that the bus loop waits for traffic before it looks at the
/// tripwire again.
pub const DBUS_PROCESS_SLICE_MS: u64 = 1000;

/// One step of an iteration.
#[derive(Clone, Copy, Debug, PartialEq, Eq, Structural)]
pub enum Step {
    /// Drain the fatal-error queue and make a fresh tripwire.
    Initialize,
    /// Start the thread that latches the first fatal error.
    SpawnCatcher,
    /// Connect to the engine, with retries.
    Connect,
    /// Construct the platform backend.
    BuildReceiver,
    /// Publish the error of the failed construction as fatal, so that the
    /// catcher latches it and ends.
    Abort,
    /// Start the thread that writes requests.
    SpawnWriter,
    /// Start the thread that reads answers.
    SpawnReader,
    /// Run the platform's main loop on this thread until the tripwire is set.
    MainLoop,
    /// Wait for the catcher; it ends once an error is latched.
    JoinCatcher,
    /// Send the wakeup that tells a parked worker to look at the tripwire.
    Wake,
    /// Wait for the writer, which hands back the wakeup channel.
    JoinWriter,
    /// Wait for the reader.
    JoinReader,
    /// Sleep before the next iteration.
    Pause,
    /// Leave the program: the engine cannot be reached.
    Exit,
}

/// Where the supervisor stands, as a specification value.
pub struct SupervisorView {
    /// The step to take now.
    pub step: Step,
    /// Whether the backend needs its main loop on the supervisor's thread.
    pub has_main_loop: bool,
    /// Whether the catcher was started and not yet joined.
    pub catcher: bool,
    /// Whether the writer was started and not yet joined.
    pub writer: bool,
    /// Whether the reader was started and not yet joined.
    pub reader: bool,
}

/// Whether a backend needs its main loop on the supervisor's thread. The
/// bus-based backends run theirs on a thread of their own.
pub open spec fn needs_main_loop(backend: Backend) -> bool {
    backend == Backend::Windows || backend == Backend::WindowsOnOff || backend == Backend::Mac
}

/// The supervisor before its first iteration.
pub open spec fn initial(has_main_loop: bool) -> SupervisorView {
    SupervisorView {
        step: Step::Initialize,
        has_main_loop,
        catcher: false,
        writer: false,
        reader: false,
    }
}

/// The supervisor after the step it stood at; `succeeded` says how that step
/// went, which matters for `Connect` and `BuildReceiver` only. An engine that
/// cannot be reached ends the program; a backend that cannot be built ends
/// the iteration, which is torn down and started again like any other.
pub open spec fn after(s: SupervisorView, succeeded: bool) -> SupervisorView {
    match s.step {
        Step::Initialize => SupervisorView { step: Step::SpawnCatcher, ..s },
        Step::SpawnCatcher => SupervisorView { step: Step::Connect, catcher: true, ..s },
        Step::Connect => SupervisorView {
            step: if succeeded {
                Step::BuildReceiver
            } else {
                Step::Exit
            },
            ..s
        },
        Step::BuildReceiver => SupervisorView {
            step: if succeeded {
                Step::SpawnWriter
            } else {
                Step::Abort
            },
            ..s
        },
        Step::Abort => SupervisorView { step: Step::JoinCatcher, ..s },
        Step::SpawnWriter => SupervisorView { step: Step::SpawnReader, writer: true, ..s },
        Step::SpawnReader => SupervisorView {
            step: if s.has_main_loop {
                Step::MainLoop
            } else {
                Step::JoinCatcher
            },
            reader: true,
            ..s
        },
        Step::MainLoop => SupervisorView { step: Step::JoinCatcher, ..s },
        Step::JoinCatcher => SupervisorView {
            step: if s.writer {
                Step::Wake
            } else {
                Step::Pause
            },
            catcher: false,
            ..s
        },
        Step::Wake => SupervisorView { step: Step::JoinWriter, ..s },
        Step::JoinWriter => SupervisorView { step: Step::JoinReader, writer: false, ..s },
        Step::JoinReader => SupervisorView { step: Step::Pause, reader: false, ..s },
        Step::Pause => SupervisorView { step: Step::Initialize, ..s },
        Step::Exit => s,
    }
}

/// The supervisor after a run of steps whose outcomes are `outcomes`.
pub open spec fn after_all(s: SupervisorView, outcomes: Seq<bool>) -> SupervisorView
    decreases outcomes.len(),
{
    if outcomes.len() == 0 {
        s
    } else {
        after(after_all(s, outcomes.drop_last()), outcomes.last())
    }
}

/// Which threads run at each step: the catcher from its start up to its
/// join, the writer and the reader likewise (both or, after a failed
/// construction, neither when the catcher is joined), and none of them at
/// the first and at the last step of an iteration.
pub open spec fn threads_match_step(s: SupervisorView) -> bool {
    match s.step {
        Step::Initialize => !s.catcher && !s.writer && !s.reader,
        Step::SpawnCatcher => !s.catcher && !s.writer && !s.reader,
        Step::Connect => s.catcher && !s.writer && !s.reader,
        Step::BuildReceiver => s.catcher && !s.writer && !s.reader,
        Step::Abort => s.catcher && !s.writer && !s.reader,
        Step::SpawnWriter => s.catcher && !s.writer && !s.reader,
        Step::SpawnReader => s.catcher && s.writer && !s.reader,
        Step::MainLoop => s.catcher && s.writer && s.reader && s.has_main_loop,
        Step::JoinCatcher => s.catcher && s.writer == s.reader,
        Step::Wake => !s.catcher && s.writer && s.reader,
        Step::JoinWriter => !s.catcher && s.writer && s.reader,
        Step::JoinReader => !s.catcher && !s.writer && s.reader,
        Step::Pause => !s.catcher && !s.writer && !s.reader,
        Step::Exit => s.catcher && !s.writer && !s.reader,
    }
}

/// The supervisor of the reconnect loop. It says which step comes next; the
/// caller takes the step and reports how it went.
pub struct Supervisor {
    step: Step,
    has_main_loop: bool,
    catcher: bool,
    writer: bool,
    reader: bool,
}

impl View for Supervisor {
    type V = SupervisorView;

    closed spec fn view(&self) -> SupervisorView {
        SupervisorView {
            step: self.step,
            has_main_loop: self.has_main_loop,
            catcher: self.catcher,
            writer: self.writer,
            reader: self.reader,
        }
    }
}

/// Tells whether a backend needs its main loop on the supervisor's thread.
pub fn runs_main_loop(backend: Backend) -> (needs: bool)
    ensures
        needs == needs_main_loop(backend),
{
    match backend {
        Backend::Windows => true,
        Backend::WindowsOnOff => true,
        Backend::Mac => true,
        _ => false,
    }
}

impl Supervisor {
    /// A supervisor before its first iteration.
    pub fn new(backend: Backend) -> (supervisor: Self)
        ensures
            supervisor@ == initial(needs_main_loop(backend)),
    {
        Supervisor {
            step: Step::Initialize,
            has_main_loop: runs_main_loop(backend),
            catcher: false,
            writer: false,
            reader: false,
        }
    }

    /// The step to take now.
    pub fn step(&self) -> (step: Step)
        ensures
            step == self@.step,
    {
        self.step
    }

    /// How many of the iteration's threads are started and not yet joined.
    pub fn live_threads(&self) -> (count: usize)
        ensures
            count == (if self@.catcher {
                1int
            } else {
                0int
            }) + (if self@.writer {
                1int
            } else {
                0int
            }) + (if self@.reader {
                1int
            } else {
                0int
            }),
    {
        let mut count: usize = 0;
        if self.catcher {
            count += 1;
        }
        if self.writer {
            count += 1;
        }
        if self.reader {
            count += 1;
        }
        count
    }

    /// Records that the current step was taken and moves to the next one.
    /// `succeeded` matters after `Connect`, whose failure ends the program,
    /// and after `BuildReceiver`, whose failure ends the iteration.
    pub fn completed(&mut self, succeeded: bool) -> (next: Step)
        ensures
            final(self)@ == after(old(self)@, succeeded),
            next == final(self)@.step,
    {
        match self.step {
            Step::Initialize => {
                self.step = Step::SpawnCatcher;
            },
            Step::SpawnCatcher => {
                self.catcher = true;
                self.step = Step::Connect;
            },
            Step::Connect => {
                self.step = if succeeded {
                    Step::BuildReceiver
                } else {
                    Step::Exit
                };
            },
            Step::BuildReceiver => {
                self.step = if succeeded {
                    Step::SpawnWriter
                } else {
                    Step::Abort
                };
            },
            Step::Abort => {
                self.step = Step::JoinCatcher;
            },
            Step::SpawnWriter => {
                self.writer = true;
                self.step = Step::SpawnReader;
            },
            Step::SpawnReader => {
                self.reader = true;
                self.step = if self.has_main_loop {
                    Step::MainLoop
                } else {
                    Step::JoinCatcher
                };
            },
            Step::MainLoop => {
                self.step = Step::JoinCatcher;
            },
            Step::JoinCatcher => {
                self.catcher = false;
                self.step = if self.writer {
                    Step::Wake
                } else {
                    Step::Pause
                };
            },
            Step::Wake => {
                self.step = Step::JoinWriter;
            },
            Step::JoinWriter => {
                self.writer = false;
                self.step = Step::JoinReader;
            },
            Step::JoinReader => {
                self.reader = false;
                self.step = Step::Pause;
            },
            Step::Pause => {
                self.step = Step::Initialize;
            },
            Step::Exit => {},
        }
        self.step
    }
}

/// The error with which the writer ends once the tripwire is set.
pub fn writer_stopped() -> (err: AppError)
    ensures
        err@ == (ErrorView {
            kind: ErrorKind::Custom,
            detail: "write_to_kanata: Caught the fatal error."@,
        }),
{
    AppError::CustomError(String::from_str("write_to_kanata: Caught the fatal error."))
}

/// The error with which the reader ends once the tripwire is set.
pub fn reader_stopped() -> (err: AppError)
    ensures
        err@ == (ErrorView {
            kind: ErrorKind::Custom,
            detail: "read_from_kanata: Caught the fatal error."@,
        }),
{
    AppError::CustomError(String::from_str("read_from_kanata: Caught the fatal error."))
}

/// Every thread that an iteration starts is joined before the next iteration
/// begins: however the steps of any number of iterations go, the threads
/// that run are those that belong to the step reached, and at the first step
/// of an iteration and during the pause before it none of them runs.
pub proof fn lemma_threads_joined_before_restart(has_main_loop: bool, outcomes: Seq<bool>)
    ensures
        threads_match_step(after_all(initial(has_main_loop), outcomes)),
        after_all(initial(has_main_loop), outcomes).has_main_loop == has_main_loop,
        after_all(initial(has_main_loop), outcomes).step == Step::Initialize || after_all(
            initial(has_main_loop),
            outcomes,
        ).step == Step::Pause ==> {
            let s = after_all(initial(has_main_loop), outcomes);
            !s.catcher && !s.writer && !s.reader
        },
    decreases outcomes.len(),
{
    if outcomes.len() > 0 {
        lemma_threads_joined_before_restart(has_main_loop, outcomes.drop_last());
    }
}

/// Teardown is bounded: once the supervisor waits for the catcher, the next
/// iteration starts after five steps where writer and reader run, and after
/// two where the backend could not be built; every thread is joined by
/// then, whatever the steps report.
pub proof fn lemma_teardown_is_bounded(s: SupervisorView, outcomes: Seq<bool>)
    requires
        s.step == Step::JoinCatcher,
        threads_match_step(s),
        outcomes.len() == (if s.writer {
            5int
        } else {
            2int
        }),
    ensures
        after_all(s, outcomes).step == Step::Initialize,
        !after_all(s, outcomes).catcher,
        !after_all(s, outcomes).writer,
        !after_all(s, outcomes).reader,
{
    if s.writer {
        let o4 = outcomes.drop_last();
        let o3 = o4.drop_last();
        let o2 = o3.drop_last();
        let o1 = o2.drop_last();
        let o0 = o1.drop_last();
        assert(after_all(s, o0) == s);
        assert(after_all(s, o1).step == Step::Wake);
        assert(after_all(s, o2).step == Step::JoinWriter);
        assert(after_all(s, o3).step == Step::JoinReader);
        assert(after_all(s, o4).step == Step::Pause);
    } else {
        let o1 = outcomes.drop_last();
        let o0 = o1.drop_last();
        assert(after_all(s, o0) == s);
        assert(after_all(s, o1).step == Step::Pause);
    }
}

/// The wakeup is sent after the catcher has ended and before the writer is
/// joined: where a writer runs, the step that follows the catcher's join is
/// the wakeup, and the writer's join follows the wakeup and nothing else.
pub proof fn lemma_wake_between_joins(s: SupervisorView, succeeded: bool)
    ensures
        s.step == Step::JoinCatcher && s.writer ==> after(s, succeeded).step == Step::Wake,
        s.step == Step::Wake ==> after(s, succeeded).step == Step::JoinWriter,
        after(s, succeeded).step == Step::JoinWriter ==> s.step == Step::Wake,
{
}

/// A backend that cannot be built does not end the program: the failure is
/// published, the catcher is joined, and after the pause the next iteration
/// begins.
pub proof fn lemma_failed_construction_restarts(s: SupervisorView)
    requires
        s.step == Step::BuildReceiver,
        threads_match_step(s),
    ensures
        after(s, false).step == Step::Abort,
        after(after(s, false), true).step == Step::JoinCatcher,
        after(after(after(s, false), true), true).step == Step::Pause,
        after(after(after(after(s, false), true), true), true).step == Step::Initialize,
        threads_match_step(after(after(after(after(s, false), true), true), true)),
{
}

} // verus!
