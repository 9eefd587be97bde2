//! The windows-onoff backend: reports whether the input method of the
//! focused window is switched on.

use vstd::prelude::*;
use vstd::string::*;
use crate::error::{AppError, ErrorKind, ErrorView};
use crate::receiver::EdgeDetector;
use crate::worker::{
    incoming_view, query_view, react_tolerantly, receive_step, received, received_view,
    remembered, shutdown_error, shutdown_signal, tolerant_reaction, WorkerAction,
};

verus! {

/// The window message that carries raw input.
pub const WM_INPUT: u32 = 255;

/// The window message that ends a window.
pub const WM_DESTROY: u32 = 2;

/// The keyboard message for a pressed key.
pub const WM_KEYDOWN: u32 = 256;

/// The window message that queries an input-method window.
pub const WM_IME_CONTROL: u32 = 643;

/// The query for the open status of an input method.
pub const IMC_GETOPENSTATUS: usize = 5;

/// The event for a change of the foreground window.
pub const EVENT_SYSTEM_FOREGROUND: u32 = 3;

/// The raw-input device type of a keyboard.
pub const RIM_TYPEKEYBOARD: u32 = 1;

/// The key that switches the input method on.
pub const VK_IME_ON: u16 = 22;

/// The key that switches the input method off.
pub const VK_IME_OFF: u16 = 26;

/// The key that switches a Japanese input method on.
pub const VK_JP_IME_ON: u16 = 244;

/// The key that switches a Japanese input method off.
pub const VK_JP_IME_OFF: u16 = 243;

/// The alphanumeric key of a Japanese keyboard.
pub const VK_JP_EISU: u16 = 240;

/// The Hangul key.
pub const VK_HANGUL: u16 = 21;

/// What the window procedure reads from one raw input.
#[derive(Clone, Copy, Debug, PartialEq, Eq, Structural)]
pub struct RawKey {
    /// The type of the device that the input came from.
    pub device_type: u32,
    /// The keyboard message inside the input.
    pub message: u32,
    /// The virtual-key code.
    pub vkey: u16,
}

/// What the window procedure does with a message.
#[derive(Clone, Copy, Debug, PartialEq, Eq, Structural)]
pub enum WindowAction {
    /// Wake the worker, then answer the message with zero.
    Wake,
    /// Answer the message with zero.
    Handled,
    /// Post the quit message, then answer with zero.
    Quit,
    /// Leave the message to the default window procedure.
    Default,
}

/// Whether a key is one of those that switch an input method on or off.
pub open spec fn is_ime_key(vkey: u16) -> bool {
    vkey == VK_JP_IME_ON || vkey == VK_JP_IME_OFF || vkey == VK_JP_EISU || vkey == VK_IME_ON
        || vkey == VK_IME_OFF || vkey == VK_HANGUL
}

/// Whether a raw input wakes the worker: a keyboard reports that one of the
/// input-method keys was pressed.
pub open spec fn key_wakes(key: RawKey) -> bool {
    key.device_type == RIM_TYPEKEYBOARD && key.message == WM_KEYDOWN && is_ime_key(key.vkey)
}

/// What the window procedure does with message `msg`; `raw` is the raw input
/// that came with it, or `None` if it could not be read in full.
pub open spec fn window_reaction(msg: u32, raw: Option<RawKey>) -> WindowAction {
    if msg == WM_INPUT {
        if raw is Some && key_wakes(raw.unwrap()) {
            WindowAction::Wake
        } else {
            WindowAction::Handled
        }
    } else if msg == WM_DESTROY {
        WindowAction::Quit
    } else {
        WindowAction::Default
    }
}

/// Decides what the window procedure does with a message.
pub fn wndproc(msg: u32, raw: Option<RawKey>) -> (action: WindowAction)
    ensures
        action == window_reaction(msg, raw),
{
    if msg == WM_INPUT {
        match raw {
            Some(key) => {
                if key.device_type == RIM_TYPEKEYBOARD && key.message == WM_KEYDOWN && (key.vkey
                    == VK_JP_IME_ON || key.vkey == VK_JP_IME_OFF || key.vkey == VK_JP_EISU
                    || key.vkey == VK_IME_ON || key.vkey == VK_IME_OFF || key.vkey
                    == VK_HANGUL) {
                    WindowAction::Wake
                } else {
                    WindowAction::Handled
                }
            },
            None => WindowAction::Handled,
        }
    } else if msg == WM_DESTROY {
        WindowAction::Quit
    } else {
        WindowAction::Default
    }
}

/// Whether a system event wakes the worker: only a change of the foreground
/// window does.
pub fn win_event_proc(event: u32) -> (wakes: bool)
    ensures
        wakes == (event == EVENT_SYSTEM_FOREGROUND),
{
    event == EVENT_SYSTEM_FOREGROUND
}

/// Whether the message loop takes another message: the last one was not the
/// quit message and the tripwire is not set.
pub fn pumps_another_message(got_message: bool, tripped: bool) -> (again: bool)
    ensures
        again == (got_message && !tripped),
{
    got_message && !tripped
}

/// The error with which the message loop ends: the tripwire if it is set,
/// else the quit message that must have ended the loop.
pub open spec fn main_loop_end(tripped: bool) -> ErrorView {
    if tripped {
        ErrorView { kind: ErrorKind::CaughtFatal, detail: "win_main_loop"@ }
    } else {
        ErrorView { kind: ErrorKind::WinApi, detail: "WM_QUIT received."@ }
    }
}

/// The error with which the message loop ends.
pub fn win_main_loop_stopped(tripped: bool) -> (err: AppError)
    ensures
        err@ == main_loop_end(tripped),
{
    if tripped {
        AppError::CaughtFatalError { location: String::from_str("win_main_loop") }
    } else {
        AppError::WinApiError(String::from_str("WM_QUIT received."))
    }
}

/// The status token for an open-status flag.
pub open spec fn status_of(flag: usize) -> Seq<char> {
    if flag != 0 {
        "ime-on"@
    } else {
        "ime-off"@
    }
}

/// The status token for the flag that the input-method window answered with.
pub fn ime_status(flag: usize) -> (status: String)
    ensures
        status@ == status_of(flag),
{
    if flag != 0 {
        String::from_str("ime-on")
    } else {
        String::from_str("ime-off")
    }
}

/// The error for a missing foreground window.
pub open spec fn invalid_foreground() -> ErrorView {
    ErrorView { kind: ErrorKind::WinApi, detail: "The result of GetForegroundWindow is invalid."@ }
}

/// The error for a missing input-method window.
pub open spec fn invalid_ime_window() -> ErrorView {
    ErrorView { kind: ErrorKind::WinApi, detail: "The result of ImmGetDefaultIMEWnd is invalid"@ }
}

/// The error for a query that no attempt got an answer to.
pub open spec fn unanswered() -> ErrorView {
    ErrorView { kind: ErrorKind::WinApi, detail: "Could not SendMessageTimeoutW."@ }
}

/// The error for an invalid foreground window.
pub fn foreground_window_invalid() -> (err: AppError)
    ensures
        err@ == invalid_foreground(),
{
    AppError::WinApiError(String::from_str("The result of GetForegroundWindow is invalid."))
}

/// The error for an invalid input-method window.
pub fn ime_window_invalid() -> (err: AppError)
    ensures
        err@ == invalid_ime_window(),
{
    AppError::WinApiError(String::from_str("The result of ImmGetDefaultIMEWnd is invalid"))
}

/// Whether the query goes to the focused window rather than to the
/// foreground window: the thread's GUI state could be read and names a
/// focused window.
pub fn prefers_focus_window(gui_info_read: bool, focus_valid: bool) -> (prefers: bool)
    ensures
        prefers == (gui_info_read && focus_valid),
{
    gui_info_read && focus_valid
}

/// What to do next in a query for the open status.
#[derive(Debug, PartialEq, Eq)]
pub enum QueryStep {
    /// Send the query and report the answer with `answered`.
    Send,
    /// Sleep for this many milliseconds, then ask `next` again.
    Sleep(u64),
    /// The query is over, with this result.
    Done(Result<String, AppError>),
}

/// What to do next, as a specification value.
pub enum QueryStepView {
    Send,
    Sleep(u64),
    Done(Result<Seq<char>, ErrorView>),
}

impl View for QueryStep {
    type V = QueryStepView;

    open spec fn view(&self) -> QueryStepView {
        match self {
            QueryStep::Send => QueryStepView::Send,
            QueryStep::Sleep(ms) => QueryStepView::Sleep(*ms),
            QueryStep::Done(result) => QueryStepView::Done(query_view(*result)),
        }
    }
}

/// Where a query for the open status stands.
#[derive(Clone, Copy, Debug, PartialEq, Eq, Structural)]
pub enum QueryPhase {
    /// The next step sends, if an attempt is left, or gives up.
    Ready,
    /// A query was sent and its answer is awaited.
    Sent,
    /// An answer came; the flag is held.
    Answered(usize),
    /// An attempt failed; the next step sleeps.
    Failed,
    /// The result was handed out.
    Over,
}

/// A query for the open status, as a specification value.
pub struct QueryView {
    pub retry_number: usize,
    pub retry_span: u64,
    pub attempts: usize,
    pub phase: QueryPhase,
}

/// The step that a query takes from `q`.
pub open spec fn step_of(q: QueryView) -> QueryStepView {
    match q.phase {
        QueryPhase::Ready => if q.attempts < q.retry_number {
            QueryStepView::Send
        } else {
            QueryStepView::Done(Err(unanswered()))
        },
        QueryPhase::Sent => QueryStepView::Send,
        QueryPhase::Answered(flag) => QueryStepView::Done(Ok(status_of(flag))),
        QueryPhase::Failed => QueryStepView::Sleep(q.retry_span),
        QueryPhase::Over => QueryStepView::Done(Err(unanswered())),
    }
}

/// The query after it took a step from `q`.
pub open spec fn after_step(q: QueryView) -> QueryView {
    match q.phase {
        QueryPhase::Ready => if q.attempts < q.retry_number {
            QueryView { attempts: (q.attempts + 1) as usize, phase: QueryPhase::Sent, ..q }
        } else {
            QueryView { phase: QueryPhase::Over, ..q }
        },
        QueryPhase::Sent => q,
        QueryPhase::Answered(_) => QueryView { phase: QueryPhase::Over, ..q },
        QueryPhase::Failed => QueryView { phase: QueryPhase::Ready, ..q },
        QueryPhase::Over => q,
    }
}

/// The query after the answer to the message it sent came in: `Some(flag)`
/// if the window answered in time, `None` if it did not.
pub open spec fn after_answer(q: QueryView, answer: Option<usize>) -> QueryView {
    if q.phase == QueryPhase::Sent {
        match answer {
            Some(flag) => QueryView { phase: QueryPhase::Answered(flag), ..q },
            None => QueryView { phase: QueryPhase::Failed, ..q },
        }
    } else {
        q
    }
}

/// One query for the open status of the input method: up to `retry_number`
/// attempts, with a sleep of `retry_span` milliseconds after each that got
/// no answer.
///
/// The caller alternates `next`, which says what to do, and, after each
/// `Send`, `answered`, which takes the outcome.
pub struct OpenStatusQuery {
    retry_number: usize,
    retry_span: u64,
    attempts: usize,
    phase: QueryPhase,
}

impl View for OpenStatusQuery {
    type V = QueryView;

    closed spec fn view(&self) -> QueryView {
        QueryView {
            retry_number: self.retry_number,
            retry_span: self.retry_span,
            attempts: self.attempts,
            phase: self.phase,
        }
    }
}

impl OpenStatusQuery {
    /// The attempts never exceed the limit.
    #[verifier::type_invariant]
    spec fn bounded(self) -> bool {
        self.attempts <= self.retry_number
    }

    /// A query that has sent nothing yet.
    pub fn new(retry_number: usize, retry_span: u64) -> (query: Self)
        ensures
            query@ == (QueryView {
                retry_number,
                retry_span,
                attempts: 0,
                phase: QueryPhase::Ready,
            }),
    {
        OpenStatusQuery { retry_number, retry_span, attempts: 0, phase: QueryPhase::Ready }
    }

    /// Says what to do next.
    pub fn next(&mut self) -> (step: QueryStep)
        ensures
            step@ == step_of(old(self)@),
            final(self)@ == after_step(old(self)@),
            final(self)@.attempts <= final(self)@.retry_number,
    {
        proof {
            use_type_invariant(&*self);
        }
        match self.phase {
            QueryPhase::Ready => {
                if self.attempts < self.retry_number {
                    self.attempts = self.attempts + 1;
                    self.phase = QueryPhase::Sent;
                    QueryStep::Send
                } else {
                    self.phase = QueryPhase::Over;
                    QueryStep::Done(
                        Err(AppError::WinApiError(String::from_str("Could not SendMessageTimeoutW."))),
                    )
                }
            },
            QueryPhase::Sent => QueryStep::Send,
            QueryPhase::Answered(flag) => {
                self.phase = QueryPhase::Over;
                QueryStep::Done(Ok(ime_status(flag)))
            },
            QueryPhase::Failed => {
                self.phase = QueryPhase::Ready;
                QueryStep::Sleep(self.retry_span)
            },
            QueryPhase::Over => QueryStep::Done(
                Err(AppError::WinApiError(String::from_str("Could not SendMessageTimeoutW."))),
            ),
        }
    }

    /// Takes the outcome of the message that was sent: `Some(flag)` if the
    /// window answered in time, `None` if it did not.
    pub fn answered(&mut self, answer: Option<usize>)
        ensures
            final(self)@ == after_answer(old(self)@, answer),
    {
        proof {
            use_type_invariant(&*self);
        }
        match self.phase {
            QueryPhase::Sent => {
                match answer {
                    Some(flag) => {
                        self.phase = QueryPhase::Answered(flag);
                    },
                    None => {
                        self.phase = QueryPhase::Failed;
                    },
                }
            },
            _ => {},
        }
    }

    /// How many messages the query has sent.
    pub fn attempts(&self) -> (attempts: usize)
        ensures
            attempts == self@.attempts,
            attempts <= self@.retry_number,
    {
        proof {
            use_type_invariant(self);
        }
        self.attempts
    }
}

/// The result of a query that is made with a limit of `retry_number`
/// attempts and gets `answers` to the messages it sends, in order: the status
/// of the first answer that came in time among the first `retry_number`.
pub open spec fn query_result(retry_number: usize, answers: Seq<Option<usize>>) -> Result<
    Seq<char>,
    ErrorView,
>
    decreases answers.len(),
{
    if retry_number == 0 || answers.len() == 0 {
        Err(unanswered())
    } else {
        match answers[0] {
            Some(flag) => Ok(status_of(flag)),
            None => query_result((retry_number - 1) as usize, answers.drop_first()),
        }
    }
}

/// How many messages such a query sends: one for each answer up to and
/// including the first that came in time, and no more than `retry_number`.
pub open spec fn query_sends(retry_number: usize, answers: Seq<Option<usize>>) -> nat
    decreases answers.len(),
{
    if retry_number == 0 || answers.len() == 0 {
        0
    } else {
        match answers[0] {
            Some(_) => 1,
            None => 1 + query_sends((retry_number - 1) as usize, answers.drop_first()),
        }
    }
}

/// How far a phase is from the next message or from the end of the query.
pub open spec fn phase_rank(phase: QueryPhase) -> nat {
    match phase {
        QueryPhase::Failed => 1,
        QueryPhase::Answered(_) => 1,
        _ => 0,
    }
}

/// Runs a whole query against a prepared list of answers, one for each
/// message it sends, by taking the steps that `OpenStatusQuery` says. Returns
/// the query's result with the number of answers it used: the status of the
/// first answer that came in time, if there is one among the first
/// `retry_number`.
pub fn get_window_ime_status(
    retry_number: usize,
    retry_span: u64,
    answers: &Vec<Option<usize>>,
) -> (outcome: (Result<String, AppError>, usize))
    ensures
        query_view(outcome.0) == query_result(retry_number, answers@),
        outcome.1 == query_sends(retry_number, answers@),
        outcome.1 <= retry_number,
        outcome.1 <= answers.len(),
{
    let mut query = OpenStatusQuery::new(retry_number, retry_span);
    let mut used: usize = 0;
    assert(answers@.skip(0) =~= answers@);
    loop
        invariant
            query@.retry_number == retry_number,
            query@.retry_span == retry_span,
            query@.attempts == used,
            used <= retry_number,
            used <= answers.len(),
            query@.phase == QueryPhase::Ready || query@.phase == QueryPhase::Failed
                || query@.phase is Answered,
            match query@.phase {
                QueryPhase::Answered(flag) => query_result(retry_number, answers@) == Ok::<
                    Seq<char>,
                    ErrorView,
                >(status_of(flag)),
                _ => query_result(retry_number, answers@) == query_result(
                    (retry_number - used) as usize,
                    answers@.skip(used as int),
                ),
            },
            match query@.phase {
                QueryPhase::Answered(_) => query_sends(retry_number, answers@) == used,
                _ => query_sends(retry_number, answers@) == used + query_sends(
                    (retry_number - used) as usize,
                    answers@.skip(used as int),
                ),
            },
        decreases retry_number - used, phase_rank(query@.phase),
    {
        match query.next() {
            QueryStep::Send => {
                if used < answers.len() {
                    assert(answers@.skip(used as int).drop_first() =~= answers@.skip(used + 1));
                    query.answered(answers[used]);
                    used += 1;
                } else {
                    return (
                        Err(AppError::WinApiError(String::from_str("Could not SendMessageTimeoutW."))),
                        used,
                    );
                }
            },
            QueryStep::Sleep(_) => {},
            QueryStep::Done(result) => {
                return (result, used);
            },
        }
    }
}

/// The worker's reaction to the outcome of a query: the status is forwarded,
/// a failure is logged.
pub fn worker_step(outcome: Result<String, AppError>) -> (action: WorkerAction)
    ensures
        action@ == tolerant_reaction(query_view(outcome)),
{
    react_tolerantly(outcome)
}

/// Settings of the windows-onoff backend.
#[derive(Clone, Copy, Debug)]
pub struct WindowsImeOnOffReceiverConfig {
    /// How often the open status is asked for before the query gives up.
    pub retry_number: usize,
    /// Milliseconds that one attempt waits for the answer.
    pub send_message_timeout: u32,
    /// Milliseconds to sleep after an attempt without answer.
    pub retry_span: u64,
    /// Milliseconds to wait between a wakeup and the query.
    pub delay: u64,
    /// Milliseconds between two polls, or `None` to poll never.
    pub polling_span: Option<u64>,
}

impl Default for WindowsImeOnOffReceiverConfig {
    fn default() -> (config: Self)
        ensures
            config.retry_number == 3,
            config.send_message_timeout == 100,
            config.retry_span == 100,
            config.delay == 50,
            config.polling_span == Some(1000u64),
    {
        Self {
            retry_number: 3,
            send_message_timeout: 100,
            retry_span: 100,
            delay: 50,
            polling_span: Some(1000),
        }
    }
}

/// The settings of a receiver, as a specification value.
pub struct OnOffSettings {
    pub retry_number: usize,
    pub send_message_timeout: u32,
    pub retry_span: u64,
    pub delay: u64,
    pub polling_span: Option<u64>,
}

/// The settings that a configuration holds.
pub open spec fn settings_of(config: &WindowsImeOnOffReceiverConfig) -> OnOffSettings {
    OnOffSettings {
        retry_number: config.retry_number,
        send_message_timeout: config.send_message_timeout,
        retry_span: config.retry_span,
        delay: config.delay,
        polling_span: config.polling_span,
    }
}

/// The receiving side of the windows-onoff backend.
pub struct WindowsImeOnOffReceiver {
    detector: EdgeDetector,
    retry_number: usize,
    send_message_timeout: u32,
    retry_span: u64,
    delay: u64,
    polling_span: Option<u64>,
}

impl WindowsImeOnOffReceiver {
    /// What the receiver reported last.
    pub closed spec fn memory(&self) -> Option<Seq<char>> {
        self.detector@
    }

    /// The settings the receiver was made with.
    pub closed spec fn settings(&self) -> OnOffSettings {
        OnOffSettings {
            retry_number: self.retry_number,
            send_message_timeout: self.send_message_timeout,
            retry_span: self.retry_span,
            delay: self.delay,
            polling_span: self.polling_span,
        }
    }

    /// A receiver that has reported nothing yet.
    pub fn new(config: &WindowsImeOnOffReceiverConfig) -> (receiver: Self)
        ensures
            receiver.memory() is None,
            receiver.settings() == settings_of(config),
    {
        WindowsImeOnOffReceiver {
            detector: EdgeDetector::new(),
            retry_number: config.retry_number,
            send_message_timeout: config.send_message_timeout,
            retry_span: config.retry_span,
            delay: config.delay,
            polling_span: config.polling_span,
        }
    }

    /// A fresh query for the open status, with this receiver's limits.
    pub fn query(&self) -> (query: OpenStatusQuery)
        ensures
            query@ == (QueryView {
                retry_number: self.settings().retry_number,
                retry_span: self.settings().retry_span,
                attempts: 0,
                phase: QueryPhase::Ready,
            }),
    {
        OpenStatusQuery::new(self.retry_number, self.retry_span)
    }

    /// Milliseconds that one attempt waits for the answer.
    pub fn send_message_timeout(&self) -> (timeout: u32)
        ensures
            timeout == self.settings().send_message_timeout,
    {
        self.send_message_timeout
    }

    /// Milliseconds that the worker waits before each query.
    pub fn delay(&self) -> (delay: u64)
        ensures
            delay == self.settings().delay,
    {
        self.delay
    }

    /// Milliseconds between two polls, or `None` if there is no polling
    /// thread.
    pub fn polling_span(&self) -> (span: Option<u64>)
        ensures
            span == self.settings().polling_span,
    {
        self.polling_span
    }

    /// Judges what the inner channel handed over: `Ok(Some(status))` for a
    /// status that differs from the last report, `Ok(None)` for a repetition,
    /// after which the caller reads the channel again, and an error if the
    /// channel is closed (`incoming` is `None`).
    pub fn receive(&mut self, incoming: Option<String>) -> (outcome: Result<
        Option<String>,
        AppError,
    >)
        ensures
            received_view(outcome) == received(
                old(self).memory(),
                incoming_view(incoming),
                "WindowsImeOnOffReceiver inner receiver"@,
            ),
            final(self).memory() == remembered(old(self).memory(), incoming_view(incoming)),
            final(self).settings() == old(self).settings(),
    {
        receive_step(&mut self.detector, incoming, "WindowsImeOnOffReceiver inner receiver")
    }

    /// Ends the receiver and hands back the error to publish, which wakes
    /// whoever is parked.
    pub fn shutdown(self) -> (signal: AppError)
        ensures
            signal@ == shutdown_signal(),
    {
        shutdown_error()
    }
}

} // verus!
