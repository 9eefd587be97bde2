//! The fcitx backend: a bus signal says that something changed, and the
//! worker then asks the input method for its current engine.

use vstd::prelude::*;
use vstd::string::*;
use crate::error::{message_of, AppError, ErrorKind, ErrorView};
use crate::receiver::EdgeDetector;
use crate::text::same_text;
use crate::worker::{
    incoming_view, receive_step, received, received_view, remembered, shutdown_error,
    shutdown_signal, WorkerAction, WorkerActionView,
};

verus! {

/// Settings of the fcitx backend. It has none.
#[derive(Clone, Copy, Debug)]
pub struct FcitxImeReceiverConfig {}

impl Default for FcitxImeReceiverConfig {
    fn default() -> (config: Self) {
        Self {  }
    }
}

/// The position of the first `@` in `text` at or after `from`, or the length
/// of `text` if there is none.
pub open spec fn next_at_sign(text: Seq<char>, from: int) -> int
    decreases text.len() - from,
{
    if from < 0 || from >= text.len() {
        text.len() as int
    } else if text[from] == '@' {
        from
    } else {
        next_at_sign(text, from + 1)
    }
}

/// The service and the object path named by a status-notifier item, written
/// `service@path`: the text before the first `@`, and the text between the
/// first `@` and the second, or the end. A name without `@` has no parts.
pub open spec fn item_parts(name: Seq<char>) -> Option<(Seq<char>, Seq<char>)> {
    let first = next_at_sign(name, 0);
    if first >= name.len() {
        None
    } else {
        let second = next_at_sign(name, first + 1);
        Some((name.subrange(0, first), name.subrange(first + 1, second)))
    }
}

/// The error for an item name that does not split.
pub open spec fn invalid_item_name() -> ErrorView {
    ErrorView { kind: ErrorKind::DbusParse, detail: "Invalid StatusNotifierItem name"@ }
}

/// The error for a session without an fcitx item.
pub open spec fn no_fcitx_item() -> ErrorView {
    ErrorView { kind: ErrorKind::Dbus, detail: "Couldn't find fcitx5 StatusNotifierItem"@ }
}

proof fn lemma_next_at_sign_bounds(text: Seq<char>, from: int)
    requires
        0 <= from <= text.len(),
    ensures
        from <= next_at_sign(text, from) <= text.len(),
    decreases text.len() - from,
{
    if from < text.len() && text[from] != '@' {
        lemma_next_at_sign_bounds(text, from + 1);
    }
}

fn find_at_sign(text: &str, from: usize) -> (at: usize)
    requires
        from <= text@.len(),
    ensures
        at == next_at_sign(text@, from as int),
        from <= at <= text@.len(),
{
    let len = text.unicode_len();
    let mut i = from;
    proof {
        lemma_next_at_sign_bounds(text@, from as int);
    }
    while i < len
        invariant
            from <= i <= len,
            len == text@.len(),
            next_at_sign(text@, from as int) == next_at_sign(text@, i as int),
        decreases len - i,
    {
        if text.get_char(i) == '@' {
            return i;
        }
        i += 1;
    }
    i
}

/// Splits the name of a status-notifier item into service and object path.
pub fn split_item_name(name: &str) -> (parts: Result<(String, String), AppError>)
    ensures
        match parts {
            Ok((dest, path)) => item_parts(name@) == Some((dest@, path@)),
            Err(e) => item_parts(name@) is None && e@ == invalid_item_name(),
        },
{
    let len = name.unicode_len();
    let first = find_at_sign(name, 0);
    if first >= len {
        return Err(AppError::DbusParseError(String::from_str("Invalid StatusNotifierItem name")));
    }
    let second = find_at_sign(name, first + 1);
    let dest = String::from_str(name.substring_char(0, first));
    let path = String::from_str(name.substring_char(first + 1, second));
    Ok((dest, path))
}

/// Whether the item at `index` is the last one whose `Id` is `Fcitx`.
pub open spec fn is_last_fcitx(ids: Seq<String>, index: int) -> bool {
    &&& 0 <= index < ids.len()
    &&& ids[index]@ == "Fcitx"@
    &&& forall|j: int| index < j < ids.len() ==> (#[trigger] ids[j])@ != "Fcitx"@
}

/// Finds fcitx among the registered status-notifier items, given the `Id` of
/// each: the last item whose `Id` is `Fcitx`. It is an error if there is none.
pub fn find_fcitx_item(ids: &Vec<String>) -> (found: Result<usize, AppError>)
    ensures
        match found {
            Ok(index) => is_last_fcitx(ids@, index as int),
            Err(e) => e@ == no_fcitx_item() && forall|j: int|
                0 <= j < ids.len() ==> (#[trigger] ids[j])@ != "Fcitx"@,
        },
{
    let mut i = ids.len();
    while i > 0
        invariant
            i <= ids.len(),
            forall|j: int| i <= j < ids.len() ==> (#[trigger] ids[j])@ != "Fcitx"@,
        decreases i,
    {
        i -= 1;
        if same_text(ids[i].as_str(), "Fcitx") {
            return Ok(i);
        }
    }
    Err(AppError::DbusError(String::from_str("Couldn't find fcitx5 StatusNotifierItem")))
}

/// The error with which the bus loop ends once the tripwire is set.
pub fn dbus_main_loop_stopped() -> (err: AppError)
    ensures
        err@ == (ErrorView { kind: ErrorKind::CaughtFatal, detail: "dbus_main_loop"@ }),
{
    AppError::CaughtFatalError { location: String::from_str("dbus_main_loop") }
}

/// What kind of failure the message bus reported.
#[derive(Clone, Copy, Debug, PartialEq, Eq, Structural)]
pub enum BusFailure {
    /// The connection to the bus failed.
    Io,
    /// The service does not know the method that was called.
    Method,
    /// The bus address carries an invalid identifier.
    InvalidGuid,
    /// Anything else: a failure that may pass.
    Transient,
}

/// Whether a failure of this kind ends the iteration.
pub open spec fn is_critical(failure: BusFailure) -> bool {
    failure != BusFailure::Transient
}

/// The kind of failure that a bus error of this name is; an error without a
/// name is transient.
pub open spec fn failure_named(name: Option<Seq<char>>) -> BusFailure {
    if name == Some("org.freedesktop.DBus.Error.IOError"@) {
        BusFailure::Io
    } else if name == Some("org.freedesktop.DBus.Error.UnknownMethod"@) {
        BusFailure::Method
    } else if name == Some("org.freedesktop.DBus.Error.BadAddress"@) {
        BusFailure::InvalidGuid
    } else {
        BusFailure::Transient
    }
}

/// Tells what kind of failure a bus error is, by its name.
pub fn classify_failure(name: &Option<String>) -> (failure: BusFailure)
    ensures
        failure == failure_named(
            match *name {
                Some(n) => Some(n@),
                None => None,
            },
        ),
{
    match name {
        Some(n) => {
            if same_text(n.as_str(), "org.freedesktop.DBus.Error.IOError") {
                BusFailure::Io
            } else if same_text(n.as_str(), "org.freedesktop.DBus.Error.UnknownMethod") {
                BusFailure::Method
            } else if same_text(n.as_str(), "org.freedesktop.DBus.Error.BadAddress") {
                BusFailure::InvalidGuid
            } else {
                BusFailure::Transient
            }
        },
        None => BusFailure::Transient,
    }
}

/// A failed call on the bus: what kind of failure it was, and the error to
/// report.
#[derive(Debug)]
pub struct BusError {
    pub failure: BusFailure,
    pub error: AppError,
}

/// The answer to `CurrentInputMethod`, as a specification value.
pub open spec fn answer_view(answer: Result<String, BusError>) -> Result<
    Seq<char>,
    (BusFailure, ErrorView),
> {
    match answer {
        Ok(engine) => Ok(engine@),
        Err(e) => Err((e.failure, e.error@)),
    }
}

/// What the fcitx worker does with the answer to `CurrentInputMethod`: the
/// engine is forwarded; a critical failure is published as fatal; a
/// transient one is logged, nothing is forwarded for that wakeup, and the
/// worker goes on.
pub open spec fn worker_reaction(answer: Result<Seq<char>, (BusFailure, ErrorView)>) -> WorkerActionView {
    match answer {
        Ok(engine) => WorkerActionView::Forward(engine),
        Err((failure, error)) => if is_critical(failure) {
            WorkerActionView::Escalate(error)
        } else {
            WorkerActionView::Log(message_of(error))
        },
    }
}

/// The fcitx worker's reaction to the answer of `CurrentInputMethod`.
pub fn worker_step(answer: Result<String, BusError>) -> (action: WorkerAction)
    ensures
        action@ == worker_reaction(answer_view(answer)),
{
    match answer {
        Ok(engine) => WorkerAction::Forward(engine),
        Err(e) => match e.failure {
            BusFailure::Transient => WorkerAction::Log(e.error.message()),
            _ => WorkerAction::Escalate(e.error),
        },
    }
}

/// The receiving side of the fcitx backend.
pub struct FcitxImeReceiver {
    detector: EdgeDetector,
}

impl FcitxImeReceiver {
    /// What the receiver reported last.
    pub closed spec fn memory(&self) -> Option<Seq<char>> {
        self.detector@
    }

    /// A receiver that has reported nothing yet.
    pub fn new(config: &FcitxImeReceiverConfig) -> (receiver: Self)
        ensures
            receiver.memory() is None,
    {
        let FcitxImeReceiverConfig {  } = config;
        FcitxImeReceiver { detector: EdgeDetector::new() }
    }

    /// Judges what the inner channel handed over: `Ok(Some(status))` for a
    /// status that differs from the last report, `Ok(None)` for a repetition,
    /// after which the caller reads the channel again, and an error if the
    /// channel is closed (`incoming` is `None`).
    pub fn receive(&mut self, incoming: Option<String>) -> (outcome: Result<
        Option<String>,
        AppError,
    >)
        ensures
            received_view(outcome) == received(
                old(self).memory(),
                incoming_view(incoming),
                "FcitxImeReceiver inner receiver"@,
            ),
            final(self).memory() == remembered(old(self).memory(), incoming_view(incoming)),
    {
        receive_step(&mut self.detector, incoming, "FcitxImeReceiver inner receiver")
    }

    /// Ends the receiver and hands back the error to publish, which wakes
    /// whoever is parked.
    pub fn shutdown(self) -> (signal: AppError)
        ensures
            signal@ == shutdown_signal(),
    {
        shutdown_error()
    }
}

} // verus!
