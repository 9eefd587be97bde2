//! The ibus backend: the engine's name arrives with the bus signal itself.

use vstd::prelude::*;
use vstd::string::*;
use crate::error::{AppError, ErrorKind, ErrorView};
use crate::message::Message;
use crate::receiver::EdgeDetector;
use crate::worker::{
    incoming_view, receive_step, received, received_view, remembered, shutdown_error,
    shutdown_signal, WorkerAction, WorkerActionView,
};

verus! {

/// Settings of the ibus backend. It has none.
#[derive(Clone, Copy, Debug)]
pub struct IbusImeReceiverConfig {}

impl Default for IbusImeReceiverConfig {
    fn default() -> (config: Self) {
        Self {  }
    }
}

/// Whether a character is white space in Unicode's sense.
pub open spec fn is_white_space(c: char) -> bool {
    let code = c as u32;
    (0x09 <= code <= 0x0D) || code == 0x20 || code == 0x85 || code == 0xA0 || code == 0x1680 || (
    0x2000 <= code <= 0x200A) || code == 0x2028 || code == 0x2029 || code == 0x202F || code
        == 0x205F || code == 0x3000
}

/// Text without the white space at its end.
pub open spec fn trimmed_end(text: Seq<char>) -> Seq<char>
    decreases text.len(),
{
    if text.len() > 0 && is_white_space(text.last()) {
        trimmed_end(text.drop_last())
    } else {
        text
    }
}

/// Decodes bytes as UTF-8 with `String::from_utf8`.
///
/// Trusted: the result is `Some` exactly for well-formed UTF-8, and then
/// holds the decoded characters.
#[verifier::external_body]
fn decode_text(bytes: Vec<u8>) -> (text: Option<String>)
    ensures
        match text {
            Some(t) => vstd::utf8::valid_utf8(bytes@) && t@ == vstd::utf8::decode_utf8(bytes@),
            None => !vstd::utf8::valid_utf8(bytes@),
        },
{
    String::from_utf8(bytes).ok()
}

/// Removes trailing white space with `str::trim_end`.
///
/// Trusted: the result is the text without its longest tail of characters
/// that Unicode counts as white space.
#[verifier::external_body]
fn trim_text_end(text: &str) -> (trimmed: String)
    ensures
        trimmed@ == trimmed_end(text@),
{
    text.trim_end().to_owned()
}

/// The bus address that `ibus address` printed: its output decoded as UTF-8,
/// without the white space at the end. Output that is no UTF-8 is an error.
pub fn bus_address(output: Vec<u8>) -> (address: Result<String, AppError>)
    ensures
        vstd::utf8::valid_utf8(output@) ==> address is Ok && address.unwrap()@ == trimmed_end(
            vstd::utf8::decode_utf8(output@),
        ),
        !vstd::utf8::valid_utf8(output@) ==> address is Err && address.unwrap_err()@ == (ErrorView {
            kind: ErrorKind::Custom,
            detail: "Cannot get 'ibus address'"@,
        }),
{
    match decode_text(output) {
        Some(text) => Ok(trim_text_end(text.as_str())),
        None => Err(AppError::CustomError(String::from_str("Cannot get 'ibus address'"))),
    }
}

/// The wakeup for a `GlobalEngineChanged` signal, given the engine name read
/// from it, or `None` if the signal's payload was no string.
pub fn engine_changed(engine_name: Option<String>) -> (wakeup: Result<Message, AppError>)
    ensures
        match engine_name {
            Some(name) => wakeup == Ok::<Message, AppError>(Message::ImeStatus(name)),
            None => wakeup is Err && wakeup.unwrap_err()@ == (ErrorView {
                kind: ErrorKind::DbusParse,
                detail: "Couldn't read GlobalEngineChanged."@,
            }),
        },
{
    match engine_name {
        Some(name) => Ok(Message::ImeStatus(name)),
        None => Err(
            AppError::DbusParseError(String::from_str("Couldn't read GlobalEngineChanged.")),
        ),
    }
}

/// The error with which the bus loop ends once the tripwire is set.
pub fn dbus_main_loop_stopped() -> (err: AppError)
    ensures
        err@ == (ErrorView { kind: ErrorKind::CaughtFatal, detail: "dbus_main_loop"@ }),
{
    AppError::CaughtFatalError { location: String::from_str("dbus_main_loop") }
}

/// What the ibus worker does with a wakeup: a status that came with the
/// signal is forwarded, and nothing else is. The wakeup of a teardown only
/// wakes the worker, and a request to poll is ignored, for this backend has
/// nothing to poll: every status that is forwarded came from the platform.
pub open spec fn worker_reaction(message: Message) -> WorkerActionView {
    match message {
        Message::ImeStatus(status) => WorkerActionView::Forward(status@),
        Message::CaughtFatalError => WorkerActionView::Ignore,
        Message::GetImeStatus => WorkerActionView::Ignore,
    }
}

/// The ibus worker's reaction to one wakeup.
pub fn worker_step(message: Message) -> (action: WorkerAction)
    ensures
        action@ == worker_reaction(message),
{
    match message {
        Message::ImeStatus(ime_status) => WorkerAction::Forward(ime_status),
        Message::CaughtFatalError => WorkerAction::Ignore,
        Message::GetImeStatus => WorkerAction::Ignore,
    }
}

/// The receiving side of the ibus backend.
pub struct IbusImeReceiver {
    detector: EdgeDetector,
}

impl IbusImeReceiver {
    /// What the receiver reported last.
    pub closed spec fn memory(&self) -> Option<Seq<char>> {
        self.detector@
    }

    /// A receiver that has reported nothing yet.
    pub fn new(config: &IbusImeReceiverConfig) -> (receiver: Self)
        ensures
            receiver.memory() is None,
    {
        let IbusImeReceiverConfig {  } = config;
        IbusImeReceiver { detector: EdgeDetector::new() }
    }

    /// Judges what the inner channel handed over: `Ok(Some(status))` for a
    /// status that differs from the last report, `Ok(None)` for a repetition,
    /// after which the caller reads the channel again, and an error if the
    /// channel is closed (`incoming` is `None`).
    pub fn receive(&mut self, incoming: Option<String>) -> (outcome: Result<
        Option<String>,
        AppError,
    >)
        ensures
            received_view(outcome) == received(
                old(self).memory(),
                incoming_view(incoming),
                "IbusImeReceiver inner receiver"@,
            ),
            final(self).memory() == remembered(old(self).memory(), incoming_view(incoming)),
    {
        receive_step(&mut self.detector, incoming, "IbusImeReceiver inner receiver")
    }

    /// Ends the receiver and hands back the error to publish, which wakes
    /// whoever is parked.
    pub fn shutdown(self) -> (signal: AppError)
        ensures
            signal@ == shutdown_signal(),
    {
        shutdown_error()
    }
}

} // verus!
