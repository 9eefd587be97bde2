//! The observer's error type and the text each error is reported with.

use vstd::prelude::*;
use vstd::string::*;

verus! {

/// Which kind of failure an [`AppError`] reports.
#[derive(Clone, Copy, Debug, PartialEq, Eq, Structural)]
pub enum ErrorKind {
    Dbus,
    DbusParse,
    WinApi,
    MacApi,
    InnerReceiver,
    InnerSender,
    Serde,
    Io,
    Custom,
    Arg,
    KanataMessage,
    CaughtFatal,
}

/// What an [`AppError`] is, as a value of the specification: its kind and the
/// text it carries (empty for `KanataMessageError`).
pub struct ErrorView {
    pub kind: ErrorKind,
    pub detail: Seq<char>,
}

/// Errors of the observer.
///
/// A failed connection to the engine is retried. An error while resources are
/// acquired ends the program. Inside the supervised loop a harmless error is
/// only logged, a grave one is published as fatal and leads to a reconnect.
#[derive(Clone, Debug, PartialEq, Eq)]
pub enum AppError {
    /// A failure reported by the message bus.
    DbusError(String),
    /// A bus payload that could not be decoded.
    DbusParseError(String),
    /// A failure of the Windows API.
    WinApiError(String),
    /// A failure of the macOS API.
    MacApiError(String),
    /// The sending half of an inner channel is gone.
    InnerReceiverError { receiver_name: String },
    /// The receiving half of an inner channel is gone.
    InnerSenderError { sender_name: String },
    /// The engine's message could not be encoded or decoded; holds the codec's text.
    SerdeError(String),
    /// Reading from or writing to the engine failed; holds the system's text.
    IoError(String),
    /// Any other failure.
    CustomError(String),
    /// A malformed command line.
    ArgError(String),
    /// The engine answered with a status that is neither `Ok` nor `Error`.
    KanataMessageError,
    /// A loop ended because the tripwire was set.
    CaughtFatalError { location: String },
}

/// The text that precedes the detail in an error's message.
pub open spec fn message_prefix(kind: ErrorKind) -> Seq<char> {
    match kind {
        ErrorKind::Dbus => "DbusError: "@,
        ErrorKind::DbusParse => "DbusParseError: "@,
        ErrorKind::WinApi => "WinApiError: "@,
        ErrorKind::MacApi => "MacApiError: "@,
        ErrorKind::InnerReceiver => "InnerReceiverError: inner sender was dropped. Receiver: "@,
        ErrorKind::InnerSender => "InnerSenderError: inner receiver was dropped. Sender: "@,
        ErrorKind::Serde => ""@,
        ErrorKind::Io => ""@,
        ErrorKind::Custom => "CustomError: "@,
        ErrorKind::Arg => "ArgError: "@,
        ErrorKind::KanataMessage => "KanataMessageError"@,
        ErrorKind::CaughtFatal => ""@,
    }
}

/// The text that follows the detail in an error's message.
pub open spec fn message_suffix(kind: ErrorKind) -> Seq<char> {
    match kind {
        ErrorKind::CaughtFatal => " was stopped by fatal error."@,
        _ => ""@,
    }
}

/// The message of an error: prefix, detail, suffix.
pub open spec fn message_of(e: ErrorView) -> Seq<char> {
    message_prefix(e.kind) + e.detail + message_suffix(e.kind)
}

impl View for AppError {
    type V = ErrorView;

    open spec fn view(&self) -> ErrorView {
        match self {
            AppError::DbusError(s) => ErrorView { kind: ErrorKind::Dbus, detail: s@ },
            AppError::DbusParseError(s) => ErrorView { kind: ErrorKind::DbusParse, detail: s@ },
            AppError::WinApiError(s) => ErrorView { kind: ErrorKind::WinApi, detail: s@ },
            AppError::MacApiError(s) => ErrorView { kind: ErrorKind::MacApi, detail: s@ },
            AppError::InnerReceiverError { receiver_name } => ErrorView {
                kind: ErrorKind::InnerReceiver,
                detail: receiver_name@,
            },
            AppError::InnerSenderError { sender_name } => ErrorView {
                kind: ErrorKind::InnerSender,
                detail: sender_name@,
            },
            AppError::SerdeError(s) => ErrorView { kind: ErrorKind::Serde, detail: s@ },
            AppError::IoError(s) => ErrorView { kind: ErrorKind::Io, detail: s@ },
            AppError::CustomError(s) => ErrorView { kind: ErrorKind::Custom, detail: s@ },
            AppError::ArgError(s) => ErrorView { kind: ErrorKind::Arg, detail: s@ },
            AppError::KanataMessageError => ErrorView {
                kind: ErrorKind::KanataMessage,
                detail: Seq::empty(),
            },
            AppError::CaughtFatalError { location } => ErrorView {
                kind: ErrorKind::CaughtFatal,
                detail: location@,
            },
        }
    }
}

/// The name that stands for a bus error without a name.
pub open spec fn bus_error_name(name: Option<Seq<char>>) -> Seq<char> {
    match name {
        Some(n) => n,
        None => "UnknownDbusError"@,
    }
}

/// The message that stands for a bus error without a message.
pub open spec fn bus_error_message(message: Option<Seq<char>>) -> Seq<char> {
    match message {
        Some(m) => m,
        None => "unknown dbus message"@,
    }
}

impl AppError {
    /// The error for a failure that the message bus reported, given the
    /// failure's name and message where it has them: a `DbusError` whose
    /// text is name, colon, message.
    pub fn from_dbus(name: Option<String>, message: Option<String>) -> (err: AppError)
        ensures
            err@.kind == ErrorKind::Dbus,
            err@.detail == bus_error_name(
                match name {
                    Some(n) => Some(n@),
                    None => None,
                },
            ) + ":"@ + bus_error_message(
                match message {
                    Some(m) => Some(m@),
                    None => None,
                },
            ),
    {
        let name = match name {
            Some(n) => n,
            None => String::from_str("UnknownDbusError"),
        };
        let message = match message {
            Some(m) => m,
            None => String::from_str("unknown dbus message"),
        };
        AppError::DbusError(name.concat(":").concat(message.as_str()))
    }

    /// The kind of this error.
    pub fn kind(&self) -> (k: ErrorKind)
        ensures
            k == self@.kind,
    {
        match self {
            AppError::DbusError(_) => ErrorKind::Dbus,
            AppError::DbusParseError(_) => ErrorKind::DbusParse,
            AppError::WinApiError(_) => ErrorKind::WinApi,
            AppError::MacApiError(_) => ErrorKind::MacApi,
            AppError::InnerReceiverError { .. } => ErrorKind::InnerReceiver,
            AppError::InnerSenderError { .. } => ErrorKind::InnerSender,
            AppError::SerdeError(_) => ErrorKind::Serde,
            AppError::IoError(_) => ErrorKind::Io,
            AppError::CustomError(_) => ErrorKind::Custom,
            AppError::ArgError(_) => ErrorKind::Arg,
            AppError::KanataMessageError => ErrorKind::KanataMessage,
            AppError::CaughtFatalError { .. } => ErrorKind::CaughtFatal,
        }
    }

    /// The text this error is logged with.
    pub fn message(&self) -> (text: String)
        ensures
            text@ == message_of(self@),
    {
        let text = match self {
            AppError::DbusError(s) => String::from_str("DbusError: ").concat(s.as_str()),
            AppError::DbusParseError(s) => String::from_str("DbusParseError: ").concat(s.as_str()),
            AppError::WinApiError(s) => String::from_str("WinApiError: ").concat(s.as_str()),
            AppError::MacApiError(s) => String::from_str("MacApiError: ").concat(s.as_str()),
            AppError::InnerReceiverError { receiver_name } => String::from_str(
                "InnerReceiverError: inner sender was dropped. Receiver: ",
            ).concat(receiver_name.as_str()),
            AppError::InnerSenderError { sender_name } => String::from_str(
                "InnerSenderError: inner receiver was dropped. Sender: ",
            ).concat(sender_name.as_str()),
            AppError::SerdeError(s) => String::from_str("").concat(s.as_str()),
            AppError::IoError(s) => String::from_str("").concat(s.as_str()),
            AppError::CustomError(s) => String::from_str("CustomError: ").concat(s.as_str()),
            AppError::ArgError(s) => String::from_str("ArgError: ").concat(s.as_str()),
            AppError::KanataMessageError => String::from_str("KanataMessageError"),
            AppError::CaughtFatalError { location } => location.clone().concat(
                " was stopped by fatal error.",
            ),
        };
        proof {
            reveal_strlit("");
        }
        text
    }

    /// A copy of this error.
    pub fn duplicate(&self) -> (copy: AppError)
        ensures
            copy@ == self@,
    {
        match self {
            AppError::DbusError(s) => AppError::DbusError(s.clone()),
            AppError::DbusParseError(s) => AppError::DbusParseError(s.clone()),
            AppError::WinApiError(s) => AppError::WinApiError(s.clone()),
            AppError::MacApiError(s) => AppError::MacApiError(s.clone()),
            AppError::InnerReceiverError { receiver_name } => AppError::InnerReceiverError {
                receiver_name: receiver_name.clone(),
            },
            AppError::InnerSenderError { sender_name } => AppError::InnerSenderError {
                sender_name: sender_name.clone(),
            },
            AppError::SerdeError(s) => AppError::SerdeError(s.clone()),
            AppError::IoError(s) => AppError::IoError(s.clone()),
            AppError::CustomError(s) => AppError::CustomError(s.clone()),
            AppError::ArgError(s) => AppError::ArgError(s.clone()),
            AppError::KanataMessageError => AppError::KanataMessageError,
            AppError::CaughtFatalError { location } => AppError::CaughtFatalError {
                location: location.clone(),
            },
        }
    }
}

} // verus!
