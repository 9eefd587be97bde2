//! The messages exchanged with the remapping engine, and their wire format:
//! one JSON object per line.

use vstd::prelude::*;
use vstd::string::*;
use crate::error::{AppError, ErrorKind};
use crate::text::{decimal, decimal_text, same_text};

verus! {

/// What the engine answers to a request.
#[derive(Clone, Debug, PartialEq, Eq)]
pub struct KanataServerResponse {
    pub status: String,
    pub msg: Option<String>,
}

/// A request to the engine.
#[derive(Clone, Debug, PartialEq, Eq)]
pub enum KanataClientMessage {
    /// Switch to the layer of this name.
    ChangeLayer { new: String },
    /// Load the configuration file of this index.
    ReloadNum { index: usize },
}

/// A request to the engine, as a specification value.
pub enum ClientMessageView {
    ChangeLayer { new: Seq<char> },
    ReloadNum { index: usize },
}

impl View for KanataClientMessage {
    type V = ClientMessageView;

    open spec fn view(&self) -> ClientMessageView {
        match self {
            KanataClientMessage::ChangeLayer { new } => ClientMessageView::ChangeLayer { new: new@ },
            KanataClientMessage::ReloadNum { index } => ClientMessageView::ReloadNum {
                index: *index,
            },
        }
    }
}

/// The JSON string literal that stands for a piece of text: the text between
/// double quotes, with the characters that JSON does not take as they are
/// written as escapes.
pub uninterp spec fn json_string_literal(text: Seq<char>) -> Seq<char>;

/// The line that asks for a layer, given the layer's name as a JSON literal.
pub open spec fn change_layer_line(literal: Seq<char>) -> Seq<char> {
    "{\"ChangeLayer\":{\"new\":"@ + literal + "}}\n"@
}

/// The line that asks for the configuration file of an index.
pub open spec fn reload_num_line(index: usize) -> Seq<char> {
    "{\"ReloadNum\":{\"index\":"@ + decimal_text(index as nat) + "}}\n"@
}

/// The line that carries a request.
pub open spec fn wire_line(message: ClientMessageView) -> Seq<char> {
    match message {
        ClientMessageView::ChangeLayer { new } => change_layer_line(json_string_literal(new)),
        ClientMessageView::ReloadNum { index } => reload_num_line(index),
    }
}

/// Encodes text as a JSON string literal with `serde_json::to_string`.
///
/// Trusted: the call succeeds, for the encoder writes text into memory and
/// neither step can fail; it returns the literal of exactly this text, and
/// the same text always gives the same literal.
#[verifier::external_body]
fn encode_json_string(text: &str) -> (encoded: Result<String, String>)
    ensures
        encoded is Ok,
        encoded.unwrap()@ == json_string_literal(text@),
{
    serde_json::to_string(text).map_err(|e| e.to_string())
}

/// Frames a layer request around the JSON literal of the layer's name.
pub fn frame_change_layer(literal: &str) -> (line: String)
    ensures
        line@ == change_layer_line(literal@),
{
    String::from_str("{\"ChangeLayer\":{\"new\":").concat(literal).concat("}}\n")
}

/// Frames a reload request around its index.
pub fn frame_reload_num(index: usize) -> (line: String)
    ensures
        line@ == reload_num_line(index),
{
    let digits = decimal(index);
    String::from_str("{\"ReloadNum\":{\"index\":").concat(digits.as_str()).concat("}}\n")
}

impl KanataClientMessage {
    /// The line to write to the engine for this request. Every request has
    /// one.
    pub fn to_wire(&self) -> (line: Result<String, AppError>)
        ensures
            line is Ok,
            line.unwrap()@ == wire_line(self@),
    {
        match self {
            KanataClientMessage::ChangeLayer { new } => {
                match encode_json_string(new.as_str()) {
                    Ok(literal) => Ok(frame_change_layer(literal.as_str())),
                    Err(reason) => Err(AppError::SerdeError(reason)),
                }
            },
            KanataClientMessage::ReloadNum { index } => Ok(frame_reload_num(*index)),
        }
    }
}

/// What the reader makes of one line from the engine.
#[derive(Clone, Debug, PartialEq, Eq)]
pub enum Reply {
    /// The line is no answer in the engine's format; it is only logged.
    Unparsed,
    /// The request succeeded.
    Succeeded,
    /// The request failed, with the engine's reason if it gave one.
    Failed(Option<String>),
}

/// What the reader makes of one line, as a specification value.
pub enum ReplyView {
    Unparsed,
    Succeeded,
    Failed(Option<Seq<char>>),
}

impl View for Reply {
    type V = ReplyView;

    open spec fn view(&self) -> ReplyView {
        match self {
            Reply::Unparsed => ReplyView::Unparsed,
            Reply::Succeeded => ReplyView::Succeeded,
            Reply::Failed(msg) => ReplyView::Failed(reason_view(*msg)),
        }
    }
}

/// The text of an optional reason.
pub open spec fn reason_view(msg: Option<String>) -> Option<Seq<char>> {
    match msg {
        Some(m) => Some(m@),
        None => None,
    }
}

/// Whether a status is one the engine is known to send.
pub open spec fn known_status(status: Seq<char>) -> bool {
    status == "Ok"@ || status == "Error"@
}

/// Judges one line read from the engine. `bytes_read` is what the read
/// returned, `response` the decoded line, or `None` if it did not decode.
///
/// The end of the stream is an error, and so is an answer whose status is
/// neither `Ok` nor `Error`; everything else is only worth a log line.
pub fn judge_reply(bytes_read: usize, response: Option<KanataServerResponse>) -> (verdict: Result<
    Reply,
    AppError,
>)
    ensures
        bytes_read == 0 ==> verdict is Err && verdict.unwrap_err()@.kind == ErrorKind::Custom
            && verdict.unwrap_err()@.detail == "Kanata Connection finished."@,
        bytes_read != 0 && response is None ==> verdict == Ok::<Reply, AppError>(Reply::Unparsed),
        bytes_read != 0 && response is Some && response.unwrap().status@ == "Ok"@ ==> verdict
            == Ok::<Reply, AppError>(Reply::Succeeded),
        bytes_read != 0 && response is Some && response.unwrap().status@ == "Error"@ ==> verdict
            is Ok && verdict.unwrap()@ == ReplyView::Failed(reason_view(response.unwrap().msg)),
        bytes_read != 0 && response is Some && !known_status(response.unwrap().status@)
            ==> verdict == Err::<Reply, AppError>(AppError::KanataMessageError),
{
    proof {
        reveal_strlit("Ok");
        reveal_strlit("Error");
        assert("Error"@.len() == 5);
    }
    if bytes_read == 0 {
        return Err(AppError::CustomError(String::from_str("Kanata Connection finished.")));
    }
    match response {
        Some(response) => {
            if same_text(response.status.as_str(), "Ok") {
                Ok(Reply::Succeeded)
            } else if same_text(response.status.as_str(), "Error") {
                Ok(Reply::Failed(response.msg))
            } else {
                Err(AppError::KanataMessageError)
            }
        },
        None => Ok(Reply::Unparsed),
    }
}

} // verus!
