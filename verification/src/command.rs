//! The command binding: what to ask of the engine for each status.

use vstd::prelude::*;
use crate::binding::Binding;
use crate::error::AppError;
use crate::kanata_tcp_types::{wire_line, ClientMessageView, KanataClientMessage};
use crate::receiver::{edges, memory_after, token_views, EdgeDetector};

verus! {

/// What the observer does on a change of status. Fixed at startup.
#[derive(Debug)]
pub enum Command {
    /// Ask the engine to load the configuration file bound to the status.
    Config(Binding<usize>),
    /// Ask the engine to switch to the layer bound to the status.
    Layer(Binding<String>),
    /// Ask nothing; the change is only logged.
    Log,
}

/// A binding, as a specification value: the statuses in the order in which
/// they were bound, and what each is bound to.
pub enum CommandView {
    Config { names: Seq<Seq<char>>, indices: Seq<usize> },
    Layer { names: Seq<Seq<char>>, layers: Seq<Seq<char>> },
    Log,
}

impl View for Command {
    type V = CommandView;

    open spec fn view(&self) -> CommandView {
        match self {
            Command::Config(config_map) => CommandView::Config {
                names: config_map.names(),
                indices: config_map.values(),
            },
            Command::Layer(layer_map) => CommandView::Layer {
                names: layer_map.names(),
                layers: token_views(layer_map.values()),
            },
            Command::Log => CommandView::Log,
        }
    }
}

impl Command {
    /// The request that this binding makes for a status: the one bound to it,
    /// or none if the status is not bound or the binding only logs.
    pub open spec fn request_for(&self, status: Seq<char>) -> Option<ClientMessageView> {
        match self {
            Command::Config(config_map) => match config_map.lookup(status) {
                Some(index) => Some(ClientMessageView::ReloadNum { index }),
                None => None,
            },
            Command::Layer(layer_map) => match layer_map.lookup(status) {
                Some(layer_name) => Some(ClientMessageView::ChangeLayer { new: layer_name@ }),
                None => None,
            },
            Command::Log => None,
        }
    }

    /// The request to send when the status has changed to `ime_status`.
    pub fn message_for(&self, ime_status: &str) -> (msg: Option<KanataClientMessage>)
        ensures
            match msg {
                Some(m) => self.request_for(ime_status@) == Some(m@),
                None => self.request_for(ime_status@) is None,
            },
    {
        match self {
            Command::Config(config_map) => match config_map.get(ime_status) {
                Some(config_num) => Some(KanataClientMessage::ReloadNum { index: *config_num }),
                None => None,
            },
            Command::Layer(layer_map) => match layer_map.get(ime_status) {
                Some(layer_name) => Some(KanataClientMessage::ChangeLayer { new: layer_name.clone() }),
                None => None,
            },
            Command::Log => None,
        }
    }

    /// The line to write to the engine when the status has changed to
    /// `ime_status`, or `None` where the binding has no request for it.
    pub fn line_for(&self, ime_status: &str) -> (line: Result<Option<String>, AppError>)
        ensures
            match line {
                Ok(Some(text)) => self.request_for(ime_status@) is Some && text@ == wire_line(
                    self.request_for(ime_status@).unwrap(),
                ),
                Ok(None) => self.request_for(ime_status@) is None,
                Err(_) => false,
            },
    {
        match self.message_for(ime_status) {
            Some(msg) => match msg.to_wire() {
                Ok(text) => Ok(Some(text)),
                Err(e) => Err(e),
            },
            None => Ok(None),
        }
    }
}

/// The lines that a writer bound to `command` sends for a run of reported
/// statuses: one line for each status that has a request, in order.
pub open spec fn lines_for(command: &Command, statuses: Seq<Seq<char>>) -> Seq<Seq<char>>
    decreases statuses.len(),
{
    if statuses.len() == 0 {
        Seq::empty()
    } else {
        let before = lines_for(command, statuses.drop_last());
        match command.request_for(statuses.last()) {
            Some(request) => before.push(wire_line(request)),
            None => before,
        }
    }
}

/// Runs the writer over a finite run of raw tokens: filters them through the
/// edge detector and collects the line for every reported status that the
/// binding has a request for.
pub fn writer_lines(command: &Command, detector: &mut EdgeDetector, tokens: Vec<String>) -> (lines:
    Result<Vec<String>, AppError>)
    ensures
        lines is Ok,
        token_views(lines.unwrap()@) == lines_for(
            command,
            edges(old(detector)@, token_views(tokens@)),
        ),
        final(detector)@ == memory_after(old(detector)@, token_views(tokens@)),
{
    let reported = detector.observe_all(tokens);
    let mut lines: Vec<String> = Vec::new();
    let mut i: usize = 0;
    let ghost statuses = token_views(reported@);
    while i < reported.len()
        invariant
            i <= reported.len(),
            statuses == token_views(reported@),
            token_views(lines@) == lines_for(command, statuses.take(i as int)),
        decreases reported.len() - i,
    {
        let ghost before = token_views(lines@);
        proof {
            let next = statuses.take(i + 1);
            assert(next.drop_last() =~= statuses.take(i as int));
        }
        match command.line_for(reported[i].as_str()) {
            Ok(Some(text)) => {
                lines.push(text);
                assert(token_views(lines@) =~= before.push(text@));
            },
            Ok(None) => {},
            Err(e) => {
                return Err(e);
            },
        }
        i += 1;
    }
    assert(statuses.take(i as int) =~= statuses);
    Ok(lines)
}

} // verus!
