//! The edge detector that stands in front of a backend's inner channel: it
//! lets a token through only when it differs from the one reported last.

use vstd::prelude::*;
use crate::channel::{after_send, recv_outcome, SlotView, TryRecv};

verus! {

/// Whether a detector that remembers `memory` reports `token`.
pub open spec fn emits(memory: Option<Seq<char>>, token: Seq<char>) -> bool {
    memory != Some(token)
}

/// What a detector remembers after it has seen `tokens`, starting from
/// `memory`: the last token it saw.
pub open spec fn memory_after(memory: Option<Seq<char>>, tokens: Seq<Seq<char>>) -> Option<
    Seq<char>,
> {
    if tokens.len() == 0 {
        memory
    } else {
        Some(tokens.last())
    }
}

/// The tokens that a detector starting from `memory` reports when it is shown
/// `tokens` in order.
pub open spec fn edges(memory: Option<Seq<char>>, tokens: Seq<Seq<char>>) -> Seq<Seq<char>>
    decreases tokens.len(),
{
    if tokens.len() == 0 {
        Seq::empty()
    } else {
        let before = tokens.drop_last();
        if emits(memory_after(memory, before), tokens.last()) {
            edges(memory, before).push(tokens.last())
        } else {
            edges(memory, before)
        }
    }
}

/// The views of a vector of tokens.
pub open spec fn token_views(tokens: Seq<String>) -> Seq<Seq<char>> {
    tokens.map_values(|s: String| s@)
}

/// Remembers the status reported last and filters out repetitions of it.
pub struct EdgeDetector {
    pre_ime_status: Option<String>,
}

impl View for EdgeDetector {
    type V = Option<Seq<char>>;

    closed spec fn view(&self) -> Option<Seq<char>> {
        match self.pre_ime_status {
            Some(s) => Some(s@),
            None => None,
        }
    }
}

impl EdgeDetector {
    /// A detector that has reported nothing yet.
    pub fn new() -> (detector: Self)
        ensures
            detector@ is None,
    {
        EdgeDetector { pre_ime_status: None }
    }

    /// Shows the detector one token. The token comes back if it differs from
    /// the remembered one, or if nothing is remembered yet, and is then
    /// remembered; a repetition gives `None` and changes nothing.
    pub fn observe(&mut self, token: String) -> (reported: Option<String>)
        ensures
            final(self)@ == Some(token@),
            emits(old(self)@, token@) ==> reported == Some(token),
            !emits(old(self)@, token@) ==> reported is None && final(self)@ == old(self)@,
    {
        let repeated = match &self.pre_ime_status {
            Some(pre_ime_status) => *pre_ime_status == token,
            None => false,
        };
        if repeated {
            None
        } else {
            self.pre_ime_status = Some(token.clone());
            Some(token)
        }
    }

    /// Shows the detector a run of tokens and collects what it reports.
    pub fn observe_all(&mut self, tokens: Vec<String>) -> (reported: Vec<String>)
        ensures
            token_views(reported@) == edges(old(self)@, token_views(tokens@)),
            final(self)@ == memory_after(old(self)@, token_views(tokens@)),
    {
        let mut reported: Vec<String> = Vec::new();
        let mut i: usize = 0;
        let ghost all = token_views(tokens@);
        while i < tokens.len()
            invariant
                i <= tokens.len(),
                all == token_views(tokens@),
                token_views(reported@) == edges(old(self)@, all.take(i as int)),
                self@ == memory_after(old(self)@, all.take(i as int)),
            decreases tokens.len() - i,
        {
            let token = tokens[i].clone();
            let ghost before_reported = token_views(reported@);
            proof {
                let next = all.take(i + 1);
                assert(next.drop_last() =~= all.take(i as int));
            }
            match self.observe(token) {
                Some(t) => {
                    reported.push(t);
                    assert(token_views(reported@) =~= before_reported.push(t@));
                },
                None => {},
            }
            i += 1;
        }
        assert(all.take(i as int) =~= all);
        reported
    }

    /// The status reported last, if any.
    pub fn last_reported(&self) -> (last: Option<String>)
        ensures
            match last {
                Some(s) => self@ == Some(s@),
                None => self@ is None,
            },
    {
        match &self.pre_ime_status {
            Some(s) => Some(s.clone()),
            None => None,
        }
    }
}

/// No status is reported twice in a row: whatever run of tokens reaches a
/// detector, and whatever it remembered before, two neighbours among the
/// reported tokens differ, and the first reported token differs from the
/// one remembered at the start. A run thinned out by a slow consumer is a run
/// as well, so this holds however many tokens the single slot dropped.
pub proof fn lemma_no_duplicate_emission(memory: Option<Seq<char>>, tokens: Seq<Seq<char>>)
    ensures
        forall|i: int|
            0 <= i && i + 1 < edges(memory, tokens).len() ==> #[trigger] edges(memory, tokens)[i]
                != edges(memory, tokens)[i + 1],
        edges(memory, tokens).len() > 0 ==> memory != Some(edges(memory, tokens)[0]),
        edges(memory, tokens).len() > 0 ==> memory_after(memory, tokens) == Some(
            edges(memory, tokens).last(),
        ),
        edges(memory, tokens).len() == 0 ==> memory_after(memory, tokens) == memory,
    decreases tokens.len(),
{
    if tokens.len() > 0 {
        lemma_no_duplicate_emission(memory, tokens.drop_last());
    }
}

/// Every reported token is one of the tokens shown, and the reports keep the
/// order in which the tokens came.
pub proof fn lemma_edges_are_inputs(memory: Option<Seq<char>>, tokens: Seq<Seq<char>>)
    ensures
        edges(memory, tokens).len() <= tokens.len(),
        forall|i: int|
            0 <= i < edges(memory, tokens).len() ==> tokens.contains(
                #[trigger] edges(memory, tokens)[i],
            ),
    decreases tokens.len(),
{
    if tokens.len() > 0 {
        let before = tokens.drop_last();
        lemma_edges_are_inputs(memory, before);
        assert forall|i: int| 0 <= i < edges(memory, tokens).len() implies tokens.contains(
            #[trigger] edges(memory, tokens)[i],
        ) by {
            if i < edges(memory, before).len() {
                let t = edges(memory, before)[i];
                let j = choose|j: int| 0 <= j < before.len() && before[j] == t;
                assert(tokens[j] == t);
            } else {
                assert(tokens[tokens.len() - 1] == edges(memory, tokens)[i]);
            }
        }
    }
}

/// One event at a backend's inner channel: the worker sends a token without
/// waiting, or the facade takes what waits and shows it to its detector.
pub enum ChannelEvent {
    Send(Seq<char>),
    Receive,
}

/// A backend's inner channel with the facade behind it, as a specification
/// value: the channel, what the detector remembers, and the tokens reported
/// so far.
pub struct Pipeline {
    pub channel: SlotView<Seq<char>>,
    pub memory: Option<Seq<char>>,
    pub observed: Seq<Seq<char>>,
}

/// A pipeline before its first event: an empty channel with both ends held,
/// a detector without memory, nothing reported.
pub open spec fn fresh_pipeline() -> Pipeline {
    Pipeline {
        channel: SlotView { pending: None, sender_alive: true, receiver_alive: true },
        memory: None,
        observed: Seq::empty(),
    }
}

/// The pipeline after one event. A send into a full slot is dropped; a
/// receive from an empty slot changes nothing.
pub open spec fn pipeline_step(p: Pipeline, event: ChannelEvent) -> Pipeline {
    match event {
        ChannelEvent::Send(token) => Pipeline { channel: after_send(p.channel, token), ..p },
        ChannelEvent::Receive => match recv_outcome(p.channel) {
            TryRecv::Value(token) => Pipeline {
                channel: p.channel.emptied(),
                memory: Some(token),
                observed: if emits(p.memory, token) {
                    p.observed.push(token)
                } else {
                    p.observed
                },
            },
            _ => p,
        },
    }
}

/// The pipeline after a run of events.
pub open spec fn pipeline_run(p: Pipeline, events: Seq<ChannelEvent>) -> Pipeline
    decreases events.len(),
{
    if events.len() == 0 {
        p
    } else {
        pipeline_step(pipeline_run(p, events.drop_last()), events.last())
    }
}

/// No status is reported twice in a row, whatever the single slot drops: in
/// whatever order the worker sends tokens and the facade receives, two
/// neighbours among the tokens reported differ, and the detector remembers
/// the token reported last.
pub proof fn lemma_no_duplicate_emission_through_slot(events: Seq<ChannelEvent>)
    ensures
        forall|i: int|
            0 <= i && i + 1 < pipeline_run(fresh_pipeline(), events).observed.len()
                ==> #[trigger] pipeline_run(fresh_pipeline(), events).observed[i] != pipeline_run(
                fresh_pipeline(),
                events,
            ).observed[i + 1],
        pipeline_run(fresh_pipeline(), events).observed.len() > 0 ==> pipeline_run(
            fresh_pipeline(),
            events,
        ).memory == Some(pipeline_run(fresh_pipeline(), events).observed.last()),
        pipeline_run(fresh_pipeline(), events).observed.len() == 0 ==> pipeline_run(
            fresh_pipeline(),
            events,
        ).memory is None,
    decreases events.len(),
{
    if events.len() > 0 {
        lemma_no_duplicate_emission_through_slot(events.drop_last());
    }
}

} // verus!
