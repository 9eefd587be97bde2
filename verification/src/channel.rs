//! The single-slot channel: a bounded queue of capacity one whose send never
//! blocks.

use vstd::prelude::*;

verus! {

/// What a [`SingleSlot`] is: the value waiting in it, and which of its two
/// ends are still held.
pub struct SlotView<T> {
    pub pending: Option<T>,
    pub sender_alive: bool,
    pub receiver_alive: bool,
}

impl<T> SlotView<T> {
    /// A send would store its value: the receiver is there and the slot is free.
    pub open spec fn accepts(self) -> bool {
        self.receiver_alive && self.pending is None
    }

    /// The same channel with `value` waiting in it.
    pub open spec fn holding(self, value: T) -> SlotView<T> {
        SlotView { pending: Some(value), ..self }
    }

    /// The same channel with nothing waiting in it.
    pub open spec fn emptied(self) -> SlotView<T> {
        SlotView { pending: None, ..self }
    }
}

/// How a non-blocking send ended. A value that was not stored is handed back.
#[derive(Debug, PartialEq, Eq)]
pub enum TrySend<T> {
    /// The value now waits in the slot.
    Sent,
    /// Another value was already waiting; the arriving one was dropped.
    Full(T),
    /// The receiving end is gone.
    Disconnected(T),
}

/// How a non-blocking receive ended.
#[derive(Debug, PartialEq, Eq)]
pub enum TryRecv<T> {
    /// The value that was waiting.
    Value(T),
    /// Nothing waits, but a sender may still deliver.
    Empty,
    /// Nothing waits and the sending end is gone.
    Closed,
}

/// What a non-blocking send into `slot` returns.
pub open spec fn send_outcome<T>(slot: SlotView<T>, value: T) -> TrySend<T> {
    if !slot.receiver_alive {
        TrySend::Disconnected(value)
    } else if slot.pending is Some {
        TrySend::Full(value)
    } else {
        TrySend::Sent
    }
}

/// The channel after a non-blocking send of `value`.
pub open spec fn after_send<T>(slot: SlotView<T>, value: T) -> SlotView<T> {
    if slot.accepts() {
        slot.holding(value)
    } else {
        slot
    }
}

/// What a non-blocking receive from `slot` returns.
pub open spec fn recv_outcome<T>(slot: SlotView<T>) -> TryRecv<T> {
    match slot.pending {
        Some(value) => TryRecv::Value(value),
        None => if slot.sender_alive {
            TryRecv::Empty
        } else {
            TryRecv::Closed
        },
    }
}

/// A channel that holds at most one value. Sending into a full slot drops the
/// arriving value, so the value that waits is always the oldest unread one.
pub struct SingleSlot<T> {
    slot: Option<T>,
    sender_alive: bool,
    receiver_alive: bool,
}

impl<T> View for SingleSlot<T> {
    type V = SlotView<T>;

    closed spec fn view(&self) -> SlotView<T> {
        SlotView {
            pending: self.slot,
            sender_alive: self.sender_alive,
            receiver_alive: self.receiver_alive,
        }
    }
}

impl<T> SingleSlot<T> {
    /// An empty channel with both ends held.
    pub fn new() -> (channel: Self)
        ensures
            channel@ == (SlotView::<T> { pending: None, sender_alive: true, receiver_alive: true }),
    {
        SingleSlot { slot: None, sender_alive: true, receiver_alive: true }
    }

    /// Stores `value` if the slot is free and the receiver is there; hands it
    /// back otherwise. Never waits.
    pub fn try_send(&mut self, value: T) -> (outcome: TrySend<T>)
        ensures
            outcome == send_outcome(old(self)@, value),
            final(self)@ == after_send(old(self)@, value),
    {
        if !self.receiver_alive {
            TrySend::Disconnected(value)
        } else if self.slot.is_some() {
            TrySend::Full(value)
        } else {
            self.slot = Some(value);
            TrySend::Sent
        }
    }

    /// Takes the waiting value, if there is one. Never waits.
    pub fn try_recv(&mut self) -> (outcome: TryRecv<T>)
        ensures
            outcome == recv_outcome(old(self)@),
            final(self)@ == old(self)@.emptied(),
    {
        match self.slot.take() {
            Some(value) => TryRecv::Value(value),
            None => {
                if self.sender_alive {
                    TryRecv::Empty
                } else {
                    TryRecv::Closed
                }
            },
        }
    }

    /// Gives up the sending end. A value that waits can still be received.
    pub fn close_sender(&mut self)
        ensures
            final(self)@ == (SlotView { sender_alive: false, ..old(self)@ }),
    {
        self.sender_alive = false;
    }

    /// Gives up the receiving end. A value that waits is discarded with it.
    pub fn close_receiver(&mut self)
        ensures
            final(self)@ == (SlotView { pending: None, receiver_alive: false, ..old(self)@ }),
    {
        self.slot = None;
        self.receiver_alive = false;
    }

    /// Whether a value waits in the slot.
    pub fn is_full(&self) -> (full: bool)
        ensures
            full == (self@.pending is Some),
    {
        self.slot.is_some()
    }

    /// Whether the sending end is still held.
    pub fn has_sender(&self) -> (alive: bool)
        ensures
            alive == self@.sender_alive,
    {
        self.sender_alive
    }

    /// Whether the receiving end is still held.
    pub fn has_receiver(&self) -> (alive: bool)
        ensures
            alive == self@.receiver_alive,
    {
        self.receiver_alive
    }
}

} // verus!
