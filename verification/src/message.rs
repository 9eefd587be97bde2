//! The wakeup channel, which tells the status-query worker when to look at
//! the input method.

use vstd::prelude::*;
use vstd::string::*;
use crate::channel::{after_send, recv_outcome, SingleSlot, SlotView, TryRecv, TrySend};
use crate::error::{AppError, ErrorKind, ErrorView};
use crate::worker::goes_on;
use crate::fatal::{
    queued_after_publish, queued_error, send_fatal_error, FatalError, FatalErrorChannel,
};

verus! {

/// A wakeup for the status-query worker.
#[derive(Clone, Debug, PartialEq, Eq)]
pub enum Message {
    /// Query the current status and report it.
    GetImeStatus,
    /// Here is a status that the sender already knows.
    ImeStatus(String),
    /// Wake up, see the tripwire and leave.
    CaughtFatalError,
}

/// The queue of pending wakeups.
pub type WakeupChannel = SingleSlot<Message>;

/// The error published when a send finds the receiving end of the channel
/// named `sender_name` gone.
pub open spec fn sender_error(sender_name: Seq<char>) -> ErrorView {
    ErrorView { kind: ErrorKind::InnerSender, detail: sender_name }
}

/// The error that waits in the fatal-error queue after a send into `sender`
/// was handled: what waited before, unless the send found the receiving end
/// gone and the report could be queued.
pub open spec fn fatal_after_send<T>(
    sender: SlotView<T>,
    fatal: SlotView<AppError>,
    latched: Option<ErrorView>,
    sender_name: Seq<char>,
) -> Option<ErrorView> {
    if !sender.receiver_alive && fatal.receiver_alive {
        queued_after_publish(queued_error(fatal), latched, sender_error(sender_name))
    } else {
        queued_error(fatal)
    }
}

/// Creates the two process-wide channels, both empty and with both ends held.
pub fn initialize_app() -> (channels: (WakeupChannel, FatalErrorChannel))
    ensures
        channels.0@ == (SlotView::<Message> {
            pending: None,
            sender_alive: true,
            receiver_alive: true,
        }),
        channels.1@ == (SlotView::<AppError> {
            pending: None,
            sender_alive: true,
            receiver_alive: true,
        }),
{
    (SingleSlot::new(), SingleSlot::new())
}

/// Sends `value` into `sender` without waiting. A full slot is no failure:
/// the value is dropped, for one waiting value is enough. A missing receiver
/// is published as a fatal error that names the channel.
pub fn handle_try_send<T>(
    sender: &mut SingleSlot<T>,
    value: T,
    sender_name: String,
    fatal: &mut FatalErrorChannel,
    fatal_error: &FatalError,
)
    ensures
        final(sender)@ == after_send(old(sender)@, value),
        final(fatal)@.sender_alive == old(fatal)@.sender_alive,
        final(fatal)@.receiver_alive == old(fatal)@.receiver_alive,
        queued_error(final(fatal)@) == fatal_after_send(
            old(sender)@,
            old(fatal)@,
            fatal_error@,
            sender_name@,
        ),
        old(sender)@.receiver_alive ==> final(fatal)@ == old(fatal)@,
{
    match sender.try_send(value) {
        TrySend::Disconnected(_) => {
            send_fatal_error(fatal, fatal_error, AppError::InnerSenderError { sender_name });
        },
        _ => {},
    }
}

/// Sends a wakeup. After the call a wakeup waits in the channel whenever the
/// worker's end is held: this one, or the one that was waiting already.
pub fn send_message(
    wakeup: &mut WakeupChannel,
    message: Message,
    fatal: &mut FatalErrorChannel,
    fatal_error: &FatalError,
)
    ensures
        final(wakeup)@ == after_send(old(wakeup)@, message),
        old(wakeup)@.receiver_alive ==> final(wakeup)@.pending is Some,
        old(wakeup)@.receiver_alive ==> final(fatal)@ == old(fatal)@,
        final(fatal)@.sender_alive == old(fatal)@.sender_alive,
        final(fatal)@.receiver_alive == old(fatal)@.receiver_alive,
        queued_error(final(fatal)@) == fatal_after_send(
            old(wakeup)@,
            old(fatal)@,
            fatal_error@,
            "MESSAGE_SENDER"@,
        ),
{
    handle_try_send(wakeup, message, String::from_str("MESSAGE_SENDER"), fatal, fatal_error);
}

/// One wakeup is enough to unpark the worker: whatever the state of the
/// wakeup channel, as long as the worker holds its end, the worker's next
/// receive after a send finds a wakeup and does not wait. With the tripwire
/// set, the worker that was woken does not go on: it leaves its loop.
pub proof fn lemma_wakeup_unparks_worker(wakeup: SlotView<Message>, message: Message)
    requires
        wakeup.receiver_alive,
    ensures
        recv_outcome(after_send(wakeup, message)) is Value,
        !goes_on(recv_outcome(after_send(wakeup, message)) is Value, true),
        wakeup.pending is None ==> recv_outcome(after_send(wakeup, message)) == TryRecv::Value(
            message,
        ),
{
}

} // verus!
