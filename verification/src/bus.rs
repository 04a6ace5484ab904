//! The message bus: an unbounded channel from many senders to one receiver.

use vstd::prelude::*;

use crate::errors::ErrorView;
use crate::errors::TradingError;
use crate::types::AgentMessage;
use crate::types::MessageView;

verus! {

/// The sending half of an unbounded channel.
#[verifier::external_type_specification]
#[verifier::external_body]
#[verifier::reject_recursive_types(T)]
pub struct ExUnboundedSender<T>(tokio::sync::mpsc::UnboundedSender<T>);

/// The receiving half of an unbounded channel.
#[verifier::external_type_specification]
#[verifier::external_body]
#[verifier::reject_recursive_types(T)]
pub struct ExUnboundedReceiver<T>(tokio::sync::mpsc::UnboundedReceiver<T>);

/// The messages that wait in the channel behind `receiver`, oldest first.
pub uninterp spec fn queued(
    receiver: tokio::sync::mpsc::UnboundedReceiver<AgentMessage>,
) -> Seq<MessageView>;

/// Whether the receiving half `receiver` has been closed.
pub uninterp spec fn receiving_ended(
    receiver: tokio::sync::mpsc::UnboundedReceiver<AgentMessage>,
) -> bool;

/// A message came back because the receiving side of the bus has ended.
#[derive(Debug)]
pub struct ChannelClosed(pub AgentMessage);

/// A queue of messages. Messages leave in the order in which they were sent.
/// The queue has no limit: a sender never waits, and a receiver that falls
/// behind lets the queue grow.
///
/// The bus holds both halves of one channel and hands neither out: whatever
/// is sent through its sender waits behind its receiver, the sender is never
/// dropped before the receiver, and nothing else sends or receives on the
/// channel.
pub struct MessageBus {
    sender: tokio::sync::mpsc::UnboundedSender<AgentMessage>,
    receiver: tokio::sync::mpsc::UnboundedReceiver<AgentMessage>,
}

/// `tokio::sync::mpsc::unbounded_channel`: a new channel, taken as believed
/// to be open and to hold nothing.
#[verifier::external_body]
fn open_channel() -> (bus: MessageBus)
    ensures
        queued(bus.receiver) == Seq::<MessageView>::empty(),
        !receiving_ended(bus.receiver),
{
    let (sender, receiver) = tokio::sync::mpsc::unbounded_channel();
    MessageBus { sender, receiver }
}

/// `UnboundedSender::send` on the bus's channel. Believed: while the
/// receiving half is open the message is put behind the messages that wait,
/// and nothing comes back; once the receiving half has been closed the
/// channel keeps what it holds and the message comes back as it was. The
/// call does not close the channel. The channel counts its messages in a
/// machine word and gives up at half its range; no memory holds a queue of
/// that length.
#[verifier::external_body]
fn channel_send(bus: &mut MessageBus, message: AgentMessage) -> (refused: Option<AgentMessage>)
    ensures
        receiving_ended(final(bus).receiver) == receiving_ended(old(bus).receiver),
        match refused {
            None => !receiving_ended(old(bus).receiver) && queued(final(bus).receiver) == queued(
                old(bus).receiver,
            ).push(message@),
            Some(back) => receiving_ended(old(bus).receiver) && queued(final(bus).receiver)
                == queued(old(bus).receiver) && back@ == message@,
        },
{
    match bus.sender.send(message) {
        Ok(()) => None,
        Err(error) => Some(error.0),
    }
}

/// `UnboundedReceiver::try_recv` on the bus's channel. Believed: the oldest
/// message that waits is taken out and handed over, and nothing is handed
/// over only where no message waits; whether the channel is closed does not
/// change.
#[verifier::external_body]
fn channel_try_recv(bus: &mut MessageBus) -> (received: Option<AgentMessage>)
    ensures
        receiving_ended(final(bus).receiver) == receiving_ended(old(bus).receiver),
        match received {
            Some(message) => queued(old(bus).receiver).len() > 0 && message@ == queued(
                old(bus).receiver,
            ).first() && queued(final(bus).receiver) == queued(old(bus).receiver).drop_first(),
            None => queued(old(bus).receiver).len() == 0 && queued(final(bus).receiver) == queued(
                old(bus).receiver,
            ),
        },
{
    match bus.receiver.try_recv() {
        Ok(message) => Some(message),
        Err(_) => None,
    }
}

/// `UnboundedReceiver::close` on the bus's channel. Believed: the receiving
/// half is closed from then on, and the messages that wait stay.
#[verifier::external_body]
fn channel_close(bus: &mut MessageBus)
    ensures
        receiving_ended(final(bus).receiver),
        queued(final(bus).receiver) == queued(old(bus).receiver),
{
    bus.receiver.close()
}

/// `UnboundedReceiver::len` on the bus's channel: believed to be the number
/// of messages that wait.
#[verifier::external_body]
fn channel_len(bus: &MessageBus) -> (count: usize)
    ensures
        count == queued(bus.receiver).len(),
{
    bus.receiver.len()
}

/// `UnboundedReceiver::is_closed` on the bus's channel: believed to tell
/// whether the receiving half has been closed, the sender being alive.
#[verifier::external_body]
fn channel_is_closed(bus: &MessageBus) -> (ended: bool)
    ensures
        ended == receiving_ended(bus.receiver),
{
    bus.receiver.is_closed()
}

impl MessageBus {
    /// The messages that were sent and not yet received, oldest first.
    pub closed spec fn pending(&self) -> Seq<MessageView> {
        queued(self.receiver)
    }

    /// Whether the receiving side has ended.
    pub closed spec fn is_closed(&self) -> bool {
        receiving_ended(self.receiver)
    }

    /// Creates an open bus with nothing in it.
    pub fn new() -> (bus: MessageBus)
        ensures
            !bus.is_closed(),
            bus.pending() == Seq::<MessageView>::empty(),
    {
        open_channel()
    }

    /// Puts `message` at the end of the queue. On a closed bus nothing
    /// changes and the message comes back.
    pub fn send(&mut self, message: AgentMessage) -> (result: Result<(), ChannelClosed>)
        ensures
            final(self).is_closed() == old(self).is_closed(),
            match result {
                Ok(_) => !old(self).is_closed() && final(self).pending() == old(self).pending().push(
                    message@,
                ),
                Err(refused) => old(self).is_closed() && final(self).pending() == old(
                    self,
                ).pending() && refused.0@ == message@,
            },
    {
        match channel_send(self, message) {
            None => Ok(()),
            Some(back) => Err(ChannelClosed(back)),
        }
    }

    /// Sends `message` to all agents; reports a closed bus as a
    /// communication error.
    pub fn broadcast(&mut self, message: AgentMessage) -> (result: Result<(), TradingError>)
        ensures
            final(self).is_closed() == old(self).is_closed(),
            match result {
                Ok(_) => !old(self).is_closed() && final(self).pending() == old(self).pending().push(
                    message@,
                ),
                Err(error) => old(self).is_closed() && final(self).pending() == old(
                    self,
                ).pending() && error@ == (ErrorView::AgentCommunication {
                    message: "Failed to send message"@,
                }),
            },
    {
        match self.send(message) {
            Ok(_) => Ok(()),
            Err(_) => Err(TradingError::agent_communication("Failed to send message")),
        }
    }

    /// Takes the oldest message off the queue, if there is one.
    pub fn try_recv(&mut self) -> (received: Option<AgentMessage>)
        ensures
            final(self).is_closed() == old(self).is_closed(),
            match received {
                Some(message) => old(self).pending().len() > 0 && message@ == old(
                    self,
                ).pending().first() && final(self).pending() == old(self).pending().drop_first(),
                None => old(self).pending().len() == 0 && final(self).pending() == old(
                    self,
                ).pending(),
            },
    {
        channel_try_recv(self)
    }

    /// How many messages wait in the queue.
    pub fn len(&self) -> (count: usize)
        ensures
            count == self.pending().len(),
    {
        channel_len(self)
    }

    /// Whether no message waits in the queue.
    pub fn is_empty(&self) -> (empty: bool)
        ensures
            empty == (self.pending().len() == 0),
    {
        self.len() == 0
    }

    /// Ends the receiving side: from now on every send fails. What is in the
    /// queue stays there.
    pub fn close(&mut self)
        ensures
            final(self).is_closed(),
            final(self).pending() == old(self).pending(),
    {
        channel_close(self)
    }

    /// Whether the receiving side has ended.
    pub fn closed(&self) -> (closed: bool)
        ensures
            closed == self.is_closed(),
    {
        channel_is_closed(self)
    }

    /// Takes everything off the queue, oldest first.
    pub fn drain(&mut self) -> (received: Vec<AgentMessage>)
        ensures
            final(self).is_closed() == old(self).is_closed(),
            received.deep_view() == old(self).pending(),
            final(self).pending() == Seq::<MessageView>::empty(),
    {
        let mut received: Vec<AgentMessage> = Vec::new();
        assert(received.deep_view() =~= Seq::empty());
        assert(Seq::<MessageView>::empty() + self.pending() =~= self.pending());
        loop
            invariant
                self.is_closed() == old(self).is_closed(),
                received.deep_view() + self.pending() == old(self).pending(),
            ensures
                self.is_closed() == old(self).is_closed(),
                received.deep_view() == old(self).pending(),
                self.pending() == Seq::<MessageView>::empty(),
            decreases self.pending().len(),
        {
            let ghost taken = received.deep_view();
            let ghost waiting = self.pending();
            match self.try_recv() {
                Some(message) => {
                    received.push(message);
                    assert(received.deep_view() =~= taken.push(message@));
                    assert(taken.push(message@) + waiting.drop_first() =~= taken + waiting);
                },
                None => {
                    assert(taken + waiting =~= taken);
                    assert(self.pending() =~= Seq::empty());
                    break ;
                },
            }
        }
        received
    }
}

/// The queue after `messages` were sent on it, one after the other.
pub open spec fn after_sends(pending: Seq<MessageView>, messages: Seq<MessageView>) -> Seq<
    MessageView,
>
    decreases messages.len(),
{
    if messages.len() == 0 {
        pending
    } else {
        after_sends(pending.push(messages.first()), messages.drop_first())
    }
}

/// Messages are received in the order in which they were sent: after any
/// series of sends the queue holds what it held before, followed by the
/// messages in the order of their sending, and a drain hands out exactly
/// that.
pub proof fn lemma_send_order_is_receive_order(
    pending: Seq<MessageView>,
    messages: Seq<MessageView>,
)
    ensures
        after_sends(pending, messages) == pending + messages,
    decreases messages.len(),
{
    if messages.len() == 0 {
        assert(pending + messages =~= pending);
    } else {
        lemma_send_order_is_receive_order(pending.push(messages.first()), messages.drop_first());
        assert(pending.push(messages.first()) + messages.drop_first() =~= pending + messages);
    }
}

} // verus!
