use futures::channel::mpsc;
use futures::StreamExt;
use std::task::{Context, Poll};
use vstd::prelude::*;

verus! {

/// `futures::channel::mpsc::Sender`, the sending half of a bounded channel.
#[verifier::external_type_specification]
#[verifier::external_body]
#[verifier::reject_recursive_types(T)]
pub struct ExSender<T>(mpsc::Sender<T>);

/// `futures::channel::mpsc::Receiver`, the receiving half of a bounded channel.
#[verifier::external_type_specification]
#[verifier::external_body]
#[verifier::reject_recursive_types(T)]
pub struct ExReceiver<T>(mpsc::Receiver<T>);

/// `std::task::Context`, which tells whom to wake when a message arrives.
#[verifier::external_type_specification]
#[verifier::external_body]
pub struct ExContext<'a>(Context<'a>);

/// Why a channel did not take a message.
#[derive(Debug, Clone, Copy, PartialEq, Eq, Structural)]
pub enum SendFailure {
    /// The channel has no room left for this sender.
    Full,
    /// The receiver is gone.
    Disconnected,
}

/// An attempt to send a message.
pub struct Attempt<T> {
    /// What there was to send.
    pub message: T,
    /// Why the channel did not take it, if it did not.
    pub refused: Option<SendFailure>,
}

/// Why an attempt to send failed, if it failed.
pub open spec fn refusal<R>(outcome: Result<R, SendFailure>) -> Option<SendFailure> {
    match outcome {
        Ok(_) => None,
        Err(why) => Some(why),
    }
}

/// The messages of the attempts that did not fail, in order.
pub open spec fn taken<T>(attempts: Seq<Attempt<T>>) -> Seq<T>
    decreases attempts.len(),
{
    if attempts.len() == 0 {
        Seq::empty()
    } else {
        match attempts.last().refused {
            None => taken(attempts.drop_last()).push(attempts.last().message),
            Some(_) => taken(attempts.drop_last()),
        }
    }
}

/// A message is taken in full or not at all.
pub proof fn lemma_sends_accepted<T, R>(
    before: EventSender<T>,
    message: Option<T>,
    outcome: Result<R, SendFailure>,
    after: EventSender<T>,
)
    requires
        before.sends(message, outcome, after),
    ensures
        after.accepted() == (match (message, outcome) {
            (Some(m), Ok(_)) => before.accepted().push(m),
            _ => before.accepted(),
        }),
{
    if message is Some {
        assert(after.attempts().drop_last() =~= before.attempts());
    }
}

/// One sending handle of a channel, together with a record of the attempts to send through it, and of
/// how many further handles were made of it.
#[verifier::reject_recursive_types(T)]
pub struct EventSender<T> {
    tx: mpsc::Sender<T>,
    channel: Ghost<int>,
    buffer: Ghost<nat>,
    attempts: Ghost<Seq<Attempt<T>>>,
    others: Ghost<nat>,
}

/// The receiving end of a channel, together with a record of what it answered on being polled.
#[verifier::reject_recursive_types(T)]
pub struct EventReceiver<T> {
    rx: mpsc::Receiver<T>,
    channel: Ghost<int>,
    answers: Ghost<Seq<Polled<T>>>,
}

/// What there is to receive.
#[derive(Debug)]
pub enum Polled<T> {
    /// The next item.
    Item(T),
    /// Nothing will come any more.
    End,
    /// Nothing has come yet. The waiting task will be woken.
    Pending,
}

impl<T> EventSender<T> {
    /// The channel that this handle sends to.
    pub closed spec fn channel(self) -> int {
        self.channel@
    }

    /// The number of messages that the channel holds besides one for each of its senders.
    pub closed spec fn buffer(self) -> nat {
        self.buffer@
    }

    /// The attempts to send through this handle, in order.
    pub closed spec fn attempts(self) -> Seq<Attempt<T>> {
        self.attempts@
    }

    /// The messages that the channel has taken from this handle, in the order of sending.
    pub open spec fn accepted(self) -> Seq<T> {
        taken(self.attempts())
    }

    /// How many further handles of the channel were made of this one.
    pub closed spec fn others(self) -> nat {
        self.others@
    }

    /// A handle that was just made: nothing has been sent through it, and no other made of it.
    pub open spec fn is_fresh(self) -> bool {
        &&& self.attempts() == Seq::<Attempt<T>>::empty()
        &&& self.others() == 0
    }

    /// `self` becomes `after` when there is `message` to send, if any, and `outcome` comes of it.
    /// With nothing to send there is no attempt, and nothing can fail. Otherwise there is one
    /// attempt, with that message. As long as nothing was taken from a handle, it is refused only
    /// for want of a receiver.
    pub open spec fn sends<R>(
        self,
        message: Option<T>,
        outcome: Result<R, SendFailure>,
        after: EventSender<T>,
    ) -> bool {
        &&& after.channel() == self.channel()
        &&& after.buffer() == self.buffer()
        &&& match message {
            None => outcome is Ok && after.attempts() == self.attempts(),
            Some(m) => {
                &&& after.attempts() == self.attempts().push(
                    Attempt { message: m, refused: refusal(outcome) },
                )
                &&& outcome matches Err(why) ==> self.accepted().len() == 0 ==> why is Disconnected
            },
        }
    }

    /// Calls `mpsc::channel`, which makes a channel with room for `buffer` messages on top of one
    /// for each sender, and returns a sender and the receiver of that one channel. It panics on
    /// a `buffer` of a quarter of the address space or more.
    #[verifier::external_body]
    pub(crate) fn open(buffer: usize) -> (halves: (EventSender<T>, EventReceiver<T>))
        requires
            buffer < usize::MAX / 4,
        ensures
            halves.0.is_fresh(),
            halves.0.buffer() == buffer,
            halves.0.channel() == halves.1.channel(),
            halves.1.answers() == Seq::<Polled<T>>::empty(),
    {
        let (tx, rx) = mpsc::channel(buffer);
        let sender = EventSender {
            tx,
            channel: Ghost(arbitrary()),
            buffer: Ghost(arbitrary()),
            attempts: Ghost(arbitrary()),
            others: Ghost(arbitrary()),
        };
        let receiver = EventReceiver {
            rx,
            channel: Ghost(arbitrary()),
            answers: Ghost(arbitrary()),
        };
        (sender, receiver)
    }

    /// Calls `Sender::start_send`, which either puts the message at the end of the channel or drops
    /// it and says why. The attempt goes on the record of this handle. A sender is refused for want
    /// of room only after a message of its own went in beyond the buffer, so a handle that nothing
    /// was taken from is never refused on that ground. Whether the channel has room, and whether the receiver is still there, is up to the other
    /// holders of the channel: no more is said of when the call fails.
    #[verifier::external_body]
    pub(crate) fn start_send(&mut self, message: T) -> (sent: Result<(), SendFailure>)
        ensures
            final(self).channel() == old(self).channel(),
            final(self).buffer() == old(self).buffer(),
            final(self).others() == old(self).others(),
            final(self).attempts() == old(self).attempts().push(
                (Attempt { message, refused: refusal(sent) }),
            ),
            sent matches Err(why) ==> (old(self).accepted().len() == 0 ==> why is Disconnected),
    {
        match self.tx.start_send(message) {
            Ok(()) => Ok(()),
            Err(e) if e.is_full() => Err(SendFailure::Full),
            Err(_) => Err(SendFailure::Disconnected),
        }
    }

    /// Calls `Sender::clone`, which gives another sender of the same channel, with a slot of its
    /// own. It goes on the record of this handle. The call panics only when there are already more
    /// senders than an address space can hold.
    #[verifier::external_body]
    pub(crate) fn another(&mut self) -> (sender: EventSender<T>)
        ensures
            sender.channel() == old(self).channel(),
            sender.buffer() == old(self).buffer(),
            sender.is_fresh(),
            final(self).channel() == old(self).channel(),
            final(self).buffer() == old(self).buffer(),
            final(self).attempts() == old(self).attempts(),
            final(self).others() == old(self).others() + 1,
    {
        EventSender {
            tx: self.tx.clone(),
            channel: self.channel,
            buffer: self.buffer,
            attempts: Ghost(arbitrary()),
            others: Ghost(arbitrary()),
        }
    }
}

impl<T> EventReceiver<T> {
    /// The channel that this end receives from.
    pub closed spec fn channel(self) -> int {
        self.channel@
    }

    /// What this end answered each time it was polled, in order.
    pub closed spec fn answers(self) -> Seq<Polled<T>> {
        self.answers@
    }

    /// The end has been reached.
    pub open spec fn has_ended(self) -> bool {
        self.answers().len() > 0 && self.answers().last() is End
    }

    /// Calls `poll_next_unpin` on the receiver as a stream, which takes the next message out of the
    /// channel, if there is one. Each answer goes on the record of this end. At the end the receiver
    /// lets go of the channel, and answers every later call in the same way. The channel hands out
    /// what its senders put in, in the order in which it took it; that is not stated here, because
    /// the senders are held elsewhere and keep records of their own.
    #[verifier::external_body]
    pub(crate) fn poll_next(&mut self, cx: &mut Context<'_>) -> (polled: Polled<T>)
        ensures
            final(self).channel() == old(self).channel(),
            final(self).answers() == old(self).answers().push(polled),
            old(self).has_ended() ==> polled is End,
    {
        match self.rx.poll_next_unpin(cx) {
            Poll::Ready(Some(message)) => Polled::Item(message),
            Poll::Ready(None) => Polled::End,
            Poll::Pending => Polled::Pending,
        }
    }
}

} // verus!
