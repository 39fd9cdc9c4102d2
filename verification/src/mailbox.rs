//! The mailbox of an actor: messages wait in it in the order in which they
//! were sent, until the actor takes them one at a time or stops.

use std::collections::VecDeque;
use vstd::prelude::*;

verus! {

/// A message that could not be delivered because the mailbox is closed. It
/// is handed back to the sender.
#[derive(Debug, PartialEq, Eq)]
pub struct Closed<M>(pub M);

/// The messages that wait for one actor. Once closed, a mailbox stays
/// closed and empty.
pub struct Mailbox<M> {
    queue: VecDeque<M>,
    open: bool,
}

/// The mathematical content of a [`Mailbox`].
pub struct MailboxView<M> {
    /// The messages that wait, the one that was sent first at the front.
    pub pending: Seq<M>,
    /// Whether the actor still takes messages.
    pub open: bool,
}

impl<M> View for Mailbox<M> {
    type V = MailboxView<M>;

    closed spec fn view(&self) -> MailboxView<M> {
        MailboxView { pending: self.queue@, open: self.open }
    }
}

impl<M> Mailbox<M> {
    /// A closed mailbox holds nothing.
    pub open spec fn well_formed(&self) -> bool {
        !self@.open ==> self@.pending.len() == 0
    }

    /// An open mailbox in which nothing waits.
    pub fn new() -> (mailbox: Self)
        ensures
            mailbox@ == (MailboxView { pending: Seq::<M>::empty(), open: true }),
            mailbox.well_formed(),
    {
        Mailbox { queue: VecDeque::new(), open: true }
    }

    /// Whether the actor still takes messages.
    pub fn is_open(&self) -> (open: bool)
        ensures
            open == self@.open,
    {
        self.open
    }

    /// How many messages wait.
    pub fn len(&self) -> (n: usize)
        ensures
            n == self@.pending.len(),
    {
        self.queue.len()
    }

    /// Puts `message` behind those that wait. A closed mailbox takes
    /// nothing: the message comes back, and the sender knows.
    pub fn send(&mut self, message: M) -> (r: Result<(), Closed<M>>)
        ensures
            final(self)@ == old(self)@.sent(message),
            r == if old(self)@.open {
                Ok::<(), Closed<M>>(())
            } else {
                Err::<(), Closed<M>>(Closed(message))
            },
            old(self).well_formed() ==> final(self).well_formed(),
    {
        if self.open {
            self.queue.push_back(message);
            Ok(())
        } else {
            Err(Closed(message))
        }
    }

    /// Takes the message that has waited longest, if any waits.
    pub fn receive(&mut self) -> (r: Option<M>)
        ensures
            final(self)@ == old(self)@.received(),
            r == if old(self)@.pending.len() > 0 {
                Some(old(self)@.pending[0])
            } else {
                None::<M>
            },
            old(self).well_formed() ==> final(self).well_formed(),
    {
        let r = self.queue.pop_front();
        proof {
            if old(self)@.pending.len() > 0 {
                assert(self.queue@ =~= old(self)@.pending.drop_first());
            } else {
                assert(self.queue@ =~= old(self)@.pending);
            }
        }
        r
    }

    /// Closes the mailbox and hands out what still waited, in order, so
    /// that whoever waits for a reply to one of those messages can be told
    /// that none will come.
    pub fn close(&mut self) -> (left: Vec<M>)
        ensures
            left@ == old(self)@.pending,
            final(self)@ == (MailboxView { pending: Seq::<M>::empty(), open: false }),
            final(self).well_formed(),
    {
        let mut left: Vec<M> = Vec::new();
        loop
            invariant
                left@ + self.queue@ == old(self)@.pending,
            ensures
                self.queue@.len() == 0,
                left@ == old(self)@.pending,
            decreases self.queue@.len(),
        {
            match self.queue.pop_front() {
                Some(message) => {
                    left.push(message);
                },
                None => {
                    break ;
                },
            }
        }
        self.open = false;
        assert(self.queue@ =~= Seq::<M>::empty());
        left
    }
}

impl<M> MailboxView<M> {
    /// The mailbox after `message` has been sent to it.
    pub open spec fn sent(self, message: M) -> MailboxView<M> {
        if self.open {
            MailboxView { pending: self.pending.push(message), open: true }
        } else {
            self
        }
    }

    /// The mailbox after the actor has tried to take a message.
    pub open spec fn received(self) -> MailboxView<M> {
        if self.pending.len() > 0 {
            MailboxView { pending: self.pending.drop_first(), open: self.open }
        } else {
            self
        }
    }

    /// The mailbox after `messages` have been sent to it one after another.
    pub open spec fn sent_all(self, messages: Seq<M>) -> MailboxView<M>
        decreases messages.len(),
    {
        if messages.len() == 0 {
            self
        } else {
            self.sent(messages[0]).sent_all(messages.drop_first())
        }
    }

    /// What the actor takes out of the mailbox in its next `n` receives.
    pub open spec fn taken(self, n: nat) -> Seq<M>
        decreases n,
    {
        if n == 0 || self.pending.len() == 0 {
            Seq::empty()
        } else {
            seq![self.pending[0]] + self.received().taken((n - 1) as nat)
        }
    }
}

/// Sending to an open mailbox puts the messages behind those that wait, in
/// the order in which they were sent.
pub proof fn sending_appends<M>(mailbox: MailboxView<M>, messages: Seq<M>)
    requires
        mailbox.open,
    ensures
        mailbox.sent_all(messages) == (MailboxView {
            pending: mailbox.pending + messages,
            open: true,
        }),
    decreases messages.len(),
{
    if messages.len() == 0 {
        assert(mailbox.pending + messages =~= mailbox.pending);
    } else {
        sending_appends(mailbox.sent(messages[0]), messages.drop_first());
        assert(mailbox.pending.push(messages[0]) + messages.drop_first() =~= mailbox.pending
            + messages);
    }
}

/// The actor takes what waits from the front.
pub proof fn taking_is_from_the_front<M>(mailbox: MailboxView<M>, n: nat)
    requires
        n <= mailbox.pending.len(),
    ensures
        mailbox.taken(n) == mailbox.pending.subrange(0, n as int),
    decreases n,
{
    if n == 0 {
        assert(mailbox.pending.subrange(0, 0) =~= Seq::<M>::empty());
    } else {
        taking_is_from_the_front(mailbox.received(), (n - 1) as nat);
        assert(seq![mailbox.pending[0]] + mailbox.pending.drop_first().subrange(0, n - 1)
            =~= mailbox.pending.subrange(0, n as int));
    }
}

/// Messages sent to an open mailbox are taken by the actor in the order in
/// which they were sent: once what waited before is taken, the actor's next
/// receives give the messages as they were sent, one by one.
pub proof fn delivery_is_in_send_order<M>(mailbox: MailboxView<M>, messages: Seq<M>)
    requires
        mailbox.open,
    ensures
        mailbox.sent_all(messages).taken(mailbox.pending.len() + messages.len())
            == mailbox.pending + messages,
{
    sending_appends(mailbox, messages);
    let then = mailbox.sent_all(messages);
    taking_is_from_the_front(then, mailbox.pending.len() + messages.len());
    assert(then.pending.subrange(0, (mailbox.pending.len() + messages.len()) as int)
        =~= then.pending);
}

/// Nothing can be sent to a closed mailbox: it stays as it is.
pub proof fn closed_mailbox_takes_nothing<M>(mailbox: MailboxView<M>, messages: Seq<M>)
    requires
        !mailbox.open,
    ensures
        mailbox.sent_all(messages) == mailbox,
    decreases messages.len(),
{
    if messages.len() > 0 {
        closed_mailbox_takes_nothing(mailbox, messages.drop_first());
    }
}

} // verus!
