//! The reply side of a request: the slot a caller waits on, filled at most
//! once by the actor that was asked, and the ways in which waiting can end
//! without a reply.

use vstd::prelude::*;

verus! {

/// Why an `ask` ended without the value that was asked for.
#[derive(Debug, PartialEq, Eq)]
pub enum AskError<E> {
    /// The mailbox was closed before a reply was produced.
    ActorGone,
    /// The deadline passed with the slot still empty.
    Timeout,
    /// The actor replied, and its reply was this error of its own.
    Domain(E),
}

impl<E: View> View for AskError<E> {
    type V = AskError<E::V>;

    open spec fn view(&self) -> AskError<E::V> {
        match self {
            AskError::ActorGone => AskError::ActorGone,
            AskError::Timeout => AskError::Timeout,
            AskError::Domain(e) => AskError::Domain(e@),
        }
    }
}

/// A single-use place for one reply.
///
/// It starts `Waiting`. The actor's side moves it to `Fulfilled` or `Gone`,
/// each at most once and only from `Waiting`; the caller's side moves it to
/// `Spent` by collecting the outcome or by giving up. Nothing leaves `Spent`,
/// so a reply that arrives after the caller gave up is discarded.
#[derive(Debug, PartialEq, Eq)]
pub enum ReplySlot<T, E> {
    Waiting,
    Fulfilled(Result<T, E>),
    Gone,
    Spent,
}

/// What a caller that looks at `slot` comes away with, if anything:
/// `None` means that it has to go on waiting.
pub open spec fn outcome<T, E>(slot: ReplySlot<T, E>, timed_out: bool) -> Option<
    Result<T, AskError<E>>,
> {
    match slot {
        ReplySlot::Fulfilled(Ok(value)) => Some(Ok(value)),
        ReplySlot::Fulfilled(Err(error)) => Some(Err(AskError::Domain(error))),
        ReplySlot::Gone => Some(Err(AskError::ActorGone)),
        ReplySlot::Waiting => if timed_out {
            Some(Err(AskError::Timeout))
        } else {
            None
        },
        ReplySlot::Spent => None,
    }
}

impl<T, E> ReplySlot<T, E> {
    /// A fresh slot that nobody has answered.
    pub fn new() -> (slot: Self)
        ensures
            slot is Waiting,
    {
        ReplySlot::Waiting
    }

    /// Puts `reply` into the slot if it is still waiting for one. Otherwise
    /// the slot stays as it is and the reply is handed back to be dropped.
    pub fn fulfill(&mut self, reply: Result<T, E>) -> (r: Result<(), Result<T, E>>)
        ensures
            *old(self) is Waiting ==> r is Ok && *final(self) == ReplySlot::<T, E>::Fulfilled(
                reply,
            ),
            !(*old(self) is Waiting) ==> r == Err::<(), Result<T, E>>(reply) && *final(self)
                == *old(self),
    {
        match self {
            ReplySlot::Waiting => {
                *self = ReplySlot::Fulfilled(reply);
                Ok(())
            },
            _ => Err(reply),
        }
    }

    /// Marks a slot that is still waiting as one whose actor is gone.
    /// Returns whether it did so.
    pub fn reject(&mut self) -> (changed: bool)
        ensures
            changed == (*old(self) is Waiting),
            changed ==> *final(self) is Gone,
            !changed ==> *final(self) == *old(self),
    {
        match self {
            ReplySlot::Waiting => {
                *self = ReplySlot::Gone;
                true
            },
            _ => false,
        }
    }

    /// Takes the outcome out of the slot, if there is one to take, and
    /// leaves the slot spent. With `timed_out` a slot that is still waiting
    /// yields `Timeout`; without it such a slot is left waiting.
    pub fn collect(&mut self, timed_out: bool) -> (r: Option<Result<T, AskError<E>>>)
        ensures
            r == outcome(*old(self), timed_out),
            r is Some ==> *final(self) is Spent,
            r is None ==> *final(self) == *old(self),
    {
        let mut taken = ReplySlot::Spent;
        core::mem::swap(self, &mut taken);
        match taken {
            ReplySlot::Fulfilled(Ok(value)) => Some(Ok(value)),
            ReplySlot::Fulfilled(Err(error)) => Some(Err(AskError::Domain(error))),
            ReplySlot::Gone => Some(Err(AskError::ActorGone)),
            ReplySlot::Waiting => {
                if timed_out {
                    Some(Err(AskError::Timeout))
                } else {
                    *self = ReplySlot::Waiting;
                    None
                }
            },
            ReplySlot::Spent => None,
        }
    }
}

} // verus!
