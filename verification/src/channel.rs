//! The central action queue.
//!
//! An ordered, unbounded, many-producer/single-consumer queue of actions.
//! The loop and the panels push onto it; only the loop's drain step takes
//! from it.  Both halves of the underlying channel live together in one
//! value, so the queue can neither lose its consumer nor its producer while
//! it exists.
use vstd::prelude::*;

verus! {

use crate::action::Action;

/// The action queue.  Holds the sending and the receiving half of one
/// unbounded FIFO channel; the contracts below speak of the queued actions
/// through [`channel_actions`].
#[verifier::external_body]
pub struct ActionChannel {
    tx: tokio::sync::mpsc::UnboundedSender<Action>,
    rx: tokio::sync::mpsc::UnboundedReceiver<Action>,
}

/// The actions queued in `c`, oldest first.
pub uninterp spec fn channel_actions(c: &ActionChannel) -> Seq<Action>;

impl ActionChannel {
    /// A fresh, empty queue.
    ///
    /// Relies on tokio's `mpsc::unbounded_channel`: a newly created channel
    /// holds no messages.
    #[verifier::external_body]
    pub fn new() -> (c: ActionChannel)
        ensures
            channel_actions(&c) == Seq::<Action>::empty(),
    {
        let (tx, rx) = tokio::sync::mpsc::unbounded_channel();
        ActionChannel { tx, rx }
    }

    /// Appends one action at the back of the queue.
    ///
    /// Relies on tokio's `UnboundedSender::send`: it never blocks, delivers
    /// messages in send order, and fails only when the receiving half is
    /// gone — which cannot happen here, since this value owns it.
    #[verifier::external_body]
    pub fn push(&mut self, action: Action)
        ensures
            channel_actions(final(self)) == channel_actions(old(self)).push(action),
    {
        let _ = self.tx.send(action);
    }

    /// Takes the oldest queued action, if the queue holds any.
    ///
    /// Relies on tokio's `UnboundedReceiver::try_recv`: it returns the
    /// messages of a sender in send order and reports an empty queue
    /// without blocking.
    #[verifier::external_body]
    pub fn try_pop(&mut self) -> (r: Option<Action>)
        ensures
            ({
                let q = channel_actions(old(self));
                match r {
                    Option::Some(a) => q.len() > 0 && a == q[0] && channel_actions(final(self))
                        == q.skip(1),
                    Option::None => q.len() == 0 && channel_actions(final(self)) == q,
                }
            }),
    {
        self.rx.try_recv().ok()
    }

    /// Whether the queue holds nothing.
    ///
    /// Relies on tokio's `UnboundedReceiver::is_empty`: true exactly when
    /// no message is waiting.
    #[verifier::external_body]
    pub fn is_empty(&self) -> (r: bool)
        ensures
            r == (channel_actions(self).len() == 0),
    {
        self.rx.is_empty()
    }
}

} // verus!
