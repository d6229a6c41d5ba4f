use vstd::prelude::*;

use std::collections::VecDeque;

use crate::action::RubiksAction;

verus! {

/// The moves waiting to be shown, first in first out; the front one is
/// being shown.
pub struct AnimationQueue {
    pending: VecDeque<RubiksAction>,
}

impl View for AnimationQueue {
    type V = Seq<RubiksAction>;

    closed spec fn view(&self) -> Seq<RubiksAction> {
        self.pending@
    }
}

impl AnimationQueue {
    /// A queue with nothing to show.
    pub fn new() -> (r: AnimationQueue)
        ensures
            r@ == Seq::<RubiksAction>::empty(),
    {
        AnimationQueue { pending: VecDeque::new() }
    }

    /// Whether nothing is being shown, so that a new move starts at once.
    pub fn is_idle(&self) -> (r: bool)
        ensures
            r == (self@.len() == 0),
    {
        self.pending.len() == 0
    }

    /// Puts a move at the back of the queue.
    pub fn push(&mut self, action: RubiksAction)
        ensures
            final(self)@ == old(self)@.push(action),
    {
        self.pending.push_back(action);
    }

    /// The move being shown has ended: it leaves the queue, and the move to
    /// show next, if any, is returned.
    pub fn finish_current(&mut self) -> (next: Option<RubiksAction>)
        requires
            old(self)@.len() > 0,
        ensures
            final(self)@ == old(self)@.drop_first(),
            next == (if final(self)@.len() > 0 {
                Some(final(self)@[0])
            } else {
                None
            }),
    {
        let finished = self.pending.pop_front();
        assert(finished is Some);
        assert(self.pending@ =~= old(self)@.drop_first());
        if self.pending.len() > 0 {
            Some(self.pending[0])
        } else {
            None
        }
    }
}

} // verus!
