use vstd::prelude::*;

use crate::command_loop::{
    accepts, loop_inv, next, ActionView, CommandView, EventView, LoopView, ReplyView,
};

verus! {

/// A one-shot stop signal: once fired, the server admits no more connections.
#[derive(Debug)]
pub struct ShutdownSignal {
    fired: bool,
}

impl View for ShutdownSignal {
    type V = bool;

    /// Whether the signal has fired.
    closed spec fn view(&self) -> bool {
        self.fired
    }
}

impl ShutdownSignal {
    /// A signal that has not fired.
    pub fn new() -> (r: Self)
        ensures
            !r@,
    {
        ShutdownSignal { fired: false }
    }

    /// Fires the signal; true when this is the first time.
    pub fn fire(&mut self) -> (first: bool)
        ensures
            final(self)@,
            first == !old(self)@,
    {
        let first = !self.fired;
        self.fired = true;
        first
    }

    /// Whether a new connection may be accepted.
    pub fn admits_connections(&self) -> (r: bool)
        ensures
            r == !self@,
    {
        !self.fired
    }
}

/// A stop command is answered at once, ends the loop, and after it the loop
/// takes nothing more: no command, no hardware result, not even the queue's
/// end. The replies sent before it were counted and stay so.
pub proof fn lemma_stop_is_final(s: LoopView)
    requires
        loop_inv(s),
        s.phase is Ready,
    ensures
        next(s, EventView::Received(CommandView::StopServer)).1 == ActionView::Shutdown(
            ReplyView::StopReply,
        ),
        next(s, EventView::Received(CommandView::StopServer)).0.replied == s.replied + 1,
        forall|e: EventView| !accepts(next(s, EventView::Received(CommandView::StopServer)).0, e),
{
}

} // verus!
