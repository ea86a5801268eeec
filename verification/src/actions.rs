//! Application-wide intents and the queue that carries them.
//!
//! A view never mutates another view or the dispatcher directly: it enqueues
//! an [`Action`] on the [`ActionQueue`], and the dispatcher consumes the
//! queue one message per loop iteration.

use vstd::prelude::*;

verus! {

/// One of the mutually exclusive top-level screens.
#[derive(Clone, Copy, PartialEq, Eq, Structural, Debug)]
pub enum Screen {
    /// The instrument browser with its candlestick chart.
    Instruments,
    /// The free-form notes list.
    Notes,
    /// The todo checklist.
    Todo,
}

/// An application-wide intent, produced by a view and consumed by the
/// dispatcher (or, for view-specific intents, by the active view itself).
#[derive(Clone, Copy, PartialEq, Eq, Structural, Debug)]
pub enum Action {
    /// Stop the run loop.
    Quit,
    /// Recompute the chart for the currently selected instrument.
    RequestChartRefresh,
    /// Make the given screen the current one.
    ChangeView(Screen),
}

/// An unbounded first-in first-out queue of [`Action`] messages.
///
/// Producers push at the back; the dispatcher pops from the front.
pub struct ActionQueue {
    items: Vec<Action>,
}

impl View for ActionQueue {
    type V = Seq<Action>;

    closed spec fn view(&self) -> Seq<Action> {
        self.items@
    }
}

impl ActionQueue {
    /// An empty queue.
    pub fn new() -> (q: ActionQueue)
        ensures
            q@ == Seq::<Action>::empty(),
    {
        ActionQueue { items: Vec::new() }
    }

    /// The number of queued actions.
    pub fn len(&self) -> (n: usize)
        ensures
            n == self@.len(),
    {
        self.items.len()
    }

    /// Enqueue an action at the back.
    pub fn push(&mut self, a: Action)
        ensures
            final(self)@ == old(self)@.push(a),
    {
        self.items.push(a);
    }

    /// Dequeue the oldest action, or `None` when the queue is empty.
    pub fn pop_front(&mut self) -> (r: Option<Action>)
        ensures
            old(self)@.len() == 0 ==> r is None && final(self)@ == old(self)@,
            old(self)@.len() > 0 ==> r == Some(old(self)@[0]) && final(self)@
                == old(self)@.drop_first(),
    {
        if self.items.len() == 0 {
            None
        } else {
            let a = self.items.remove(0);
            proof {
                assert(self.items@ =~= old(self)@.drop_first());
            }
            Some(a)
        }
    }
}

} // verus!
