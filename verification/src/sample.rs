use vstd::prelude::*;

use crate::world::AppWorld;
use crate::world::RenderCallback;
use crate::world::fold_steps;

verus! {

/// A ready-made world holding one saturating counter.
///
/// Every message raises the counter, saturating at `u64::MAX`, and every
/// dispatch asks for a render.  Useful as a minimal example and in tests.
pub struct CounterWorld {
    /// The current count.
    pub counter: u64,
}

/// The messages a [`CounterWorld`] understands.
#[derive(Clone, Copy, Debug, PartialEq, Eq, Structural)]
pub enum CounterMsg {
    /// Raise the counter by one.
    Increment,
    /// Raise the counter by the given amount.
    Add(u64),
}

impl CounterMsg {
    /// How much this message raises the counter by.
    pub open spec fn amount(self) -> u64 {
        match self {
            CounterMsg::Increment => 1,
            CounterMsg::Add(n) => n,
        }
    }
}

impl AppWorld for CounterWorld {
    type Message = CounterMsg;

    open spec fn step(self, message: CounterMsg) -> Self {
        if self.counter + message.amount() <= u64::MAX {
            CounterWorld { counter: (self.counter + message.amount()) as u64 }
        } else {
            CounterWorld { counter: u64::MAX }
        }
    }

    open spec fn rerenders(self, message: CounterMsg) -> bool {
        true
    }

    fn msg(&mut self, message: CounterMsg) {
        let amount: u64 = match message {
            CounterMsg::Increment => 1,
            CounterMsg::Add(n) => n,
        };
        if self.counter <= u64::MAX - amount {
            self.counter = self.counter + amount;
        } else {
            self.counter = u64::MAX;
        }
    }

    fn should_rerender(&self, message: &CounterMsg) -> (b: bool) {
        true
    }
}

impl Default for CounterWorld {
    /// A counter world starting at zero.
    fn default() -> (w: Self)
        ensures
            w.counter == 0,
    {
        CounterWorld { counter: 0 }
    }
}

/// The combined amount of a sequence of counter messages.
pub open spec fn total_amount(msgs: Seq<CounterMsg>) -> int
    decreases msgs.len(),
{
    if msgs.len() == 0 {
        0
    } else {
        total_amount(msgs.drop_last()) + msgs.last().amount()
    }
}

proof fn lemma_total_amount_nonneg(msgs: Seq<CounterMsg>)
    ensures
        total_amount(msgs) >= 0,
    decreases msgs.len(),
{
    if msgs.len() > 0 {
        lemma_total_amount_nonneg(msgs.drop_last());
    }
}

/// Folding a sequence of counter messages raises the counter by exactly their
/// combined amount while the sum stays within `u64`: no update is lost,
/// whatever order the dispatching threads were granted the write borrow in.
pub proof fn lemma_counter_fold(init: CounterWorld, msgs: Seq<CounterMsg>)
    requires
        init.counter + total_amount(msgs) <= u64::MAX,
    ensures
        fold_steps(init, msgs).counter == init.counter + total_amount(msgs),
    decreases msgs.len(),
{
    if msgs.len() > 0 {
        lemma_total_amount_nonneg(msgs.drop_last());
        lemma_counter_fold(init, msgs.drop_last());
    }
}

/// A ready-made world holding one latch that records whether any message was
/// ever applied.
///
/// Its messages carry no data; applying one sets the latch.  The render
/// predicate asks for a render only while the latch is still clear, so only
/// the first dispatch notifies: a dispatch after the latch is set sees the
/// pre-mutation state already mutated.
pub struct FlagWorld {
    /// Whether any message has been applied.
    pub was_mutated: bool,
}

/// The messages a [`FlagWorld`] understands.
#[derive(Clone, Copy, Debug, PartialEq, Eq, Structural)]
pub enum FlagMsg {
    /// Set the latch.
    Touch,
}

impl AppWorld for FlagWorld {
    type Message = FlagMsg;

    open spec fn step(self, message: FlagMsg) -> Self {
        FlagWorld { was_mutated: true }
    }

    open spec fn rerenders(self, message: FlagMsg) -> bool {
        !self.was_mutated
    }

    fn msg(&mut self, message: FlagMsg) {
        self.was_mutated = true;
    }

    fn should_rerender(&self, message: &FlagMsg) -> (b: bool) {
        !self.was_mutated
    }
}

impl Default for FlagWorld {
    /// A flag world whose latch is still clear.
    fn default() -> (w: Self)
        ensures
            !w.was_mutated,
    {
        FlagWorld { was_mutated: false }
    }
}

/// A render callback that does nothing, for worlds that are driven without a
/// user interface.
pub struct NoRender;

impl RenderCallback for NoRender {
    fn render(&mut self) {
    }
}

} // verus!
