use vstd::prelude::*;

verus! {

/// Capability interface of the user-supplied application state.
///
/// An implementation owns whatever data and resources the application keeps
/// around at runtime.  The container never mutates that data directly: every
/// change goes through [`AppWorld::msg`], which applies one message.
///
/// The two spec functions are the mathematical face of the two executable
/// methods: `step` says what applying a message means, and `rerenders` says
/// when a dispatch of that message must be followed by a render notification.
/// Every implementation proves that its executable methods agree with them.
pub trait AppWorld: Sized {
    /// Describes one event that drives a state change.
    ///
    /// A message is immutable once submitted and is consumed by exactly one
    /// dispatch.  `Clone` is required so that a dispatch can record the
    /// message in the capture buffer while still handing it to the handler.
    type Message: Clone;

    /// The state that applying `message` to `self` produces.
    spec fn step(self, message: Self::Message) -> Self;

    /// Whether a dispatch of `message` against the pre-mutation state `self`
    /// must be followed by a render notification.
    spec fn rerenders(self, message: Self::Message) -> bool;

    /// Apply one message to the state.
    ///
    /// This is the only operation that mutates the state, and it must realise
    /// exactly the transition that [`AppWorld::step`] describes.
    fn msg(&mut self, message: Self::Message)
        ensures
            *final(self) == old(self).step(message),
    ;

    /// Evaluate the render predicate against the current (pre-mutation) state.
    ///
    /// The predicate is pure: it must return exactly what
    /// [`AppWorld::rerenders`] says and change nothing.
    fn should_rerender(&self, message: &Self::Message) -> (b: bool)
        ensures
            b == self.rerenders(*message),
    ;
}

/// A zero-argument, repeatable, side-effecting unit of work, invoked after a
/// qualifying dispatch.
///
/// The callback is shared by all clones of a wrapper and is invoked under an
/// internal lock, so two concurrent notifications never run it at the same
/// time.  It may be called from any thread and carries no contract: the
/// container promises nothing about what it does.
pub trait RenderCallback: Sized {
    /// Run the callback once.
    fn render(&mut self);
}

/// The sequential left fold of [`AppWorld::step`] over a message sequence:
/// the state that results from applying the messages of `msgs` to `init`, one
/// after the other, in order.
pub open spec fn fold_steps<W: AppWorld>(init: W, msgs: Seq<W::Message>) -> W
    decreases msgs.len(),
{
    if msgs.len() == 0 {
        init
    } else {
        fold_steps(init, msgs.drop_last()).step(msgs.last())
    }
}

/// Dispatch order is fold order: dispatching one more message `m` after the
/// sequence `msgs` yields exactly one more `step` applied to the folded state.
/// Together with the container invariant (the held state always equals
/// `fold_steps` of the dispatch log) this says that the state resulting from
/// any sequence of dispatches is the sequential left fold of the handler over
/// the initial state and the messages, in dispatch order.
pub proof fn lemma_fold_steps_push<W: AppWorld>(init: W, msgs: Seq<W::Message>, m: W::Message)
    ensures
        fold_steps(init, msgs.push(m)) == fold_steps(init, msgs).step(m),
{
    assert(msgs.push(m).drop_last() =~= msgs);
    assert(msgs.push(m).last() == m);
}

} // verus!
