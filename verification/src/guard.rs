use vstd::prelude::*;

verus! {

/// Why a read borrow could not be handed out.
///
/// There is only one recoverable failure: the calling thread already holds a
/// live read borrow, and granting a second one could deadlock against a
/// waiting writer on lock implementations that give writers priority.  The
/// container turns that platform-dependent deadlock into this immediate,
/// deterministic error.
///
/// Lock poisoning has no variant here: the verified lock has no poisoned
/// state, and a verified write phase cannot fault midway.
#[derive(Clone, Copy, Debug, PartialEq, Eq, Structural)]
pub enum ReadError {
    /// The calling thread already holds a live read borrow.
    ReentrantRead,
}

/// Per-thread flag preventing a thread from holding two concurrent read
/// borrows.
///
/// Each thread that takes read borrows owns exactly one `ReentrancyGuard` and
/// passes it to every [`crate::AppWorldWrapper::read`] call it makes and to
/// every release of the resulting handle.  The guard is a two-state machine:
/// idle, or reading.  Asking for a read borrow while reading is an illegal
/// transition and fails immediately instead of blocking; releasing the borrow
/// returns the guard to idle.
pub struct ReentrancyGuard {
    reading: bool,
}

impl ReentrancyGuard {
    /// Whether the owning thread currently holds a live read borrow.
    pub closed spec fn held(self) -> bool {
        self.reading
    }

    /// A fresh guard for a thread that holds no read borrow.
    pub fn new() -> (g: Self)
        ensures
            !g.held(),
    {
        ReentrancyGuard { reading: false }
    }

    /// Move from idle to reading; fails, changing nothing observable, when
    /// already reading.
    pub(crate) fn try_begin(&mut self) -> (ok: bool)
        ensures
            ok == !old(self).held(),
            final(self).held(),
    {
        if self.reading {
            false
        } else {
            self.reading = true;
            true
        }
    }

    /// Move back to idle; the owning thread holds no read borrow afterwards.
    pub(crate) fn end(&mut self)
        ensures
            !final(self).held(),
    {
        self.reading = false;
    }
}

} // verus!
