use vstd::prelude::*;
use vstd::rwlock::RwLock;
use vstd::rwlock::RwLockPredicate;
use vstd::rwlock::ReadHandle;
use vstd::rwlock::WriteHandle;
use std::sync::Arc;

use crate::guard::ReadError;
use crate::guard::ReentrancyGuard;
use crate::notify::RenderNotifier;
use crate::world::AppWorld;
use crate::world::RenderCallback;
use crate::world::fold_steps;
use crate::world::lemma_fold_steps_push;

verus! {

/// `buf` holds, position by position and in the same order, a clone of each
/// message of `log`.
pub open spec fn clones_of<M: Clone>(log: Seq<M>, buf: Seq<M>) -> bool {
    &&& buf.len() == log.len()
    &&& forall|i: int| 0 <= i < log.len() ==> cloned::<M>(log[i], #[trigger] buf[i])
}

/// What the state lock protects: the world itself, the ghost baseline and
/// dispatch log that give it meaning, and the capture buffer.
struct Inner<W: AppWorld> {
    /// The application state.
    world: W,
    /// Whether dispatched messages are recorded in `buffer`.
    capture: bool,
    /// Whether an unchecked write has ever replaced the baseline.
    reset: Ghost<bool>,
    /// The state as of construction or the latest unchecked write.
    base: Ghost<W>,
    /// Every message dispatched since `base` was taken, in write-borrow order.
    log: Ghost<Seq<W::Message>>,
    /// Clones of the logged messages, kept only while capture is on.
    buffer: Vec<W::Message>,
}

impl<W: AppWorld> Inner<W> {
    /// The state-lock invariant: the held world is always the left fold of
    /// the handler over the baseline and the dispatch log; the baseline is
    /// the constructed state until an unchecked write replaces it; and the
    /// capture buffer mirrors the log exactly when capture is on.
    spec fn wf(self, policy: DispatchPolicy<W>) -> bool {
        &&& self.capture == policy.capture
        &&& !self.reset@ ==> self.base@ == policy.init
        &&& self.world == fold_steps(self.base@, self.log@)
        &&& if policy.capture {
            clones_of(self.log@, self.buffer@)
        } else {
            self.buffer@.len() == 0
        }
    }
}

/// The predicate of the state lock, fixed at construction: the capture
/// policy, and the initial state the container was built around.  Every value
/// stored in the lock is held to [`Inner::wf`] against it.
struct DispatchPolicy<W: AppWorld> {
    capture: bool,
    init: W,
}

impl<W: AppWorld> RwLockPredicate<Inner<W>> for DispatchPolicy<W> {
    closed spec fn inv(self, v: Inner<W>) -> bool {
        v.wf(self)
    }
}

/// Duplicate one message so that a dispatch can both record it and hand it to
/// the handler.
fn dup_message<M: Clone>(m: &M) -> (r: M)
    ensures
        cloned::<M>(*m, r),
{
    m.clone()
}

/// The write phase of a dispatch: record `message` in the capture buffer when
/// capture is on, append it to the dispatch log, and apply it to the world
/// through the handler.  The baseline never moves, so a well-formed lock
/// value comes out whenever one went in.
fn apply_message<W: AppWorld>(
    inner: Inner<W>,
    message: W::Message,
    Ghost(policy): Ghost<DispatchPolicy<W>>,
) -> (out: Inner<W>)
    requires
        inner.wf(policy),
    ensures
        out.wf(policy),
        out.base == inner.base,
        out.log@ == inner.log@.push(message),
        out.world == inner.world.step(message),
{
    let mut inner = inner;
    if inner.capture {
        let copy = dup_message(&message);
        inner.buffer.push(copy);
    }
    proof {
        lemma_fold_steps_push(inner.base@, inner.log@, message);
    }
    inner.log = Ghost(inner.log@.push(message));
    inner.world.msg(message);
    inner
}

/// Relies on `std::sync::Arc::clone`: the clone is another pointer to the
/// same allocation, so both handles hold the same value.
#[verifier::external_body]
pub(crate) fn share<T>(v: &Arc<T>) -> (r: Arc<T>)
    ensures
        r == *v,
{
    Arc::clone(v)
}

/// Holds application state and resources behind a reader/writer lock.
///
/// Calling code never mutates the state directly: it submits a message with
/// [`AppWorldWrapper::msg`], and the user-supplied handler applies it while
/// the container holds the exclusive write borrow.  Scoped read borrows come
/// from [`AppWorldWrapper::read`], guarded against same-thread reentrancy.
///
/// # Cloning
///
/// Cloning is a cheap, reference-counted duplication: all clones observe the
/// same underlying state and share the same render callback, and may be moved
/// freely across threads.
#[verifier::reject_recursive_types(R)]
pub struct AppWorldWrapper<W: AppWorld, R: RenderCallback> {
    world: Arc<RwLock<Inner<W>, DispatchPolicy<W>>>,
    render: RenderNotifier<R>,
}

impl<W: AppWorld, R: RenderCallback> AppWorldWrapper<W, R> {
    /// The lock predicate this container was built with.
    spec fn policy(self) -> DispatchPolicy<W> {
        (*self.world).pred()
    }

    /// Whether dispatched messages are recorded, as chosen at construction.
    pub closed spec fn capture_on(self) -> bool {
        self.policy().capture
    }

    /// The state this container was constructed around.  It stays the
    /// baseline of the dispatch log until an unchecked write replaces it.
    pub closed spec fn init_world(self) -> W {
        self.policy().init
    }

    fn build(world: W, render: R, capture: bool) -> (w: Self)
        ensures
            w.capture_on() == capture,
            w.init_world() == world,
    {
        let ghost policy = DispatchPolicy { capture, init: world };
        let ghost base = world;
        let inner = Inner {
            world,
            capture,
            reset: Ghost(false),
            base: Ghost(base),
            log: Ghost(Seq::empty()),
            buffer: Vec::new(),
        };
        let world_lock = RwLock::new(inner, Ghost(policy));
        AppWorldWrapper { world: Arc::new(world_lock), render: RenderNotifier::new(render) }
    }

    /// Create a new wrapper around an initial state and a render callback,
    /// with message capture off.
    pub fn new(world: W, render: R) -> (w: Self)
        ensures
            !w.capture_on(),
            w.init_world() == world,
    {
        Self::build(world, render, false)
    }

    /// Create a new wrapper that also records every dispatched message in an
    /// ordered, append-only buffer, for test and debug collaborators.
    pub fn new_capturing(world: W, render: R) -> (w: Self)
        ensures
            w.capture_on(),
            w.init_world() == world,
    {
        Self::build(world, render, true)
    }

    /// Dispatch one message.
    ///
    /// Takes a read borrow to evaluate the render predicate against the
    /// pre-mutation state and releases it; takes the exclusive write borrow,
    /// records the message if capture is on, applies it through the handler
    /// and releases the borrow; then, exactly when the predicate was true,
    /// runs the render callback under its own lock.  The write borrow is the
    /// sole serialization point: mutations from all threads are totally
    /// ordered by write-borrow acquisition order, and the lock invariant
    /// keeps the held state equal to the fold of the dispatch log.
    ///
    /// The state lock is never held while the callback runs, so the callback
    /// may itself dispatch.  The handler must not: it runs under the write
    /// borrow, and a nested dispatch would block on that same borrow.
    pub fn msg(&self, message: W::Message) {
        let read = self.world.acquire_read();
        let rerender = read.borrow().world.should_rerender(&message);
        read.release_read();

        let (inner, write) = self.world.acquire_write();
        let ghost policy = self.policy();
        let inner = apply_message(inner, message, Ghost(policy));
        write.release_write(inner);

        if rerender {
            self.render.notify();
        }
    }

    /// Acquire a scoped read borrow of the state.
    ///
    /// Blocks until no writer is active.  Fails immediately, without
    /// blocking and whatever other threads are doing, exactly when the
    /// calling thread's `guard` shows a live read borrow.  On success the
    /// guard moves to reading, and the returned handle observes a consistent
    /// snapshot: the fold of the dispatch log over the baseline.
    pub fn read<'a>(&'a self, guard: &mut ReentrancyGuard) -> (r: Result<
        WorldReadGuard<'a, W>,
        ReadError,
    >)
        ensures
            match r {
                Ok(g) => {
                    &&& !old(guard).held()
                    &&& final(guard).held()
                    &&& g.consistent()
                    &&& g.capture() == self.capture_on()
                    &&& g.init() == self.init_world()
                    &&& g.reads_from(*self)
                },
                Err(e) => {
                    &&& old(guard).held()
                    &&& final(guard).held()
                    &&& e == ReadError::ReentrantRead
                },
            },
    {
        if !guard.try_begin() {
            return Err(ReadError::ReentrantRead);
        }
        let handle = self.world.acquire_read();
        Ok(WorldReadGuard { handle })
    }

    /// Acquire the exclusive write borrow without dispatch bookkeeping.
    ///
    /// Hands out the current state for direct mutation, bypassing the render
    /// predicate, the capture buffer and the notification.  Intended only for
    /// pre-populating state in test harnesses, never for application message
    /// flow.  The lock stays held until [`WorldWriteGuard::put`] hands a
    /// state back; that state becomes the new baseline of the dispatch log.
    pub fn write(&self) -> (r: (W, WorldWriteGuard<'_, W>))
        ensures
            r.1.capture() == self.capture_on(),
    {
        let (inner, handle) = self.world.acquire_write();
        let Inner { world, capture, .. } = inner;
        (world, WorldWriteGuard { handle, capture })
    }
}

impl<W: AppWorld, R: RenderCallback> Clone for AppWorldWrapper<W, R> {
    /// A clone holds pointers to the same state and the same callback as the
    /// wrapper it was cloned from: it is the same container under a new
    /// handle.
    fn clone(&self) -> (r: Self)
        ensures
            r == *self,
    {
        AppWorldWrapper { world: share(&self.world), render: self.render.clone() }
    }
}

/// A scoped, read-only borrow of the state.
///
/// Hands out shared references to the world and the capture buffer.  Release
/// it with [`WorldReadGuard::release`], which frees the read lock and returns
/// the calling thread's [`ReentrancyGuard`] to idle.
pub struct WorldReadGuard<'a, W: AppWorld> {
    handle: ReadHandle<'a, Inner<W>, DispatchPolicy<W>>,
}

impl<'a, W: AppWorld> WorldReadGuard<'a, W> {
    /// The state this borrow observes.
    pub closed spec fn world_view(self) -> W {
        self.handle.view().world
    }

    /// The baseline the dispatch log starts from: the state as of
    /// construction or the latest unchecked write.
    pub closed spec fn base(self) -> W {
        self.handle.view().base@
    }

    /// The messages dispatched since the baseline, in write-borrow order.
    pub closed spec fn log(self) -> Seq<W::Message> {
        self.handle.view().log@
    }

    /// What the capture buffer holds.
    pub closed spec fn buffer_view(self) -> Seq<W::Message> {
        self.handle.view().buffer@
    }

    /// Whether this container records dispatched messages.
    pub closed spec fn capture(self) -> bool {
        self.handle.rwlock().pred().capture
    }

    /// The state the container was constructed around.
    pub closed spec fn init(self) -> W {
        self.handle.rwlock().pred().init
    }

    /// Whether an unchecked write has ever replaced the baseline of this
    /// container's dispatch log.
    pub closed spec fn reset(self) -> bool {
        self.handle.view().reset@
    }

    /// Whether this borrow and `other` were handed out by the same container.
    pub closed spec fn same_container(self, other: Self) -> bool {
        self.handle.rwlock() == other.handle.rwlock()
    }

    /// Whether this borrow was handed out by the container behind `wrapper`
    /// or any of its clones.
    pub closed spec fn reads_from<R: RenderCallback>(self, wrapper: AppWorldWrapper<W, R>) -> bool {
        self.handle.rwlock() == *wrapper.world
    }

    /// Reads observe one consistent snapshot: two read borrows of the same
    /// container that are live at the same time observe the same state, the
    /// same dispatch log and the same capture buffer.  (Two borrows taken at
    /// different times may of course observe different states: there is no
    /// freshness guarantee across separate acquisitions.)  The body is pure
    /// proof; calling this has no run-time effect.
    pub fn simultaneous_reads_agree(first: &Self, second: &Self)
        requires
            first.same_container(*second),
        ensures
            first.world_view() == second.world_view(),
            first.base() == second.base(),
            first.log() == second.log(),
            first.buffer_view() == second.buffer_view(),
    {
        proof {
            ReadHandle::lemma_readers_match(&first.handle, &second.handle);
        }
    }

    /// Two read borrows that read from the same wrapper value — one wrapper,
    /// or a wrapper and any clone of it — come from the same container.
    pub proof fn lemma_reads_from_same_container<R: RenderCallback>(
        first: Self,
        second: Self,
        wrapper: AppWorldWrapper<W, R>,
    )
        requires
            first.reads_from(wrapper),
            second.reads_from(wrapper),
        ensures
            first.same_container(second),
    {
    }

    /// The container guarantee, as seen through any read borrow: the observed
    /// state is exactly the left fold of the handler over the baseline and
    /// the dispatch log; the baseline is the constructed state as long as no
    /// unchecked write has replaced it; and the capture buffer mirrors the
    /// log (clone by clone, in order) exactly when capture is on.
    pub open spec fn consistent(self) -> bool {
        &&& self.world_view() == fold_steps(self.base(), self.log())
        &&& !self.reset() ==> self.base() == self.init()
        &&& self.capture() ==> clones_of(self.log(), self.buffer_view())
        &&& !self.capture() ==> self.buffer_view().len() == 0
    }

    /// Read the state.
    pub fn world(&self) -> (w: &W)
        ensures
            *w == self.world_view(),
    {
        &self.handle.borrow().world
    }

    /// Read the capture buffer: the messages recorded since the baseline, in
    /// dispatch order.
    pub fn captured(&self) -> (b: &Vec<W::Message>)
        ensures
            b@ == self.buffer_view(),
    {
        &self.handle.borrow().buffer
    }

    /// Release the read borrow and return the calling thread's guard to
    /// idle, so the thread can immediately take a fresh read borrow.
    pub fn release(self, guard: &mut ReentrancyGuard)
        ensures
            !final(guard).held(),
    {
        self.handle.release_read();
        guard.end();
    }
}

/// The exclusive write borrow handed out by [`AppWorldWrapper::write`].
///
/// While it lives, no reader and no dispatch can proceed.  Hand a state back
/// with [`WorldWriteGuard::put`] to release the lock.
pub struct WorldWriteGuard<'a, W: AppWorld> {
    handle: WriteHandle<'a, Inner<W>, DispatchPolicy<W>>,
    capture: bool,
}

impl<'a, W: AppWorld> WorldWriteGuard<'a, W> {
    /// The runtime capture flag always matches the policy the lock was
    /// created with, so that `put` can rebuild a well-formed lock value.
    #[verifier::type_invariant]
    spec fn wf(self) -> bool {
        self.capture == self.handle.rwlock().pred().capture
    }

    /// Whether the container this borrow came from records dispatched
    /// messages.
    pub closed spec fn capture(self) -> bool {
        self.handle.rwlock().pred().capture
    }

    /// Store `world` and release the write borrow.
    ///
    /// The stored state becomes the new baseline of the dispatch log: the
    /// log and the capture buffer restart empty, since the messages recorded
    /// so far no longer reconstruct the state.
    pub fn put(self, world: W) {
        proof {
            use_type_invariant(&self);
        }
        let WorldWriteGuard { handle, capture } = self;
        let ghost base = world;
        let inner = Inner {
            world,
            capture,
            reset: Ghost(true),
            base: Ghost(base),
            log: Ghost(Seq::empty()),
            buffer: Vec::new(),
        };
        handle.release_write(inner);
    }
}

} // verus!
