//! A thin, concurrency-safe container for application state shared across
//! threads.
//!
//! State lives behind a shared container and is never mutated directly by
//! calling code: every change is a message, applied by the user-supplied
//! handler while the container holds the exclusive write borrow.  The
//! container also offers scoped read borrows with a same-thread reentrancy
//! guard, an optional capture buffer that records dispatched messages, and a
//! render callback that fires after qualifying dispatches.
//!
//! The container carries its central guarantee as a verified lock invariant:
//! the held state always equals the sequential left fold of the handler over
//! the baseline state and the dispatch log.
//!
//! Lock poisoning never arises here: a verified write phase cannot fault
//! midway, and the lock underneath has no poisoned state, so the container
//! never serves a half-mutated state.

mod guard;
mod notify;
mod sample;
mod world;
mod wrapper;

pub use guard::ReadError;
pub use guard::ReentrancyGuard;
pub use notify::RenderNotifier;
pub use sample::CounterMsg;
pub use sample::CounterWorld;
pub use sample::FlagMsg;
pub use sample::FlagWorld;
pub use sample::NoRender;
pub use sample::lemma_counter_fold;
pub use sample::total_amount;
pub use world::AppWorld;
pub use world::RenderCallback;
pub use world::fold_steps;
pub use world::lemma_fold_steps_push;
pub use wrapper::AppWorldWrapper;
pub use wrapper::WorldReadGuard;
pub use wrapper::WorldWriteGuard;
pub use wrapper::clones_of;
