use std::cell::Cell;
use std::rc::Rc;

use app_world::AppWorldWrapper;
use app_world::CounterMsg;
use app_world::CounterWorld;
use app_world::FlagMsg;
use app_world::FlagWorld;
use app_world::NoRender;
use app_world::ReentrancyGuard;
use app_world::RenderCallback;

/// A render callback that counts how many times it ran.
struct CountingRender(Rc<Cell<usize>>);

impl RenderCallback for CountingRender {
    fn render(&mut self) {
        self.0.set(self.0.get() + 1);
    }
}

#[test]
fn notifier_runs_the_shared_callback() {
    let hits = Rc::new(Cell::new(0));
    let notifier = app_world::RenderNotifier::new(CountingRender(Rc::clone(&hits)));
    let clone = notifier.clone();
    notifier.notify();
    clone.notify();
    assert_eq!(hits.get(), 2);
}

#[test]
fn counter_increment_notifies_once() {
    let hits = Rc::new(Cell::new(0));
    let world = AppWorldWrapper::new(
        CounterWorld { counter: 0 },
        CountingRender(Rc::clone(&hits)),
    );
    world.msg(CounterMsg::Increment);
    assert_eq!(hits.get(), 1);

    let mut guard = ReentrancyGuard::new();
    let read = world.read(&mut guard).unwrap();
    assert_eq!(read.world().counter, 1);
    read.release(&mut guard);
}

#[test]
fn predicate_runs_against_pre_mutation_state() {
    // FlagWorld asks for a render only while its latch is still clear, so the
    // first dispatch must notify (the predicate sees the latch clear) and the
    // second must not (the predicate sees the first mutation).
    let hits = Rc::new(Cell::new(0));
    let world = AppWorldWrapper::new(FlagWorld::default(), CountingRender(Rc::clone(&hits)));
    world.msg(FlagMsg::Touch);
    assert_eq!(hits.get(), 1);
    world.msg(FlagMsg::Touch);
    assert_eq!(hits.get(), 1);
}

#[test]
fn two_thousand_increments() {
    let world = AppWorldWrapper::new(CounterWorld { counter: 0 }, NoRender);
    let clone = world.clone();
    for _ in 0..1000 {
        world.msg(CounterMsg::Increment);
        clone.msg(CounterMsg::Increment);
    }
    let mut guard = ReentrancyGuard::new();
    let read = world.read(&mut guard).unwrap();
    assert_eq!(read.world().counter, 2000);
    read.release(&mut guard);
}

#[test]
fn dispatch_sequence_is_left_fold() {
    let world = AppWorldWrapper::new(CounterWorld { counter: 5 }, NoRender);
    world.msg(CounterMsg::Add(3));
    world.msg(CounterMsg::Increment);
    world.msg(CounterMsg::Add(2));

    let mut guard = ReentrancyGuard::new();
    let read = world.read(&mut guard).unwrap();
    assert_eq!(read.world().counter, 11);
    read.release(&mut guard);
}

#[test]
fn counter_saturates_at_max() {
    let world = AppWorldWrapper::new(CounterWorld { counter: u64::MAX - 1 }, NoRender);
    world.msg(CounterMsg::Add(7));
    world.msg(CounterMsg::Increment);

    let mut guard = ReentrancyGuard::new();
    let read = world.read(&mut guard).unwrap();
    assert_eq!(read.world().counter, u64::MAX);
    read.release(&mut guard);
}

#[test]
fn capture_records_messages_in_order() {
    let world = AppWorldWrapper::new_capturing(CounterWorld { counter: 0 }, NoRender);
    world.msg(CounterMsg::Add(1));
    world.msg(CounterMsg::Add(2));

    let mut guard = ReentrancyGuard::new();
    let read = world.read(&mut guard).unwrap();
    let buffer = read.captured();
    assert_eq!(buffer.len(), 2);
    assert_eq!(buffer[0], CounterMsg::Add(1));
    assert_eq!(buffer[1], CounterMsg::Add(2));
    read.release(&mut guard);
}

#[test]
fn capture_off_records_nothing() {
    let world = AppWorldWrapper::new(CounterWorld { counter: 0 }, NoRender);
    world.msg(CounterMsg::Add(1));

    let mut guard = ReentrancyGuard::new();
    let read = world.read(&mut guard).unwrap();
    assert_eq!(read.captured().len(), 0);
    read.release(&mut guard);
}

#[test]
fn mutation_through_clone_is_visible() {
    let world = AppWorldWrapper::new(FlagWorld::default(), NoRender);
    let clone = world.clone();
    clone.msg(FlagMsg::Touch);

    let mut guard = ReentrancyGuard::new();
    let read = world.read(&mut guard).unwrap();
    assert!(read.world().was_mutated);
    read.release(&mut guard);
}

#[test]
fn unchecked_write_prepopulates_state() {
    let hits = Rc::new(Cell::new(0));
    let world = AppWorldWrapper::new_capturing(
        CounterWorld { counter: 0 },
        CountingRender(Rc::clone(&hits)),
    );
    world.msg(CounterMsg::Increment);

    let (mut state, write) = world.write();
    state.counter = 42;
    write.put(state);
    // The unchecked write bypassed the predicate and the buffer: no new
    // notification, and the capture log restarts at the new baseline.
    assert_eq!(hits.get(), 1);

    let mut guard = ReentrancyGuard::new();
    let read = world.read(&mut guard).unwrap();
    assert_eq!(read.world().counter, 42);
    assert_eq!(read.captured().len(), 0);
    read.release(&mut guard);

    world.msg(CounterMsg::Increment);
    let read = world.read(&mut guard).unwrap();
    assert_eq!(read.world().counter, 43);
    assert_eq!(read.captured().len(), 1);
    read.release(&mut guard);
}
