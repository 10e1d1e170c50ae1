use app_world::AppWorldWrapper;
use app_world::FlagWorld;
use app_world::NoRender;
use app_world::ReadError;
use app_world::ReentrancyGuard;

#[test]
fn two_non_colliding_reads() {
    let world = AppWorldWrapper::new(FlagWorld::default(), NoRender);
    let mut guard = ReentrancyGuard::new();

    {
        let read = world.read(&mut guard).unwrap();
        read.release(&mut guard);
    }

    let read = world.read(&mut guard).unwrap();
    read.release(&mut guard);
}

#[test]
fn reentrant_read_fails_deterministically() {
    let world = AppWorldWrapper::new(FlagWorld::default(), NoRender);
    let mut guard = ReentrancyGuard::new();

    let first = world.read(&mut guard).unwrap();
    let second = world.read(&mut guard);
    assert!(matches!(second, Err(ReadError::ReentrantRead)));
    // A failed attempt changes nothing: the first borrow still reads.
    assert!(!first.world().was_mutated);
    first.release(&mut guard);

    // Once the borrow is released the same thread may read again at once.
    let third = world.read(&mut guard);
    assert!(third.is_ok());
    third.unwrap().release(&mut guard);
}

#[test]
fn two_simultaneous_read_borrows_coexist() {
    // Read borrows exclude writers, not one another.  Two holders — here two
    // reentrancy guards standing for two threads — read at the same time and
    // observe the same snapshot.
    let world = AppWorldWrapper::new(FlagWorld::default(), NoRender);
    let mut guard_a = ReentrancyGuard::new();
    let mut guard_b = ReentrancyGuard::new();

    let first = world.read(&mut guard_a).unwrap();
    let second = world.read(&mut guard_b).unwrap();
    assert_eq!(first.world().was_mutated, second.world().was_mutated);
    second.release(&mut guard_b);
    first.release(&mut guard_a);
}

#[test]
fn fresh_guard_starts_idle() {
    let world = AppWorldWrapper::new(FlagWorld::default(), NoRender);
    let mut guard = ReentrancyGuard::new();
    let read = world.read(&mut guard);
    assert!(read.is_ok());
    read.unwrap().release(&mut guard);
}
