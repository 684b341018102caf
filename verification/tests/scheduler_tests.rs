use rust_iss::scheduler::{
    hash_lock_name, scheduler_step, LockTable, TaskAction, TaskEvent, TaskState,
};

#[test]
fn lock_names_hash_deterministically() {
    let a = hash_lock_name("osdr_fetch");
    let b = hash_lock_name("osdr_fetch");
    assert_eq!(a, b);
    let c = hash_lock_name(&format!("{}_fetch", "osdr"));
    assert_eq!(a, c);
}

#[test]
fn of_two_contenders_exactly_one_acquires() {
    let mut locks = LockTable::new();
    let id = hash_lock_name("iss_fetch") as i64;
    let first = locks.try_acquire(id);
    let second = locks.try_acquire(id);
    assert!(first);
    assert!(!second);
    // After the winner releases, the lock is free for the next tick.
    assert!(locks.release(id));
    assert!(locks.try_acquire(id));
}

#[test]
fn locks_under_different_identifiers_do_not_contend() {
    let mut locks = LockTable::new();
    assert!(locks.try_acquire(1));
    assert!(locks.try_acquire(2));
    assert!(!locks.try_acquire(1));
    assert!(locks.release(1));
    assert!(!locks.release(1));
    assert!(!locks.try_acquire(2));
}

#[test]
fn scheduler_walks_the_acquired_path() {
    let lock_id = 7;
    let interval = 600;
    let (s1, a1) = scheduler_step(TaskState::Idle, TaskEvent::TickDue, lock_id, interval);
    assert_eq!(s1, TaskState::Acquiring);
    assert_eq!(a1, TaskAction::TryAcquire(lock_id));
    let (s2, a2) = scheduler_step(s1, TaskEvent::AcquireResult(true), lock_id, interval);
    assert_eq!(s2, TaskState::Running);
    assert_eq!(a2, TaskAction::RunBody);
    let (s3, a3) = scheduler_step(s2, TaskEvent::BodyFinished(true), lock_id, interval);
    assert_eq!(s3, TaskState::Releasing);
    assert_eq!(a3, TaskAction::ReleaseLock(lock_id));
    let (s4, a4) = scheduler_step(s3, TaskEvent::Released, lock_id, interval);
    assert_eq!(s4, TaskState::Idle);
    assert_eq!(a4, TaskAction::Sleep(interval));
}

#[test]
fn contended_lock_skips_the_body() {
    let (s, a) = scheduler_step(TaskState::Acquiring, TaskEvent::AcquireResult(false), 7, 120);
    assert_eq!(s, TaskState::Idle);
    assert_eq!(a, TaskAction::Sleep(120));
}

#[test]
fn failed_body_still_releases_the_lock() {
    let (s, a) = scheduler_step(TaskState::Running, TaskEvent::BodyFinished(false), 9, 120);
    assert_eq!(s, TaskState::Releasing);
    assert_eq!(a, TaskAction::ReleaseLock(9));
}

#[test]
fn stray_events_only_sleep() {
    let (s, a) = scheduler_step(TaskState::Idle, TaskEvent::Released, 9, 60);
    assert_eq!(s, TaskState::Idle);
    assert_eq!(a, TaskAction::Sleep(60));
}
