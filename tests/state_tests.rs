use oxitty::state::{AtomicState, FlagsSnapshot, StateFlags, StateSnapshot};
use std::sync::atomic::{AtomicBool, Ordering};

#[test]
fn test_atomic_operations() {
    let flags = StateFlags::default();

    flags.set(StateFlags::RUNNING, true);
    assert!(flags.get(StateFlags::RUNNING));

    flags.set(StateFlags::RUNNING, false);
    assert!(!flags.get(StateFlags::RUNNING));
}

#[test]
fn test_multiple_updates() {
    let flags = StateFlags::default();

    flags.update_multiple(vec![
        (StateFlags::RUNNING, true),
        (StateFlags::PROCESSING, true),
        (StateFlags::DEBUG, false),
    ]);

    assert!(flags.get(StateFlags::RUNNING));
    assert!(flags.get(StateFlags::PROCESSING));
    assert!(!flags.get(StateFlags::DEBUG));

    let snapshot = flags.snapshot();
    assert_eq!(
        snapshot.get(StateFlags::RUNNING),
        flags.get(StateFlags::RUNNING)
    );
    assert_eq!(
        snapshot.get(StateFlags::PROCESSING),
        flags.get(StateFlags::PROCESSING)
    );
}

#[test]
fn test_snapshot_immutability() {
    let flags = StateFlags::default();
    flags.set(StateFlags::RUNNING, true);

    let snapshot = flags.snapshot();
    flags.set(StateFlags::RUNNING, false);

    // Snapshot should retain the value it captured
    assert!(snapshot.get(StateFlags::RUNNING));
    assert!(!flags.get(StateFlags::RUNNING));
}

#[derive(Debug)]
struct TestState {
    running: AtomicBool,
}

#[derive(Debug, Clone)]
struct TestSnapshot {
    running: bool,
}

impl StateSnapshot for TestSnapshot {
    fn should_quit(&self) -> bool {
        !self.running
    }
}

impl AtomicState for TestState {
    type Snapshot = TestSnapshot;

    fn snapshot(&self) -> Self::Snapshot {
        TestSnapshot {
            running: self.running.load(Ordering::Acquire),
        }
    }

    fn quit(&self) {
        self.running.store(false, Ordering::Release)
    }

    fn is_running(&self) -> bool {
        self.running.load(Ordering::Acquire)
    }
}

#[test]
fn test_state_integration() {
    let state = TestState {
        running: AtomicBool::new(true),
    };

    assert!(state.is_running());
    let snapshot = state.snapshot();
    assert!(!snapshot.should_quit());

    state.quit();
    assert!(!state.is_running());
    let snapshot = state.snapshot();
    assert!(snapshot.should_quit());
}

#[test]
fn new_register_holds_initial_value() {
    let flags = StateFlags::new(1 << StateFlags::RUNNING | 1 << StateFlags::RENDERING);
    assert!(flags.get(StateFlags::RUNNING));
    assert!(flags.get(StateFlags::RENDERING));
    assert!(!flags.get(StateFlags::DEBUG));
    assert_eq!(flags.snapshot().raw(), 0b10_0001);
}

#[test]
fn set_reports_the_transition() {
    let flags = StateFlags::new(0b1010);
    let t = flags.set(StateFlags::RUNNING, true);
    assert_eq!(t.before.raw(), 0b1010);
    assert_eq!(t.after.raw(), 0b1011);
    let t = flags.set(StateFlags::HAS_ERROR, false);
    assert_eq!(t.before.raw(), 0b1011);
    assert_eq!(t.after.raw(), 0b0011);
    assert_eq!(flags.snapshot().raw(), 0b0011);
}

#[test]
fn highest_flag_index_is_usable() {
    let flags = StateFlags::default();
    flags.set(63, true);
    assert!(flags.get(63));
    assert_eq!(flags.snapshot().raw(), 1u64 << 63);
    flags.set(63, false);
    assert_eq!(flags.snapshot().raw(), 0);
}

#[test]
fn batch_keeps_unnamed_flags_and_true_wins_on_repeats() {
    let flags = StateFlags::new(0b1_0000);
    let t = flags.update_multiple(vec![(1, true), (1, false), (2, false), (3, true)]);
    assert_eq!(t.before.raw(), 0b1_0000);
    assert_eq!(t.after.raw(), 0b1_1010);
    let t = flags.update_multiple(vec![]);
    assert_eq!(t.before.raw(), t.after.raw());
}

#[test]
fn batch_sets_both_flags_together() {
    let flags = StateFlags::default();
    let before = flags.snapshot();
    let t = flags.update_multiple(vec![(StateFlags::DEBUG, true), (StateFlags::HAS_ERROR, true)]);
    let after = flags.snapshot();
    for s in [before, t.before, t.after, after] {
        assert_eq!(s.get(StateFlags::DEBUG), s.get(StateFlags::HAS_ERROR));
    }
    assert!(after.get(StateFlags::DEBUG));
}

#[test]
fn quit_is_idempotent_for_flag_state() {
    let flags = StateFlags::new(0b11);
    assert!(flags.is_running());
    flags.quit();
    assert!(!flags.is_running());
    let once = flags.snapshot();
    flags.quit();
    flags.quit();
    assert!(!flags.is_running());
    assert_eq!(flags.snapshot(), once);
    assert!(once.should_quit());
    flags.set(StateFlags::PROCESSING, false);
    assert!(!flags.is_running());
}

#[test]
fn snapshot_is_a_copy() {
    let flags = StateFlags::new(0xff);
    let s: FlagsSnapshot = AtomicState::snapshot(&flags);
    flags.update_multiple(vec![(0, false), (7, false)]);
    assert_eq!(s.raw(), 0xff);
    assert!(!s.should_quit());
    assert_eq!(flags.snapshot().raw(), 0x7e);
}
