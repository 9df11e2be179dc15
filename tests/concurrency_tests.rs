use oxitty::state::{AtomicState, StateFlags};
use std::sync::Arc;

#[test]
fn test_concurrent_access() {
    let flags = Arc::new(StateFlags::default());
    let mut handles = vec![];

    for _ in 0..10 {
        let flags_clone = flags.clone();
        let handle = smol::unblock(move || {
            for _ in 0..1000 {
                flags_clone.set(StateFlags::RUNNING, true);
                flags_clone.set(StateFlags::RUNNING, false);
                let _ = flags_clone.snapshot();
            }
        });
        handles.push(handle);
    }

    for handle in handles {
        smol::block_on(handle);
    }

    assert!(!flags.get(StateFlags::RUNNING));
}

#[test]
fn readers_never_see_half_a_batch() {
    let flags = Arc::new(StateFlags::new(1 << StateFlags::RUNNING));
    let writer_flags = flags.clone();
    let writer = smol::unblock(move || {
        for _ in 0..5000 {
            writer_flags.update_multiple(vec![(StateFlags::DEBUG, true), (StateFlags::HAS_ERROR, true)]);
            writer_flags.update_multiple(vec![(StateFlags::DEBUG, false), (StateFlags::HAS_ERROR, false)]);
        }
    });
    let mut readers = vec![];
    for _ in 0..4 {
        let f = flags.clone();
        readers.push(smol::unblock(move || {
            let mut torn = 0u32;
            for _ in 0..5000 {
                let s = f.snapshot();
                if s.get(StateFlags::DEBUG) != s.get(StateFlags::HAS_ERROR) {
                    torn += 1;
                }
                assert!(s.get(StateFlags::RUNNING));
            }
            torn
        }));
    }
    smol::block_on(writer);
    for r in readers {
        assert_eq!(smol::block_on(r), 0);
    }
}

#[test]
fn quit_from_many_threads_is_final() {
    let flags = Arc::new(StateFlags::new(0b111));
    let mut handles = vec![];
    for _ in 0..8 {
        let f = flags.clone();
        handles.push(smol::unblock(move || {
            for _ in 0..100 {
                f.quit();
                f.set(StateFlags::PROCESSING, true);
            }
            f.is_running()
        }));
    }
    for h in handles {
        assert!(!smol::block_on(h));
    }
    assert!(!flags.is_running());
    assert!(flags.get(StateFlags::PROCESSING));
    assert!(flags.get(StateFlags::DEBUG));
}
