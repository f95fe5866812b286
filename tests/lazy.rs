use std::sync::atomic::{AtomicUsize, Ordering};
use std::sync::Arc;

use etcd_rs::{Error, Lazy, Shutdown};

const ORDER: Ordering = Ordering::SeqCst;

#[test]
fn test_lock_read() {
    let calls = Arc::new(AtomicUsize::default());
    let mut lazy = {
        let calls = calls.clone();
        Lazy::new(move || {
            calls.fetch_add(1, ORDER);
            true
        })
    };
    assert_eq!(calls.load(ORDER), 0, "Expected thunk not called.");
    assert_eq!(*lazy.read(), true, "Expected read() == thunk().");
    assert_eq!(calls.load(ORDER), 1, "Expected thunk called *once*.");
    assert_eq!(*lazy.read(), true, "Expected read() to give the same value.");
    assert_eq!(calls.load(ORDER), 1, "Expected thunk *still* called once.");
}

#[test]
fn test_lock_write() {
    let calls = Arc::new(AtomicUsize::default());
    let mut lazy = {
        let calls = calls.clone();
        Lazy::new(move || {
            calls.fetch_add(1, ORDER);
            true
        })
    };
    assert_eq!(calls.load(ORDER), 0, "Expected thunk not called.");
    {
        let lock = lazy.write();
        assert_eq!(*lock, true, "Expected write() == thunk().");
        *lock = false;
    }
    assert_eq!(calls.load(ORDER), 1, "Expected thunk called *once*.");
    let value = *lazy.read();
    assert_eq!(calls.load(ORDER), 1, "Expected thunk *still* called once.");
    assert_eq!(value, false, "Expected read() to have been changed.");
}

struct Test {
    shutdown: Arc<AtomicUsize>,
}

impl Shutdown for Test {
    fn shutdown(&mut self) -> Result<(), Error> {
        self.shutdown.fetch_add(1, ORDER);
        Ok(())
    }
}

#[test]
fn test_lock_evict() {
    let init_calls = Arc::new(AtomicUsize::default());
    let shutdown_calls = Arc::new(AtomicUsize::default());
    let mut lazy = {
        let shutdown_calls = shutdown_calls.clone();
        let init_calls = init_calls.clone();
        Lazy::new(move || {
            init_calls.fetch_add(1, ORDER);
            Test { shutdown: shutdown_calls.clone() }
        })
    };
    assert_eq!(init_calls.load(ORDER), 0, "Expected init not called.");
    assert_eq!(shutdown_calls.load(ORDER), 0, "Expected shutdown not called.");

    lazy.read();
    assert_eq!(init_calls.load(ORDER), 1, "Expected init called once.");
    assert_eq!(shutdown_calls.load(ORDER), 0, "Expected shutdown not called.");

    lazy.evict().expect("eviction should not fail");

    lazy.read();
    assert_eq!(init_calls.load(ORDER), 2, "Expected init called twice.");
    assert_eq!(shutdown_calls.load(ORDER), 1, "Expected shutdown called once.");

    lazy.evict().expect("eviction should not fail");
    lazy.evict().expect("eviction should not fail");
    assert_eq!(init_calls.load(ORDER), 2, "Expected init *still* called twice.");
    assert_eq!(shutdown_calls.load(ORDER), 2);
}

#[test]
fn evict_on_a_fresh_holder_does_nothing() {
    let init_calls = Arc::new(AtomicUsize::default());
    let shutdown_calls = Arc::new(AtomicUsize::default());
    let mut lazy = {
        let shutdown_calls = shutdown_calls.clone();
        let init_calls = init_calls.clone();
        Lazy::new(move || {
            init_calls.fetch_add(1, ORDER);
            Test { shutdown: shutdown_calls.clone() }
        })
    };
    assert!(lazy.evict().is_ok());
    assert!(!lazy.is_built());
    assert_eq!(init_calls.load(ORDER), 0);
    assert_eq!(shutdown_calls.load(ORDER), 0);
}

struct Stubborn;

impl Shutdown for Stubborn {
    fn shutdown(&mut self) -> Result<(), Error> {
        Err(Error::ChannelClosed)
    }
}

#[test]
fn failed_shutdown_keeps_the_value() {
    let mut lazy = Lazy::new(|| Stubborn);
    lazy.read();
    assert!(matches!(lazy.evict(), Err(Error::ChannelClosed)));
    assert!(lazy.is_built());
}

#[test]
fn finish_evict_hands_back_the_shutdown_result() {
    let mut lazy = Lazy::new(|| Stubborn);
    lazy.read();
    assert!(matches!(lazy.finish_evict(Err(Error::ChannelClosed)), Err(Error::ChannelClosed)));
    assert!(lazy.get().is_some());
    assert!(lazy.finish_evict(Ok(())).is_ok());
    assert!(!lazy.is_built());
}
