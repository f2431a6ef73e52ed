use std::sync::atomic::{AtomicUsize, Ordering};
use std::sync::Arc;

use zenohc::hello_closure::{z_closure_hello_call, z_closure_hello_drop, z_owned_closure_hello_t};
use zenohc::scouting::{z_hello_null, z_owned_hello_t};

struct DropCounter(Arc<AtomicUsize>);

impl Drop for DropCounter {
    fn drop(&mut self) {
        self.0.fetch_add(1, Ordering::SeqCst);
    }
}

fn counting_closure(
    calls: &Arc<AtomicUsize>,
    drops: &Arc<AtomicUsize>,
) -> z_owned_closure_hello_t<impl Fn(&mut z_owned_hello_t)> {
    let calls = calls.clone();
    let guard = DropCounter(drops.clone());
    z_owned_closure_hello_t::from(move |h: &mut z_owned_hello_t| {
        let _ = &guard;
        h.whatami = 7;
        calls.fetch_add(1, Ordering::SeqCst);
    })
}

#[test]
fn calls_then_drop_release_state_once() {
    let calls = Arc::new(AtomicUsize::new(0));
    let drops = Arc::new(AtomicUsize::new(0));
    let mut closure = counting_closure(&calls, &drops);
    let mut hello = z_hello_null();
    for _ in 0..5 {
        z_closure_hello_call(&closure, &mut hello);
        assert_eq!(drops.load(Ordering::SeqCst), 0);
    }
    assert_eq!(calls.load(Ordering::SeqCst), 5);
    assert_eq!(hello.whatami, 7);
    z_closure_hello_drop(&mut closure);
    assert_eq!(drops.load(Ordering::SeqCst), 1);
    z_closure_hello_call(&closure, &mut hello);
    z_closure_hello_drop(&mut closure);
    drop(closure);
    assert_eq!(calls.load(Ordering::SeqCst), 5);
    assert_eq!(drops.load(Ordering::SeqCst), 1);
}

#[test]
fn closure_dropped_without_calls_releases_once() {
    let calls = Arc::new(AtomicUsize::new(0));
    let drops = Arc::new(AtomicUsize::new(0));
    let closure = counting_closure(&calls, &drops);
    drop(closure);
    assert_eq!(calls.load(Ordering::SeqCst), 0);
    assert_eq!(drops.load(Ordering::SeqCst), 1);
}

#[test]
fn drop_empty_closure_is_noop() {
    let mut closure = z_owned_closure_hello_t::<fn(&mut z_owned_hello_t)>::empty();
    z_closure_hello_drop(&mut closure);
    z_closure_hello_drop(&mut closure);
    let mut hello = z_hello_null();
    z_closure_hello_call(&closure, &mut hello);
    assert_eq!(hello.whatami, 0);
}

#[test]
fn call_empty_closure_runs_no_user_code() {
    let closure = z_owned_closure_hello_t::<fn(&mut z_owned_hello_t)>::empty();
    let mut hello = z_hello_null();
    hello.whatami = 2;
    hello.pid.id[0] = 9;
    z_closure_hello_call(&closure, &mut hello);
    assert_eq!(hello.whatami, 2);
    assert_eq!(hello.pid.id[0], 9);
    assert!(hello.locators.val.is_none());
}

#[test]
fn callback_can_steal_reply() {
    let stolen = Arc::new(AtomicUsize::new(0));
    let seen = stolen.clone();
    let closure = z_owned_closure_hello_t::from(move |h: &mut z_owned_hello_t| {
        let taken = std::mem::replace(h, z_hello_null());
        seen.store(taken.whatami as usize, Ordering::SeqCst);
    });
    let mut hello = z_hello_null();
    hello.whatami = 4;
    z_closure_hello_call(&closure, &mut hello);
    assert_eq!(stolen.load(Ordering::SeqCst), 4);
    assert_eq!(hello.whatami, 0);
}
