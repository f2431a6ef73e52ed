use crate::scouting::z_owned_hello_t;
use vstd::prelude::*;

verus! {

/// A callback for discovery replies that owns its captured state.
///
/// The callable may be invoked any number of times; it is released once, when the
/// closure is dropped, and a dropped closure is empty, so it never runs again.
pub struct z_owned_closure_hello_t<F> {
    call: Option<F>,
}

/// An operation on a closure.
pub enum ClosureEvent {
    Call,
    Drop,
}

/// The callable that a closure holds after `e`, when it held `c` before.
pub open spec fn after_event<F>(c: Option<F>, e: ClosureEvent) -> Option<F> {
    match e {
        ClosureEvent::Call => c,
        ClosureEvent::Drop => None,
    }
}

/// A call on a closure holding `c` runs user code.
pub open spec fn invokes_user_code<F>(c: Option<F>) -> bool {
    c is Some
}

/// A drop on a closure holding `c` releases captured state.
pub open spec fn releases_state<F>(c: Option<F>) -> bool {
    c is Some
}

/// How many of `events`, applied from `c`, run user code.
pub open spec fn user_calls<F>(c: Option<F>, events: Seq<ClosureEvent>) -> nat
    decreases events.len(),
{
    if events.len() == 0 {
        0
    } else {
        (if events[0] is Call && invokes_user_code(c) {
            1nat
        } else {
            0nat
        }) + user_calls(after_event(c, events[0]), events.drop_first())
    }
}

/// How many of `events`, applied from `c`, release captured state.
pub open spec fn releases<F>(c: Option<F>, events: Seq<ClosureEvent>) -> nat
    decreases events.len(),
{
    if events.len() == 0 {
        0
    } else {
        (if events[0] is Drop && releases_state(c) {
            1nat
        } else {
            0nat
        }) + releases(after_event(c, events[0]), events.drop_first())
    }
}

/// `n` calls in a row.
pub open spec fn calls(n: nat) -> Seq<ClosureEvent> {
    Seq::new(n, |i: int| ClosureEvent::Call)
}

impl<F> z_owned_closure_hello_t<F> {
    /// The callable held, or `None` for an empty closure.
    pub closed spec fn callable(&self) -> Option<F> {
        self.call
    }

    /// The closure that holds nothing: calling and dropping it do nothing.
    pub fn empty() -> (r: Self)
        ensures
            r.callable() is None,
    {
        z_owned_closure_hello_t { call: None }
    }
}

impl<F: Fn(&mut z_owned_hello_t)> z_owned_closure_hello_t<F> {
    /// The held callable, if any, may be called on every reply.
    pub open spec fn accepts_every_reply(&self) -> bool {
        self.callable() is Some ==> forall|x: &mut z_owned_hello_t|
            call_requires(self.callable()->0, (x,))
    }

    /// Takes ownership of `f` and of everything it captured.
    pub fn from(f: F) -> (r: Self)
        ensures
            r.callable() == Some(f),
    {
        z_owned_closure_hello_t { call: Some(f) }
    }
}

/// Calls the closure. Calling an empty closure is a no-op.
pub fn z_closure_hello_call<F: Fn(&mut z_owned_hello_t)>(
    closure: &z_owned_closure_hello_t<F>,
    hello: &mut z_owned_hello_t,
)
    requires
        closure.accepts_every_reply(),
    ensures
        !invokes_user_code(closure.callable()) ==> *final(hello) == *old(hello),
        invokes_user_code(closure.callable()) ==> exists|x: &mut z_owned_hello_t|
            *x == *old(hello) && *final(x) == *final(hello) && call_ensures(
                closure.callable()->0,
                (x,),
                (),
            ),
{
    match &closure.call {
        Some(f) => f(hello),
        None => {},
    }
}

/// Drops the closure, releasing what it captured. Dropping an empty closure is a no-op.
pub fn z_closure_hello_drop<F>(closure: &mut z_owned_closure_hello_t<F>)
    ensures
        final(closure).callable() == after_event(old(closure).callable(), ClosureEvent::Drop),
        final(closure).callable() is None,
{
    closure.call = None;
}

/// Once a closure is empty, no sequence of calls and drops runs user code or
/// releases anything.
pub proof fn lemma_empty_closure_is_inert<F>(events: Seq<ClosureEvent>)
    ensures
        user_calls(None::<F>, events) == 0,
        releases(None::<F>, events) == 0,
    decreases events.len(),
{
    if events.len() > 0 {
        lemma_empty_closure_is_inert::<F>(events.drop_first());
    }
}

/// A closure made from a callable, called `n` times and then dropped, runs the user
/// code exactly `n` times and releases its state exactly once, whatever calls and
/// drops come after the drop.
pub proof fn lemma_calls_then_drop_release_once<F>(f: F, n: nat, rest: Seq<ClosureEvent>)
    ensures
        user_calls(Some(f), calls(n).push(ClosureEvent::Drop) + rest) == n,
        releases(Some(f), calls(n).push(ClosureEvent::Drop) + rest) == 1,
    decreases n,
{
    let events = calls(n).push(ClosureEvent::Drop) + rest;
    if n == 0 {
        assert(events.drop_first() =~= rest);
        lemma_empty_closure_is_inert::<F>(rest);
    } else {
        let m = (n - 1) as nat;
        assert(events.drop_first() =~= calls(m).push(ClosureEvent::Drop) + rest);
        lemma_calls_then_drop_release_once(f, m, rest);
    }
}

} // verus!
