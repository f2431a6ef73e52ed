use crate::hello_closure::{
    after_event, calls, invokes_user_code, lemma_calls_then_drop_release_once, releases,
    user_calls, z_closure_hello_call, z_closure_hello_drop, z_owned_closure_hello_t,
    ClosureEvent,
};
use vstd::prelude::*;
use vstd::string::StrSliceExecFns;
use vstd::utf8::encode_utf8;
use zenoh_protocol_core::whatami::{WhatAmI, WhatAmIMatcher};

verus! {

/// The kind tag of a router.
pub const Z_ROUTER: u32 = 1;

/// The kind tag of a peer.
pub const Z_PEER: u32 = 2;

/// The kind tag of a client.
pub const Z_CLIENT: u32 = 4;

/// The 16-byte identity of a scouted entity; all zeros when none was given.
pub struct z_id_t {
    pub id: [u8; 16],
}

/// The identity that stands for "no identity".
pub open spec fn zero_id() -> Seq<u8> {
    Seq::new(16, |i: int| 0u8)
}

/// An owned array of owned, NUL-terminated strings. `None` is the invalid state that
/// every free leaves behind, so freeing twice is harmless.
pub struct z_owned_str_array_t {
    pub val: Option<Vec<Vec<u8>>>,
}

impl View for z_owned_str_array_t {
    type V = Option<Seq<Seq<u8>>>;

    open spec fn view(&self) -> Option<Seq<Seq<u8>>> {
        match self.val {
            Some(v) => Some(v@.map_values(|s: Vec<u8>| s@)),
            None => None,
        }
    }
}

impl z_owned_str_array_t {
    /// The number of strings held; zero for an invalid array.
    pub fn len(&self) -> (r: usize)
        ensures
            r == match self@ {
                Some(s) => s.len(),
                None => 0,
            },
    {
        match &self.val {
            Some(v) => v.len(),
            None => 0,
        }
    }
}

/// The invalid string array.
pub open spec fn str_array_invalid(a: z_owned_str_array_t) -> bool {
    a@ is None
}

/// Frees `strs` and invalidates it for double-drop safety.
pub fn z_str_array_drop(strs: &mut z_owned_str_array_t)
    ensures
        str_array_invalid(*final(strs)),
{
    strs.val = None;
}

/// Returns `true` if `strs` is valid.
pub fn z_str_array_check(strs: &z_owned_str_array_t) -> (r: bool)
    ensures
        r == (strs@ is Some),
{
    strs.val.is_some()
}

/// A discovery reply as the scouting session hands it over: each part may be absent.
pub struct Hello {
    pub whatami: Option<u32>,
    pub zid: Option<[u8; 16]>,
    pub locators: Option<Vec<String>>,
}

/// A locator as a NUL-terminated byte string.
pub open spec fn nul_terminated(s: Seq<char>) -> Seq<u8> {
    encode_utf8(s).push(0u8)
}

/// The kind tag that a reply gets: the one given, else the router's.
pub open spec fn kind_of(h: Hello) -> u32 {
    match h.whatami {
        Some(w) => w,
        None => Z_ROUTER,
    }
}

/// The identity that a reply gets: the one given, else all zeros.
pub open spec fn id_of(h: Hello) -> Seq<u8> {
    match h.zid {
        Some(z) => z@,
        None => zero_id(),
    }
}

/// The locator strings that a reply gets: each given locator, NUL-terminated, or the
/// invalid array when none were given.
pub open spec fn locators_of(h: Hello) -> Option<Seq<Seq<u8>>> {
    match h.locators {
        Some(ls) => Some(Seq::new(ls@.len(), |i: int| nul_terminated(ls@[i]@))),
        None => None,
    }
}

/// `r` is the owned reply made from `h`.
pub open spec fn converted_from(r: z_owned_hello_t, h: Hello) -> bool {
    &&& r.has_kind == (h.whatami is Some)
    &&& r.whatami == kind_of(h)
    &&& r.has_identity == (h.zid is Some)
    &&& r.pid.id@ == id_of(h)
    &&& r.locators@ == locators_of(h)
}

/// A discovery reply owned by the receiver: the kind of entity, its identity and
/// its locators. `has_kind` and `has_identity` record whether the session gave a kind
/// and an identity, since the router's kind tag stands in for a missing one and the
/// zero identity for a missing identity.
pub struct z_owned_hello_t {
    pub whatami: u32,
    pub has_kind: bool,
    pub pid: z_id_t,
    pub has_identity: bool,
    pub locators: z_owned_str_array_t,
}

/// A reply is valid when a kind was given and is not 0, and its locator array is valid.
pub open spec fn hello_valid(h: z_owned_hello_t) -> bool {
    h.has_kind && h.whatami != 0 && h.locators@ is Some
}

/// The gravestone: no kind (tag 0), the zero identity, and an invalid locator array.
pub open spec fn is_gravestone(h: z_owned_hello_t) -> bool {
    &&& h.whatami == 0
    &&& !h.has_kind
    &&& h.pid.id@ == zero_id()
    &&& !h.has_identity
    &&& str_array_invalid(h.locators)
}

fn locator_strings(ls: &Vec<String>) -> (r: Vec<Vec<u8>>)
    ensures
        r@.map_values(|s: Vec<u8>| s@) == Seq::new(ls@.len(), |i: int| nul_terminated(ls@[i]@)),
{
    let mut out: Vec<Vec<u8>> = Vec::new();
    let mut i: usize = 0;
    while i < ls.len()
        invariant
            i <= ls@.len(),
            out@.len() == i,
            forall|j: int| 0 <= j < i ==> #[trigger] out@[j]@ == nul_terminated(ls@[j]@),
        decreases ls@.len() - i,
    {
        let mut bytes = ls[i].as_str().as_bytes_vec();
        bytes.push(0u8);
        out.push(bytes);
        i = i + 1;
    }
    assert(out@.map_values(|s: Vec<u8>| s@) =~= Seq::new(ls@.len(), |i: int| nul_terminated(ls@[i]@)));
    out
}

impl z_owned_hello_t {
    /// Converts a reply of the scouting session into an owned one.
    pub fn from_native(h: Hello) -> (r: z_owned_hello_t)
        ensures
            converted_from(r, h),
    {
        let whatami = match h.whatami {
            Some(w) => w,
            None => Z_ROUTER,
        };
        let pid = match h.zid {
            Some(z) => z_id_t { id: z },
            None => z_id_t { id: [0u8; 16] },
        };
        let locators = match &h.locators {
            Some(ls) => z_owned_str_array_t { val: Some(locator_strings(ls)) },
            None => z_owned_str_array_t { val: None },
        };
        proof {
            assert(pid.id@ =~= id_of(h));
        }
        z_owned_hello_t {
            whatami,
            has_kind: h.whatami.is_some(),
            pid,
            has_identity: h.zid.is_some(),
            locators,
        }
    }
}

/// Frees `hello`, leaving the gravestone for double-drop safety.
pub fn z_hello_drop(hello: &mut z_owned_hello_t)
    ensures
        is_gravestone(*final(hello)),
        !hello_valid(*final(hello)),
{
    z_str_array_drop(&mut hello.locators);
    hello.whatami = 0;
    hello.has_kind = false;
    hello.pid = z_id_t { id: [0u8; 16] };
    hello.has_identity = false;
    proof {
        assert(hello.pid.id@ =~= zero_id());
    }
}

/// The gravestone value for a reply, to steal one out of a callback.
pub fn z_hello_null() -> (r: z_owned_hello_t)
    ensures
        is_gravestone(r),
        !hello_valid(r),
{
    let r = z_owned_hello_t {
        whatami: 0,
        has_kind: false,
        pid: z_id_t { id: [0u8; 16] },
        has_identity: false,
        locators: z_owned_str_array_t { val: None },
    };
    proof {
        assert(r.pid.id@ =~= zero_id());
    }
    r
}

/// Returns `true` if `hello` is valid.
pub fn z_hello_check(hello: &z_owned_hello_t) -> (r: bool)
    ensures
        r == hello_valid(*hello),
{
    hello.has_kind && hello.whatami != 0 && z_str_array_check(&hello.locators)
}

/// An array that a free left behind fails the validity check, and freeing it again
/// leaves it as it was.
pub proof fn lemma_free_then_check_and_free(
    freed: z_owned_str_array_t,
    again: z_owned_str_array_t,
)
    requires
        str_array_invalid(freed),
        str_array_invalid(again),
    ensures
        !(freed@ is Some),
        again@ == freed@,
{
}

/// A converted reply is valid exactly when the session gave a kind that is not 0 and
/// gave locators; the gravestone is never valid.
pub proof fn lemma_converted_validity(h: Hello, r: z_owned_hello_t, g: z_owned_hello_t)
    requires
        converted_from(r, h),
        is_gravestone(g),
    ensures
        hello_valid(r) <==> (h.whatami is Some && h.whatami->0 != 0 && h.locators is Some),
        !hello_valid(g),
{
}

/// The matcher of routers and peers, used when a filter is not a matcher.
pub const ROUTER_OR_PEER_MATCHER: u8 = 3;

/// The matcher that a filter bitmask selects: the bitmask itself where it is one of
/// the matchers 128 to 135, else the matcher of routers and peers.
pub open spec fn matcher_of(what: u32) -> u8 {
    if 127 < what && what < 136 {
        what as u8
    } else {
        ROUTER_OR_PEER_MATCHER
    }
}

/// Relies on `WhatAmIMatcher::try_from`: a value from 128 to 135 is the matcher with
/// those bits, any other value is no matcher.
#[verifier::external_body]
fn matcher_try_from(what: u64) -> (r: Option<u8>)
    ensures
        r == (if 127 < what && what < 136 {
            Some(what as u8)
        } else {
            None::<u8>
        }),
{
    WhatAmIMatcher::try_from(what).map(|m| m.0.get())
}

/// Relies on `BitOr` for `WhatAmI`: routers (1) or peers (2) give the matcher 3.
#[verifier::external_body]
fn router_or_peer() -> (r: u8)
    ensures
        r == ROUTER_OR_PEER_MATCHER,
{
    (WhatAmI::Router | WhatAmI::Peer).0.get()
}

/// Decodes a filter bitmask into the matcher to scout with; one that is no matcher
/// falls back to routers or peers.
pub fn z_scout_matcher(what: u32) -> (r: u8)
    ensures
        r == matcher_of(what),
{
    match matcher_try_from(what as u64) {
        Some(m) => m,
        None => router_or_peer(),
    }
}

/// One scouting round: the matcher and timeout to scout with, and the callback that
/// receives every reply until the round ends.
pub struct z_scout_round_t<F> {
    pub matcher: u8,
    pub timeout_ms: u64,
    pub callback: z_owned_closure_hello_t<F>,
}

/// Starts a round: decodes the filter, consumes the configuration and takes the
/// callback, leaving the caller's closure empty. A configuration that was already
/// consumed starts nothing: the result is `None` and the callback stays with the
/// caller, never called.
pub fn z_scout_begin<C, F>(
    what: u32,
    config: &mut Option<C>,
    callback: &mut z_owned_closure_hello_t<F>,
    timeout: u64,
) -> (r: Option<(z_scout_round_t<F>, C)>)
    ensures
        old(config).is_none() ==> r is None && final(config).is_none()
            && final(callback).callable() == old(callback).callable(),
        old(config).is_some() ==> r is Some && final(config).is_none()
            && r.unwrap().1 == old(config).unwrap()
            && final(callback).callable() is None
            && r.unwrap().0.callback.callable() == old(callback).callable()
            && r.unwrap().0.matcher == matcher_of(what)
            && r.unwrap().0.timeout_ms == timeout,
{
    match config.take() {
        None => None,
        Some(config) => {
            let matcher = z_scout_matcher(what);
            let mut closure = z_owned_closure_hello_t::empty();
            std::mem::swap(&mut closure, callback);
            Some((z_scout_round_t { matcher, timeout_ms: timeout, callback: closure }, config))
        },
    }
}

impl<F> z_scout_round_t<F> {
    /// Ends the round, releasing the callback; a round is finished once every delivery
    /// has returned. Finishing again does nothing.
    pub fn finish(&mut self)
        ensures
            final(self).callback.callable() == after_event(
                old(self).callback.callable(),
                ClosureEvent::Drop,
            ),
            final(self).matcher == old(self).matcher,
            final(self).timeout_ms == old(self).timeout_ms,
    {
        z_closure_hello_drop(&mut self.callback);
    }
}

impl<F: Fn(&mut z_owned_hello_t)> z_scout_round_t<F> {
    /// Converts one reply of the session and hands it to the callback: one call event
    /// on the callback, which runs user code unless the round is finished.
    pub fn deliver(&self, h: Hello)
        requires
            self.callback.accepts_every_reply(),
        ensures
            after_event(self.callback.callable(), ClosureEvent::Call) == self.callback.callable(),
            invokes_user_code(self.callback.callable()) ==> exists|x: &mut z_owned_hello_t|
                converted_from(*x, h) && call_ensures(self.callback.callable()->0, (x,), ()),
    {
        let mut hello = z_owned_hello_t::from_native(h);
        z_closure_hello_call(&self.callback, &mut hello);
    }
}

/// A round started with a callback, given `n` replies and then finished, runs the
/// user code exactly `n` times and releases the callback exactly once, whatever
/// deliveries and finishes come afterwards.
pub proof fn lemma_round_deliveries_then_finish<F>(
    round: z_scout_round_t<F>,
    n: nat,
    rest: Seq<ClosureEvent>,
)
    requires
        round.callback.callable() is Some,
    ensures
        user_calls(round.callback.callable(), calls(n).push(ClosureEvent::Drop) + rest) == n,
        releases(round.callback.callable(), calls(n).push(ClosureEvent::Drop) + rest) == 1,
{
    lemma_calls_then_drop_release_once(round.callback.callable()->0, n, rest);
}

} // verus!
