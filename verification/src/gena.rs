//! GENA eventing: subscriptions with expiry, renewal and removal, the event
//! sequence counter, and the NOTIFY body and headers.
//!
//! Times are milliseconds on the publisher's monotonic clock, counted from the
//! moment the publisher was created.
use vstd::prelude::*;

use crate::text::{nat_to_decimal, push_decimal, push_str, str_eq, to_owned_string};
use crate::types::upnp::{pairs_view, Error};

verus! {

broadcast use vstd::string::group_string_axioms;

// ---------------------------------------------------------------------------
// Clock and identifiers
// ---------------------------------------------------------------------------

#[verifier::external_type_specification]
#[verifier::external_body]
pub struct ExInstant(std::time::Instant);

/// `Instant::now`: the current instant of the monotonic clock.
#[verifier::external_body]
fn instant_now() -> std::time::Instant {
    std::time::Instant::now()
}

/// `Instant::elapsed`, in whole milliseconds (`u64::MAX` if it does not fit).
#[verifier::external_body]
fn elapsed_millis(origin: &std::time::Instant) -> u64 {
    u64::try_from(origin.elapsed().as_millis()).unwrap_or(u64::MAX)
}

/// The hyphenated text of a version-4 UUID: 16 bytes whose version nibble
/// is 4 and whose variant bits are `10`.
pub open spec fn is_v4_uuid_text(t: Seq<char>) -> bool {
    exists|b: Seq<u8>|
        b.len() == 16 && b[6] / 16 == 4 && b[8] / 64 == 2 && t == #[trigger] crate::config::uuid_hyphenated(b)
}

/// `uuid::Uuid::new_v4().to_string()`: a random version-4 UUID in its
/// hyphenated lower-case form. Which bytes it has is left open: they are
/// random.
#[verifier::external_body]
fn new_v4_string() -> (r: String)
    ensures
        is_v4_uuid_text(r@),
{
    uuid::Uuid::new_v4().to_string()
}

// ---------------------------------------------------------------------------
// Subscribers
// ---------------------------------------------------------------------------

/// A single subscriber to events.
pub struct Subscriber {
    /// Subscription UUID (uuid:xxx)
    pub sid: String,
    /// Callback URL for NOTIFY delivery
    pub callback_url: String,
    /// Requested timeout in seconds
    pub timeout: u32,
    /// When this subscription expires (milliseconds on the publisher's clock)
    pub expires_at: u64,
    /// Event sequence counter (32-bit, wraps at 4294967295)
    pub seq: u32,
}

/// The view of a subscriber.
pub struct SubView {
    pub sid: Seq<char>,
    pub callback_url: Seq<char>,
    pub timeout: u32,
    pub expires_at: u64,
    pub seq: u32,
}

impl View for Subscriber {
    type V = SubView;

    open spec fn view(&self) -> SubView {
        SubView {
            sid: self.sid@,
            callback_url: self.callback_url@,
            timeout: self.timeout,
            expires_at: self.expires_at,
            seq: self.seq,
        }
    }
}

/// The views of a list of subscribers.
pub open spec fn subs_view(s: Seq<Subscriber>) -> Seq<SubView> {
    s.map_values(|x: Subscriber| x@)
}

/// No two subscribers share a SID.
pub open spec fn unique_sids(s: Seq<SubView>) -> bool {
    forall|i: int, j: int| 0 <= i < s.len() && 0 <= j < s.len() && i != j ==> #[trigger] s[i].sid != #[trigger] s[j].sid
}

/// The position of the subscriber with the given SID.
pub open spec fn sid_pos(s: Seq<SubView>, sid: Seq<char>) -> Option<int> {
    if exists|i: int| 0 <= i < s.len() && #[trigger] s[i].sid == sid {
        Some(choose|i: int| 0 <= i < s.len() && #[trigger] s[i].sid == sid)
    } else {
        None
    }
}

/// With unique SIDs, the subscriber at `i` is the one `sid_pos` finds.
pub proof fn lemma_sid_pos(s: Seq<SubView>, i: int)
    requires
        unique_sids(s),
        0 <= i < s.len(),
    ensures
        sid_pos(s, s[i].sid) == Some(i),
{
    let j = choose|j: int| 0 <= j < s.len() && #[trigger] s[j].sid == s[i].sid;
    assert(s[j].sid == s[i].sid);
}

/// A subscription has expired once the clock reaches its expiry time.
pub open spec fn expired(s: SubView, now: u64) -> bool {
    now >= s.expires_at
}

/// The timeout a subscription is granted: the requested one, raised to the
/// recommended minimum of 1800 seconds.
pub open spec fn granted_timeout(requested: u32) -> u32 {
    if requested < 1800 {
        1800
    } else {
        requested
    }
}

/// The expiry time `secs` seconds after `now` (saturating).
pub open spec fn expiry(now: u64, secs: u32) -> u64 {
    if now + secs * 1000 > u64::MAX {
        u64::MAX
    } else {
        (now + secs * 1000) as u64
    }
}

/// The event key after `seq`: incremented, wrapping past 4294967295 to 1 (0 is
/// reserved for the initial event).
pub open spec fn next_seq(seq: u32) -> u32 {
    if seq == u32::MAX {
        1
    } else {
        (seq + 1) as u32
    }
}

/// The subscribers after one event: every subscriber that has not expired
/// moves to its next event key.
pub open spec fn after_notify(s: Seq<SubView>, now: u64) -> Seq<SubView> {
    s.map_values(
        |x: SubView|
            if expired(x, now) {
                x
            } else {
                SubView { seq: next_seq(x.seq), ..x }
            },
    )
}

/// The number of subscribers that have not expired.
pub open spec fn active_count(s: Seq<SubView>, now: u64) -> nat
    decreases s.len(),
{
    if s.len() == 0 {
        0
    } else {
        active_count(s.drop_last(), now) + if expired(s.last(), now) {
            0nat
        } else {
            1nat
        }
    }
}

/// The subscribers that have not expired, in order.
pub open spec fn live_subs(s: Seq<SubView>, now: u64) -> Seq<SubView>
    decreases s.len(),
{
    if s.len() == 0 {
        Seq::empty()
    } else if expired(s.last(), now) {
        live_subs(s.drop_last(), now)
    } else {
        live_subs(s.drop_last(), now).push(s.last())
    }
}

/// The SIDs of the subscribers that have expired, in order.
pub open spec fn expired_sids(s: Seq<SubView>, now: u64) -> Seq<Seq<char>>
    decreases s.len(),
{
    if s.len() == 0 {
        Seq::empty()
    } else if expired(s.last(), now) {
        expired_sids(s.drop_last(), now).push(s.last().sid)
    } else {
        expired_sids(s.drop_last(), now)
    }
}

/// The subscribers after subscribing `sid` at time `now`: the new
/// subscriber replaces one with the same SID, or is appended.
pub open spec fn subscribed(s: Seq<SubView>, callback_url: Seq<char>, requested: u32, sid: Seq<char>, now: u64) -> Seq<SubView> {
    let nv = SubView {
        sid,
        callback_url,
        timeout: requested,
        expires_at: expiry(now, granted_timeout(requested)),
        seq: 0,
    };
    match sid_pos(s, sid) {
        Some(i) => s.update(i, nv),
        None => s.push(nv),
    }
}

/// The subscribers after renewing `sid` at time `now`, or `None` when the SID
/// is unknown or has expired.
pub open spec fn renewed(s: Seq<SubView>, sid: Seq<char>, timeout: Option<u32>, now: u64) -> Option<Seq<SubView>> {
    match sid_pos(s, sid) {
        None => None,
        Some(i) => if expired(s[i], now) {
            None
        } else {
            let t = match timeout {
                Some(t) => t,
                None => s[i].timeout,
            };
            Some(s.update(i, SubView { timeout: t, expires_at: expiry(now, t), ..s[i] }))
        },
    }
}

/// Subscribe, then unsubscribe: the new subscription is found under its SID,
/// and once it is removed no subscription is left under that SID.
pub proof fn lemma_unsubscribe_after_subscribe(
    s: Seq<SubView>,
    callback_url: Seq<char>,
    requested: u32,
    sid: Seq<char>,
    now: u64,
)
    requires
        unique_sids(s),
    ensures
        ({
            let after = subscribed(s, callback_url, requested, sid, now);
            &&& unique_sids(after)
            &&& sid_pos(after, sid) matches Some(i) && sid_pos(after.remove(i), sid) is None
        }),
{
    let after = subscribed(s, callback_url, requested, sid, now);
    let i = match sid_pos(s, sid) {
        Some(i) => i,
        None => s.len() as int,
    };
    if let Some(j) = sid_pos(s, sid) {
        assert(s[j].sid == sid);
    }
    assert(after[i].sid == sid);
    assert forall|a: int, b: int| 0 <= a < after.len() && 0 <= b < after.len() && a != b implies #[trigger] after[a].sid
        != #[trigger] after[b].sid by {
        if a != i && b != i {
            assert(after[a] == s[a] && after[b] == s[b]);
        } else if a == i {
            assert(after[b] == s[b]);
            if sid_pos(s, sid) is None {
                assert(!(s[b].sid == sid));
            }
        } else {
            assert(after[a] == s[a]);
            if sid_pos(s, sid) is None {
                assert(!(s[a].sid == sid));
            }
        }
    }
    lemma_sid_pos(after, i);
    let rest = after.remove(i);
    assert forall|k: int| 0 <= k < rest.len() implies #[trigger] rest[k].sid != sid by {
        let k2 = if k < i { k } else { k + 1 };
        assert(rest[k] == after[k2]);
    }
}

/// Event keys: every subscriber that receives an event moves to a key other
/// than 0, which only the initial event carries.
pub proof fn lemma_notify_keys_nonzero(s: Seq<SubView>, now: u64, i: int)
    requires
        0 <= i < s.len(),
        !expired(s[i], now),
    ensures
        after_notify(s, now)[i].seq != 0,
        after_notify(s, now)[i].sid == s[i].sid,
{
}

/// Renewal changes neither who is subscribed nor in what order.
pub proof fn lemma_renew_keeps_sids(s: Seq<SubView>, sid: Seq<char>, timeout: Option<u32>, now: u64)
    ensures
        renewed(s, sid, timeout, now) matches Some(s2) ==> s2.len() == s.len() && forall|k: int|
            0 <= k < s.len() ==> #[trigger] s2[k].sid == s[k].sid,
{
}

/// A subscriber that has not expired counts among those an event reaches.
pub proof fn lemma_live_counted(s: Seq<SubView>, now: u64, i: int)
    requires
        0 <= i < s.len(),
        !expired(s[i], now),
    ensures
        active_count(s, now) >= 1,
    decreases s.len(),
{
    if i < s.len() - 1 {
        assert(s.drop_last()[i] == s[i]);
        lemma_live_counted(s.drop_last(), now, i);
    }
}

/// Subscribe, then renew before the granted timeout has run out: the renewal
/// is accepted, and the subscription then expires the new timeout after the
/// renewal.
pub proof fn lemma_renew_within_timeout(
    s: Seq<SubView>,
    callback_url: Seq<char>,
    requested: u32,
    sid: Seq<char>,
    subscribed_at: u64,
    renewed_at: u64,
    timeout: Option<u32>,
)
    requires
        unique_sids(s),
        subscribed_at <= renewed_at,
        renewed_at - subscribed_at < granted_timeout(requested) * 1000,
        subscribed_at + granted_timeout(requested) * 1000 <= u64::MAX,
    ensures
        ({
            let after = subscribed(s, callback_url, requested, sid, subscribed_at);
            let t = match timeout {
                Some(t) => t,
                None => requested,
            };
            &&& sid_pos(after, sid) matches Some(i) && renewed(after, sid, timeout, renewed_at) == Some(
                after.update(i, SubView { timeout: t, expires_at: expiry(renewed_at, t), ..after[i] }),
            )
        }),
{
    lemma_unsubscribe_after_subscribe(s, callback_url, requested, sid, subscribed_at);
    let after = subscribed(s, callback_url, requested, sid, subscribed_at);
    let i = sid_pos(after, sid)->0;
    let j = match sid_pos(s, sid) {
        Some(j) => j,
        None => s.len() as int,
    };
    if let Some(k) = sid_pos(s, sid) {
        assert(s[k].sid == sid);
    }
    assert(after[j].sid == sid);
    lemma_sid_pos(after, j);
    assert(i == j);
    assert(after[i].expires_at == expiry(subscribed_at, granted_timeout(requested)));
    assert(after[i].timeout == requested);
}

/// Subscribe, then send an event before the granted timeout has run out: the
/// event reaches the new subscriber, which moves from event key 0 to 1.
pub proof fn lemma_notify_reaches_new_subscriber(
    s: Seq<SubView>,
    callback_url: Seq<char>,
    requested: u32,
    sid: Seq<char>,
    subscribed_at: u64,
    notified_at: u64,
)
    requires
        unique_sids(s),
        subscribed_at <= notified_at,
        notified_at - subscribed_at < granted_timeout(requested) * 1000,
        subscribed_at + granted_timeout(requested) * 1000 <= u64::MAX,
    ensures
        ({
            let after = subscribed(s, callback_url, requested, sid, subscribed_at);
            &&& sid_pos(after, sid) matches Some(i) && after_notify(after, notified_at)[i].seq == 1
                && after_notify(after, notified_at)[i].sid == sid
            &&& active_count(after, notified_at) >= 1
        }),
{
    lemma_unsubscribe_after_subscribe(s, callback_url, requested, sid, subscribed_at);
    let after = subscribed(s, callback_url, requested, sid, subscribed_at);
    let j = match sid_pos(s, sid) {
        Some(j) => j,
        None => s.len() as int,
    };
    if let Some(k) = sid_pos(s, sid) {
        assert(s[k].sid == sid);
    }
    assert(after[j].sid == sid);
    lemma_sid_pos(after, j);
    assert(after[j].expires_at == expiry(subscribed_at, granted_timeout(requested)));
    assert(after[j].seq == 0);
    assert(!expired(after[j], notified_at));
    lemma_live_counted(after, notified_at, j);
}

fn copy_string(s: &String) -> (r: String)
    ensures
        r@ == s@,
{
    s.clone()
}

// ---------------------------------------------------------------------------
// EventPublisher
// ---------------------------------------------------------------------------

/// GENA event publisher — manages subscriptions and delivers events.
///
/// Each service (AVTransport, RenderingControl, ConnectionManager) owns its own
/// EventPublisher instance. Event delivery itself (HTTP POST to the callback,
/// multicast to 239.255.255.246:7900) is left to the application; `notify`
/// reports one outcome per active subscriber.
pub struct EventPublisher {
    subscribers: Vec<Subscriber>,
    service_url: String,
    multicast_enabled: bool,
    origin: std::time::Instant,
    last_reading: u64,
}

impl EventPublisher {
    /// The current subscribers, in subscription order.
    pub closed spec fn subs(&self) -> Seq<SubView> {
        subs_view(self.subscribers@)
    }

    /// The eventSubURL.
    pub closed spec fn url(&self) -> Seq<char> {
        self.service_url@
    }

    /// Whether events are also multicast.
    pub closed spec fn multicast(&self) -> bool {
        self.multicast_enabled
    }

    /// The publisher's clock: the latest time, in milliseconds since the
    /// publisher was created, at which it has read the monotonic clock.
    pub closed spec fn clock(&self) -> u64 {
        self.last_reading
    }

    #[verifier::type_invariant]
    closed spec fn inv(&self) -> bool {
        unique_sids(subs_view(self.subscribers@))
    }

    /// Create a new EventPublisher.
    ///
    /// - `service_url`: the eventSubURL for this service (e.g., `/upnp/event/AVTransport1`)
    /// - `multicast_enabled`: whether to also broadcast events to the multicast address
    pub fn new(service_url: &str, multicast_enabled: bool) -> (r: Self)
        ensures
            r.subs() == Seq::<SubView>::empty(),
            r.url() == service_url@,
            r.multicast() == multicast_enabled,
            r.clock() == 0,
    {
        let r = EventPublisher {
            subscribers: Vec::new(),
            service_url: to_owned_string(service_url),
            multicast_enabled,
            origin: instant_now(),
            last_reading: 0,
        };
        assert(r.subs() =~= Seq::<SubView>::empty());
        r
    }

    /// Return the eventSubURL for this publisher.
    pub fn service_url(&self) -> (r: &str)
        ensures
            r@ == self.url(),
    {
        self.service_url.as_str()
    }

    /// Whether events are also multicast.
    pub fn multicast_enabled(&self) -> (r: bool)
        ensures
            r == self.multicast(),
    {
        self.multicast_enabled
    }

    /// Reads the clock: the milliseconds elapsed since the publisher was
    /// created, never less than an earlier reading.
    fn now(&mut self) -> (t: u64)
        ensures
            t == final(self).clock(),
            old(self).clock() <= t,
            final(self).subs() == old(self).subs(),
            final(self).url() == old(self).url(),
            final(self).multicast() == old(self).multicast(),
    {
        proof {
            use_type_invariant(&*self);
        }
        let elapsed = elapsed_millis(&self.origin);
        let t = if elapsed > self.last_reading {
            elapsed
        } else {
            self.last_reading
        };
        self.last_reading = t;
        t
    }

    /// Moves the subscriber list out, leaving none.
    fn take_subscribers(&mut self) -> (r: Vec<Subscriber>)
        ensures
            subs_view(r@) == old(self).subs(),
            unique_sids(subs_view(r@)),
            final(self).subs() == Seq::<SubView>::empty(),
            final(self).url() == old(self).url(),
            final(self).multicast() == old(self).multicast(),
            final(self).clock() == old(self).clock(),
    {
        let mut taken = EventPublisher {
            subscribers: Vec::new(),
            service_url: String::new(),
            multicast_enabled: false,
            origin: self.origin,
            last_reading: 0,
        };
        assert(subs_view(taken.subscribers@) =~= Seq::<SubView>::empty());
        std::mem::swap(&mut taken, self);
        proof {
            use_type_invariant(&taken);
        }
        let EventPublisher { subscribers, service_url, multicast_enabled, origin, last_reading } = taken;
        let empty: Vec<Subscriber> = Vec::new();
        assert(subs_view(empty@) =~= Seq::<SubView>::empty());
        *self = EventPublisher { subscribers: empty, service_url, multicast_enabled, origin, last_reading };
        subscribers
    }

    fn find_in(subs: &Vec<Subscriber>, sid: &str) -> (r: Option<usize>)
        requires
            unique_sids(subs_view(subs@)),
        ensures
            match r {
                Some(i) => i < subs@.len() && sid_pos(subs_view(subs@), sid@) == Some(i as int),
                None => sid_pos(subs_view(subs@), sid@) is None,
            },
    {
        let ghost s = subs_view(subs@);
        let mut i: usize = 0;
        while i < subs.len()
            invariant
                s == subs_view(subs@),
                unique_sids(s),
                i <= s.len(),
                forall|j: int| 0 <= j < i ==> #[trigger] s[j].sid != sid@,
            decreases subs.len() - i,
        {
            if str_eq(subs[i].sid.as_str(), sid) {
                proof {
                    lemma_sid_pos(s, i as int);
                }
                return Some(i);
            }
            i = i + 1;
        }
        None
    }

    /// Subscribe with a given SID at time `now`: the subscriber gets the
    /// granted timeout (at least 1800 s) and event key 0, replacing any
    /// subscriber with the same SID. Returns `(sid, actual_timeout)`.
    pub fn subscribe_at(&mut self, callback_url: &str, requested_timeout: u32, sid: String, now: u64) -> (r: (
        String,
        u32,
    ))
        ensures
            r.0@ == sid@,
            r.1 == granted_timeout(requested_timeout),
            final(self).url() == old(self).url(),
            final(self).multicast() == old(self).multicast(),
            final(self).subs() == subscribed(old(self).subs(), callback_url@, requested_timeout, sid@, now),
            final(self).clock() == old(self).clock(),
    {
        proof {
            use_type_invariant(&*self);
        }
        let actual_timeout: u32 = if requested_timeout < 1800 {
            1800
        } else {
            requested_timeout
        };
        let span: u64 = (actual_timeout as u64) * 1000;
        let expires_at = now.saturating_add(span);
        let subscriber = Subscriber {
            sid: copy_string(&sid),
            callback_url: to_owned_string(callback_url),
            timeout: requested_timeout,
            expires_at,
            seq: 0,
        };
        let ghost old_subs = self.subs();
        let mut subs = self.take_subscribers();
        match Self::find_in(&subs, sid.as_str()) {
            Some(i) => {
                subs.set(i, subscriber);
                assert(subs_view(subs@) =~= old_subs.update(i as int, subscriber@));
                proof {
                    let n = subs_view(subs@);
                    assert forall|a: int, b: int|
                        0 <= a < n.len() && 0 <= b < n.len() && a != b implies #[trigger] n[a].sid
                        != #[trigger] n[b].sid by {
                        if a != i && b != i {
                            assert(old_subs[a].sid != old_subs[b].sid);
                        } else if a == i {
                            assert(old_subs[i as int].sid == sid@);
                            assert(old_subs[i as int].sid != old_subs[b].sid);
                        } else {
                            assert(old_subs[i as int].sid == sid@);
                            assert(old_subs[i as int].sid != old_subs[a].sid);
                        }
                    }
                }
            },
            None => {
                subs.push(subscriber);
                assert(subs_view(subs@) =~= old_subs.push(subscriber@));
                proof {
                    let n = subs_view(subs@);
                    assert forall|a: int, b: int|
                        0 <= a < n.len() && 0 <= b < n.len() && a != b implies #[trigger] n[a].sid
                        != #[trigger] n[b].sid by {
                        if a < old_subs.len() && b < old_subs.len() {
                            assert(old_subs[a].sid != old_subs[b].sid);
                        } else if a < old_subs.len() {
                            assert(old_subs[a].sid != sid@);
                        } else {
                            assert(old_subs[b].sid != sid@);
                        }
                    }
                }
            },
        }
        self.subscribers = subs;
        (sid, actual_timeout)
    }

    /// Subscribe — create a new subscription under a fresh random SID
    /// (`uuid:` and a version-4 UUID).
    ///
    /// Returns `(sid, actual_timeout)`. The actual timeout may differ from requested.
    /// Minimum recommended timeout is 1800 seconds.
    pub fn subscribe(&mut self, callback_url: &str, requested_timeout: u32) -> (r: (String, u32))
        ensures
            r.1 == granted_timeout(requested_timeout),
            exists|id: Seq<char>| r.0@ == "uuid:"@ + id && is_v4_uuid_text(id),
            final(self).url() == old(self).url(),
            final(self).multicast() == old(self).multicast(),
            exists|now: u64|
                final(self).subs() == #[trigger] subscribed(
                    old(self).subs(),
                    callback_url@,
                    requested_timeout,
                    r.0@,
                    now,
                ),
            old(self).clock() <= final(self).clock(),
            final(self).subs() == subscribed(old(self).subs(), callback_url@, requested_timeout, r.0@, final(self).clock()),
    {
        let mut sid = to_owned_string("uuid:");
        let id = new_v4_string();
        push_str(&mut sid, id.as_str());
        proof {
            reveal_strlit("uuid:");
            assert(sid@ == "uuid:"@ + id@);
        }
        let now = self.now();
        self.subscribe_at(callback_url, requested_timeout, sid, now)
    }

    /// Renew at time `now`: `InvalidAction` if the SID is unknown or has
    /// expired; else the subscription takes the new timeout (or keeps its own)
    /// and expires that many seconds after `now`.
    pub fn renew_at(&mut self, sid: &str, timeout: Option<u32>, now: u64) -> (r: Result<(), Error>)
        ensures
            final(self).url() == old(self).url(),
            final(self).multicast() == old(self).multicast(),
            match renewed(old(self).subs(), sid@, timeout, now) {
                None => r == Err::<(), Error>(Error::InvalidAction) && final(self).subs() == old(self).subs(),
                Some(n) => r is Ok && final(self).subs() == n,
            },
            final(self).clock() == old(self).clock(),
    {
        proof {
            use_type_invariant(&*self);
        }
        let i = match Self::find_in(&self.subscribers, sid) {
            Some(i) => i,
            None => return Err(Error::InvalidAction),
        };
        if now >= self.subscribers[i].expires_at {
            return Err(Error::InvalidAction);
        }
        let new_timeout = match timeout {
            Some(t) => t,
            None => self.subscribers[i].timeout,
        };
        let span: u64 = (new_timeout as u64) * 1000;
        let ghost old_subs = self.subs();
        let mut subs = self.take_subscribers();
        let old_sub = &subs[i];
        let renewed = Subscriber {
            sid: copy_string(&old_sub.sid),
            callback_url: copy_string(&old_sub.callback_url),
            timeout: new_timeout,
            expires_at: now.saturating_add(span),
            seq: old_sub.seq,
        };
        subs.set(i, renewed);
        assert(subs_view(subs@) =~= old_subs.update(
            i as int,
            SubView { timeout: new_timeout, expires_at: expiry(now, new_timeout), ..old_subs[i as int] },
        ));
        proof {
            let n = subs_view(subs@);
            assert forall|a: int, b: int|
                0 <= a < n.len() && 0 <= b < n.len() && a != b implies #[trigger] n[a].sid
                != #[trigger] n[b].sid by {
                assert(old_subs[a].sid != old_subs[b].sid);
            }
        }
        self.subscribers = subs;
        Ok(())
    }

    /// Renew — extend an existing subscription's lifetime.
    ///
    /// If timeout is None, uses the subscriber's existing timeout.
    /// Returns error if sid not found or expired.
    pub fn renew(&mut self, sid: &str, timeout: Option<u32>) -> (r: Result<(), Error>)
        ensures
            final(self).url() == old(self).url(),
            final(self).multicast() == old(self).multicast(),
            sid_pos(old(self).subs(), sid@) is None ==> r == Err::<(), Error>(Error::InvalidAction)
                && final(self).subs() == old(self).subs(),
            r is Err ==> r == Err::<(), Error>(Error::InvalidAction) && final(self).subs() == old(self).subs(),
            r is Ok ==> exists|now: u64|
                #[trigger] renewed(old(self).subs(), sid@, timeout, now) == Some(final(self).subs()),
            old(self).clock() <= final(self).clock(),
            match renewed(old(self).subs(), sid@, timeout, final(self).clock()) {
                None => r == Err::<(), Error>(Error::InvalidAction) && final(self).subs() == old(self).subs(),
                Some(n) => r is Ok && final(self).subs() == n,
            },
    {
        let now = self.now();
        self.renew_at(sid, timeout, now)
    }

    /// Unsubscribe — remove a subscription.
    ///
    /// Returns error if sid not found.
    pub fn unsubscribe(&mut self, sid: &str) -> (r: Result<(), Error>)
        ensures
            final(self).url() == old(self).url(),
            final(self).multicast() == old(self).multicast(),
            match sid_pos(old(self).subs(), sid@) {
                None => r == Err::<(), Error>(Error::InvalidAction) && final(self).subs() == old(self).subs(),
                Some(i) => r is Ok && final(self).subs() == old(self).subs().remove(i),
            },
            final(self).clock() == old(self).clock(),
    {
        proof {
            use_type_invariant(&*self);
        }
        match Self::find_in(&self.subscribers, sid) {
            None => Err(Error::InvalidAction),
            Some(i) => {
                let ghost old_subs = self.subs();
                let mut subs = self.take_subscribers();
                let _ = subs.remove(i);
                assert(subs_view(subs@) =~= old_subs.remove(i as int));
                proof {
                    let n = subs_view(subs@);
                    assert forall|a: int, b: int|
                        0 <= a < n.len() && 0 <= b < n.len() && a != b implies #[trigger] n[a].sid
                        != #[trigger] n[b].sid by {
                        let a2 = if a < i { a } else { a + 1 };
                        let b2 = if b < i { b } else { b + 1 };
                        assert(n[a] == old_subs[a2]);
                        assert(n[b] == old_subs[b2]);
                        assert(old_subs[a2].sid != old_subs[b2].sid);
                    }
                }
                self.subscribers = subs;
                Ok(())
            },
        }
    }

    /// Notify at time `now`: every subscriber that has not expired moves to its
    /// next event key and gets the event; one outcome per such subscriber.
    pub fn notify_at(&mut self, properties: &[(String, String)], now: u64) -> (r: Vec<Result<(), String>>)
        ensures
            final(self).url() == old(self).url(),
            final(self).multicast() == old(self).multicast(),
            final(self).subs() == after_notify(old(self).subs(), now),
            r@.len() == active_count(old(self).subs(), now),
            forall|k: int| 0 <= k < r@.len() ==> r@[k] is Ok,
            final(self).clock() == old(self).clock(),
    {
        proof {
            use_type_invariant(&*self);
        }
        let event_body = Self::build_event_body(properties);
        let ghost old_subs = self.subs();
        let multicast = self.multicast_enabled;
        let mut subs = self.take_subscribers();
        let mut results: Vec<Result<(), String>> = Vec::new();
        let mut i: usize = 0;
        while i < subs.len()
            invariant
                old_subs.len() == subs@.len(),
                i <= old_subs.len(),
                unique_sids(subs_view(subs@)),
                forall|j: int| 0 <= j < i ==> #[trigger] subs_view(subs@)[j] == after_notify(old_subs, now)[j],
                forall|j: int| i <= j < old_subs.len() ==> #[trigger] subs_view(subs@)[j] == old_subs[j],
                results@.len() == active_count(old_subs.subrange(0, i as int), now),
                forall|k: int| 0 <= k < results@.len() ==> results@[k] is Ok,
            decreases old_subs.len() - i,
        {
            let ghost sub_i = old_subs.subrange(0, i + 1);
            assert(sub_i.drop_last() =~= old_subs.subrange(0, i as int));
            assert(subs_view(subs@)[i as int] == old_subs[i as int]);
            if now < subs[i].expires_at {
                let cur = subs[i].seq;
                let seq: u32 = if cur == u32::MAX {
                    1
                } else {
                    cur + 1
                };
                let old_sub = &subs[i];
                let headers = Self::build_notify_headers(old_sub.sid.as_str(), seq);
                let unicast_result = Self::send_notify_unicast(old_sub.callback_url.as_str(), &headers, &event_body);
                let multicast_result = if multicast {
                    Self::send_notify_multicast(&event_body)
                } else {
                    Ok(())
                };
                let outcome = match (unicast_result, multicast_result) {
                    (Ok(()), Ok(())) => Ok(()),
                    (Err(e), _) => Err(e),
                    (_, Err(e)) => Err(e),
                };
                let bumped = Subscriber {
                    sid: copy_string(&old_sub.sid),
                    callback_url: copy_string(&old_sub.callback_url),
                    timeout: old_sub.timeout,
                    expires_at: old_sub.expires_at,
                    seq,
                };
                let ghost before = subs_view(subs@);
                subs.set(i, bumped);
                proof {
                    assert(subs_view(subs@) =~= before.update(i as int, bumped@));
                    let n = subs_view(subs@);
                    assert forall|a: int, b: int|
                        0 <= a < n.len() && 0 <= b < n.len() && a != b implies #[trigger] n[a].sid
                        != #[trigger] n[b].sid by {
                        assert(before[a].sid != before[b].sid);
                    }
                }
                results.push(outcome);
            }
            i = i + 1;
        }
        assert(old_subs.subrange(0, old_subs.len() as int) =~= old_subs);
        assert(subs_view(subs@) =~= after_notify(old_subs, now));
        self.subscribers = subs;
        results
    }

    /// Notify — send event to all active subscribers.
    ///
    /// - `properties`: list of (var_name, value) pairs to include in the event body
    /// - Returns a list of results (one per subscriber)
    ///
    /// For each subscriber that has not expired: increment seq (wraps at
    /// 4294967295 to 1), build the NOTIFY headers and body, and deliver.
    pub fn notify(&mut self, properties: &[(String, String)]) -> (r: Vec<Result<(), String>>)
        ensures
            final(self).url() == old(self).url(),
            final(self).multicast() == old(self).multicast(),
            exists|now: u64|
                final(self).subs() == #[trigger] after_notify(old(self).subs(), now) && r@.len() == active_count(
                    old(self).subs(),
                    now,
                ),
            forall|k: int| 0 <= k < r@.len() ==> r@[k] is Ok,
            old(self).clock() <= final(self).clock(),
            final(self).subs() == after_notify(old(self).subs(), final(self).clock()),
            r@.len() == active_count(old(self).subs(), final(self).clock()),
    {
        let now = self.now();
        self.notify_at(properties, now)
    }

    /// Cleanup at time `now`: remove every expired subscription; returns their
    /// SIDs, in subscription order.
    pub fn cleanup_expired_at(&mut self, now: u64) -> (r: Vec<String>)
        ensures
            final(self).url() == old(self).url(),
            final(self).multicast() == old(self).multicast(),
            final(self).subs() == live_subs(old(self).subs(), now),
            r@.map_values(|s: String| s@) == expired_sids(old(self).subs(), now),
            final(self).clock() == old(self).clock(),
    {
        proof {
            use_type_invariant(&*self);
        }
        let ghost old_subs = self.subs();
        let mut kept: Vec<Subscriber> = Vec::new();
        let mut removed: Vec<String> = Vec::new();
        let mut i: usize = 0;
        assert(old_subs.subrange(0, 0) =~= Seq::<SubView>::empty());
        while i < self.subscribers.len()
            invariant
                old_subs == self.subs(),
                unique_sids(old_subs),
                i <= old_subs.len(),
                subs_view(kept@) == live_subs(old_subs.subrange(0, i as int), now),
                unique_sids(subs_view(kept@)),
                forall|a: int|
                    0 <= a < kept@.len() ==> (#[trigger] sid_pos(old_subs, subs_view(kept@)[a].sid) matches Some(j)
                        && j < i),
                removed@.map_values(|s: String| s@) == expired_sids(old_subs.subrange(0, i as int), now),
            decreases old_subs.len() - i,
        {
            let ghost pre = old_subs.subrange(0, i as int);
            let ghost nxt = old_subs.subrange(0, i + 1);
            assert(nxt =~= pre.push(old_subs[i as int]));
            assert(nxt.drop_last() =~= pre);
            let s = &self.subscribers[i];
            let copy = Subscriber {
                sid: copy_string(&s.sid),
                callback_url: copy_string(&s.callback_url),
                timeout: s.timeout,
                expires_at: s.expires_at,
                seq: s.seq,
            };
            if now >= s.expires_at {
                removed.push(copy.sid);
                assert(removed@.map_values(|s: String| s@) =~= expired_sids(nxt, now));
            } else {
                let ghost kv = subs_view(kept@);
                proof {
                    lemma_sid_pos(old_subs, i as int);
                }
                kept.push(copy);
                assert(subs_view(kept@) =~= kv.push(old_subs[i as int]));
                assert(subs_view(kept@) =~= live_subs(nxt, now));
                proof {
                    let nk = subs_view(kept@);
                    assert forall|a: int, b: int|
                        0 <= a < nk.len() && 0 <= b < nk.len() && a != b implies #[trigger] nk[a].sid
                        != #[trigger] nk[b].sid by {
                        if a < kv.len() && b < kv.len() {
                            assert(kv[a].sid != kv[b].sid);
                        } else if a < kv.len() {
                            assert(sid_pos(old_subs, kv[a].sid) matches Some(j) && j < i);
                        } else {
                            assert(sid_pos(old_subs, kv[b].sid) matches Some(j) && j < i);
                        }
                    }
                    assert forall|a: int| 0 <= a < nk.len() implies (#[trigger] sid_pos(old_subs, nk[a].sid) matches Some(j)
                        && j < i + 1) by {
                        if a < kv.len() {
                            assert(sid_pos(old_subs, kv[a].sid) matches Some(j) && j < i);
                        }
                    }
                }
            }
            i = i + 1;
        }
        assert(old_subs.subrange(0, old_subs.len() as int) =~= old_subs);
        self.subscribers = kept;
        removed
    }

    /// Cleanup — remove all expired subscriptions.
    ///
    /// Returns list of removed subscription IDs.
    pub fn cleanup_expired(&mut self) -> (r: Vec<String>)
        ensures
            final(self).url() == old(self).url(),
            final(self).multicast() == old(self).multicast(),
            exists|now: u64|
                final(self).subs() == #[trigger] live_subs(old(self).subs(), now) && r@.map_values(|s: String| s@)
                    == expired_sids(old(self).subs(), now),
            old(self).clock() <= final(self).clock(),
            final(self).subs() == live_subs(old(self).subs(), final(self).clock()),
            r@.map_values(|s: String| s@) == expired_sids(old(self).subs(), final(self).clock()),
    {
        let now = self.now();
        self.cleanup_expired_at(now)
    }

    /// Build the GENA event body XML.
    ///
    /// Format: `<e:propertyset xmlns:e="urn:schemas-upnp-org:event-1-0">...</e:propertyset>`
    pub fn build_event_body(properties: &[(String, String)]) -> (r: String)
        ensures
            r@ == event_body_text(pairs_view(properties@)),
    {
        let ghost ps = pairs_view(properties@);
        let mut xml = to_owned_string("<?xml version=\"1.0\"?>\n<e:propertyset xmlns:e=\"urn:schemas-upnp-org:event-1-0\">");
        let mut i: usize = 0;
        assert(ps.subrange(0, 0) =~= Seq::<(Seq<char>, Seq<char>)>::empty());
        while i < properties.len()
            invariant
                ps == pairs_view(properties@),
                i <= ps.len(),
                xml@ == "<?xml version=\"1.0\"?>\n<e:propertyset xmlns:e=\"urn:schemas-upnp-org:event-1-0\">"@
                    + property_entries(ps.subrange(0, i as int)),
            decreases properties.len() - i,
        {
            let ghost before = xml@;
            push_str(&mut xml, "<e:property><");
            push_str(&mut xml, properties[i].0.as_str());
            push_str(&mut xml, ">");
            push_str(&mut xml, properties[i].1.as_str());
            push_str(&mut xml, "</");
            push_str(&mut xml, properties[i].0.as_str());
            push_str(&mut xml, "></e:property>");
            proof {
                let sub = ps.subrange(0, i + 1);
                assert(sub.drop_last() =~= ps.subrange(0, i as int));
                assert(xml@ =~= before + property_entry(ps[i as int].0, ps[i as int].1));
            }
            i = i + 1;
        }
        assert(ps.subrange(0, ps.len() as int) =~= ps);
        push_str(&mut xml, "</e:propertyset>");
        xml
    }

    /// Build NOTIFY headers string.
    ///
    /// Headers: NT, NTS, SID, SEQ, CONTENT-TYPE
    pub fn build_notify_headers(sid: &str, seq: u32) -> (r: String)
        ensures
            r@ == notify_headers_text(sid@, seq),
    {
        let mut s = to_owned_string("NT: upnp:event\r\nNTS: upnp:propchange\r\nSID: ");
        push_str(&mut s, sid);
        push_str(&mut s, "\r\nSEQ: ");
        push_decimal(&mut s, seq as u64);
        push_str(&mut s, "\r\nCONTENT-TYPE: text/xml; charset=\"utf-8\"\r\n");
        s
    }

    /// Deliver a NOTIFY to a callback URL. Delivery is performed by the
    /// application; the library reports success.
    fn send_notify_unicast(callback_url: &str, headers: &String, body: &String) -> (r: Result<(), String>)
        ensures
            r is Ok,
    {
        Ok(())
    }

    /// Deliver a NOTIFY to the multicast group. Delivery is performed by the
    /// application; the library reports success.
    fn send_notify_multicast(body: &String) -> (r: Result<(), String>)
        ensures
            r is Ok,
    {
        Ok(())
    }
}

/// A lock holding an event publisher: whatever it does, the publisher keeps
/// its eventSubURL.
pub struct PublisherLock {
    pub url: Ghost<Seq<char>>,
}

impl vstd::rwlock::RwLockPredicate<EventPublisher> for PublisherLock {
    open spec fn inv(self, v: EventPublisher) -> bool {
        v.url() == self.url@
    }
}

/// One property of an event body.
pub open spec fn property_entry(name: Seq<char>, value: Seq<char>) -> Seq<char> {
    "<e:property><"@ + name + ">"@ + value + "</"@ + name + "></e:property>"@
}

/// The properties of an event body, in order.
pub open spec fn property_entries(ps: Seq<(Seq<char>, Seq<char>)>) -> Seq<char>
    decreases ps.len(),
{
    if ps.len() == 0 {
        Seq::empty()
    } else {
        property_entries(ps.drop_last()) + property_entry(ps.last().0, ps.last().1)
    }
}

/// The GENA event body for the given properties (names and values are
/// written as given).
pub open spec fn event_body_text(ps: Seq<(Seq<char>, Seq<char>)>) -> Seq<char> {
    "<?xml version=\"1.0\"?>\n<e:propertyset xmlns:e=\"urn:schemas-upnp-org:event-1-0\">"@ + property_entries(ps)
        + "</e:propertyset>"@
}

/// The NOTIFY headers for a subscription and event key.
pub open spec fn notify_headers_text(sid: Seq<char>, seq: u32) -> Seq<char> {
    "NT: upnp:event\r\nNTS: upnp:propchange\r\nSID: "@ + sid + "\r\nSEQ: "@ + nat_to_decimal(seq as nat)
        + "\r\nCONTENT-TYPE: text/xml; charset=\"utf-8\"\r\n"@
}

} // verus!
