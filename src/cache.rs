//! An expiring key-value store: each entry carries an absolute deadline in
//! milliseconds, and is observable only strictly before it.
//!
//! Entries are kept in a `timedmap::TimedMap`. Whether an entry is live is
//! decided here against the caller's clock, never against the map's own
//! `Instant`, so that a simulated clock governs expiry exactly. The map's
//! own clock only drives `sweep`, which drops entries and changes none.

use std::time::Duration;
use timedmap::{Cleanup, TimedMap};
use vstd::prelude::*;

use crate::UserID;

verus! {

#[verifier::external_type_specification]
#[verifier::external_body]
pub struct ExInstant(std::time::Instant);

#[verifier::external_type_specification]
#[verifier::external_body]
#[verifier::reject_recursive_types(K)]
#[verifier::reject_recursive_types(V)]
#[verifier::reject_recursive_types(TS)]
pub struct ExTimedMap<K, V, TS>(TimedMap<K, V, TS>);

/// Longest lifetime handed to the underlying map (about 34 years). Longer ones
/// are clamped: the map adds the lifetime to an `Instant`, which panics on
/// overflow.
pub const MAX_LIFETIME_MS: u64 = 1_099_511_627_776;

/// Lifetime of an entry stored without an explicit one: ten minutes.
pub const DEFAULT_RECORD_LIFETIME_MS: u64 = 600_000;

/// What a timed map holds: for each key, the stored value and its deadline.
pub uninterp spec fn stored_entries(m: TimedMap<String, (UserID, u64)>) -> Map<
    Seq<char>,
    (UserID, u64),
>;

/// Relies on `timedmap::TimedMap::new`: a map with no entries.
#[verifier::external_body]
fn timed_map_new() -> (r: TimedMap<String, (UserID, u64)>)
    ensures
        stored_entries(r) =~= Map::empty(),
{
    TimedMap::new()
}

/// Relies on `timedmap::TimedMap::insert`: the pair is stored under `key`,
/// replacing any earlier entry for that key.
#[verifier::external_body]
fn timed_map_insert(
    m: &mut TimedMap<String, (UserID, u64)>,
    key: String,
    value: (UserID, u64),
    lifetime_ms: u64,
)
    requires
        lifetime_ms <= MAX_LIFETIME_MS,
    ensures
        stored_entries(*final(m)) == stored_entries(*old(m)).insert(key@, value),
{
    m.insert(key, value, Duration::from_millis(lifetime_ms));
}

/// Relies on `timedmap::TimedMap::get_value_unchecked`: the stored entry for
/// `key`, whatever the map's own clock says of it; the map is not changed.
#[verifier::external_body]
fn timed_map_peek(m: &TimedMap<String, (UserID, u64)>, key: &String) -> (r: Option<(UserID, u64)>)
    ensures
        r == (if stored_entries(*m).contains_key(key@) {
            Some(stored_entries(*m)[key@])
        } else {
            None
        }),
{
    m.get_value_unchecked(key).map(|v| v.value())
}

/// Relies on `timedmap::TimedMap::remove`: the entry for `key`, if any, is
/// dropped.
#[verifier::external_body]
fn timed_map_remove(m: &mut TimedMap<String, (UserID, u64)>, key: &String)
    ensures
        stored_entries(*final(m)) == stored_entries(*old(m)).remove(key@),
{
    let _ = m.remove(key);
}

/// Relies on `timedmap::Cleanup::cleanup` for `TimedMap`: entries that the
/// map's own clock finds expired are dropped; nothing is added or changed.
#[verifier::external_body]
fn timed_map_cleanup(m: &mut TimedMap<String, (UserID, u64)>)
    ensures
        stored_entries(*final(m)).submap_of(stored_entries(*old(m))),
{
    m.cleanup();
}

/// The value stored under `key`, if its deadline lies strictly after `now`.
pub open spec fn live_value(entries: Map<Seq<char>, (UserID, u64)>, key: Seq<char>, now: u64) -> Option<
    UserID,
> {
    if entries.contains_key(key) && now < entries[key].1 {
        Some(entries[key].0)
    } else {
        None
    }
}

/// Deadline of an entry stored at `now` for `lifetime_ms`: the lifetime is
/// clamped to `MAX_LIFETIME_MS`, the sum saturates at `u64::MAX`.
pub open spec fn deadline(now: u64, lifetime_ms: u64) -> u64 {
    let l = if lifetime_ms <= MAX_LIFETIME_MS {
        lifetime_ms
    } else {
        MAX_LIFETIME_MS
    };
    if now + l <= u64::MAX {
        (now + l) as u64
    } else {
        u64::MAX
    }
}

/// Operations of an expiring store, with the caller's clock in milliseconds.
pub trait Cache<T, U> {
    fn get(&self, key: &T, now: u64) -> Option<U>;

    fn set(&mut self, key: T, value: U, lifetime: Option<u64>, now: u64);

    fn remove(&mut self, key: &T, now: u64) -> Option<U>;
}

/// An expiring store of user identities keyed by strings.
#[verifier::reject_recursive_types(T)]
#[verifier::reject_recursive_types(U)]
pub struct TimedCache<T, U> {
    storage: TimedMap<T, (U, u64)>,
    default_lifetime_ms: u64,
}

impl View for TimedCache<String, UserID> {
    type V = Map<Seq<char>, (UserID, u64)>;

    closed spec fn view(&self) -> Map<Seq<char>, (UserID, u64)> {
        stored_entries(self.storage)
    }
}

impl TimedCache<String, UserID> {
    /// The lifetime given to entries stored without one.
    pub closed spec fn default_lifetime(&self) -> u64 {
        self.default_lifetime_ms
    }

    /// An empty store whose entries live `DEFAULT_RECORD_LIFETIME_MS` by default.
    pub fn new() -> (r: Self)
        ensures
            r@ == Map::<Seq<char>, (UserID, u64)>::empty(),
            r.default_lifetime() == DEFAULT_RECORD_LIFETIME_MS,
    {
        TimedCache { storage: timed_map_new(), default_lifetime_ms: DEFAULT_RECORD_LIFETIME_MS }
    }

    /// An empty store whose entries live `lifetime_ms` by default.
    pub fn with_default_lifetime(lifetime_ms: u64) -> (r: Self)
        ensures
            r@ == Map::<Seq<char>, (UserID, u64)>::empty(),
            r.default_lifetime() == lifetime_ms,
    {
        TimedCache { storage: timed_map_new(), default_lifetime_ms: lifetime_ms }
    }

    pub fn get_default_lifetime(&self) -> (r: u64)
        ensures
            r == self.default_lifetime(),
    {
        self.default_lifetime_ms
    }

    /// The value under `key` if it is live at `now`; expired entries are
    /// reported absent whether or not they were dropped yet.
    pub fn get(&self, key: &String, now: u64) -> (r: Option<UserID>)
        ensures
            r == live_value(self@, key@, now),
    {
        match timed_map_peek(&self.storage, key) {
            Some((value, expires_at)) => {
                if now < expires_at {
                    Some(value)
                } else {
                    None
                }
            },
            None => None,
        }
    }

    /// Stores `value` under `key`, replacing any earlier entry, with a
    /// deadline `lifetime` (or the default lifetime) after `now`.
    pub fn set(&mut self, key: String, value: UserID, lifetime: Option<u64>, now: u64)
        ensures
            final(self)@ == old(self)@.insert(
                key@,
                (value, deadline(now, lifetime.unwrap_or(old(self).default_lifetime()))),
            ),
            final(self).default_lifetime() == old(self).default_lifetime(),
    {
        let requested = match lifetime {
            Some(l) => l,
            None => self.default_lifetime_ms,
        };
        let l = if requested <= MAX_LIFETIME_MS {
            requested
        } else {
            MAX_LIFETIME_MS
        };
        let expires_at = now.saturating_add(l);
        timed_map_insert(&mut self.storage, key, (value, expires_at), l);
    }

    /// Drops the entry under `key` unconditionally, and returns its value if
    /// it was live at `now`.
    pub fn remove(&mut self, key: &String, now: u64) -> (r: Option<UserID>)
        ensures
            r == live_value(old(self)@, key@, now),
            final(self)@ == old(self)@.remove(key@),
            final(self).default_lifetime() == old(self).default_lifetime(),
    {
        let r = self.get(key, now);
        timed_map_remove(&mut self.storage, key);
        r
    }

    /// Drops entries whose lifetime has run out, as the underlying map's
    /// monotonic clock sees it. Only drops: every entry left is as it was.
    pub fn sweep(&mut self)
        ensures
            final(self)@.submap_of(old(self)@),
            final(self).default_lifetime() == old(self).default_lifetime(),
    {
        timed_map_cleanup(&mut self.storage);
    }
}

impl Cache<String, UserID> for TimedCache<String, UserID> {
    fn get(&self, key: &String, now: u64) -> Option<UserID> {
        TimedCache::get(self, key, now)
    }

    fn set(&mut self, key: String, value: UserID, lifetime: Option<u64>, now: u64) {
        TimedCache::set(self, key, value, lifetime, now)
    }

    fn remove(&mut self, key: &String, now: u64) -> Option<UserID> {
        TimedCache::remove(self, key, now)
    }
}

/// An entry read at or after its deadline is absent, even though it is still
/// stored: after `set` at `stored_at` with lifetime `lifetime_ms`, a lookup at
/// any `now` from the deadline on finds nothing, and one before it finds the
/// value.
pub proof fn lemma_expired_entries_absent(
    entries: Map<Seq<char>, (UserID, u64)>,
    key: Seq<char>,
    value: UserID,
    stored_at: u64,
    lifetime_ms: u64,
    now: u64,
)
    ensures
        ({
            let after = entries.insert(key, (value, deadline(stored_at, lifetime_ms)));
            &&& after.contains_key(key)
            &&& now >= deadline(stored_at, lifetime_ms) ==> live_value(after, key, now) is None
            &&& now < deadline(stored_at, lifetime_ms) ==> live_value(after, key, now) == Some(
                value,
            )
        }),
{
}

} // verus!
