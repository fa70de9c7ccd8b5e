//! Time-ordered unique identities: 63-bit snowflake identifiers made of a
//! reserved zero bit, a 41-bit millisecond timestamp (since the Twitter
//! epoch, 2010-11-04), a 10-bit machine identifier and a 12-bit sequence
//! number.
//!
//! Identifiers come from `ferroid`'s atomic generator on a monotonic clock.
//! On top of it, every identifier handed out is checked to be a
//! non-negative `i64` strictly above the previous one, so that a generator
//! instance never hands out the same identity twice.

use ferroid::generator::{AtomicSnowflakeGenerator, Poll};
use ferroid::id::SnowflakeTwitterId;
use ferroid::time::{MonotonicClock, TWITTER_EPOCH};
use std::collections::hash_map::DefaultHasher;
use std::hash::Hasher;
use vstd::prelude::*;
use vstd::std_specs::hash::DefaultHasherAdditionalSpecFns;
use vstd::string::StringSliceAdditionalSpecFns;

use crate::UserID;

verus! {

/// `ferroid`'s atomic generator over a monotonic clock. Verus cannot declare
/// the generator type itself (its parameters are bound by `ferroid`'s traits),
/// so it is held here, out of Verus's sight.
#[verifier::external_body]
pub struct SnowflakeSource {
    inner: AtomicSnowflakeGenerator<SnowflakeTwitterId, MonotonicClock>,
}

/// Largest machine identifier: the field is 10 bits wide.
pub const MAX_MACHINE_ID: u64 = 1023;

/// How many times the generator is polled for one identifier before giving up.
pub const MAX_POLLS: u64 = 67_108_864;

/// The machine identifier a source was made with.
pub uninterp spec fn source_machine(s: SnowflakeSource) -> u64;

/// The machine field of a raw identifier (bits 12 to 21).
pub open spec fn machine_bits(raw: u64) -> u64 {
    (raw >> 12u64) & 1023u64
}

/// Relies on `AtomicSnowflakeGenerator::new` over
/// `MonotonicClock::with_epoch(TWITTER_EPOCH)`, which keeps `machine_id` in
/// its state; the machine identifier must fit its field (the generator
/// asserts so).
#[verifier::external_body]
fn snowflake_source(machine_id: u64) -> (r: SnowflakeSource)
    requires
        machine_id <= MAX_MACHINE_ID,
    ensures
        source_machine(r) == machine_id,
{
    SnowflakeSource {
        inner: AtomicSnowflakeGenerator::new(machine_id, MonotonicClock::with_epoch(TWITTER_EPOCH)),
    }
}

/// Relies on `AtomicSnowflakeGenerator::poll_id`: the raw identifier when one
/// is ready, `None` when the generator asks the caller to wait. Every
/// identifier is built by `SnowflakeTwitterId::from_components` with the
/// generator's machine identifier, which leaves the reserved top bit zero.
#[verifier::external_body]
fn poll_snowflake(g: &SnowflakeSource) -> (r: Option<u64>)
    ensures
        r matches Some(raw) ==> raw <= i64::MAX as u64 && machine_bits(raw) == source_machine(*g),
{
    match g.inner.poll_id() {
        Poll::Ready { id } => Some(id.to_raw()),
        Poll::Pending { .. } => None,
    }
}

/// The machine identifier derived from a host identifier: its hash, masked to
/// the field's width.
pub open spec fn machine_id_of(host_id: Seq<u8>) -> u64 {
    DefaultHasher::spec_finish(seq![host_id]) & 1023
}

/// Derives the machine identifier from a host identifier.
pub fn get_machine_id(host_id: &str) -> (r: u64)
    ensures
        r == machine_id_of(host_id.spec_bytes()),
        r <= MAX_MACHINE_ID,
{
    let mut hasher = DefaultHasher::new();
    hasher.write(host_id.as_bytes());
    let h = hasher.finish();
    assert(h & 1023 <= 1023) by (bit_vector);
    assert(hasher@ =~= seq![host_id.spec_bytes()]);
    h & 1023
}

/// Why no identifier could be produced.
#[derive(Debug, Clone, Copy, PartialEq, Eq, Structural)]
pub enum GeneratorError {
    /// No fresh identifier came within `MAX_POLLS` polls.
    Exhausted,
}

/// Every element strictly above the ones before it.
pub open spec fn strictly_increasing(s: Seq<UserID>) -> bool {
    forall|i: int, j: int| 0 <= i < j < s.len() ==> s[i] < s[j]
}

/// The identity a raw identifier gives after `issued`: itself, if it is a
/// non-negative `i64` strictly above the last identity handed out.
pub open spec fn fresh_id(issued: Seq<UserID>, raw: u64) -> Option<UserID> {
    if raw <= i64::MAX as u64 && (issued.len() == 0 || issued.last() < raw as int) {
        Some(raw as i64)
    } else {
        None
    }
}

/// A generator of identities for one machine.
pub struct SnowflakeGenerator {
    generator: SnowflakeSource,
    machine_id: u64,
    last_id: Option<UserID>,
    issued: Ghost<Seq<UserID>>,
}

impl SnowflakeGenerator {
    /// The identifiers handed out so far, in order.
    pub closed spec fn issued(&self) -> Seq<UserID> {
        self.issued@
    }

    /// The machine identifier stamped into every identifier.
    pub closed spec fn machine(&self) -> u64 {
        self.machine_id
    }

    pub closed spec fn wf(&self) -> bool {
        &&& self.machine_id <= MAX_MACHINE_ID
        &&& source_machine(self.generator) == self.machine_id
        &&& strictly_increasing(self.issued@)
        &&& forall|i: int| 0 <= i < self.issued@.len() ==> 0 <= #[trigger] self.issued@[i]
        &&& self.last_id == if self.issued@.len() == 0 {
            None
        } else {
            Some(self.issued@.last())
        }
    }

    /// A generator whose machine identifier is derived from `host_id`.
    pub fn new(host_id: &str) -> (r: Self)
        ensures
            r.wf(),
            r.issued() == Seq::<UserID>::empty(),
            r.machine() == machine_id_of(host_id.spec_bytes()),
    {
        let machine_id = get_machine_id(host_id);
        SnowflakeGenerator {
            generator: snowflake_source(machine_id),
            machine_id,
            last_id: None,
            issued: Ghost(Seq::empty()),
        }
    }

    pub fn get_machine_id(&self) -> (r: u64)
        ensures
            r == self.machine(),
    {
        self.machine_id
    }

    /// Hands out `raw` as the next identity if it is fresh (see `fresh_id`);
    /// otherwise hands out nothing.
    pub fn accept_raw_id(&mut self, raw: u64) -> (r: Option<UserID>)
        requires
            old(self).wf(),
        ensures
            final(self).wf(),
            final(self).machine() == old(self).machine(),
            r == fresh_id(old(self).issued(), raw),
            r matches Some(id) ==> final(self).issued() == old(self).issued().push(id),
            r is None ==> final(self).issued() == old(self).issued(),
    {
        if raw > i64::MAX as u64 {
            return None;
        }
        let id = raw as i64;
        let fresh = match self.last_id {
            None => true,
            Some(last) => last < id,
        };
        if !fresh {
            return None;
        }
        let ghost before = self.issued@;
        self.last_id = Some(id);
        self.issued = Ghost(before.push(id));
        assert(forall|i: int| 0 <= i < before.len() ==> #[trigger] before[i] < id) by {
            if before.len() > 0 {
                assert(forall|i: int| 0 <= i < before.len() - 1 ==> #[trigger] before[i] < before.last());
            }
        }
        Some(id)
    }

    /// A fresh identity: non-negative, and strictly above every identity this
    /// generator handed out before. Polls the clock-driven source until it has
    /// one, at most `MAX_POLLS` times.
    pub fn generate_id(&mut self) -> (r: Result<UserID, GeneratorError>)
        requires
            old(self).wf(),
        ensures
            final(self).wf(),
            final(self).machine() == old(self).machine(),
            r matches Ok(id) ==> {
                &&& 0 <= id
                &&& machine_bits(id as u64) == old(self).machine()
                &&& forall|i: int| 0 <= i < old(self).issued().len() ==> #[trigger] old(self).issued()[i] < id
                &&& final(self).issued() == old(self).issued().push(id)
            },
            r is Err ==> final(self).issued() == old(self).issued(),
    {
        let mut polls: u64 = 0;
        while polls < MAX_POLLS
            invariant
                self.wf(),
                self.issued@ == old(self).issued@,
                self.machine_id == old(self).machine_id,
            decreases MAX_POLLS - polls,
        {
            if let Some(raw) = poll_snowflake(&self.generator) {
                if let Some(id) = self.accept_raw_id(raw) {
                    assert(id as u64 == raw);
                    return Ok(id);
                }
            }
            polls = polls + 1;
        }
        Err(GeneratorError::Exhausted)
    }
}

/// The identities one generator hands out are pairwise distinct and in
/// increasing order, whatever the interleaving of the callers that share it.
pub proof fn lemma_generated_ids_increasing(g: &SnowflakeGenerator)
    requires
        g.wf(),
    ensures
        forall|i: int, j: int|
            0 <= i < j < g.issued().len() ==> #[trigger] g.issued()[i] < #[trigger] g.issued()[j],
        forall|i: int, j: int|
            0 <= i < g.issued().len() && 0 <= j < g.issued().len() && i != j ==> g.issued()[i]
                != g.issued()[j],
{
    assert forall|i: int, j: int|
        0 <= i < g.issued().len() && 0 <= j < g.issued().len() && i != j implies g.issued()[i]
        != g.issued()[j] by {
        if i < j {
            assert(g.issued()[i] < g.issued()[j]);
        } else {
            assert(g.issued()[j] < g.issued()[i]);
        }
    }
}

} // verus!
