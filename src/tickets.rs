//! Single-use, time-limited tickets that hand an authenticated identity over
//! to a connection that cannot carry the login credential itself.
//!
//! Every operation that may consume a ticket takes `&mut self`: lookup and
//! removal happen in one exclusive step, so of any number of callers racing
//! on one ticket (serialised by whatever lock the owner of the service
//! holds), at most one observes success.

use rand::Rng;
use vstd::prelude::*;

use crate::cache::{deadline, live_value, TimedCache, DEFAULT_RECORD_LIFETIME_MS};
use crate::UserID;

verus! {

/// Number of characters in a ticket.
pub const TICKET_LENGTH: usize = 32;

/// How many tickets `generate` draws, at most, looking for one not in use.
pub const MAX_DRAWS: u64 = 16;

/// An ASCII letter or digit.
pub open spec fn is_alphanumeric(c: char) -> bool {
    ('a' <= c && c <= 'z') || ('A' <= c && c <= 'Z') || ('0' <= c && c <= '9')
}

/// Relies on `rand::distr::Alphanumeric`, sampled `len` times from
/// `rand::rng()`: each character is an ASCII letter or digit.
#[verifier::external_body]
fn random_alphanumeric(len: usize) -> (r: String)
    ensures
        r@.len() == len,
        forall|i: int| 0 <= i < len ==> is_alphanumeric(#[trigger] r@[i]),
{
    rand::rng().sample_iter(&rand::distr::Alphanumeric).take(len).map(char::from).collect()
}

/// Why a ticket could not be redeemed on behalf of a given user.
#[derive(Debug, Clone, Copy, PartialEq, Eq, Structural)]
pub enum TicketError {
    /// No live ticket: never issued, already redeemed, revoked or expired.
    NotFound,
    /// The ticket is live but was issued to another user.
    OwnershipMismatch,
}

/// The tickets in force, each bound to the user it was issued to.
pub struct TicketService {
    tickets: TimedCache<String, UserID>,
    ticket_length: usize,
}

impl View for TicketService {
    type V = Map<Seq<char>, (UserID, u64)>;

    /// Each stored ticket with its owner and deadline (milliseconds).
    closed spec fn view(&self) -> Map<Seq<char>, (UserID, u64)> {
        self.tickets@
    }
}

/// The owner of `ticket` if it is live at `now`.
pub open spec fn ticket_owner(tickets: Map<Seq<char>, (UserID, u64)>, ticket: Seq<char>, now: u64) -> Option<
    UserID,
> {
    live_value(tickets, ticket, now)
}

/// The result of redeeming `ticket` on behalf of `user_id` at `now`.
pub open spec fn redeem_as_result(
    tickets: Map<Seq<char>, (UserID, u64)>,
    user_id: UserID,
    ticket: Seq<char>,
    now: u64,
) -> Result<(), TicketError> {
    match ticket_owner(tickets, ticket, now) {
        None => Err(TicketError::NotFound),
        Some(owner) => if owner == user_id {
            Ok(())
        } else {
            Err(TicketError::OwnershipMismatch)
        },
    }
}

impl TicketService {
    /// How long a ticket lives, in milliseconds.
    pub closed spec fn lifetime(&self) -> u64 {
        self.tickets.default_lifetime()
    }

    /// How many characters a ticket has.
    pub closed spec fn length(&self) -> usize {
        self.ticket_length
    }

    /// A service with no tickets, issuing tickets of `ticket_length`
    /// characters that live `lifetime_ms` milliseconds.
    pub fn with_config(lifetime_ms: u64, ticket_length: usize) -> (r: Self)
        ensures
            r@ == Map::<Seq<char>, (UserID, u64)>::empty(),
            r.lifetime() == lifetime_ms,
            r.length() == ticket_length,
    {
        TicketService {
            tickets: TimedCache::with_default_lifetime(lifetime_ms),
            ticket_length,
        }
    }

    pub fn get_lifetime(&self) -> (r: u64)
        ensures
            r == self.lifetime(),
    {
        self.tickets.get_default_lifetime()
    }

    pub fn get_ticket_length(&self) -> (r: usize)
        ensures
            r == self.length(),
    {
        self.ticket_length
    }

    /// Binds `ticket` to `user_id` until the configured lifetime after `now`,
    /// unless the ticket is live, in which case nothing changes. Returns
    /// whether it was bound.
    pub fn issue_with(&mut self, user_id: UserID, ticket: String, now: u64) -> (r: bool)
        ensures
            r == (ticket_owner(old(self)@, ticket@, now) is None),
            r ==> final(self)@ == old(self)@.insert(
                ticket@,
                (user_id, deadline(now, old(self).lifetime())),
            ),
            !r ==> final(self)@ == old(self)@,
            final(self).lifetime() == old(self).lifetime(),
            final(self).length() == old(self).length(),
    {
        if self.tickets.get(&ticket, now).is_some() {
            return false;
        }
        self.tickets.set(ticket, user_id, None, now);
        true
    }

    /// Issues a fresh random ticket of the configured length for `user_id`:
    /// one that is not live at `now`, so that no live ticket is ever handed
    /// out twice or rebound. Draws at most `MAX_DRAWS` times; `None` if every
    /// draw hit a live ticket.
    pub fn generate(&mut self, user_id: UserID, now: u64) -> (r: Option<String>)
        ensures
            r matches Some(t) ==> {
                &&& t@.len() == old(self).length()
                &&& forall|i: int| 0 <= i < t@.len() ==> is_alphanumeric(#[trigger] t@[i])
                &&& ticket_owner(old(self)@, t@, now) is None
                &&& final(self)@ == old(self)@.insert(
                    t@,
                    (user_id, deadline(now, old(self).lifetime())),
                )
            },
            r is None ==> final(self)@ == old(self)@,
            final(self).lifetime() == old(self).lifetime(),
            final(self).length() == old(self).length(),
    {
        let mut draws: u64 = 0;
        while draws < MAX_DRAWS
            invariant
                self@ == old(self)@,
                self.lifetime() == old(self).lifetime(),
                self.length() == old(self).length(),
            decreases MAX_DRAWS - draws,
        {
            let ticket = random_alphanumeric(self.ticket_length);
            if self.issue_with(user_id, ticket.clone(), now) {
                return Some(ticket);
            }
            draws = draws + 1;
        }
        None
    }

    /// The owner of `ticket` if it is live at `now`; nothing is consumed.
    pub fn verify(&self, ticket: &String, now: u64) -> (r: Option<UserID>)
        ensures
            r == ticket_owner(self@, ticket@, now),
    {
        self.tickets.get(ticket, now)
    }

    /// Redeems `ticket`: returns its owner if it is live at `now`, and in
    /// every case leaves it unusable.
    pub fn remove(&mut self, ticket: &String, now: u64) -> (r: Option<UserID>)
        ensures
            r == ticket_owner(old(self)@, ticket@, now),
            final(self)@ == old(self)@.remove(ticket@),
            final(self).lifetime() == old(self).lifetime(),
            final(self).length() == old(self).length(),
    {
        self.tickets.remove(ticket, now)
    }

    /// Redeems `ticket` only on behalf of its owner. A ticket of another user
    /// is left intact, so that its owner may still redeem it.
    pub fn validated_remove(&mut self, user_id: UserID, ticket: &String, now: u64) -> (r: Result<
        (),
        TicketError,
    >)
        ensures
            r == redeem_as_result(old(self)@, user_id, ticket@, now),
            r is Ok ==> final(self)@ == old(self)@.remove(ticket@),
            r is Err ==> final(self)@ == old(self)@,
            final(self).lifetime() == old(self).lifetime(),
            final(self).length() == old(self).length(),
    {
        match self.tickets.get(ticket, now) {
            None => Err(TicketError::NotFound),
            Some(owner) => {
                if owner != user_id {
                    Err(TicketError::OwnershipMismatch)
                } else {
                    let _ = self.tickets.remove(ticket, now);
                    Ok(())
                }
            },
        }
    }

    /// Drops tickets whose lifetime has run out; no ticket is added or
    /// rebound.
    pub fn sweep(&mut self)
        ensures
            final(self)@.submap_of(old(self)@),
            final(self).lifetime() == old(self).lifetime(),
            final(self).length() == old(self).length(),
    {
        self.tickets.sweep();
    }

    /// Withdraws `ticket`, live or not.
    pub fn revoke(&mut self, ticket: &String)
        ensures
            final(self)@ == old(self)@.remove(ticket@),
            final(self).lifetime() == old(self).lifetime(),
            final(self).length() == old(self).length(),
    {
        let _ = self.tickets.remove(ticket, 0);
    }
}

impl Default for TicketService {
    /// Tickets of `TICKET_LENGTH` characters that live
    /// `DEFAULT_RECORD_LIFETIME_MS` milliseconds.
    fn default() -> (r: Self)
        ensures
            r@ == Map::<Seq<char>, (UserID, u64)>::empty(),
            r.lifetime() == DEFAULT_RECORD_LIFETIME_MS,
            r.length() == TICKET_LENGTH,
    {
        TicketService::with_config(DEFAULT_RECORD_LIFETIME_MS, TICKET_LENGTH)
    }
}

/// What each of a series of `remove` calls on `ticket` returns, the calls
/// made one after another at the given times, starting from `tickets`.
pub open spec fn redeem_outcomes(
    tickets: Map<Seq<char>, (UserID, u64)>,
    ticket: Seq<char>,
    times: Seq<u64>,
) -> Seq<Option<UserID>>
    decreases times.len(),
{
    if times.len() == 0 {
        Seq::empty()
    } else {
        seq![ticket_owner(tickets, ticket, times[0])] + redeem_outcomes(
            tickets.remove(ticket),
            ticket,
            times.drop_first(),
        )
    }
}

/// A ticket is redeemed at most once: of any number of redemption attempts on
/// one ticket, however they are ordered, only the first can succeed, and it
/// succeeds exactly when the ticket is live at that moment.
pub proof fn lemma_ticket_single_use(
    tickets: Map<Seq<char>, (UserID, u64)>,
    ticket: Seq<char>,
    times: Seq<u64>,
)
    ensures
        redeem_outcomes(tickets, ticket, times).len() == times.len(),
        times.len() > 0 ==> redeem_outcomes(tickets, ticket, times)[0] == ticket_owner(
            tickets,
            ticket,
            times[0],
        ),
        forall|i: int|
            1 <= i < times.len() ==> (#[trigger] redeem_outcomes(tickets, ticket, times)[i]) is None,
    decreases times.len(),
{
    if times.len() > 0 {
        let rest = times.drop_first();
        let after = tickets.remove(ticket);
        lemma_ticket_single_use(after, ticket, rest);
        lemma_removed_ticket_stays_dead(after, ticket, rest);
        assert forall|i: int| 1 <= i < times.len() implies (#[trigger] redeem_outcomes(
            tickets,
            ticket,
            times,
        )[i]) is None by {
            assert(redeem_outcomes(tickets, ticket, times)[i] == redeem_outcomes(
                after,
                ticket,
                rest,
            )[i - 1]);
        }
    }
}

/// Every issued ticket is redeemed exactly once: once `issue_with` has bound
/// `ticket` to `owner` at `issued_at` for `lifetime` milliseconds, of any
/// series of redemption attempts that starts before the deadline, the first
/// returns `owner` and every later one returns nothing.
pub proof fn lemma_issued_ticket_redeemed_once(
    tickets: Map<Seq<char>, (UserID, u64)>,
    ticket: Seq<char>,
    owner: UserID,
    issued_at: u64,
    lifetime: u64,
    times: Seq<u64>,
)
    requires
        times.len() > 0,
        times[0] < deadline(issued_at, lifetime),
    ensures
        ({
            let issued = tickets.insert(ticket, (owner, deadline(issued_at, lifetime)));
            &&& redeem_outcomes(issued, ticket, times)[0] == Some(owner)
            &&& forall|i: int|
                1 <= i < times.len() ==> (#[trigger] redeem_outcomes(issued, ticket, times)[i]) is None
        }),
{
    let issued = tickets.insert(ticket, (owner, deadline(issued_at, lifetime)));
    lemma_ticket_single_use(issued, ticket, times);
}

/// Once removed, a ticket is never redeemed again.
proof fn lemma_removed_ticket_stays_dead(
    tickets: Map<Seq<char>, (UserID, u64)>,
    ticket: Seq<char>,
    times: Seq<u64>,
)
    requires
        !tickets.contains_key(ticket),
    ensures
        forall|i: int|
            0 <= i < times.len() ==> (#[trigger] redeem_outcomes(tickets, ticket, times)[i]) is None,
    decreases times.len(),
{
    if times.len() > 0 {
        let rest = times.drop_first();
        assert(tickets.remove(ticket) =~= tickets);
        lemma_removed_ticket_stays_dead(tickets, ticket, rest);
        lemma_ticket_single_use(tickets, ticket, rest);
        assert forall|i: int| 0 <= i < times.len() implies (#[trigger] redeem_outcomes(
            tickets,
            ticket,
            times,
        )[i]) is None by {
            if i > 0 {
                assert(redeem_outcomes(tickets, ticket, times)[i] == redeem_outcomes(
                    tickets,
                    ticket,
                    rest,
                )[i - 1]);
            }
        }
    }
}

} // verus!
