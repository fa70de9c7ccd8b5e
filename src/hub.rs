//! The connection registry and broadcast hub.
//!
//! A connection is admitted only by redeeming a ticket, and only then is it
//! registered. Every registered connection gets its own record; whether a
//! user may hold several at once, or a new one evicts the prior one, is the
//! registry's configured policy. Messages read from a connection are
//! tagged with the connection and its bound identity and published to one
//! shared channel; each connection forwards what it drains from the channel
//! to its own client, except what it published itself.
//!
//! The per-connection work (reading the socket, draining the channel) is a
//! state machine here: the runtime feeds it events and performs the actions
//! it returns. Either side failing closes the session, and a closed session
//! neither publishes nor delivers anything again.

use std::collections::HashMap;
use vstd::prelude::*;

use crate::tickets::{ticket_owner, TicketService};
use crate::UserID;

verus! {

broadcast use vstd::std_specs::hash::group_hash_axioms;

/// Identity of one live connection.
pub type ConnectionId = u64;

/// Why a connection was not admitted.
#[derive(Debug, Clone, Copy, PartialEq, Eq, Structural)]
pub enum ConnectError {
    /// The ticket was not live: never issued, already used, revoked or expired.
    Unauthorized,
    /// Every connection identifier has been handed out.
    RegistryFull,
}

/// How many live connections a user may hold.
#[derive(Debug, Clone, Copy, PartialEq, Eq, Structural)]
pub enum ConnectionPolicy {
    /// Each connection gets its own record; a user may hold several.
    MultiplePerUser,
    /// A user holds at most one connection: a new one evicts the prior one.
    OnePerUser,
}

/// A connection admitted and registered for a user, with the prior
/// connection of that user it evicted, if any.
#[derive(Debug, Clone, Copy, PartialEq, Eq, Structural)]
pub struct Admission {
    pub connection: ConnectionId,
    pub user_id: UserID,
    pub evicted: Option<ConnectionId>,
}

/// A message as published on the shared channel: who sent it, from which
/// connection, and what it says.
#[derive(Debug, Clone, PartialEq, Eq)]
pub struct ChatMessage {
    pub origin: ConnectionId,
    pub from: UserID,
    pub text: String,
}

/// A message as delivered to a client.
#[derive(Debug, Clone, PartialEq, Eq)]
pub struct OutboundMessage {
    pub from: UserID,
    pub text: String,
}

/// What `recipient` forwards to its client of a message on the channel:
/// everything but its own messages.
pub open spec fn forwarded(recipient: ConnectionId, msg: ChatMessage) -> Option<OutboundMessage> {
    if msg.origin == recipient {
        None
    } else {
        Some(OutboundMessage { from: msg.from, text: msg.text })
    }
}

/// Decides what `recipient` forwards of `msg`.
pub fn forward(recipient: ConnectionId, msg: &ChatMessage) -> (r: Option<OutboundMessage>)
    ensures
        r == forwarded(recipient, *msg),
{
    if msg.origin == recipient {
        None
    } else {
        Some(OutboundMessage { from: msg.from, text: msg.text.clone() })
    }
}

/// Whether `evicted` is the connection that registering another one for
/// `user` displaces under `policy`: none when users may hold several, else
/// the user's current connection if there is one.
pub open spec fn valid_eviction(
    m: Map<ConnectionId, UserID>,
    policy: ConnectionPolicy,
    user: UserID,
    evicted: Option<ConnectionId>,
) -> bool {
    match policy {
        ConnectionPolicy::MultiplePerUser => evicted is None,
        ConnectionPolicy::OnePerUser => match evicted {
            Some(e) => m.contains_key(e) && m[e] == user,
            None => forall|c: ConnectionId| #[trigger] m.contains_key(c) ==> m[c] != user,
        },
    }
}

/// The registry after connection `c` is registered for `user`, displacing
/// `evicted`.
pub open spec fn after_register(
    m: Map<ConnectionId, UserID>,
    c: ConnectionId,
    user: UserID,
    evicted: Option<ConnectionId>,
) -> Map<ConnectionId, UserID> {
    match evicted {
        Some(e) => m.remove(e).insert(c, user),
        None => m.insert(c, user),
    }
}

/// No two connections are bound to the same user.
pub open spec fn one_per_user(m: Map<ConnectionId, UserID>) -> bool {
    forall|c1: ConnectionId, c2: ConnectionId|
        #[trigger] m.contains_key(c1) && #[trigger] m.contains_key(c2) && m[c1] == m[c2] ==> c1 == c2
}

/// The live connections, each bound to the identity that redeemed its ticket.
pub struct ConnectionRegistry {
    connections: HashMap<ConnectionId, UserID>,
    by_user: HashMap<UserID, ConnectionId>,
    next_connection: ConnectionId,
    policy: ConnectionPolicy,
}

impl View for ConnectionRegistry {
    type V = Map<ConnectionId, UserID>;

    closed spec fn view(&self) -> Map<ConnectionId, UserID> {
        self.connections@
    }
}

impl ConnectionRegistry {
    /// Every registered connection has an identifier below the next one to be
    /// handed out; under `OnePerUser`, the user index is the exact inverse of
    /// the connections.
    pub closed spec fn wf(&self) -> bool {
        &&& forall|c: ConnectionId| #[trigger]
            self.connections@.contains_key(c) ==> c < self.next_connection
        &&& self.policy == ConnectionPolicy::OnePerUser ==> {
            &&& forall|c: ConnectionId| #[trigger]
                self.connections@.contains_key(c) ==> self.by_user@.contains_key(
                    self.connections@[c],
                ) && self.by_user@[self.connections@[c]] == c
            &&& forall|u: UserID| #[trigger]
                self.by_user@.contains_key(u) ==> self.connections@.contains_key(self.by_user@[u])
                    && self.connections@[self.by_user@[u]] == u
        }
    }

    /// How many connection identifiers have been handed out.
    pub closed spec fn handed_out(&self) -> nat {
        self.next_connection as nat
    }

    /// The registry's policy on connections per user.
    pub closed spec fn policy(&self) -> ConnectionPolicy {
        self.policy
    }

    /// Whether identifiers are left for new connections.
    pub open spec fn has_room(&self) -> bool {
        self.handed_out() < u64::MAX
    }

    /// A registry with no connections, under `policy`.
    pub fn new(policy: ConnectionPolicy) -> (r: Self)
        ensures
            r.wf(),
            r.handed_out() == 0,
            r.policy() == policy,
            r@ == Map::<ConnectionId, UserID>::empty(),
    {
        ConnectionRegistry {
            connections: HashMap::new(),
            by_user: HashMap::new(),
            next_connection: 0,
            policy,
        }
    }

    /// Registers a new connection for `user_id`, under an identifier that no
    /// registered connection has; under `OnePerUser` the user's prior
    /// connection, if any, is removed and reported.
    pub fn register(&mut self, user_id: UserID) -> (r: Option<Admission>)
        requires
            old(self).wf(),
        ensures
            final(self).wf(),
            final(self).policy() == old(self).policy(),
            r is None <==> !old(self).has_room(),
            r matches Some(a) ==> {
                &&& a.user_id == user_id
                &&& !old(self)@.contains_key(a.connection)
                &&& valid_eviction(old(self)@, old(self).policy(), user_id, a.evicted)
                &&& final(self)@ == after_register(old(self)@, a.connection, user_id, a.evicted)
                &&& final(self).handed_out() == old(self).handed_out() + 1
            },
            r is None ==> final(self)@ == old(self)@ && final(self).handed_out() == old(
                self,
            ).handed_out(),
    {
        if self.next_connection == u64::MAX {
            return None;
        }
        let c = self.next_connection;
        let ghost conns0 = self.connections@;
        let ghost users0 = self.by_user@;
        let evicted = match self.policy {
            ConnectionPolicy::MultiplePerUser => None,
            ConnectionPolicy::OnePerUser => match self.by_user.remove(&user_id) {
                Some(prior) => {
                    self.connections.remove(&prior);
                    Some(prior)
                },
                None => None,
            },
        };
        proof {
            if self.policy == ConnectionPolicy::OnePerUser && evicted is None {
                assert forall|x: ConnectionId| #[trigger] conns0.contains_key(x) implies conns0[x]
                    != user_id by {
                    assert(users0.contains_key(conns0[x]));
                }
            }
        }
        self.connections.insert(c, user_id);
        match self.policy {
            ConnectionPolicy::MultiplePerUser => {},
            ConnectionPolicy::OnePerUser => {
                self.by_user.insert(user_id, c);
            },
        }
        self.next_connection = c + 1;
        proof {
            if self.policy == ConnectionPolicy::OnePerUser {
                assert forall|x: ConnectionId| #[trigger]
                    self.connections@.contains_key(x) implies self.by_user@.contains_key(
                    self.connections@[x],
                ) && self.by_user@[self.connections@[x]] == x by {
                    if x != c {
                        assert(conns0.contains_key(x));
                        assert(users0.contains_key(conns0[x]));
                    }
                }
                assert forall|u: UserID| #[trigger] self.by_user@.contains_key(u) implies self.connections@.contains_key(
                    self.by_user@[u],
                ) && self.connections@[self.by_user@[u]] == u by {
                    if u != user_id {
                        assert(users0.contains_key(u));
                        assert(conns0.contains_key(users0[u]));
                    }
                }
            }
        }
        Some(Admission { connection: c, user_id, evicted })
    }

    /// Accepts a connection presenting `ticket` at `now`: the ticket is
    /// redeemed, and only if it was live is a connection registered for its
    /// owner. A refused connection leaves the registry as it was.
    pub fn connect(&mut self, tickets: &mut TicketService, ticket: &String, now: u64) -> (r: Result<
        Admission,
        ConnectError,
    >)
        requires
            old(self).wf(),
        ensures
            final(self).wf(),
            final(self).policy() == old(self).policy(),
            !old(self).has_room() ==> {
                &&& r == Err::<Admission, ConnectError>(ConnectError::RegistryFull)
                &&& final(tickets)@ == old(tickets)@
            },
            old(self).has_room() ==> final(tickets)@ == old(tickets)@.remove(ticket@),
            old(self).has_room() && ticket_owner(old(tickets)@, ticket@, now) is None ==> r == Err::<
                Admission,
                ConnectError,
            >(ConnectError::Unauthorized),
            old(self).has_room() && ticket_owner(old(tickets)@, ticket@, now) is Some ==> r is Ok,
            r matches Ok(a) ==> {
                &&& Some(a.user_id) == ticket_owner(old(tickets)@, ticket@, now)
                &&& !old(self)@.contains_key(a.connection)
                &&& valid_eviction(old(self)@, old(self).policy(), a.user_id, a.evicted)
                &&& final(self)@ == after_register(old(self)@, a.connection, a.user_id, a.evicted)
                &&& final(self).handed_out() == old(self).handed_out() + 1
            },
            r is Err ==> final(self)@ == old(self)@ && final(self).handed_out() == old(
                self,
            ).handed_out(),
            final(tickets).lifetime() == old(tickets).lifetime(),
            final(tickets).length() == old(tickets).length(),
    {
        if self.next_connection == u64::MAX {
            return Err(ConnectError::RegistryFull);
        }
        match tickets.remove(ticket, now) {
            None => Err(ConnectError::Unauthorized),
            Some(user_id) => match self.register(user_id) {
                Some(admission) => Ok(admission),
                None => Err(ConnectError::RegistryFull),
            },
        }
    }

    /// Removes `connection`; returns whether it was registered.
    pub fn disconnect(&mut self, connection: ConnectionId) -> (r: bool)
        requires
            old(self).wf(),
        ensures
            final(self).wf(),
            final(self).policy() == old(self).policy(),
            final(self).handed_out() == old(self).handed_out(),
            r == old(self)@.contains_key(connection),
            final(self)@ == old(self)@.remove(connection),
    {
        let ghost conns0 = self.connections@;
        let ghost users0 = self.by_user@;
        match self.connections.remove(&connection) {
            Some(user_id) => {
                match self.policy {
                    ConnectionPolicy::MultiplePerUser => {},
                    ConnectionPolicy::OnePerUser => {
                        self.by_user.remove(&user_id);
                    },
                }
                proof {
                    if self.policy == ConnectionPolicy::OnePerUser {
                        assert forall|u: UserID| #[trigger]
                            self.by_user@.contains_key(u) implies self.connections@.contains_key(
                            self.by_user@[u],
                        ) && self.connections@[self.by_user@[u]] == u by {
                            assert(users0.contains_key(u));
                            assert(conns0.contains_key(users0[u]));
                        }
                        assert forall|x: ConnectionId| #[trigger]
                            self.connections@.contains_key(x) implies self.by_user@.contains_key(
                            self.connections@[x],
                        ) && self.by_user@[self.connections@[x]] == x by {
                            assert(conns0.contains_key(x));
                            assert(users0.contains_key(conns0[x]));
                        }
                    }
                }
                true
            },
            None => false,
        }
    }

    /// The identity bound to `connection`, if it is registered.
    pub fn user_of(&self, connection: ConnectionId) -> (r: Option<UserID>)
        ensures
            r == (if self@.contains_key(connection) {
                Some(self@[connection])
            } else {
                None
            }),
    {
        match self.connections.get(&connection) {
            Some(u) => Some(*u),
            None => None,
        }
    }
}

/// What happens on one connection.
#[derive(Debug, Clone, PartialEq, Eq)]
pub enum SessionEvent {
    /// The client sent a text message.
    Inbound(String),
    /// The client's stream ended or failed.
    InboundClosed,
    /// A message was drained from the shared channel.
    Broadcast(ChatMessage),
    /// The shared channel closed or failed.
    BroadcastClosed,
    /// Sending to the client failed.
    OutboundFailed,
}

/// What the runtime is to do next for a connection.
#[derive(Debug, Clone, PartialEq, Eq)]
pub enum SessionAction {
    /// Publish the message on the shared channel.
    Publish(ChatMessage),
    /// Send the message to this connection's client.
    Deliver(OutboundMessage),
    /// Nothing to do.
    Ignore,
    /// Stop both sides of the connection and unregister it.
    Close,
}

/// The state of one connection's session.
#[derive(Debug, Clone, Copy, PartialEq, Eq, Structural)]
pub struct Session {
    pub connection: ConnectionId,
    pub user_id: UserID,
    pub open: bool,
}

/// The action a session in state `s` takes on `event`.
pub open spec fn session_action(s: Session, event: SessionEvent) -> SessionAction {
    if !s.open {
        SessionAction::Ignore
    } else {
        match event {
            SessionEvent::Inbound(text) => SessionAction::Publish(
                ChatMessage { origin: s.connection, from: s.user_id, text },
            ),
            SessionEvent::Broadcast(msg) => match forwarded(s.connection, msg) {
                Some(out) => SessionAction::Deliver(out),
                None => SessionAction::Ignore,
            },
            _ => SessionAction::Close,
        }
    }
}

/// Whether a session in state `s` is still open after `event`.
pub open spec fn stays_open(s: Session, event: SessionEvent) -> bool {
    s.open && (event is Inbound || event is Broadcast)
}

impl Session {
    /// The session of a newly admitted connection.
    pub fn start(admission: Admission) -> (r: Self)
        ensures
            r.connection == admission.connection,
            r.user_id == admission.user_id,
            r.open,
    {
        Session { connection: admission.connection, user_id: admission.user_id, open: true }
    }

    /// Takes one event and says what to do. A failure of either side closes
    /// the session; once closed, it ignores everything.
    pub fn step(&mut self, event: SessionEvent) -> (r: SessionAction)
        ensures
            r == session_action(*old(self), event),
            final(self).open == stays_open(*old(self), event),
            final(self).connection == old(self).connection,
            final(self).user_id == old(self).user_id,
    {
        if !self.open {
            return SessionAction::Ignore;
        }
        match event {
            SessionEvent::Inbound(text) => SessionAction::Publish(
                ChatMessage { origin: self.connection, from: self.user_id, text },
            ),
            SessionEvent::Broadcast(msg) => match forward(self.connection, &msg) {
                Some(out) => SessionAction::Deliver(out),
                None => SessionAction::Ignore,
            },
            _ => {
                self.open = false;
                SessionAction::Close
            },
        }
    }
}

/// A message sent on one connection reaches every other connection tagged
/// with the sender's identity and unchanged, and never comes back to the
/// connection it was sent on.
pub proof fn lemma_fan_out_without_echo(sender: Session, receiver: Session, text: String)
    requires
        sender.open,
        receiver.open,
        sender.connection != receiver.connection,
    ensures
        ({
            let published = session_action(sender, SessionEvent::Inbound(text));
            &&& published matches SessionAction::Publish(msg) && {
                &&& session_action(receiver, SessionEvent::Broadcast(msg)) == SessionAction::Deliver(
                    OutboundMessage { from: sender.user_id, text },
                )
                &&& session_action(sender, SessionEvent::Broadcast(msg)) == SessionAction::Ignore
            }
        }),
{
}

/// Of two connections presenting the same ticket, however close together
/// (the lock around the registry and the tickets orders them), at most one is
/// admitted: `connect` redeems the ticket whatever the outcome, so the later
/// one finds it gone and is refused. By `connect`'s contract the earlier one
/// is admitted exactly when the ticket was live and the registry had room.
pub proof fn lemma_racing_connections_one_admitted(
    tickets: Map<Seq<char>, (UserID, u64)>,
    ticket: Seq<char>,
    first: u64,
    second: u64,
)
    ensures
        ticket_owner(tickets.remove(ticket), ticket, second) is None,
{
}

/// Under `OnePerUser`, no user ever holds two connections at once.
pub proof fn lemma_one_connection_per_user(registry: &ConnectionRegistry)
    requires
        registry.wf(),
        registry.policy() == ConnectionPolicy::OnePerUser,
    ensures
        one_per_user(registry@),
{
    assert forall|c1: ConnectionId, c2: ConnectionId|
        #[trigger] registry@.contains_key(c1) && #[trigger] registry@.contains_key(c2)
            && registry@[c1] == registry@[c2] implies c1 == c2 by {
        assert(registry.by_user@[registry.connections@[c1]] == c1);
        assert(registry.by_user@[registry.connections@[c2]] == c2);
    }
}

/// A closed session stays closed and inert, whatever happens next.
pub proof fn lemma_closed_session_inert(s: Session, event: SessionEvent)
    requires
        !s.open,
    ensures
        session_action(s, event) == SessionAction::Ignore,
        !stays_open(s, event),
{
}

} // verus!
