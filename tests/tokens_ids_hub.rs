use chat_core::auth::{
    check_login, generate_password_hash, prepare_signup, verify_password, LoginError, LoginForm,
    SignupForm,
};
use chat_core::hub::{
    forward, ChatMessage, ConnectError, ConnectionPolicy, ConnectionRegistry, OutboundMessage, Session, SessionAction,
    SessionEvent,
};
use chat_core::models::UserAthorizeDTO;
use chat_core::snowflake::{get_machine_id, SnowflakeGenerator, MAX_MACHINE_ID};
use chat_core::tickets::TicketService;
use chat_core::token::{authorize, check_claims, AuthorizationError, JWToken, TokenError, TOKEN_LIFETIME_SECS};

use std::sync::{Arc, Mutex};

const SECRET: &[u8] = b"test-secret";

#[test]
fn token_round_trip_until_expiry() {
    let now = 1_700_000_000u64;
    let claims = JWToken::new(42, now);
    assert_eq!(claims.user_id, 42);
    assert_eq!(claims.exp, now + TOKEN_LIFETIME_SECS);
    let token = claims.encode(SECRET);
    assert_eq!(token.split('.').count(), 3);
    assert_eq!(JWToken::verify(&token, SECRET, now), Ok(42));
    assert_eq!(JWToken::verify(&token, SECRET, now + TOKEN_LIFETIME_SECS - 1), Ok(42));
    assert_eq!(JWToken::verify(&token, SECRET, now + TOKEN_LIFETIME_SECS), Err(TokenError::Expired));
}

#[test]
fn token_with_other_secret_is_bad_signature() {
    let token = JWToken::with_lifetime(7, 100, 50).encode(SECRET);
    assert_eq!(JWToken::verify(&token, b"other", 120), Err(TokenError::BadSignature));
}

#[test]
fn garbage_token_is_malformed() {
    assert_eq!(JWToken::verify("not-a-token", SECRET, 0), Err(TokenError::Malformed));
    assert_eq!(JWToken::verify("", SECRET, 0), Err(TokenError::Malformed));
}

#[test]
fn token_expiry_saturates() {
    let t = JWToken::with_lifetime(1, u64::MAX - 10, 100);
    assert_eq!(t.exp, u64::MAX);
}

#[test]
fn claims_verdicts() {
    assert_eq!(check_claims(Ok((Some(5), Some(10))), 9), Ok(5));
    assert_eq!(check_claims(Ok((Some(5), Some(10))), 10), Err(TokenError::Expired));
    assert_eq!(check_claims(Ok((None, Some(10))), 0), Err(TokenError::Malformed));
    assert_eq!(check_claims(Ok((Some(5), None)), 0), Err(TokenError::Malformed));
    assert_eq!(check_claims(Err(TokenError::BadSignature), 0), Err(TokenError::BadSignature));
}

#[test]
fn authorization_header_checks() {
    let token = JWToken::with_lifetime(9, 1_000, 60).encode(SECRET);
    assert_eq!(authorize(None, SECRET, 1_000), Err(AuthorizationError::MissingHeader));
    assert_eq!(authorize(Some(&token), SECRET, 1_010), Ok(9));
    assert_eq!(
        authorize(Some(&token), SECRET, 1_060),
        Err(AuthorizationError::InvalidToken(TokenError::Expired))
    );
    assert_eq!(
        authorize(Some("x.y.z"), SECRET, 1_010),
        Err(AuthorizationError::InvalidToken(TokenError::Malformed))
    );
}

#[test]
fn machine_id_is_deterministic_and_masked() {
    let a = get_machine_id("host-a");
    assert_eq!(a, get_machine_id("host-a"));
    assert!(a <= MAX_MACHINE_ID);
    let g = SnowflakeGenerator::new("host-a");
    assert_eq!(g.get_machine_id(), a);
}

#[test]
fn ten_thousand_ids_strictly_increase() {
    let mut g = SnowflakeGenerator::new("host-b");
    let mut last: Option<i64> = None;
    for _ in 0..10_000 {
        let id = g.generate_id().expect("id");
        assert!(id >= 0);
        if let Some(prev) = last {
            assert!(prev < id);
        }
        last = Some(id);
    }
}

#[test]
fn ids_carry_machine_id() {
    let mut g = SnowflakeGenerator::new("host-c");
    let id = g.generate_id().unwrap();
    assert_eq!(((id as u64) >> 12) & 0x3ff, g.get_machine_id());
}

#[test]
fn racing_connections_on_one_ticket() {
    let mut tickets = TicketService::default();
    let mut registry = ConnectionRegistry::new(ConnectionPolicy::MultiplePerUser);
    let t = tickets.generate(42, 0).unwrap();
    let first = registry.connect(&mut tickets, &t, 1);
    let second = registry.connect(&mut tickets, &t, 1);
    let admission = first.expect("first admitted");
    assert_eq!(admission.user_id, 42);
    assert_eq!(second, Err(ConnectError::Unauthorized));
    assert_eq!(registry.user_of(admission.connection), Some(42));
}

#[test]
fn unknown_ticket_leaves_registry_empty() {
    let mut tickets = TicketService::default();
    let mut registry = ConnectionRegistry::new(ConnectionPolicy::MultiplePerUser);
    assert_eq!(registry.connect(&mut tickets, &"nope".to_string(), 0), Err(ConnectError::Unauthorized));
    assert_eq!(registry.user_of(0), None);
}

#[test]
fn message_reaches_others_but_not_sender() {
    let mut tickets = TicketService::default();
    let mut registry = ConnectionRegistry::new(ConnectionPolicy::MultiplePerUser);
    let ta = tickets.generate(1, 0).unwrap();
    let tb = tickets.generate(2, 0).unwrap();
    let a = registry.connect(&mut tickets, &ta, 1).unwrap();
    let b = registry.connect(&mut tickets, &tb, 1).unwrap();
    assert_ne!(a.connection, b.connection);
    let mut sa = Session::start(a);
    let mut sb = Session::start(b);
    let msg = match sa.step(SessionEvent::Inbound("hi".to_string())) {
        SessionAction::Publish(m) => m,
        other => panic!("unexpected {:?}", other),
    };
    assert_eq!(msg, ChatMessage { origin: a.connection, from: 1, text: "hi".to_string() });
    assert_eq!(
        sb.step(SessionEvent::Broadcast(msg.clone())),
        SessionAction::Deliver(OutboundMessage { from: 1, text: "hi".to_string() })
    );
    assert_eq!(sa.step(SessionEvent::Broadcast(msg)), SessionAction::Ignore);
}

#[test]
fn forward_skips_own_messages() {
    let m = ChatMessage { origin: 3, from: 9, text: "x".to_string() };
    assert_eq!(forward(3, &m), None);
    assert_eq!(forward(4, &m), Some(OutboundMessage { from: 9, text: "x".to_string() }));
}

#[test]
fn failure_closes_session_for_good() {
    let mut s = Session { connection: 1, user_id: 2, open: true };
    assert_eq!(s.step(SessionEvent::OutboundFailed), SessionAction::Close);
    assert!(!s.open);
    assert_eq!(s.step(SessionEvent::Inbound("late".to_string())), SessionAction::Ignore);
    let m = ChatMessage { origin: 5, from: 6, text: "y".to_string() };
    assert_eq!(s.step(SessionEvent::Broadcast(m)), SessionAction::Ignore);
    let mut r = Session { connection: 1, user_id: 2, open: true };
    assert_eq!(r.step(SessionEvent::InboundClosed), SessionAction::Close);
    let mut q = Session { connection: 1, user_id: 2, open: true };
    assert_eq!(q.step(SessionEvent::BroadcastClosed), SessionAction::Close);
}

#[test]
fn disconnect_removes_record() {
    let mut registry = ConnectionRegistry::new(ConnectionPolicy::MultiplePerUser);
    let c = registry.register(8).unwrap().connection;
    let d = registry.register(8).unwrap().connection;
    assert_ne!(c, d);
    assert!(registry.disconnect(c));
    assert!(!registry.disconnect(c));
    assert_eq!(registry.user_of(c), None);
    assert_eq!(registry.user_of(d), Some(8));
}

#[test]
fn password_hash_round_trip() {
    let h = generate_password_hash("s3cret".to_string()).expect("hash");
    assert_ne!(h, "s3cret");
    assert!(verify_password("s3cret".to_string(), h.clone()));
    assert!(!verify_password("other".to_string(), h));
    assert!(!verify_password("s3cret".to_string(), "not a phc string".to_string()));
}

#[test]
fn login_decisions() {
    let h = generate_password_hash("pw".to_string()).unwrap();
    let form = LoginForm { username: "u".to_string(), password: "pw".to_string() };
    assert_eq!(check_login(&form, None), Err(LoginError::UnknownUser));
    let dto = UserAthorizeDTO { id: 77, hashed_password: h.clone() };
    assert_eq!(check_login(&form, Some(dto)), Ok(77));
    let bad = LoginForm { username: "u".to_string(), password: "nope".to_string() };
    let dto = UserAthorizeDTO { id: 77, hashed_password: h };
    assert_eq!(check_login(&bad, Some(dto)), Err(LoginError::WrongPassword));
}

#[test]
fn signup_prepares_user() {
    let mut g = SnowflakeGenerator::new("host-d");
    let form = SignupForm { username: "ann".to_string(), name: "Ann".to_string(), password: "pw".to_string() };
    let u = prepare_signup(&mut g, form).expect("prepared");
    assert!(u.id >= 0);
    assert_eq!(u.username, "ann");
    assert_eq!(u.name, "Ann");
    assert!(verify_password("pw".to_string(), u.hashed_password.clone()));
    assert_eq!(u.status, None);
    assert_eq!(u.bio, None);
    let next = g.generate_id().unwrap();
    assert!(next > u.id);
}

#[test]
fn concurrent_callers_get_distinct_ids() {
    let rt = tokio::runtime::Builder::new_multi_thread().worker_threads(4).build().unwrap();
    let all = rt.block_on(async {
        let g = Arc::new(Mutex::new(SnowflakeGenerator::new("host-e")));
        let mut tasks = Vec::new();
        for _ in 0..100 {
            let g = g.clone();
            tasks.push(tokio::spawn(async move {
                let mut ids = Vec::new();
                for _ in 0..100 {
                    ids.push(g.lock().unwrap().generate_id().unwrap());
                }
                ids
            }));
        }
        let mut all: Vec<i64> = Vec::new();
        for t in tasks {
            let ids = t.await.unwrap();
            assert!(ids.windows(2).all(|w| w[0] < w[1]));
            all.extend(ids);
        }
        all
    });
    let mut sorted = all.clone();
    sorted.sort();
    sorted.dedup();
    assert_eq!(all.len(), 10_000);
    assert_eq!(sorted.len(), 10_000);
}

#[test]
fn raw_ids_accepted_only_when_fresh() {
    let mut g = SnowflakeGenerator::new("host-f");
    assert_eq!(g.accept_raw_id(5), Some(5));
    assert_eq!(g.accept_raw_id(5), None);
    assert_eq!(g.accept_raw_id(4), None);
    assert_eq!(g.accept_raw_id(u64::MAX), None);
    assert_eq!(g.accept_raw_id(6), Some(6));
    let next = g.generate_id().unwrap();
    assert!(next > 6);
}

#[test]
fn new_user_from_signup_fields() {
    let form = SignupForm { username: "bo".to_string(), name: "Bo".to_string(), password: "x".to_string() };
    let u = chat_core::auth::new_user_from_signup(12, form, "HASH".to_string());
    assert_eq!(u.id, 12);
    assert_eq!(u.username, "bo");
    assert_eq!(u.name, "Bo");
    assert_eq!(u.hashed_password, "HASH");
    assert_eq!(u.status, None);
    assert_eq!(u.bio, None);
}

#[test]
fn one_per_user_policy_evicts_prior_connection() {
    let mut registry = ConnectionRegistry::new(ConnectionPolicy::OnePerUser);
    let a = registry.register(8).unwrap();
    assert_eq!(a.evicted, None);
    let other = registry.register(9).unwrap();
    let b = registry.register(8).unwrap();
    assert_eq!(b.evicted, Some(a.connection));
    assert_eq!(registry.user_of(a.connection), None);
    assert_eq!(registry.user_of(b.connection), Some(8));
    assert_eq!(registry.user_of(other.connection), Some(9));
    assert!(registry.disconnect(b.connection));
    let c = registry.register(8).unwrap();
    assert_eq!(c.evicted, None);
}

#[test]
fn multiple_per_user_policy_never_evicts() {
    let mut registry = ConnectionRegistry::new(ConnectionPolicy::MultiplePerUser);
    let a = registry.register(8).unwrap();
    let b = registry.register(8).unwrap();
    assert_eq!(b.evicted, None);
    assert_eq!(registry.user_of(a.connection), Some(8));
    assert_eq!(registry.user_of(b.connection), Some(8));
}
