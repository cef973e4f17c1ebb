use mas_router::browser_sessions::{
    is_fresh, most_recent, Authentication, BrowserSession, FinishError, FreshnessPolicy,
    SessionState, Timestamp, User,
};
use mas_router::endpoints::PostAuthAction;

fn at(micros: i64) -> Timestamp {
    Timestamp { micros }
}

fn alice() -> User {
    User { id: 11, username: "alice".to_owned() }
}

fn session(created: i64) -> BrowserSession {
    BrowserSession::new(1, alice(), at(created), Some("Mozilla/5.0".to_owned()))
}

fn authentication(id: u128, created: i64) -> Authentication {
    Authentication { id, created_at: at(created) }
}

#[test]
fn new_session_is_active() {
    let s = session(100);
    assert_eq!(s.state(), SessionState::Active);
    assert_eq!(s.id(), 1);
    assert_eq!(s.user(), &alice());
    assert_eq!(s.created_at(), at(100));
    assert_eq!(s.finished_at(), None);
    assert_eq!(s.user_agent(), Some("Mozilla/5.0"));
    assert_eq!(s.last_active_ip(), None);
    assert_eq!(s.last_active_at(), None);
}

#[test]
fn getters_hand_out_the_fields() {
    let s = BrowserSession {
        id: 9,
        user: alice(),
        created_at: at(5),
        finished_at: Some(at(8)),
        user_agent: None,
        last_active_ip: Some("192.0.2.7".to_owned()),
        last_active_at: Some(at(7)),
    };
    assert_eq!(s.id(), 9);
    assert_eq!(s.finished_at(), Some(at(8)));
    assert_eq!(s.state(), SessionState::Finished);
    assert_eq!(s.user_agent(), None);
    assert_eq!(s.last_active_ip(), Some("192.0.2.7".to_owned()));
    assert_eq!(s.last_active_at(), Some(at(7)));
    let a = authentication(3, 6);
    assert_eq!(a.id(), 3);
    assert_eq!(a.created_at(), at(6));
}

#[test]
fn finishing_flips_the_state() {
    let mut s = session(100);
    assert_eq!(s.finish(at(250)), Ok(()));
    assert_eq!(s.state(), SessionState::Finished);
    assert_eq!(s.finished_at(), Some(at(250)));
}

#[test]
fn finishing_at_the_moment_of_creation_is_allowed() {
    let mut s = session(100);
    assert_eq!(s.finish(at(100)), Ok(()));
    assert_eq!(s.state(), SessionState::Finished);
}

#[test]
fn finishing_before_creation_is_refused() {
    let mut s = session(100);
    assert_eq!(s.finish(at(99)), Err(FinishError::BeforeCreation));
    assert_eq!(s.state(), SessionState::Active);
    assert_eq!(s, session(100));
}

#[test]
fn finished_session_stays_finished() {
    let mut s = session(100);
    assert_eq!(s.finish(at(250)), Ok(()));
    let finished = s.clone();
    for later in [0, 99, 100, 250, 251, i64::MAX] {
        assert_eq!(s.finish(at(later)), Err(FinishError::AlreadyFinished));
        assert_eq!(s, finished);
        assert_eq!(s.state(), SessionState::Finished);
    }
}

#[test]
fn fresh_within_the_window() {
    let t = 1_700_000_000_000_000;
    let max_age: u64 = 300_000_000;
    let a = authentication(1, t);
    assert!(a.is_fresh(at(t), max_age));
    assert!(a.is_fresh(at(t + 1), max_age));
    assert!(a.is_fresh(at(t + 300_000_000 - 1), max_age));
    assert!(a.is_fresh(at(t + 300_000_000), max_age));
    assert!(!a.is_fresh(at(t + 300_000_000 + 1), max_age));
    assert!(!a.is_fresh(at(i64::MAX), max_age));
}

#[test]
fn fresh_with_zero_max_age_only_at_the_moment() {
    let a = authentication(1, 50);
    assert!(a.is_fresh(at(50), 0));
    assert!(!a.is_fresh(at(51), 0));
}

#[test]
fn fresh_when_the_clock_is_behind() {
    let a = authentication(1, 50);
    assert!(a.is_fresh(at(49), 0));
    assert!(a.is_fresh(at(i64::MIN), 0));
}

#[test]
fn freshness_does_not_overflow() {
    let a = authentication(1, i64::MIN);
    assert!(a.is_fresh(at(i64::MAX), u64::MAX));
    assert!(!a.is_fresh(at(i64::MAX), u64::MAX - 1));
    assert!(a.is_fresh(at(i64::MAX - 1), u64::MAX - 1));
}

#[test]
fn session_without_authentication_is_never_fresh() {
    assert!(!is_fresh(None, at(0), 0));
    assert!(!is_fresh(None, at(0), u64::MAX));
    assert!(!is_fresh(None, at(i64::MIN), u64::MAX));
}

#[test]
fn session_is_as_fresh_as_its_last_authentication() {
    let a = authentication(1, 1_000);
    assert!(is_fresh(Some(&a), at(1_500), 500));
    assert!(!is_fresh(Some(&a), at(1_501), 500));
}

#[test]
fn most_recent_of_none() {
    assert_eq!(most_recent(&[]), None);
}

#[test]
fn most_recent_picks_the_latest() {
    let events = [authentication(1, 10), authentication(2, 30), authentication(3, 20)];
    assert_eq!(most_recent(&events), Some(authentication(2, 30)));
    assert_eq!(most_recent(&events[..1]), Some(authentication(1, 10)));
}

#[test]
fn most_recent_of_equal_times_is_the_last_listed() {
    let events = [authentication(1, 30), authentication(2, 30), authentication(3, 20)];
    assert_eq!(most_recent(&events), Some(authentication(2, 30)));
}

#[test]
fn policy_has_one_age_per_action() {
    let policy = FreshnessPolicy { grant_max_age: 100, account_max_age: 10 };
    assert_eq!(policy.max_age_for(&PostAuthAction::ContinueAuthorizationGrant { data: 1 }), 100);
    assert_eq!(policy.max_age_for(&PostAuthAction::ChangePassword), 10);
}

#[test]
fn policy_lets_fresh_sessions_pass() {
    let policy = FreshnessPolicy { grant_max_age: 100, account_max_age: 10 };
    let a = authentication(1, 1_000);
    assert!(policy.reauth_if_stale(Some(&a), at(1_010), PostAuthAction::ChangePassword).is_none());
    assert!(policy
        .reauth_if_stale(Some(&a), at(1_100), PostAuthAction::ContinueAuthorizationGrant { data: 4 })
        .is_none());
}

#[test]
fn policy_sends_stale_sessions_to_reauth() {
    let policy = FreshnessPolicy { grant_max_age: 100, account_max_age: 10 };
    let a = authentication(1, 1_000);
    let change = PostAuthAction::ChangePassword;
    let grant = PostAuthAction::ContinueAuthorizationGrant { data: 4 };
    let detour = policy.reauth_if_stale(Some(&a), at(1_011), change).unwrap();
    assert_eq!(detour.post_auth_action(), Some(&change));
    let detour = policy.reauth_if_stale(Some(&a), at(1_101), grant).unwrap();
    assert_eq!(detour.post_auth_action(), Some(&grant));
    let detour = policy.reauth_if_stale(None, at(0), grant).unwrap();
    assert_eq!(detour.post_auth_action(), Some(&grant));
}
