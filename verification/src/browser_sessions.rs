//! Browser sessions, the authentications recorded in them, and the rule that
//! decides whether a session must authenticate again.

use crate::endpoints::{PostAuthAction, Reauth};
use vstd::prelude::*;

verus! {

/// A point in time, in microseconds since the Unix epoch.
#[derive(Clone, Copy, Debug, PartialEq, Eq, Structural)]
pub struct Timestamp {
    pub micros: i64,
}

/// Whether a session can still be used.
#[derive(Clone, Copy, Debug, PartialEq, Eq, Structural)]
pub enum SessionState {
    /// The session has not been finished.
    Active,
    /// The session was finished, and stays so.
    Finished,
}

/// The user who owns a session.
#[derive(Clone, Debug, PartialEq, Eq)]
pub struct User {
    pub id: u128,
    pub username: String,
}

/// An authentication records when a user entered their credentials in a
/// browser session.
#[derive(Clone, Copy, Debug, PartialEq, Eq, Structural)]
pub struct Authentication {
    pub id: u128,
    pub created_at: Timestamp,
}

/// A browser session represents a logged in user in a browser.
#[derive(Clone, Debug, PartialEq, Eq)]
pub struct BrowserSession {
    pub id: u128,
    pub user: User,
    pub created_at: Timestamp,
    pub finished_at: Option<Timestamp>,
    pub user_agent: Option<String>,
    pub last_active_ip: Option<String>,
    pub last_active_at: Option<Timestamp>,
}

/// Why a session could not be finished.
#[derive(Clone, Copy, Debug, PartialEq, Eq, Structural)]
pub enum FinishError {
    /// The session was finished before; its end stays what it was.
    AlreadyFinished,
    /// The given time lies before the session was created.
    BeforeCreation,
}

impl Authentication {
    /// How long ago the credentials were entered, in microseconds. Negative
    /// if `now` lies before the authentication.
    pub open spec fn age_at(self, now: Timestamp) -> int {
        now.micros - self.created_at.micros
    }

    /// An authentication is fresh as long as its age does not exceed
    /// `max_age` microseconds.
    pub open spec fn is_fresh_spec(self, now: Timestamp, max_age: u64) -> bool {
        self.age_at(now) <= max_age
    }

    /// ID of the object.
    pub fn id(&self) -> (id: u128)
        ensures
            id == self.id,
    {
        self.id
    }

    /// When the object was created.
    pub fn created_at(&self) -> (at: Timestamp)
        ensures
            at == self.created_at,
    {
        self.created_at
    }

    /// Whether the credentials were entered at most `max_age` microseconds
    /// before `now`.
    pub fn is_fresh(&self, now: Timestamp, max_age: u64) -> (fresh: bool)
        ensures
            fresh == self.is_fresh_spec(now, max_age),
    {
        let age: i128 = now.micros as i128 - self.created_at.micros as i128;
        age <= max_age as i128
    }
}

/// `events[i]` is the most recent authentication among `events`: none is
/// later, and of several at the same time it is the last in the list.
pub open spec fn is_most_recent(events: Seq<Authentication>, i: int) -> bool {
    &&& 0 <= i < events.len()
    &&& forall|j: int|
        0 <= j < events.len() ==> (#[trigger] events[j]).created_at.micros
            <= events[i].created_at.micros
    &&& forall|j: int|
        i < j < events.len() ==> (#[trigger] events[j]).created_at.micros
            < events[i].created_at.micros
}

/// A session is fresh if its most recent authentication is. A session that
/// never recorded one is never fresh.
pub open spec fn is_fresh_spec(
    last_authentication: Option<Authentication>,
    now: Timestamp,
    max_age: u64,
) -> bool {
    match last_authentication {
        Some(authentication) => authentication.is_fresh_spec(now, max_age),
        None => false,
    }
}

/// The most recent of the authentications of a session, if it has any.
pub fn most_recent(events: &[Authentication]) -> (last: Option<Authentication>)
    ensures
        last is None <==> events@.len() == 0,
        last matches Some(authentication) ==> exists|i: int|
            is_most_recent(events@, i) && events@[i] == authentication,
{
    let n = events.len();
    if n == 0 {
        return None;
    }
    let mut best: usize = 0;
    let mut i: usize = 1;
    while i < n
        invariant
            n == events@.len(),
            1 <= i <= n,
            is_most_recent(events@.take(i as int), best as int),
        decreases n - i,
    {
        let ghost seen = events@.take(i as int);
        let ghost next = events@.take(i + 1);
        if events[i].created_at.micros >= events[best].created_at.micros {
            proof {
                assert forall|j: int| 0 <= j < next.len() implies (#[trigger] next[j]).created_at.micros
                    <= next[i as int].created_at.micros by {
                    if j < i {
                        assert(seen[j] == next[j]);
                    }
                }
            }
            best = i;
        } else {
            proof {
                assert forall|j: int| 0 <= j < next.len() implies (#[trigger] next[j]).created_at.micros
                    <= next[best as int].created_at.micros by {
                    if j < i {
                        assert(seen[j] == next[j]);
                    }
                }
                assert forall|j: int| best < j < next.len() implies (#[trigger] next[j]).created_at.micros
                    < next[best as int].created_at.micros by {
                    if j < i {
                        assert(seen[j] == next[j]);
                    }
                }
            }
        }
        i = i + 1;
    }
    proof {
        assert(events@.take(n as int) =~= events@);
    }
    Some(events[best])
}

/// Whether a session whose most recent authentication is
/// `last_authentication` may go on without authenticating again.
pub fn is_fresh(last_authentication: Option<&Authentication>, now: Timestamp, max_age: u64) -> (fresh:
    bool)
    ensures
        fresh == is_fresh_spec(
            match last_authentication {
                Some(authentication) => Some(*authentication),
                None => None,
            },
            now,
            max_age,
        ),
{
    match last_authentication {
        Some(authentication) => authentication.is_fresh(now, max_age),
        None => false,
    }
}

/// How old the most recent authentication may be, in microseconds, for each
/// kind of action that asks for a fresh session.
#[derive(Clone, Copy, Debug, PartialEq, Eq, Structural)]
pub struct FreshnessPolicy {
    /// For going on with an authorization grant.
    pub grant_max_age: u64,
    /// For changes to the account, such as a new password.
    pub account_max_age: u64,
}

impl FreshnessPolicy {
    /// The maximum age that applies before `action`.
    pub open spec fn max_age_spec(self, action: PostAuthAction) -> u64 {
        match action {
            PostAuthAction::ContinueAuthorizationGrant { .. } => self.grant_max_age,
            PostAuthAction::ChangePassword => self.account_max_age,
        }
    }

    /// The maximum age that applies before `action`.
    pub fn max_age_for(&self, action: &PostAuthAction) -> (max_age: u64)
        ensures
            max_age == self.max_age_spec(*action),
    {
        match action {
            PostAuthAction::ContinueAuthorizationGrant { .. } => self.grant_max_age,
            PostAuthAction::ChangePassword => self.account_max_age,
        }
    }

    /// Decides whether `action` may proceed. If the session is fresh enough
    /// for it there is nothing to do. If not, the user has to authenticate
    /// again, and `action` is carried along to be resumed afterwards.
    pub fn reauth_if_stale(
        &self,
        last_authentication: Option<&Authentication>,
        now: Timestamp,
        action: PostAuthAction,
    ) -> (detour: Option<Reauth>)
        ensures
            detour is None <==> is_fresh_spec(
                match last_authentication {
                    Some(authentication) => Some(*authentication),
                    None => None,
                },
                now,
                self.max_age_spec(action),
            ),
            detour matches Some(reauth) ==> reauth@ == Some(action),
    {
        if is_fresh(last_authentication, now, self.max_age_for(&action)) {
            None
        } else {
            Some(Reauth::and_then(action))
        }
    }
}

impl BrowserSession {
    /// The end of a session never lies before its creation.
    pub open spec fn well_formed(self) -> bool {
        self.finished_at matches Some(end) ==> self.created_at.micros <= end.micros
    }

    /// A session is active until it is finished.
    pub open spec fn state_spec(self) -> SessionState {
        if self.finished_at is Some {
            SessionState::Finished
        } else {
            SessionState::Active
        }
    }

    /// The session after an attempt to finish it at `at`: an active session
    /// ends at `at`, unless `at` lies before its creation; a finished one
    /// stays as it is.
    pub open spec fn after_finish(self, at: Timestamp) -> BrowserSession {
        if self.finished_at is None && self.created_at.micros <= at.micros {
            BrowserSession { finished_at: Some(at), ..self }
        } else {
            self
        }
    }

    /// The session after several attempts to finish it, one after the other.
    pub open spec fn after_finishes(self, attempts: Seq<Timestamp>) -> BrowserSession
        decreases attempts.len(),
    {
        if attempts.len() == 0 {
            self
        } else {
            self.after_finishes(attempts.drop_last()).after_finish(attempts.last())
        }
    }

    /// A session as it is right after a successful login.
    pub fn new(id: u128, user: User, created_at: Timestamp, user_agent: Option<String>) -> (session:
        Self)
        ensures
            session == (BrowserSession {
                id,
                user,
                created_at,
                finished_at: None,
                user_agent,
                last_active_ip: None,
                last_active_at: None,
            }),
            session.well_formed(),
            session.state_spec() == SessionState::Active,
    {
        BrowserSession {
            id,
            user,
            created_at,
            finished_at: None,
            user_agent,
            last_active_ip: None,
            last_active_at: None,
        }
    }

    /// Finishes the session at `at`, as a logout does. This is the only
    /// change of state that a session knows, and it happens at most once.
    pub fn finish(&mut self, at: Timestamp) -> (result: Result<(), FinishError>)
        ensures
            *final(self) == old(self).after_finish(at),
            old(self).well_formed() ==> final(self).well_formed(),
            result is Ok <==> old(self).finished_at is None && old(self).created_at.micros
                <= at.micros,
            result is Ok ==> final(self).state_spec() == SessionState::Finished && final(self).finished_at == Some(at),
            result == Err::<(), FinishError>(FinishError::AlreadyFinished) <==> old(self).finished_at is Some,
            result == Err::<(), FinishError>(FinishError::BeforeCreation) <==> old(self).finished_at is None && at.micros < old(self).created_at.micros,
    {
        if self.finished_at.is_some() {
            Err(FinishError::AlreadyFinished)
        } else if at.micros < self.created_at.micros {
            Err(FinishError::BeforeCreation)
        } else {
            self.finished_at = Some(at);
            Ok(())
        }
    }

    /// ID of the object.
    pub fn id(&self) -> (id: u128)
        ensures
            id == self.id,
    {
        self.id
    }

    /// The user logged in this session.
    pub fn user(&self) -> (user: &User)
        ensures
            *user == self.user,
    {
        &self.user
    }

    /// When the object was created.
    pub fn created_at(&self) -> (at: Timestamp)
        ensures
            at == self.created_at,
    {
        self.created_at
    }

    /// When the session was finished.
    pub fn finished_at(&self) -> (at: Option<Timestamp>)
        ensures
            at == self.finished_at,
    {
        self.finished_at
    }

    /// The state of the session.
    pub fn state(&self) -> (state: SessionState)
        ensures
            state == self.state_spec(),
    {
        if self.finished_at.is_some() {
            SessionState::Finished
        } else {
            SessionState::Active
        }
    }

    /// The user-agent string with which the session was created.
    pub fn user_agent(&self) -> (agent: Option<&str>)
        ensures
            agent is Some == self.user_agent is Some,
            agent matches Some(text) ==> text@ == self.user_agent->0@,
    {
        match &self.user_agent {
            Some(agent) => Some(agent.as_str()),
            None => None,
        }
    }

    /// The last IP address used by the session.
    pub fn last_active_ip(&self) -> (ip: Option<String>)
        ensures
            ip == self.last_active_ip,
    {
        self.last_active_ip.clone()
    }

    /// The last time the session was active.
    pub fn last_active_at(&self) -> (at: Option<Timestamp>)
        ensures
            at == self.last_active_at,
    {
        self.last_active_at
    }
}

/// An authentication is fresh at the moment it is made and for `max_age`
/// microseconds after it, and at no later time.
pub proof fn lemma_freshness_window(authentication: Authentication, now: Timestamp, max_age: u64)
    ensures
        authentication.is_fresh_spec(authentication.created_at, max_age),
        now.micros <= authentication.created_at.micros + max_age ==> authentication.is_fresh_spec(
            now,
            max_age,
        ),
        now.micros > authentication.created_at.micros + max_age ==> !authentication.is_fresh_spec(
            now,
            max_age,
        ),
{
}

/// Freshness only gets lost as time goes by: what is fresh now was fresh at
/// every earlier time.
pub proof fn lemma_freshness_monotonic(
    last_authentication: Option<Authentication>,
    earlier: Timestamp,
    later: Timestamp,
    max_age: u64,
)
    requires
        earlier.micros <= later.micros,
        is_fresh_spec(last_authentication, later, max_age),
    ensures
        is_fresh_spec(last_authentication, earlier, max_age),
{
}

/// A session without an end is active. Finishing it at any time that is not
/// before its creation makes it finished, with that time as its end.
pub proof fn lemma_finish_active(session: BrowserSession, at: Timestamp)
    requires
        session.finished_at is None,
        session.created_at.micros <= at.micros,
    ensures
        session.state_spec() == SessionState::Active,
        session.after_finish(at).state_spec() == SessionState::Finished,
        session.after_finish(at).finished_at == Some(at),
        session.after_finish(at).well_formed(),
{
}

/// A finished session is finished for good: whatever is attempted later, it
/// stays exactly as it is.
pub proof fn lemma_finished_is_final(session: BrowserSession, attempts: Seq<Timestamp>)
    requires
        session.state_spec() == SessionState::Finished,
    ensures
        session.after_finishes(attempts) == session,
    decreases attempts.len(),
{
    if attempts.len() > 0 {
        lemma_finished_is_final(session, attempts.drop_last());
    }
}

} // verus!
