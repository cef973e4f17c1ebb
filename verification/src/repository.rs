//! Looking up the most recent authentication of a session in a repository.
//!
//! The repository itself is somebody else's: it is opened, asked and
//! cancelled by whoever drives the lookup. What is decided here is the order
//! of these steps. The driver reports what happened as an event and is told
//! what to do next, until it is told what to return.

use crate::browser_sessions::{Authentication, BrowserSession};
use vstd::prelude::*;

verus! {

/// Why the repository could not answer.
#[derive(Clone, Copy, Debug, PartialEq, Eq)]
pub enum RepositoryError {
    /// The repository does not know the session.
    NotFound,
    /// The repository could not be reached, or failed while working.
    Unavailable,
    /// The driver reported something that it had not been asked for.
    OutOfOrder,
}

/// What a lookup ends with: the most recent authentication of the session,
/// nothing if the session never recorded one, or the reason why the
/// repository could not tell.
pub type Outcome = Result<Option<Authentication>, RepositoryError>;

/// What the driver reports.
#[derive(Clone, Copy, Debug, PartialEq, Eq)]
pub enum RepositoryEvent {
    /// A lookup is asked for.
    Start,
    /// The repository was opened; a unit of work is now in progress.
    Opened,
    /// The repository answered the question.
    Found { last: Option<Authentication> },
    /// The unit of work was cancelled.
    Cancelled,
    /// What was asked for last has failed.
    Failed { error: RepositoryError },
}

/// What the driver is told to do next.
#[derive(Clone, Copy, Debug, PartialEq, Eq)]
pub enum RepositoryAction {
    /// Open the repository.
    Open,
    /// Ask for the most recent authentication of the session.
    Query { session: u128 },
    /// Cancel the unit of work.
    Cancel,
    /// Hand the outcome to the caller. Nothing is left to do.
    Return { outcome: Outcome },
}

/// How far a lookup has come.
#[derive(Clone, Copy, Debug, PartialEq, Eq)]
pub enum LookupState {
    /// Nothing has happened yet.
    Idle,
    /// The repository is being opened.
    Opening,
    /// The repository is open and has been asked.
    Querying,
    /// The unit of work is being cancelled; `outcome` waits to be returned.
    Cancelling { outcome: Outcome },
    /// The outcome has been returned.
    Done,
}

/// The decision: from the state of a lookup and what the driver reports to
/// the next state and what the driver is to do.
///
/// Once the repository is open, nothing is returned before the unit of work
/// has been cancelled, whether the question was answered or not. If both the
/// question and the cancelling fail, the first failure is the one returned.
pub open spec fn step(session: u128, state: LookupState, event: RepositoryEvent) -> (
    LookupState,
    RepositoryAction,
) {
    match (state, event) {
        (LookupState::Idle, RepositoryEvent::Start) => (
            LookupState::Opening,
            RepositoryAction::Open,
        ),
        (LookupState::Opening, RepositoryEvent::Opened) => (
            LookupState::Querying,
            RepositoryAction::Query { session },
        ),
        (LookupState::Opening, RepositoryEvent::Failed { error }) => (
            LookupState::Done,
            RepositoryAction::Return { outcome: Err(error) },
        ),
        (LookupState::Querying, RepositoryEvent::Found { last }) => (
            LookupState::Cancelling { outcome: Ok(last) },
            RepositoryAction::Cancel,
        ),
        (LookupState::Querying, RepositoryEvent::Failed { error }) => (
            LookupState::Cancelling { outcome: Err(error) },
            RepositoryAction::Cancel,
        ),
        (LookupState::Querying, _) => (
            LookupState::Cancelling { outcome: Err(RepositoryError::OutOfOrder) },
            RepositoryAction::Cancel,
        ),
        (LookupState::Cancelling { outcome }, RepositoryEvent::Cancelled) => (
            LookupState::Done,
            RepositoryAction::Return { outcome },
        ),
        (LookupState::Cancelling { outcome: Ok(_) }, RepositoryEvent::Failed { error }) => (
            LookupState::Done,
            RepositoryAction::Return { outcome: Err(error) },
        ),
        (LookupState::Cancelling { outcome: Err(first) }, _) => (
            LookupState::Done,
            RepositoryAction::Return { outcome: Err(first) },
        ),
        _ => (
            LookupState::Done,
            RepositoryAction::Return { outcome: Err(RepositoryError::OutOfOrder) },
        ),
    }
}

/// The state that a lookup reaches from the start, and what the driver was
/// told on the way, when it reports `events` one after the other.
pub open spec fn run(session: u128, events: Seq<RepositoryEvent>) -> (
    LookupState,
    Seq<RepositoryAction>,
)
    decreases events.len(),
{
    if events.len() == 0 {
        (LookupState::Idle, Seq::empty())
    } else {
        let before = run(session, events.drop_last());
        let next = step(session, before.0, events.last());
        (next.0, before.1.push(next.1))
    }
}

/// Whether a unit of work is in progress after the driver has done what it
/// was told: it begins with the question and ends when it is cancelled.
pub open spec fn in_progress(actions: Seq<RepositoryAction>) -> bool
    decreases actions.len(),
{
    if actions.len() == 0 {
        false
    } else {
        match actions.last() {
            RepositoryAction::Query { .. } => true,
            RepositoryAction::Cancel => false,
            _ => in_progress(actions.drop_last()),
        }
    }
}

impl BrowserSession {
    /// The most recent authentication of this session: one step of looking
    /// it up. A lookup starts in `LookupState::Idle` with the event
    /// `RepositoryEvent::Start`, and is over when the action is
    /// `RepositoryAction::Return`.
    pub fn last_authentication(&self, state: LookupState, event: RepositoryEvent) -> (next: (
        LookupState,
        RepositoryAction,
    ))
        ensures
            next == step(self.id, state, event),
    {
        match state {
            LookupState::Idle => match event {
                RepositoryEvent::Start => (LookupState::Opening, RepositoryAction::Open),
                _ => out_of_order(),
            },
            LookupState::Opening => match event {
                RepositoryEvent::Opened => (
                    LookupState::Querying,
                    RepositoryAction::Query { session: self.id },
                ),
                RepositoryEvent::Failed { error } => (
                    LookupState::Done,
                    RepositoryAction::Return { outcome: Err(error) },
                ),
                _ => out_of_order(),
            },
            LookupState::Querying => {
                let outcome = match event {
                    RepositoryEvent::Found { last } => Ok(last),
                    RepositoryEvent::Failed { error } => Err(error),
                    _ => Err(RepositoryError::OutOfOrder),
                };
                (LookupState::Cancelling { outcome }, RepositoryAction::Cancel)
            },
            LookupState::Cancelling { outcome } => {
                let outcome = match (outcome, event) {
                    (outcome, RepositoryEvent::Cancelled) => outcome,
                    (Ok(_), RepositoryEvent::Failed { error }) => Err(error),
                    (Ok(_), _) => Err(RepositoryError::OutOfOrder),
                    (Err(first), _) => Err(first),
                };
                (LookupState::Done, RepositoryAction::Return { outcome })
            },
            LookupState::Done => out_of_order(),
        }
    }
}

fn out_of_order() -> (next: (LookupState, RepositoryAction))
    ensures
        next == (
            LookupState::Done,
            RepositoryAction::Return { outcome: Err(RepositoryError::OutOfOrder) },
        ),
{
    (LookupState::Done, RepositoryAction::Return { outcome: Err(RepositoryError::OutOfOrder) })
}

/// Every event is answered by one action. A unit of work is in progress
/// exactly while the lookup waits for the answer to its question, so
/// whenever an outcome is returned, none is left open.
pub proof fn lemma_returns_with_nothing_open(session: u128, events: Seq<RepositoryEvent>)
    ensures
        run(session, events).1.len() == events.len(),
        in_progress(run(session, events).1) <==> run(session, events).0 is Querying,
        events.len() > 0 && run(session, events).1.last() is Return ==> !in_progress(
            run(session, events).1,
        ) && run(session, events).0 is Done,
    decreases events.len(),
{
    if events.len() > 0 {
        lemma_returns_with_nothing_open(session, events.drop_last());
        let before = run(session, events.drop_last());
        let next = step(session, before.0, events.last());
        assert(before.1.push(next.1).drop_last() =~= before.1);
    }
}

/// An authentication is never made up: what a lookup returns as found is
/// what the repository reported as found.
pub proof fn lemma_returns_what_was_found(
    session: u128,
    events: Seq<RepositoryEvent>,
    found: Option<Authentication>,
)
    requires
        events.len() > 0,
        run(session, events).1.last() == (RepositoryAction::Return { outcome: Ok(found) }),
    ensures
        events.contains(RepositoryEvent::Found { last: found }),
{
    let earlier = events.drop_last();
    let before = run(session, earlier);
    lemma_waits_with_what_was_found(session, earlier, found);
    let i = choose|i: int| 0 <= i < earlier.len() && earlier[i] == (RepositoryEvent::Found {
        last: found,
    });
    assert(events[i] == earlier[i]);
}

proof fn lemma_waits_with_what_was_found(
    session: u128,
    events: Seq<RepositoryEvent>,
    found: Option<Authentication>,
)
    requires
        run(session, events).0 == (LookupState::Cancelling { outcome: Ok(found) }),
    ensures
        events.contains(RepositoryEvent::Found { last: found }),
{
    assert(events.len() > 0);
    assert(events.last() == (RepositoryEvent::Found { last: found }));
    assert(events[events.len() - 1] == events.last());
}

/// When all goes well a lookup opens the repository, asks, cancels, and
/// returns what was found.
pub proof fn lemma_lookup_succeeds(session: u128, found: Option<Authentication>)
    ensures
        run(
            session,
            seq![
                RepositoryEvent::Start,
                RepositoryEvent::Opened,
                RepositoryEvent::Found { last: found },
                RepositoryEvent::Cancelled,
            ],
        ) == (
            LookupState::Done,
            seq![
                RepositoryAction::Open,
                RepositoryAction::Query { session },
                RepositoryAction::Cancel,
                RepositoryAction::Return { outcome: Ok(found) },
            ],
        ),
{
    let events = seq![
        RepositoryEvent::Start,
        RepositoryEvent::Opened,
        RepositoryEvent::Found { last: found },
        RepositoryEvent::Cancelled,
    ];
    let three = events.drop_last();
    let two = three.drop_last();
    let one = two.drop_last();
    assert(one.drop_last() =~= Seq::<RepositoryEvent>::empty());
    assert(run(session, one.drop_last()).0 is Idle);
    assert(run(session, one).0 is Opening);
    assert(run(session, two).0 is Querying);
    assert(run(session, three).0 == (LookupState::Cancelling { outcome: Ok(found) }));
    assert(run(session, events).1 =~= seq![
        RepositoryAction::Open,
        RepositoryAction::Query { session },
        RepositoryAction::Cancel,
        RepositoryAction::Return { outcome: Ok(found) },
    ]);
}

} // verus!
