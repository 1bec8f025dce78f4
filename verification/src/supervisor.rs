//! The connection supervisor: the decisions that keep the wireless link up.
//!
//! The supervisor owns no hardware. It names the next thing to do with the
//! wireless controller, its driver does it and reports what came of it, and
//! the supervisor answers with the thing to do after that. One cycle is:
//!
//! 1. ask whether the controller is started, and start it if it is not;
//! 2. read the link state, and while it is connected wait for the event that
//!    says the link has dropped;
//! 3. ask whether the controller is connected, and connect if it is not;
//! 4. wait for the tick, and begin again.
//!
//! A failed start or connect is reported and left for the next cycle. There
//! is no last cycle.

use vstd::prelude::*;

verus! {

/// Milliseconds between two cycles.
pub const POLL_INTERVAL_MS: u64 = 5000;

/// What the driver is asked to do.
#[derive(Clone, Copy, Debug, PartialEq, Eq, Structural)]
pub enum Action {
    /// Ask the controller whether it is started.
    QueryStarted,
    /// Start the controller.
    Start,
    /// Read the link state.
    QueryLink,
    /// Wait until the link is reported as dropped.
    AwaitDisconnect,
    /// Ask the controller whether it is connected.
    QueryConnected,
    /// Connect to the configured network.
    Connect,
    /// Wait for the next tick.
    AwaitTick,
}

/// What the controller said to a question.
#[derive(Clone, Copy, Debug, PartialEq, Eq, Structural)]
pub enum Answer {
    Yes,
    No,
    /// The question itself failed.
    Failed,
}

/// What came of an action.
#[derive(Clone, Copy, Debug, PartialEq, Eq, Structural)]
pub enum Outcome {
    /// The controller said whether it is started.
    Started(Answer),
    /// The start returned; `ok` says whether it succeeded.
    StartDone { ok: bool },
    /// The link state was read; `connected` says whether it is connected.
    Link { connected: bool },
    /// The link dropped.
    Disconnected,
    /// The controller said whether it is connected.
    Connected(Answer),
    /// The connect returned; `ok` says whether it succeeded.
    ConnectDone { ok: bool },
    /// The tick came.
    Tick,
}

/// Something worth a line in the log.
#[derive(Clone, Copy, Debug, PartialEq, Eq, Structural)]
pub enum Notice {
    Started,
    StartFailed,
    Disconnected,
    Connected,
    ConnectFailed,
}

/// The supervisor's reply to an outcome.
#[derive(Clone, Copy, Debug, PartialEq, Eq)]
pub struct Step {
    /// What to do next.
    pub action: Action,
    /// What to log about the outcome, if anything.
    pub notice: Option<Notice>,
}

/// An outcome was reported that does not belong to the action that was
/// asked for.
#[derive(Clone, Copy, Debug, PartialEq, Eq, Structural)]
pub struct Mismatch {
    /// The action whose outcome is still owed.
    pub pending: Action,
}

/// Whether `outcome` is what the action `pending` can come to.
pub open spec fn answers(pending: Action, outcome: Outcome) -> bool {
    match pending {
        Action::QueryStarted => outcome is Started,
        Action::Start => outcome is StartDone,
        Action::QueryLink => outcome is Link,
        Action::AwaitDisconnect => outcome is Disconnected,
        Action::QueryConnected => outcome is Connected,
        Action::Connect => outcome is ConnectDone,
        Action::AwaitTick => outcome is Tick,
    }
}

/// The action that follows `pending` once it came to `outcome`.
pub open spec fn next_action(pending: Action, outcome: Outcome) -> Action {
    match pending {
        Action::QueryStarted => if outcome == Outcome::Started(Answer::No) {
            Action::Start
        } else {
            Action::QueryLink
        },
        Action::Start => Action::QueryLink,
        Action::QueryLink => if outcome == (Outcome::Link { connected: true }) {
            Action::AwaitDisconnect
        } else {
            Action::QueryConnected
        },
        Action::AwaitDisconnect => Action::QueryConnected,
        Action::QueryConnected => if outcome == Outcome::Connected(Answer::No) {
            Action::Connect
        } else {
            Action::AwaitTick
        },
        Action::Connect => Action::AwaitTick,
        Action::AwaitTick => Action::QueryStarted,
    }
}

/// What is logged about `outcome`.
pub open spec fn notice_of(outcome: Outcome) -> Option<Notice> {
    match outcome {
        Outcome::StartDone { ok } => Some(if ok { Notice::Started } else { Notice::StartFailed }),
        Outcome::Disconnected => Some(Notice::Disconnected),
        Outcome::ConnectDone { ok } => Some(
            if ok { Notice::Connected } else { Notice::ConnectFailed },
        ),
        _ => None,
    }
}

/// The decisions of one supervisor. Its view is the action whose outcome it
/// waits for.
#[derive(Clone, Copy, Debug)]
pub struct Supervisor {
    pending: Action,
}

impl View for Supervisor {
    type V = Action;

    closed spec fn view(&self) -> Action {
        self.pending
    }
}

impl Supervisor {
    /// A supervisor at the head of its first cycle.
    pub fn new() -> (supervisor: Supervisor)
        ensures
            supervisor@ == Action::QueryStarted,
    {
        Supervisor { pending: Action::QueryStarted }
    }

    /// The action whose outcome the supervisor waits for.
    pub fn pending(&self) -> (action: Action)
        ensures
            action == self@,
    {
        self.pending
    }

    /// Takes the outcome of the pending action and names the next one. An
    /// outcome of another action is refused and changes nothing.
    pub fn advance(&mut self, outcome: Outcome) -> (reply: Result<Step, Mismatch>)
        ensures
            answers(old(self)@, outcome) ==> final(self)@ == next_action(old(self)@, outcome)
                && reply == Ok::<Step, Mismatch>(
                Step { action: next_action(old(self)@, outcome), notice: notice_of(outcome) },
            ),
            !answers(old(self)@, outcome) ==> final(self)@ == old(self)@ && reply == Err::<
                Step,
                Mismatch,
            >(Mismatch { pending: old(self)@ }),
    {
        let pending = self.pending;
        let step = match (pending, outcome) {
            (Action::QueryStarted, Outcome::Started(Answer::No)) => Step {
                action: Action::Start,
                notice: None,
            },
            (Action::QueryStarted, Outcome::Started(_)) => Step {
                action: Action::QueryLink,
                notice: None,
            },
            (Action::Start, Outcome::StartDone { ok }) => Step {
                action: Action::QueryLink,
                notice: Some(if ok { Notice::Started } else { Notice::StartFailed }),
            },
            (Action::QueryLink, Outcome::Link { connected: true }) => Step {
                action: Action::AwaitDisconnect,
                notice: None,
            },
            (Action::QueryLink, Outcome::Link { connected: false }) => Step {
                action: Action::QueryConnected,
                notice: None,
            },
            (Action::AwaitDisconnect, Outcome::Disconnected) => Step {
                action: Action::QueryConnected,
                notice: Some(Notice::Disconnected),
            },
            (Action::QueryConnected, Outcome::Connected(Answer::No)) => Step {
                action: Action::Connect,
                notice: None,
            },
            (Action::QueryConnected, Outcome::Connected(_)) => Step {
                action: Action::AwaitTick,
                notice: None,
            },
            (Action::Connect, Outcome::ConnectDone { ok }) => Step {
                action: Action::AwaitTick,
                notice: Some(if ok { Notice::Connected } else { Notice::ConnectFailed }),
            },
            (Action::AwaitTick, Outcome::Tick) => Step { action: Action::QueryStarted, notice: None },
            _ => { return Err(Mismatch { pending }); },
        };
        self.pending = step.action;
        Ok(step)
    }
}

/// The action pending after the outcomes of `reports` were handed, one by
/// one, to a new supervisor. A refused outcome changes nothing.
pub open spec fn pending_after(reports: Seq<Outcome>) -> Action
    decreases reports.len(),
{
    if reports.len() == 0 {
        Action::QueryStarted
    } else {
        let before = pending_after(reports.drop_last());
        if answers(before, reports.last()) {
            next_action(before, reports.last())
        } else {
            before
        }
    }
}

/// Whether the last of `reports` was accepted by the supervisor that had
/// taken all the others.
pub open spec fn last_accepted(reports: Seq<Outcome>) -> bool {
    reports.len() > 0 && answers(pending_after(reports.drop_last()), reports.last())
}

/// What the supervisor believes of the link after `reports`: what the last
/// accepted reading of the link state said, and down once a drop was
/// reported. A new supervisor believes the link down.
pub open spec fn link_believed_up(reports: Seq<Outcome>) -> bool
    decreases reports.len(),
{
    if reports.len() == 0 {
        false
    } else if !last_accepted(reports) {
        link_believed_up(reports.drop_last())
    } else {
        match reports.last() {
            Outcome::Link { connected } => connected,
            Outcome::Disconnected => false,
            _ => link_believed_up(reports.drop_last()),
        }
    }
}

/// How many times the supervisor asked for `action` in reply to `reports`.
pub open spec fn times_asked(reports: Seq<Outcome>, action: Action) -> nat
    decreases reports.len(),
{
    if reports.len() == 0 {
        0
    } else {
        let earlier = times_asked(reports.drop_last(), action);
        if last_accepted(reports) && pending_after(reports) == action {
            earlier + 1
        } else {
            earlier
        }
    }
}

/// How many ticks the supervisor waited for and got in `reports`.
pub open spec fn ticks(reports: Seq<Outcome>) -> nat
    decreases reports.len(),
{
    if reports.len() == 0 {
        0
    } else {
        let earlier = ticks(reports.drop_last());
        if last_accepted(reports) && reports.last() is Tick {
            earlier + 1
        } else {
            earlier
        }
    }
}

/// Whether the controller of `reports` never got started: whenever it said
/// whether it is started, it said no.
pub open spec fn never_started(reports: Seq<Outcome>) -> bool {
    forall|i: int|
        0 <= i < reports.len() && reports[i] is Started ==> #[trigger] reports[i]
            == Outcome::Started(Answer::No)
}

/// The supervisor never asks to connect, nor whether the controller is
/// connected, while it believes the link up: a drop is always observed before
/// it is acted on. And it waits for a drop only while it believes the link up.
pub proof fn lemma_no_connect_while_link_up(reports: Seq<Outcome>)
    ensures
        pending_after(reports) == Action::Connect ==> !link_believed_up(reports),
        pending_after(reports) == Action::QueryConnected ==> !link_believed_up(reports),
        pending_after(reports) == Action::AwaitDisconnect ==> link_believed_up(reports),
    decreases reports.len(),
{
    if reports.len() > 0 {
        lemma_no_connect_while_link_up(reports.drop_last());
    }
}

/// With a controller that never gets started the supervisor asks for a start
/// once in every cycle: when a tick has just come, as many starts were asked
/// for as ticks came, and in the middle of a cycle one more.
pub proof fn lemma_start_retried_every_tick(reports: Seq<Outcome>)
    requires
        never_started(reports),
    ensures
        pending_after(reports) == Action::QueryStarted ==> times_asked(reports, Action::Start)
            == ticks(reports),
        pending_after(reports) != Action::QueryStarted ==> times_asked(reports, Action::Start)
            == ticks(reports) + 1,
    decreases reports.len(),
{
    if reports.len() > 0 {
        let earlier = reports.drop_last();
        assert forall|i: int| 0 <= i < earlier.len() && earlier[i] is Started implies #[trigger] earlier[i]
            == Outcome::Started(Answer::No) by {
            assert(earlier[i] == reports[i]);
        }
        lemma_start_retried_every_tick(earlier);
        assert(reports.last() == reports[reports.len() - 1]);
    }
}

/// While the supervisor waits for the link to drop it asks for nothing: as
/// long as no drop is among the outcomes handed to it, it goes on waiting.
pub proof fn lemma_quiet_until_drop(reports: Seq<Outcome>, more: Seq<Outcome>, action: Action)
    requires
        pending_after(reports) == Action::AwaitDisconnect,
        forall|i: int| 0 <= i < more.len() ==> !(#[trigger] more[i] is Disconnected),
    ensures
        pending_after(reports + more) == Action::AwaitDisconnect,
        times_asked(reports + more, action) == times_asked(reports, action),
    decreases more.len(),
{
    if more.len() == 0 {
        assert(reports + more == reports);
    } else {
        let fewer = more.drop_last();
        assert forall|i: int| 0 <= i < fewer.len() implies !(#[trigger] fewer[i] is Disconnected) by {
            assert(fewer[i] == more[i]);
        }
        lemma_quiet_until_drop(reports, fewer, action);
        assert((reports + more).drop_last() == reports + fewer);
        assert((reports + more).last() == more[more.len() - 1]);
    }
}

/// The supervisor is never done: whatever it waits for, some outcome is
/// accepted, and its reply names the next action.
pub proof fn lemma_never_done(pending: Action)
    ensures
        exists|outcome: Outcome| answers(pending, outcome),
{
    match pending {
        Action::QueryStarted => assert(answers(pending, Outcome::Started(Answer::Yes))),
        Action::Start => assert(answers(pending, Outcome::StartDone { ok: true })),
        Action::QueryLink => assert(answers(pending, Outcome::Link { connected: true })),
        Action::AwaitDisconnect => assert(answers(pending, Outcome::Disconnected)),
        Action::QueryConnected => assert(answers(pending, Outcome::Connected(Answer::Yes))),
        Action::Connect => assert(answers(pending, Outcome::ConnectDone { ok: true })),
        Action::AwaitTick => assert(answers(pending, Outcome::Tick)),
    }
}

} // verus!
