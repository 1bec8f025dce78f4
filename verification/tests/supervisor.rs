use salfa_gate::supervisor::{
    Action, Answer, Mismatch, Notice, Outcome, Step, Supervisor, POLL_INTERVAL_MS,
};

fn step(action: Action, notice: Option<Notice>) -> Result<Step, Mismatch> {
    Ok(Step { action, notice })
}

/// Hands `outcomes` to `supervisor` and counts how often it asks for `wanted`.
fn count_asked(supervisor: &mut Supervisor, outcomes: &[Outcome], wanted: Action) -> usize {
    let mut asked = 0;
    for outcome in outcomes {
        let reply = supervisor.advance(*outcome).expect("every outcome answers its action");
        if reply.action == wanted {
            asked += 1;
        }
    }
    asked
}

#[test]
fn poll_interval_is_five_seconds() {
    assert_eq!(POLL_INTERVAL_MS, 5000);
}

#[test]
fn new_supervisor_asks_whether_started() {
    let supervisor = Supervisor::new();
    assert_eq!(supervisor.pending(), Action::QueryStarted);
}

#[test]
fn first_start_and_connect_succeed_then_quiet_until_drop() {
    let mut supervisor = Supervisor::new();
    // First cycle: start and connect, both at the first attempt.
    assert_eq!(supervisor.advance(Outcome::Started(Answer::No)), step(Action::Start, None));
    assert_eq!(
        supervisor.advance(Outcome::StartDone { ok: true }),
        step(Action::QueryLink, Some(Notice::Started))
    );
    assert_eq!(
        supervisor.advance(Outcome::Link { connected: false }),
        step(Action::QueryConnected, None)
    );
    assert_eq!(supervisor.advance(Outcome::Connected(Answer::No)), step(Action::Connect, None));
    // Connected before the first tick was waited for.
    assert_eq!(
        supervisor.advance(Outcome::ConnectDone { ok: true }),
        step(Action::AwaitTick, Some(Notice::Connected))
    );
    assert_eq!(supervisor.advance(Outcome::Tick), step(Action::QueryStarted, None));
    // Second cycle: nothing to start, the link is up, so wait for a drop.
    assert_eq!(supervisor.advance(Outcome::Started(Answer::Yes)), step(Action::QueryLink, None));
    assert_eq!(
        supervisor.advance(Outcome::Link { connected: true }),
        step(Action::AwaitDisconnect, None)
    );
    // Until the drop is reported nothing else is taken, and nothing is asked.
    for other in [
        Outcome::Tick,
        Outcome::Started(Answer::No),
        Outcome::StartDone { ok: true },
        Outcome::Link { connected: false },
        Outcome::Connected(Answer::No),
        Outcome::ConnectDone { ok: false },
    ] {
        assert_eq!(
            supervisor.advance(other),
            Err(Mismatch { pending: Action::AwaitDisconnect })
        );
        assert_eq!(supervisor.pending(), Action::AwaitDisconnect);
    }
    // The drop is observed, and only then is a reconnect considered.
    assert_eq!(
        supervisor.advance(Outcome::Disconnected),
        step(Action::QueryConnected, Some(Notice::Disconnected))
    );
    assert_eq!(supervisor.advance(Outcome::Connected(Answer::No)), step(Action::Connect, None));
    assert_eq!(
        supervisor.advance(Outcome::ConnectDone { ok: false }),
        step(Action::AwaitTick, Some(Notice::ConnectFailed))
    );
}

#[test]
fn failing_start_is_retried_once_per_tick() {
    let cycle = [
        Outcome::Started(Answer::No),
        Outcome::StartDone { ok: false },
        Outcome::Link { connected: false },
        Outcome::Connected(Answer::No),
        Outcome::ConnectDone { ok: false },
        Outcome::Tick,
    ];
    let mut supervisor = Supervisor::new();
    let mut starts = 0;
    for tick in 1..=25 {
        starts += count_asked(&mut supervisor, &cycle, Action::Start);
        assert_eq!(starts, tick);
        assert_eq!(supervisor.pending(), Action::QueryStarted);
    }
}

#[test]
fn failed_start_is_reported_and_the_cycle_goes_on() {
    let mut supervisor = Supervisor::new();
    assert_eq!(supervisor.advance(Outcome::Started(Answer::No)), step(Action::Start, None));
    assert_eq!(
        supervisor.advance(Outcome::StartDone { ok: false }),
        step(Action::QueryLink, Some(Notice::StartFailed))
    );
}

#[test]
fn no_start_when_started_or_when_the_question_failed() {
    for answer in [Answer::Yes, Answer::Failed] {
        let mut supervisor = Supervisor::new();
        assert_eq!(supervisor.advance(Outcome::Started(answer)), step(Action::QueryLink, None));
    }
}

#[test]
fn no_connect_when_connected_or_when_the_question_failed() {
    for answer in [Answer::Yes, Answer::Failed] {
        let mut supervisor = Supervisor::new();
        supervisor.advance(Outcome::Started(Answer::Yes)).unwrap();
        supervisor.advance(Outcome::Link { connected: false }).unwrap();
        assert_eq!(supervisor.advance(Outcome::Connected(answer)), step(Action::AwaitTick, None));
    }
}

#[test]
fn connect_is_never_asked_while_the_link_is_read_as_up() {
    let mut supervisor = Supervisor::new();
    supervisor.advance(Outcome::Started(Answer::Yes)).unwrap();
    let reply = supervisor.advance(Outcome::Link { connected: true }).unwrap();
    assert_eq!(reply.action, Action::AwaitDisconnect);
    assert_eq!(
        supervisor.advance(Outcome::Connected(Answer::No)),
        Err(Mismatch { pending: Action::AwaitDisconnect })
    );
    assert_ne!(supervisor.pending(), Action::Connect);
}

#[test]
fn outcome_of_another_action_changes_nothing() {
    let mut supervisor = Supervisor::new();
    assert_eq!(
        supervisor.advance(Outcome::Tick),
        Err(Mismatch { pending: Action::QueryStarted })
    );
    assert_eq!(
        supervisor.advance(Outcome::ConnectDone { ok: true }),
        Err(Mismatch { pending: Action::QueryStarted })
    );
    assert_eq!(supervisor.pending(), Action::QueryStarted);
    supervisor.advance(Outcome::Started(Answer::No)).unwrap();
    assert_eq!(
        supervisor.advance(Outcome::Started(Answer::No)),
        Err(Mismatch { pending: Action::Start })
    );
    assert_eq!(supervisor.pending(), Action::Start);
}
