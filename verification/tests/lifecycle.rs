use greet_mcp::lifecycle::{Action, Bridge, Completion, Event, Phase};

fn drive(events: &[Event]) -> (Bridge, Vec<Action>) {
    let mut bridge = Bridge::new();
    let mut actions = Vec::new();
    for e in events {
        actions.push(bridge.step(*e));
    }
    (bridge, actions)
}

fn count_completions(actions: &[Action]) -> usize {
    actions.iter().filter(|a| matches!(a, Action::Complete(_))).count()
}

#[test]
fn a_clean_run() {
    let (bridge, actions) = drive(&[Event::Start, Event::Opened, Event::Closed]);
    assert_eq!(
        actions,
        vec![Action::OpenTransport, Action::Serve, Action::Complete(Completion::CleanShutdown)]
    );
    assert!(bridge.is_finished());
    assert_eq!(Completion::CleanShutdown.error_message(), None);
}

#[test]
fn a_failed_start() {
    let (bridge, actions) = drive(&[Event::Start, Event::OpenFailed]);
    assert_eq!(actions, vec![Action::OpenTransport, Action::Complete(Completion::StartupFailed)]);
    assert_eq!(bridge.phase, Phase::Finished);
    assert_eq!(
        Completion::StartupFailed.error_message(),
        Some("Failed to start RMCP server with stdio transport".to_string())
    );
}

#[test]
fn an_abnormal_end() {
    let (_, actions) = drive(&[Event::Start, Event::Opened, Event::Aborted]);
    assert_eq!(actions[2], Action::Complete(Completion::AbnormalTermination));
    assert_eq!(
        Completion::AbnormalTermination.error_message(),
        Some("Server terminated unexpectedly while waiting".to_string())
    );
}

#[test]
fn start_then_shutdown_completes_once() {
    let (bridge, actions) = drive(&[Event::Start, Event::Shutdown, Event::Shutdown]);
    assert_eq!(
        actions,
        vec![Action::OpenTransport, Action::Complete(Completion::CleanShutdown), Action::Ignore]
    );
    assert!(bridge.is_finished());
    let (_, actions) =
        drive(&[Event::Start, Event::Opened, Event::Shutdown, Event::Shutdown, Event::Closed]);
    assert_eq!(count_completions(&actions), 1);
    assert_eq!(actions[2], Action::Complete(Completion::CleanShutdown));
    assert_eq!(actions[3], Action::Ignore);
    assert_eq!(actions[4], Action::Ignore);
}

#[test]
fn nothing_completes_before_the_start() {
    let (bridge, actions) =
        drive(&[Event::Shutdown, Event::Closed, Event::Opened, Event::OpenFailed, Event::Aborted]);
    assert_eq!(count_completions(&actions), 0);
    assert_eq!(bridge.phase, Phase::Idle);
    assert!(!bridge.is_finished());
}

#[test]
fn every_sequence_of_four_events_completes_at_most_once() {
    let all = [
        Event::Start,
        Event::Opened,
        Event::OpenFailed,
        Event::Closed,
        Event::Aborted,
        Event::Shutdown,
    ];
    for a in all {
        for b in all {
            for c in all {
                for d in all {
                    let (bridge, actions) = drive(&[a, b, c, d]);
                    let expected = if bridge.is_finished() { 1 } else { 0 };
                    assert_eq!(count_completions(&actions), expected);
                }
            }
        }
    }
}

#[test]
fn out_of_place_reports_are_ignored() {
    let (bridge, actions) = drive(&[Event::Start, Event::Closed, Event::Start, Event::Aborted]);
    assert_eq!(
        actions,
        vec![Action::OpenTransport, Action::Ignore, Action::Ignore, Action::Ignore]
    );
    assert_eq!(bridge.phase, Phase::Opening);
    let (bridge, actions) = drive(&[Event::Start, Event::Opened, Event::OpenFailed, Event::Opened]);
    assert_eq!(actions[2], Action::Ignore);
    assert_eq!(actions[3], Action::Ignore);
    assert_eq!(bridge.phase, Phase::Serving);
}
