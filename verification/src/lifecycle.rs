//! The life of one server run, as a state machine that its host drives:
//! the host performs each action and hands back what happened.

use vstd::prelude::*;

verus! {

/// Where a run stands.
#[derive(Debug, Clone, Copy, PartialEq, Eq, Structural)]
pub enum Phase {
    /// Not started.
    Idle,
    /// The transport is being opened.
    Opening,
    /// Requests are served.
    Serving,
    /// The run is over and its completion was signalled.
    Finished,
}

/// What the host reports.
#[derive(Debug, Clone, Copy, PartialEq, Eq, Structural)]
pub enum Event {
    /// The host asks for the server to start.
    Start,
    /// The transport is open.
    Opened,
    /// The transport could not be opened.
    OpenFailed,
    /// The transport was closed by the other side.
    Closed,
    /// The serving loop ended abnormally.
    Aborted,
    /// The host asks for the server to stop.
    Shutdown,
}

/// How a run ended.
#[derive(Debug, Clone, Copy, PartialEq, Eq, Structural)]
pub enum Completion {
    CleanShutdown,
    StartupFailed,
    AbnormalTermination,
}

/// What the host is to do next.
#[derive(Debug, Clone, Copy, PartialEq, Eq, Structural)]
pub enum Action {
    /// Nothing: the event changes nothing.
    Ignore,
    /// Open the transport.
    OpenTransport,
    /// Serve requests until the transport closes.
    Serve,
    /// Stop whatever is running and signal the completion of the run.
    Complete(Completion),
}

/// The phase and the action that follow an event.
pub open spec fn next(phase: Phase, event: Event) -> (Phase, Action) {
    match (phase, event) {
        (Phase::Idle, Event::Start) => (Phase::Opening, Action::OpenTransport),
        (Phase::Opening, Event::Opened) => (Phase::Serving, Action::Serve),
        (Phase::Opening, Event::OpenFailed) => (
            Phase::Finished,
            Action::Complete(Completion::StartupFailed),
        ),
        (Phase::Opening, Event::Shutdown) => (
            Phase::Finished,
            Action::Complete(Completion::CleanShutdown),
        ),
        (Phase::Serving, Event::Closed) => (
            Phase::Finished,
            Action::Complete(Completion::CleanShutdown),
        ),
        (Phase::Serving, Event::Aborted) => (
            Phase::Finished,
            Action::Complete(Completion::AbnormalTermination),
        ),
        (Phase::Serving, Event::Shutdown) => (
            Phase::Finished,
            Action::Complete(Completion::CleanShutdown),
        ),
        _ => (phase, Action::Ignore),
    }
}

/// The phase after a sequence of events.
pub open spec fn run(phase: Phase, events: Seq<Event>) -> Phase
    decreases events.len(),
{
    if events.len() == 0 {
        phase
    } else {
        next(run(phase, events.drop_last()), events.last()).0
    }
}

/// The number of completions signalled along a sequence of events.
pub open spec fn completions(phase: Phase, events: Seq<Event>) -> nat
    decreases events.len(),
{
    if events.len() == 0 {
        0
    } else {
        let before = completions(phase, events.drop_last());
        if next(run(phase, events.drop_last()), events.last()).1 is Complete {
            before + 1
        } else {
            before
        }
    }
}

/// Whatever the host reports, and in whatever order, a run that has not
/// finished has signalled no completion, and a run that has finished has
/// signalled exactly one.
pub proof fn completes_exactly_once(events: Seq<Event>)
    ensures
        completions(Phase::Idle, events) == (if run(Phase::Idle, events) is Finished {
            1nat
        } else {
            0nat
        }),
    decreases events.len(),
{
    if events.len() > 0 {
        completes_exactly_once(events.drop_last());
    }
}

/// A finished run stays finished and asks for nothing more: a second request
/// to stop, or any late report, changes neither the phase nor the outcome.
pub proof fn finished_is_final(event: Event)
    ensures
        next(Phase::Finished, event) == (Phase::Finished, Action::Ignore),
{
}

/// A request to stop, at any time after the start and before the end, ends
/// the run with a clean shutdown.
pub proof fn shutdown_completes(phase: Phase)
    requires
        phase is Opening || phase is Serving,
    ensures
        next(phase, Event::Shutdown) == (
            Phase::Finished,
            Action::Complete(Completion::CleanShutdown),
        ),
{
}

/// Once started, a run never stands at its beginning again.
pub proof fn started_run_is_past_idle(between: Seq<Event>)
    ensures
        !(run(Phase::Idle, seq![Event::Start] + between) is Idle),
    decreases between.len(),
{
    let events = seq![Event::Start] + between;
    if between.len() == 0 {
        assert(events.drop_last() =~= Seq::<Event>::empty());
        assert(run(Phase::Idle, events.drop_last()) == Phase::Idle);
    } else {
        assert(events.drop_last() =~= seq![Event::Start] + between.drop_last());
        started_run_is_past_idle(between.drop_last());
    }
}

/// A start followed, after whatever else happens, by a request to stop ends
/// the run, with exactly one completion signalled.
pub proof fn stop_after_start_completes_once(between: Seq<Event>)
    ensures
        run(Phase::Idle, seq![Event::Start] + between + seq![Event::Shutdown]) is Finished,
        completions(Phase::Idle, seq![Event::Start] + between + seq![Event::Shutdown]) == 1,
{
    let events = seq![Event::Start] + between + seq![Event::Shutdown];
    assert(events.drop_last() =~= seq![Event::Start] + between);
    started_run_is_past_idle(between);
    completes_exactly_once(events);
}

impl Completion {
    /// The text of the error, where the run did not end cleanly.
    pub open spec fn spec_error_message(&self) -> Option<Seq<char>> {
        match self {
            Completion::CleanShutdown => None,
            Completion::StartupFailed => Some(
                "Failed to start RMCP server with stdio transport"@,
            ),
            Completion::AbnormalTermination => Some(
                "Server terminated unexpectedly while waiting"@,
            ),
        }
    }

    /// The text of the error, where the run did not end cleanly.
    pub fn error_message(&self) -> (r: Option<String>)
        ensures
            match r {
                Some(s) => self.spec_error_message() == Some(s@),
                None => self.spec_error_message() is None,
            },
    {
        match self {
            Completion::CleanShutdown => None,
            Completion::StartupFailed => Some(
                String::from_str("Failed to start RMCP server with stdio transport"),
            ),
            Completion::AbnormalTermination => Some(
                String::from_str("Server terminated unexpectedly while waiting"),
            ),
        }
    }
}

/// One server run.
#[derive(Debug, Clone, Copy, PartialEq, Eq, Structural)]
pub struct Bridge {
    pub phase: Phase,
}

impl Bridge {
    /// A run that has not started.
    pub fn new() -> (b: Bridge)
        ensures
            b.phase == Phase::Idle,
    {
        Bridge { phase: Phase::Idle }
    }

    /// Takes an event, moves to the next phase and says what to do.
    pub fn step(&mut self, event: Event) -> (action: Action)
        ensures
            (final(self).phase, action) == next(old(self).phase, event),
    {
        let (phase, action) = match (self.phase, event) {
            (Phase::Idle, Event::Start) => (Phase::Opening, Action::OpenTransport),
            (Phase::Opening, Event::Opened) => (Phase::Serving, Action::Serve),
            (Phase::Opening, Event::OpenFailed) => (
                Phase::Finished,
                Action::Complete(Completion::StartupFailed),
            ),
            (Phase::Opening, Event::Shutdown) | (Phase::Serving, Event::Shutdown) | (
                Phase::Serving,
                Event::Closed,
            ) => (Phase::Finished, Action::Complete(Completion::CleanShutdown)),
            (Phase::Serving, Event::Aborted) => (
                Phase::Finished,
                Action::Complete(Completion::AbnormalTermination),
            ),
            (phase, _) => (phase, Action::Ignore),
        };
        self.phase = phase;
        action
    }

    /// Whether the run is over.
    pub fn is_finished(&self) -> (b: bool)
        ensures
            b == (self.phase is Finished),
    {
        match self.phase {
            Phase::Finished => true,
            _ => false,
        }
    }
}

} // verus!
