use backend_supervisor::policy::RetryPolicy;
use backend_supervisor::supervisor::{
    classify_shutdown_status, is_main_surface, Action, Event, Fault, ShutdownOutcome, Supervisor,
    SupervisorState,
};

/// Feeds events in order and returns the actions asked for.
fn drive(s: &mut Supervisor, events: &[Event]) -> Vec<Action> {
    events.iter().map(|e| s.handle(*e)).collect()
}

fn slept(actions: &[Action]) -> u64 {
    actions
        .iter()
        .map(|a| match a {
            Action::Sleep(ms) => *ms,
            _ => 0,
        })
        .sum()
}

fn reveals(actions: &[Action]) -> usize {
    actions.iter().filter(|a| matches!(a, Action::Reveal { .. })).count()
}

fn notifications(actions: &[Action]) -> usize {
    actions.iter().filter(|a| **a == Action::NotifyShutdown).count()
}

fn ready_supervisor() -> Supervisor {
    let mut s = Supervisor::new(RetryPolicy::new(20, 200), true);
    drive(
        &mut s,
        &[Event::AppStarted, Event::LaunchSucceeded, Event::ProbeSucceeded],
    );
    assert_eq!(s.state(), SupervisorState::Ready);
    s
}

#[test]
fn happy_path_ready_on_third_probe() {
    let mut s = Supervisor::new(RetryPolicy::new(20, 200), true);
    let actions = drive(
        &mut s,
        &[
            Event::AppStarted,
            Event::LaunchSucceeded,
            Event::ProbeFailed,
            Event::SleepElapsed,
            Event::ProbeFailed,
            Event::SleepElapsed,
            Event::ProbeSucceeded,
        ],
    );
    assert_eq!(
        actions,
        vec![
            Action::Launch,
            Action::Connect,
            Action::Sleep(200),
            Action::Connect,
            Action::Sleep(200),
            Action::Connect,
            Action::Reveal { hide_loading: true },
        ]
    );
    assert_eq!(s.state(), SupervisorState::Ready);
    assert_eq!(reveals(&actions), 1);
    let waited = slept(&actions);
    assert!(400 <= waited && waited <= 600);
}

#[test]
fn backend_never_starts_times_out() {
    let mut s = Supervisor::new(RetryPolicy::new(5, 100), true);
    let mut events = vec![Event::AppStarted, Event::LaunchSucceeded];
    for _ in 0..5 {
        events.push(Event::ProbeFailed);
        events.push(Event::SleepElapsed);
    }
    let actions = drive(&mut s, &events);
    assert_eq!(actions.last(), Some(&Action::Fatal(Fault::ReadinessTimeout)));
    assert_eq!(slept(&actions), 500);
    assert_eq!(reveals(&actions), 0);
    assert_eq!(s.state(), SupervisorState::Terminated);
    let fatal = actions.iter().filter(|a| matches!(a, Action::Fatal(_))).count();
    assert_eq!(fatal, 1);
}

#[test]
fn timeout_not_raised_before_budget() {
    let mut s = Supervisor::new(RetryPolicy::new(5, 100), false);
    let mut events = vec![Event::AppStarted, Event::LaunchSucceeded];
    for _ in 0..4 {
        events.push(Event::ProbeFailed);
        events.push(Event::SleepElapsed);
    }
    events.push(Event::ProbeFailed);
    let actions = drive(&mut s, &events);
    assert_eq!(actions.last(), Some(&Action::Sleep(100)));
    assert!(!actions.contains(&Action::Fatal(Fault::ReadinessTimeout)));
    assert_eq!(s.state(), SupervisorState::WaitingForReady);
    assert_eq!(s.handle(Event::SleepElapsed), Action::Fatal(Fault::ReadinessTimeout));
}

#[test]
fn double_close_sends_one_shutdown_request() {
    let mut s = ready_supervisor();
    let actions = drive(&mut s, &[Event::CloseRequested, Event::CloseRequested]);
    assert_eq!(actions, vec![Action::NotifyShutdown, Action::Nothing]);
    assert_eq!(notifications(&actions), 1);
    assert_eq!(s.state(), SupervisorState::ShuttingDown);
}

#[test]
fn many_closes_send_one_shutdown_request() {
    let mut s = ready_supervisor();
    let actions = drive(&mut s, &[Event::CloseRequested; 7]);
    assert_eq!(notifications(&actions), 1);
}

#[test]
fn unreachable_shutdown_endpoint_still_terminates() {
    let mut s = ready_supervisor();
    assert_eq!(s.handle(Event::CloseRequested), Action::NotifyShutdown);
    let outcome = classify_shutdown_status(None);
    assert_eq!(outcome, ShutdownOutcome::Unreachable);
    assert_eq!(s.handle(Event::NotifierReturned(outcome)), Action::Exit);
    assert_eq!(s.state(), SupervisorState::Terminated);
}

#[test]
fn rejected_shutdown_request_still_terminates() {
    let mut s = ready_supervisor();
    s.handle(Event::CloseRequested);
    let outcome = classify_shutdown_status(Some(503));
    assert_eq!(outcome, ShutdownOutcome::Unreachable);
    assert_eq!(s.handle(Event::NotifierReturned(outcome)), Action::Exit);
    assert_eq!(s.state(), SupervisorState::Terminated);
}

#[test]
fn close_after_termination_is_noop() {
    let mut s = ready_supervisor();
    s.handle(Event::CloseRequested);
    s.handle(Event::NotifierReturned(ShutdownOutcome::Acknowledged));
    let before = s;
    assert_eq!(s.handle(Event::CloseRequested), Action::Nothing);
    assert_eq!(s, before);
}

#[test]
fn launch_failure_is_fatal() {
    let mut s = Supervisor::new(RetryPolicy::standard(), true);
    let actions = drive(&mut s, &[Event::AppStarted, Event::LaunchFailed]);
    assert_eq!(actions, vec![Action::Launch, Action::Fatal(Fault::LaunchFailed)]);
    assert_eq!(s.state(), SupervisorState::Terminated);
}

#[test]
fn launch_requested_only_once() {
    let mut s = Supervisor::new(RetryPolicy::standard(), true);
    let actions = drive(&mut s, &[Event::AppStarted, Event::AppStarted]);
    assert_eq!(actions, vec![Action::Launch, Action::Nothing]);
}

#[test]
fn no_probe_before_launch_succeeds() {
    let mut s = Supervisor::new(RetryPolicy::standard(), true);
    let actions = drive(
        &mut s,
        &[Event::ProbeSucceeded, Event::AppStarted, Event::ProbeFailed, Event::SleepElapsed],
    );
    assert!(!actions.contains(&Action::Connect));
    assert_eq!(s.state(), SupervisorState::Launching);
    assert_eq!(s.handle(Event::LaunchSucceeded), Action::Connect);
}

#[test]
fn zero_attempt_budget_times_out_at_once() {
    let mut s = Supervisor::new(RetryPolicy::new(0, 200), true);
    let actions = drive(&mut s, &[Event::AppStarted, Event::LaunchSucceeded]);
    assert_eq!(actions, vec![Action::Launch, Action::Fatal(Fault::ReadinessTimeout)]);
}

#[test]
fn close_before_ready_is_ignored() {
    let mut s = Supervisor::new(RetryPolicy::standard(), true);
    drive(&mut s, &[Event::AppStarted, Event::LaunchSucceeded]);
    assert_eq!(s.handle(Event::CloseRequested), Action::Nothing);
    assert_eq!(s.state(), SupervisorState::WaitingForReady);
}

#[test]
fn reveal_without_loading_surface() {
    let mut s = Supervisor::new(RetryPolicy::standard(), false);
    let actions = drive(
        &mut s,
        &[Event::AppStarted, Event::LaunchSucceeded, Event::ProbeSucceeded],
    );
    assert_eq!(actions[2], Action::Reveal { hide_loading: false });
}

#[test]
fn shutdown_status_classification() {
    assert_eq!(classify_shutdown_status(Some(200)), ShutdownOutcome::Acknowledged);
    assert_eq!(classify_shutdown_status(Some(204)), ShutdownOutcome::Acknowledged);
    assert_eq!(classify_shutdown_status(Some(299)), ShutdownOutcome::Acknowledged);
    assert_eq!(classify_shutdown_status(Some(199)), ShutdownOutcome::Unreachable);
    assert_eq!(classify_shutdown_status(Some(300)), ShutdownOutcome::Unreachable);
    assert_eq!(classify_shutdown_status(Some(404)), ShutdownOutcome::Unreachable);
}

#[test]
fn main_window_label() {
    assert!(is_main_surface("main"));
    assert!(!is_main_surface("splashscreen"));
    assert!(!is_main_surface("Main"));
    assert!(!is_main_surface(""));
}
