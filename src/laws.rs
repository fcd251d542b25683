use vstd::prelude::*;

use crate::policy::{budget_ms, RetryPolicy};
use crate::supervisor::{step, Action, Event, Fault, Supervisor, SupervisorState};

verus! {

/// The supervisor after a sequence of events, with the actions it asked for, in order.
pub open spec fn run(s: Supervisor, events: Seq<Event>) -> (Supervisor, Seq<Action>)
    decreases events.len(),
{
    if events.len() == 0 {
        (s, Seq::empty())
    } else {
        let (s1, a) = step(s, events[0]);
        let (s2, rest) = run(s1, events.drop_first());
        (s2, seq![a] + rest)
    }
}

/// How many times `a` occurs in `acts`.
pub open spec fn count(acts: Seq<Action>, a: Action) -> nat
    decreases acts.len(),
{
    if acts.len() == 0 {
        0
    } else {
        (if acts[0] == a { 1nat } else { 0nat }) + count(acts.drop_first(), a)
    }
}

/// Milliseconds of waiting that one action asks for.
pub open spec fn sleep_of(a: Action) -> int {
    match a {
        Action::Sleep(ms) => ms as int,
        _ => 0,
    }
}

/// Milliseconds of waiting that `acts` asks for.
pub open spec fn slept_ms(acts: Seq<Action>) -> int
    decreases acts.len(),
{
    if acts.len() == 0 {
        0
    } else {
        sleep_of(acts[0]) + slept_ms(acts.drop_first())
    }
}

pub open spec fn is_reveal(a: Action) -> bool {
    a is Reveal
}

pub open spec fn reveals(acts: Seq<Action>) -> nat
    decreases acts.len(),
{
    if acts.len() == 0 {
        0
    } else {
        (if is_reveal(acts[0]) { 1nat } else { 0nat }) + reveals(acts.drop_first())
    }
}

pub open spec fn after_shutdown(st: SupervisorState) -> bool {
    st == SupervisorState::ShuttingDown || st == SupervisorState::Terminated
}

proof fn lemma_run_unfold(s: Supervisor, events: Seq<Event>)
    requires
        events.len() > 0,
    ensures
        run(s, events).1 == seq![step(s, events[0]).1] + run(step(s, events[0]).0, events.drop_first()).1,
        run(s, events).1.drop_first() == run(step(s, events[0]).0, events.drop_first()).1,
        run(s, events).1[0] == step(s, events[0]).1,
{
    let rest = run(step(s, events[0]).0, events.drop_first()).1;
    assert((seq![step(s, events[0]).1] + rest).drop_first() =~= rest);
}

/// Every step keeps the supervisor well formed.
pub proof fn lemma_step_keeps_wf(s: Supervisor, e: Event)
    requires
        s.wf(),
    ensures
        step(s, e).0.wf(),
        step(s, e).0.policy == s.policy,
{
}

/// Once shutdown has begun the supervisor never leaves it, and asks for
/// nothing but the final exit.
pub proof fn lemma_shutdown_is_final(s: Supervisor, events: Seq<Event>)
    requires
        after_shutdown(s.state),
    ensures
        after_shutdown(run(s, events).0.state),
        count(run(s, events).1, Action::NotifyShutdown) == 0,
        count(run(s, events).1, Action::Launch) == 0,
        count(run(s, events).1, Action::Connect) == 0,
        count(run(s, events).1, Action::Fatal(Fault::ReadinessTimeout)) == 0,
        reveals(run(s, events).1) == 0,
    decreases events.len(),
{
    if events.len() > 0 {
        lemma_run_unfold(s, events);
        lemma_shutdown_is_final(step(s, events[0]).0, events.drop_first());
    }
}

/// Over any sequence of events the shutdown request is sent at most once,
/// and never again once shutdown has begun.
pub proof fn lemma_shutdown_at_most_once(s: Supervisor, events: Seq<Event>)
    ensures
        count(run(s, events).1, Action::NotifyShutdown) <= 1,
        after_shutdown(s.state) ==> count(run(s, events).1, Action::NotifyShutdown) == 0,
    decreases events.len(),
{
    if events.len() > 0 {
        lemma_run_unfold(s, events);
        let s1 = step(s, events[0]).0;
        if step(s, events[0]).1 == Action::NotifyShutdown {
            lemma_shutdown_is_final(s1, events.drop_first());
        } else {
            lemma_shutdown_at_most_once(s1, events.drop_first());
        }
    }
}

/// Any number (at least one) of close requests delivered to a ready
/// supervisor sends the shutdown request exactly once.
pub proof fn lemma_repeated_close_notifies_once(s: Supervisor, events: Seq<Event>)
    requires
        s.state == SupervisorState::Ready,
        events.len() >= 1,
        forall|i: int| 0 <= i < events.len() ==> events[i] == Event::CloseRequested,
    ensures
        count(run(s, events).1, Action::NotifyShutdown) == 1,
        run(s, events).0.state == SupervisorState::ShuttingDown,
{
    lemma_run_unfold(s, events);
    let s1 = step(s, events[0]).0;
    lemma_shutdown_is_final(s1, events.drop_first());
    lemma_closes_change_nothing(s1, events.drop_first());
}

/// Close requests delivered once shutdown has begun change nothing and ask
/// for nothing.
pub proof fn lemma_closes_change_nothing(s: Supervisor, events: Seq<Event>)
    requires
        after_shutdown(s.state),
        forall|i: int| 0 <= i < events.len() ==> events[i] == Event::CloseRequested,
    ensures
        run(s, events).0 == s,
        forall|i: int| 0 <= i < run(s, events).1.len() ==> run(s, events).1[i] == Action::Nothing,
        run(s, events).1.len() == events.len(),
    decreases events.len(),
{
    if events.len() > 0 {
        lemma_run_unfold(s, events);
        lemma_closes_change_nothing(s, events.drop_first());
    }
}

/// A close request after termination is a no-op: same supervisor, no action.
pub proof fn lemma_close_after_termination(s: Supervisor)
    requires
        s.state == SupervisorState::Terminated,
    ensures
        step(s, Event::CloseRequested) == (s, Action::Nothing),
{
}

/// No connection is attempted before the launch has been reported successful.
pub proof fn lemma_no_probe_before_launch(s: Supervisor, events: Seq<Event>)
    requires
        s.state == SupervisorState::NotStarted || s.state == SupervisorState::Launching,
        forall|i: int| 0 <= i < events.len() ==> events[i] != Event::LaunchSucceeded,
    ensures
        count(run(s, events).1, Action::Connect) == 0,
    decreases events.len(),
{
    if events.len() > 0 {
        lemma_run_unfold(s, events);
        let s1 = step(s, events[0]).0;
        if s1.state == SupervisorState::Terminated {
            lemma_shutdown_is_final(s1, events.drop_first());
        } else {
            lemma_no_probe_before_launch(s1, events.drop_first());
        }
    }
}

/// The main window is never revealed unless a probe has succeeded.
pub proof fn lemma_no_reveal_without_probe_success(s: Supervisor, events: Seq<Event>)
    requires
        forall|i: int| 0 <= i < events.len() ==> events[i] != Event::ProbeSucceeded,
    ensures
        reveals(run(s, events).1) == 0,
    decreases events.len(),
{
    if events.len() > 0 {
        lemma_run_unfold(s, events);
        lemma_no_reveal_without_probe_success(step(s, events[0]).0, events.drop_first());
    }
}

/// Milliseconds that the probe waits have taken so far.
pub open spec fn waited_ms(s: Supervisor) -> int {
    if s.state == SupervisorState::WaitingForReady {
        s.attempts as int * s.policy.interval_ms as int
    } else {
        0
    }
}

pub open spec fn before_ready(st: SupervisorState) -> bool {
    st == SupervisorState::NotStarted || st == SupervisorState::Launching || st
        == SupervisorState::WaitingForReady
}

/// Events from a backend that never answers: `n` failed probes, each
/// followed by the wait before the next one.
pub open spec fn never_reachable(n: nat) -> Seq<Event>
    decreases n,
{
    if n == 0 {
        Seq::empty()
    } else {
        seq![Event::ProbeFailed, Event::SleepElapsed] + never_reachable((n - 1) as nat)
    }
}

/// Running two sequences of events one after the other.
pub proof fn lemma_run_append(s: Supervisor, a: Seq<Event>, b: Seq<Event>)
    ensures
        run(s, a + b).0 == run(run(s, a).0, b).0,
        run(s, a + b).1 == run(s, a).1 + run(run(s, a).0, b).1,
    decreases a.len(),
{
    if a.len() == 0 {
        assert(a + b =~= b);
    } else {
        let s1 = step(s, a[0]).0;
        assert((a + b).drop_first() =~= a.drop_first() + b);
        lemma_run_unfold(s, a + b);
        lemma_run_unfold(s, a);
        lemma_run_append(s1, a.drop_first(), b);
        let x = run(s1, a.drop_first()).1;
        let y = run(run(s1, a.drop_first()).0, b).1;
        assert(seq![step(s, a[0]).1] + (x + y) =~= (seq![step(s, a[0]).1] + x) + y);
    }
}

proof fn lemma_slept_cons(a: Action, rest: Seq<Action>)
    ensures
        slept_ms(seq![a] + rest) == sleep_of(a) + slept_ms(rest),
{
    assert((seq![a] + rest).drop_first() =~= rest);
}

/// The readiness fault is raised only once the whole retry budget has been
/// spent waiting: whenever a run from before readiness ends with it, the
/// waits asked for add up to `max_attempts * interval`.
pub proof fn lemma_timeout_only_after_budget(s: Supervisor, events: Seq<Event>)
    requires
        s.wf(),
        before_ready(s.state),
        run(s, events).1.len() > 0,
        run(s, events).1.last() == Action::Fatal(Fault::ReadinessTimeout),
    ensures
        waited_ms(s) + slept_ms(run(s, events).1) == budget_ms(s.policy),
    decreases events.len(),
{
    lemma_run_unfold(s, events);
    let (s1, a) = step(s, events[0]);
    let rest = events.drop_first();
    let acts = run(s1, rest).1;
    lemma_slept_cons(a, acts);
    assert(run(s, events).1 == seq![a] + acts);
    if acts.len() == 0 {
        assert(run(s, events).1.last() == a);
        assert(slept_ms(acts) == 0);
        if s.state == SupervisorState::Launching {
            assert(s.policy.max_attempts == 0);
            assert(0 * s.policy.interval_ms as int == 0);
        } else {
            assert(s.attempts == s.policy.max_attempts);
        }
    } else {
        assert(run(s, events).1.last() == acts.last());
        if !before_ready(s1.state) {
            assert(after_shutdown(s1.state) || s1.state == SupervisorState::Ready);
            if s1.state == SupervisorState::Ready {
                assert(false) by {
                    lemma_ready_never_times_out(s1, rest);
                    lemma_last_counted(acts, Action::Fatal(Fault::ReadinessTimeout));
                }
            } else {
                assert(false) by {
                    lemma_shutdown_is_final(s1, rest);
                    lemma_last_counted(acts, Action::Fatal(Fault::ReadinessTimeout));
                }
            }
        } else {
            lemma_step_keeps_wf(s, events[0]);
            lemma_timeout_only_after_budget(s1, rest);
            assert(waited_ms(s1) == waited_ms(s) + sleep_of(a)) by {
                let i = s.policy.interval_ms as int;
                if events[0] == Event::ProbeFailed && s.state == SupervisorState::WaitingForReady
                    && !s.sleeping {
                    assert(s1.attempts as int == s.attempts as int + 1);
                    assert((s.attempts as int + 1) * i == s.attempts as int * i + i)
                        by (nonlinear_arith);
                } else if events[0] == Event::LaunchSucceeded && s.state
                    == SupervisorState::Launching {
                    assert(s1.attempts == 0);
                    assert(0 * i == 0);
                }
            }
        }
    }
}

proof fn lemma_last_counted(acts: Seq<Action>, a: Action)
    requires
        acts.len() > 0,
        acts.last() == a,
    ensures
        count(acts, a) >= 1,
    decreases acts.len(),
{
    if acts.len() > 1 {
        assert(acts.drop_first().last() == acts.last());
        lemma_last_counted(acts.drop_first(), a);
    }
}

/// A ready supervisor never raises the readiness fault.
pub proof fn lemma_ready_never_times_out(s: Supervisor, events: Seq<Event>)
    requires
        s.state == SupervisorState::Ready || after_shutdown(s.state),
    ensures
        count(run(s, events).1, Action::Fatal(Fault::ReadinessTimeout)) == 0,
    decreases events.len(),
{
    if events.len() > 0 {
        lemma_run_unfold(s, events);
        lemma_ready_never_times_out(step(s, events[0]).0, events.drop_first());
    }
}

proof fn lemma_never_reachable_events(n: nat)
    ensures
        forall|i: int|
            0 <= i < never_reachable(n).len() ==> (#[trigger] never_reachable(n)[i]
                == Event::ProbeFailed || never_reachable(n)[i] == Event::SleepElapsed),
    decreases n,
{
    if n > 0 {
        lemma_never_reachable_events((n - 1) as nat);
        let head = seq![Event::ProbeFailed, Event::SleepElapsed];
        let tail = never_reachable((n - 1) as nat);
        assert forall|i: int| 0 <= i < never_reachable(n).len() implies (#[trigger] never_reachable(
            n,
        )[i] == Event::ProbeFailed || never_reachable(n)[i] == Event::SleepElapsed) by {
            if i >= 2 {
                assert(never_reachable(n)[i] == tail[i - 2]);
            }
        }
    }
}

proof fn lemma_failures_time_out(s: Supervisor, k: nat)
    requires
        s.wf(),
        s.state == SupervisorState::WaitingForReady,
        !s.sleeping,
        k >= 1,
        s.attempts + k == s.policy.max_attempts,
    ensures
        run(s, never_reachable(k)).1.len() > 0,
        run(s, never_reachable(k)).1.last() == Action::Fatal(Fault::ReadinessTimeout),
        run(s, never_reachable(k)).0.state == SupervisorState::Terminated,
    decreases k,
{
    let head = seq![Event::ProbeFailed, Event::SleepElapsed];
    let tail = never_reachable((k - 1) as nat);
    lemma_run_append(s, head, tail);
    lemma_run_unfold(s, head);
    let s1 = step(s, Event::ProbeFailed).0;
    assert(head.drop_first() =~= seq![Event::SleepElapsed]);
    lemma_run_unfold(s1, head.drop_first());
    assert(head.drop_first().drop_first() =~= Seq::<Event>::empty());
    let s2 = step(s1, Event::SleepElapsed).0;
    assert(run(s, head).0 == s2);
    let first = run(s, head).1;
    assert(first.len() == 2);
    if k == 1 {
        assert(first[1] == Action::Fatal(Fault::ReadinessTimeout));
        assert(tail =~= Seq::<Event>::empty());
        assert(run(s, never_reachable(k)).1 =~= first);
    } else {
        lemma_failures_time_out(s2, (k - 1) as nat);
        let later = run(s2, tail).1;
        assert(run(s, never_reachable(k)).1.last() == later.last());
    }
}

/// A backend that never answers: whatever the retry budget, the main window is
/// never revealed, and the run ends with the readiness fault after waits that
/// add up to exactly `max_attempts * interval`.
pub proof fn lemma_unreachable_backend_times_out(policy: RetryPolicy, has_loading_surface: bool)
    ensures
        ({
            let s = Supervisor {
                policy,
                has_loading_surface,
                state: SupervisorState::NotStarted,
                attempts: 0,
                sleeping: false,
            };
            let events = seq![Event::AppStarted, Event::LaunchSucceeded] + never_reachable(
                policy.max_attempts as nat,
            );
            &&& run(s, events).1.len() > 0
            &&& run(s, events).1.last() == Action::Fatal(Fault::ReadinessTimeout)
            &&& run(s, events).0.state == SupervisorState::Terminated
            &&& reveals(run(s, events).1) == 0
            &&& slept_ms(run(s, events).1) == budget_ms(policy)
        }),
{
    let s = Supervisor {
        policy,
        has_loading_surface,
        state: SupervisorState::NotStarted,
        attempts: 0,
        sleeping: false,
    };
    let head = seq![Event::AppStarted, Event::LaunchSucceeded];
    let tail = never_reachable(policy.max_attempts as nat);
    let events = head + tail;
    lemma_run_append(s, head, tail);
    lemma_run_unfold(s, head);
    let s1 = step(s, Event::AppStarted).0;
    assert(head.drop_first() =~= seq![Event::LaunchSucceeded]);
    lemma_run_unfold(s1, head.drop_first());
    assert(head.drop_first().drop_first() =~= Seq::<Event>::empty());
    let s2 = step(s1, Event::LaunchSucceeded).0;
    let first = run(s, head).1;
    assert(first.len() == 2);
    if policy.max_attempts == 0 {
        assert(tail =~= Seq::<Event>::empty());
        assert(run(s, events).1 =~= first);
        assert(first[1] == Action::Fatal(Fault::ReadinessTimeout));
        assert(run(s2, tail).0 == s2);
    } else {
        lemma_failures_time_out(s2, policy.max_attempts as nat);
        assert(run(s, events).1.last() == run(s2, tail).1.last());
    }
    lemma_never_reachable_events(policy.max_attempts as nat);
    assert forall|i: int| 0 <= i < events.len() implies events[i] != Event::ProbeSucceeded by {
        if i >= 2 {
            assert(events[i] == tail[i - 2]);
        }
    }
    lemma_no_reveal_without_probe_success(s, events);
    lemma_timeout_only_after_budget(s, events);
}

/// Once the supervisor has left `NotStarted` it never returns there and never
/// asks for another launch.
pub proof fn lemma_no_launch_after_start(s: Supervisor, events: Seq<Event>)
    requires
        s.state != SupervisorState::NotStarted,
    ensures
        run(s, events).0.state != SupervisorState::NotStarted,
        count(run(s, events).1, Action::Launch) == 0,
    decreases events.len(),
{
    if events.len() > 0 {
        lemma_run_unfold(s, events);
        lemma_no_launch_after_start(step(s, events[0]).0, events.drop_first());
    }
}

/// Over any sequence of events the backend is launched at most once.
pub proof fn lemma_launch_at_most_once(s: Supervisor, events: Seq<Event>)
    ensures
        count(run(s, events).1, Action::Launch) <= 1,
    decreases events.len(),
{
    if events.len() > 0 {
        lemma_run_unfold(s, events);
        let s1 = step(s, events[0]).0;
        if step(s, events[0]).1 == Action::Launch {
            lemma_no_launch_after_start(s1, events.drop_first());
        } else {
            lemma_launch_at_most_once(s1, events.drop_first());
        }
    }
}

} // verus!
