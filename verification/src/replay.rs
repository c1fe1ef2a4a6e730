//! Whole runs of the host: the actions that a sequence of observations
//! draws from a fresh host, and what holds of every such run.

use vstd::prelude::*;
use crate::host::{step_spec, Action, Host, Observation, Phase, Terminal};
use crate::types::StopReason;

verus! {

/// The state that `host` reaches through `observations`, taken in order.
pub open spec fn state_after(host: Host, observations: Seq<Observation>) -> Host
    decreases observations.len(),
{
    if observations.len() == 0 {
        host
    } else {
        step_spec(state_after(host, observations.drop_last()), observations.last()).0
    }
}

/// The actions that `host` answers to `observations`, one for each.
pub open spec fn actions_of(host: Host, observations: Seq<Observation>) -> Seq<Action>
    decreases observations.len(),
{
    if observations.len() == 0 {
        Seq::empty()
    } else {
        actions_of(host, observations.drop_last()).push(
            step_spec(state_after(host, observations.drop_last()), observations.last()).1,
        )
    }
}

/// How many of the actions put a terminal event on the events channel.
pub open spec fn terminal_count(actions: Seq<Action>) -> nat
    decreases actions.len(),
{
    if actions.len() == 0 {
        0
    } else {
        terminal_count(actions.drop_last()) + if actions.last().emitted() is Some {
            1nat
        } else {
            0nat
        }
    }
}

/// Runs a fresh host over the observations and returns its answers, one
/// for each observation. At most one of them emits a terminal event, and
/// one does exactly when the run has reached its end.
pub fn run(observations: &Vec<Observation>) -> (actions: Vec<Action>)
    ensures
        actions@ == actions_of(Host { phase: Phase::Resolving, reload: false }, observations@),
        actions@.len() == observations@.len(),
        terminal_count(actions@) == if state_after(
            Host { phase: Phase::Resolving, reload: false },
            observations@,
        ).phase == Phase::Terminated {
            1nat
        } else {
            0nat
        },
{
    let mut host = Host::new();
    let mut actions: Vec<Action> = Vec::new();
    let ghost start = host;
    let mut i: usize = 0;
    while i < observations.len()
        invariant
            i <= observations@.len(),
            start == (Host { phase: Phase::Resolving, reload: false }),
            host == state_after(start, observations@.take(i as int)),
            actions@ == actions_of(start, observations@.take(i as int)),
            actions@.len() == i,
        decreases observations@.len() - i,
    {
        let action = host.step(observations[i]);
        actions.push(action);
        proof {
            let next = observations@.take(i + 1);
            assert(next.drop_last() == observations@.take(i as int));
            assert(next.last() == observations@[i as int]);
        }
        i += 1;
    }
    proof {
        assert(observations@.take(i as int) == observations@);
        law_single_terminal(observations@);
    }
    actions
}

/// One answer is given for each observation.
pub proof fn lemma_actions_len(host: Host, observations: Seq<Observation>)
    ensures
        actions_of(host, observations).len() == observations.len(),
    decreases observations.len(),
{
    if observations.len() > 0 {
        lemma_actions_len(host, observations.drop_last());
    }
}

/// A prefix of the observations draws a prefix of the actions and passes
/// through the state that the prefix alone reaches.
pub proof fn lemma_prefix(host: Host, observations: Seq<Observation>, n: int)
    requires
        0 <= n <= observations.len(),
    ensures
        actions_of(host, observations.take(n)) == actions_of(host, observations).take(n),
        n < observations.len() ==> actions_of(host, observations)[n] == step_spec(
            state_after(host, observations.take(n)),
            observations[n],
        ).1,
    decreases observations.len(),
{
    lemma_actions_len(host, observations);
    if n == observations.len() {
        assert(observations.take(n) == observations);
        assert(actions_of(host, observations).take(n) == actions_of(host, observations));
    } else {
        let front = observations.drop_last();
        lemma_actions_len(host, front);
        lemma_prefix(host, front, n);
        assert(front.take(n) == observations.take(n));
        assert(actions_of(host, observations).take(n) == actions_of(host, front).take(n));
        if n == front.len() {
            assert(front.take(n) == front);
        } else {
            assert(front[n] == observations[n]);
        }
    }
}

/// A terminated host stays terminated and ignores whatever it is told.
pub proof fn law_terminated_is_final(host: Host, observations: Seq<Observation>)
    requires
        host.phase == Phase::Terminated,
    ensures
        state_after(host, observations) == host,
        forall|i: int|
            0 <= i < observations.len() ==> #[trigger] actions_of(host, observations)[i]
                == Action::Ignore,
    decreases observations.len(),
{
    lemma_actions_len(host, observations);
    if observations.len() > 0 {
        law_terminated_is_final(host, observations.drop_last());
        lemma_actions_len(host, observations.drop_last());
    }
}

/// In every run of a fresh host the events channel sees a terminal event
/// exactly once if the host has terminated and not at all before that.
pub proof fn law_single_terminal(observations: Seq<Observation>)
    ensures
        ({
            let start = Host { phase: Phase::Resolving, reload: false };
            terminal_count(actions_of(start, observations)) == if state_after(
                start,
                observations,
            ).phase == Phase::Terminated {
                1nat
            } else {
                0nat
            }
        }),
    decreases observations.len(),
{
    let start = Host { phase: Phase::Resolving, reload: false };
    if observations.len() > 0 {
        law_single_terminal(observations.drop_last());
        let actions = actions_of(start, observations);
        assert(actions.drop_last() == actions_of(start, observations.drop_last()));
    }
}

/// The terminal event is the last thing that a run does: every answer
/// before it emits nothing and admits the observation, every answer
/// after it is `Ignore`, and no output is admitted from then on.
pub proof fn law_terminal_is_last(observations: Seq<Observation>, i: int)
    requires
        0 <= i < observations.len(),
        actions_of(Host { phase: Phase::Resolving, reload: false }, observations)[i].emitted()
            is Some,
    ensures
        ({
            let start = Host { phase: Phase::Resolving, reload: false };
            let actions = actions_of(start, observations);
            &&& forall|j: int| 0 <= j < i ==> (#[trigger] actions[j]).emitted() is None
            &&& forall|j: int| i < j < observations.len() ==> #[trigger] actions[j] == Action::Ignore
            &&& forall|n: int|
                i < n <= observations.len() ==> !(#[trigger] state_after(
                    start,
                    observations.take(n),
                )).admits_output()
        }),
{
    let start = Host { phase: Phase::Resolving, reload: false };
    let actions = actions_of(start, observations);
    lemma_actions_len(start, observations);
    lemma_prefix(start, observations, i);
    let before = state_after(start, observations.take(i));
    let at = state_after(start, observations.take(i + 1));
    assert(observations.take(i + 1).drop_last() == observations.take(i));
    assert(observations.take(i + 1).last() == observations[i]);
    assert(at.phase == Phase::Terminated);
    assert forall|j: int| 0 <= j < i implies (#[trigger] actions[j]).emitted() is None by {
        lemma_prefix(start, observations, j);
        let s = state_after(start, observations.take(j));
        if actions[j].emitted() is Some {
            assert(observations.take(j + 1).drop_last() == observations.take(j));
            assert(observations.take(j + 1).last() == observations[j]);
            let t = state_after(start, observations.take(j + 1));
            assert(t.phase == Phase::Terminated);
            lemma_split(start, observations.take(i), j + 1);
            assert(observations.take(i).take(j + 1) == observations.take(j + 1));
            law_terminated_is_final(t, observations.take(i).skip(j + 1));
            assert(before == t);
        }
    }
    assert forall|n: int| i < n <= observations.len() implies !(#[trigger] state_after(
        start,
        observations.take(n),
    )).admits_output() by {
        lemma_split(start, observations.take(n), i + 1);
        assert(observations.take(n).take(i + 1) == observations.take(i + 1));
        law_terminated_is_final(at, observations.take(n).skip(i + 1));
    }
    assert forall|j: int| i < j < observations.len() implies #[trigger] actions[j]
        == Action::Ignore by {
        lemma_prefix(start, observations, j);
        lemma_split(start, observations.take(j), i + 1);
        assert(observations.take(j).take(i + 1) == observations.take(i + 1));
        law_terminated_is_final(at, observations.take(j).skip(i + 1));
    }
}

/// Running through a sequence is running through its first `n`
/// observations and then through the rest.
pub proof fn lemma_split(host: Host, observations: Seq<Observation>, n: int)
    requires
        0 <= n <= observations.len(),
    ensures
        state_after(host, observations) == state_after(
            state_after(host, observations.take(n)),
            observations.skip(n),
        ),
    decreases observations.len(),
{
    if n == observations.len() {
        assert(observations.take(n) == observations);
        assert(observations.skip(n).len() == 0);
    } else {
        let front = observations.drop_last();
        lemma_split(host, front, n);
        assert(front.take(n) == observations.take(n));
        assert(observations.skip(n).drop_last() == front.skip(n));
        assert(observations.skip(n).last() == observations.last());
    }
}

/// A handler that returns the stop status ends the run with
/// `Finished(ExplicitStop)`: the host drains, admits no further output,
/// and emits that event once the operator has been dropped.
pub proof fn law_stop_finishes(host: Host)
    requires
        host.admits_output(),
    ensures
        ({
            let (draining, first) = step_spec(host, Observation::Returned(1));
            let (done, second) = step_spec(draining, Observation::Dropped);
            &&& first == Action::DropOperator
            &&& !draining.admits_output()
            &&& second == Action::Emit(Terminal::Finished(StopReason::ExplicitStop))
            &&& done.phase == Phase::Terminated
        }),
{
}

/// A caught unwind ends the run with `Panic`, never with `Error`,
/// whatever the host was doing.
pub proof fn law_panic_is_reported(host: Host)
    requires
        host.phase != Phase::Terminated,
    ensures
        step_spec(host, Observation::Panicked) == (
            Host { phase: Phase::Terminated, reload: host.reload },
            Action::Emit(Terminal::Panic),
        ),
{
}

/// A run ends normally or with a failure of the handler only after the
/// operator instance has been dropped: such a terminal event answers the
/// observation `Dropped`, in a host that was draining toward it.
pub proof fn law_operator_dropped_first(host: Host, obs: Observation, terminal: Terminal)
    requires
        step_spec(host, obs).1 == Action::Emit(terminal),
        terminal != Terminal::Panic,
    ensures
        obs == Observation::Dropped,
        host.phase == Phase::Draining(terminal),
{
}

/// A status that asks to stop wins over a reload that failed on the same
/// event: the run ends with `Finished`, not with an error.
pub proof fn law_status_wins_over_reload_failure(host: Host, status: i32)
    requires
        host.phase == Phase::Reloading,
        status == 1 || status == 2,
    ensures
        ({
            let (handling, deliver) = step_spec(host, Observation::ReloadFinished { success: false });
            let (draining, drop) = step_spec(handling, Observation::Returned(status));
            &&& deliver == Action::Deliver
            &&& drop == Action::DropOperator
            &&& draining.phase == Phase::Draining(
                Terminal::Finished(
                    if status == 1 {
                        StopReason::ExplicitStop
                    } else {
                        StopReason::ExplicitStopAll
                    },
                ),
            )
        }),
{
}

/// A reload is entered only from the running loop, between two events.
pub proof fn law_reload_only_from_running(host: Host, obs: Observation)
    requires
        host.phase != Phase::Reloading,
        step_spec(host, obs).0.phase == Phase::Reloading,
    ensures
        host.phase == (Phase::Running { in_flight: false }),
        obs == (Observation::Received { reload: true }),
        step_spec(host, obs).0.reload,
{
}

/// Once a reload has been requested the flag stays set, whatever follows.
pub proof fn law_reload_is_sticky(host: Host, observations: Seq<Observation>)
    requires
        host.reload,
    ensures
        state_after(host, observations).reload,
    decreases observations.len(),
{
    if observations.len() > 0 {
        law_reload_is_sticky(host, observations.drop_last());
    }
}

} // verus!
