//! What holds of the supervisor over any course of events.

use crate::supervisor::{ChildStatus, EventView, SupervisorAction, SupervisorState, SupervisorView};
use vstd::prelude::*;

verus! {

/// The moves between two different states that the supervisor can make.
pub open spec fn is_edge(from: SupervisorState, to: SupervisorState) -> bool {
    match from {
        SupervisorState::NotStarted => to == SupervisorState::Spawning,
        SupervisorState::Spawning => to == SupervisorState::WaitingForReady || to
            == SupervisorState::Failed,
        SupervisorState::WaitingForReady => to == SupervisorState::Ready || to
            == SupervisorState::Failed,
        SupervisorState::Ready => to == SupervisorState::Terminated,
        SupervisorState::Failed => false,
        SupervisorState::Terminated => false,
    }
}

/// How often `action` occurs in `actions`.
pub open spec fn occurrences(actions: Seq<SupervisorAction>, action: SupervisorAction) -> nat
    decreases actions.len(),
{
    if actions.len() == 0 {
        0
    } else {
        let here: nat = if actions[0] == action {
            1
        } else {
            0
        };
        here + occurrences(actions.drop_first(), action)
    }
}

impl SupervisorView {
    /// The supervisor after a course of events, and what it asked for on
    /// the way, in order.
    pub open spec fn run(self, events: Seq<EventView>) -> (SupervisorView, Seq<SupervisorAction>)
        decreases events.len(),
    {
        if events.len() == 0 {
            (self, Seq::empty())
        } else {
            let (after, action) = self.next(events[0]);
            let (last, actions) = after.run(events.drop_first());
            (last, seq![action] + actions)
        }
    }

    /// How often the supervisor may still ask for `action`: for one start
    /// of the process, for as many probes as it was given, for one binding of
    /// the client, for one termination signal and for one kill. Of `Idle`
    /// there is no count.
    pub open spec fn allowance(self, action: SupervisorAction) -> nat {
        match action {
            SupervisorAction::Idle => 0,
            SupervisorAction::Spawn => if self.state == SupervisorState::NotStarted {
                1
            } else {
                0
            },
            SupervisorAction::Probe => match self.state {
                SupervisorState::NotStarted | SupervisorState::Spawning => self.max_probes,
                SupervisorState::WaitingForReady => (self.max_probes - self.probes) as nat,
                _ => 0,
            },
            SupervisorAction::Serve => match self.state {
                SupervisorState::NotStarted
                | SupervisorState::Spawning
                | SupervisorState::WaitingForReady => 1,
                _ => 0,
            },
            SupervisorAction::Terminate => match self.state {
                SupervisorState::Failed | SupervisorState::Terminated => 0,
                _ => 1,
            },
            SupervisorAction::Kill => if self.child == ChildStatus::Exited {
                0
            } else {
                1
            },
        }
    }
}

/// A fresh supervisor is well-formed.
pub proof fn lemma_fresh_is_wf(config: crate::launch::LaunchConfigView, max_probes: nat)
    ensures
        SupervisorView::fresh(config, max_probes).wf(),
{
}

/// No event leads a well-formed supervisor to one that is not.
pub proof fn lemma_next_keeps_wf(s: SupervisorView, event: EventView)
    requires
        s.wf(),
    ensures
        s.next(event).0.wf(),
{
}

/// An event changes neither the launch parameters nor the number of probes
/// allowed, and it either leaves the state or moves it along one of the
/// edges: from not started to spawning, from there to waiting or failed, from
/// waiting to ready or failed, from ready to terminated.
pub proof fn lemma_moves_along_edges(s: SupervisorView, event: EventView)
    ensures
        s.next(event).0.config == s.config,
        s.next(event).0.max_probes == s.max_probes,
        s.next(event).0.state == s.state || is_edge(s.state, s.next(event).0.state),
{
}

/// Nothing leads out of the terminated state, nor out of the failed one.
pub proof fn lemma_end_states_are_final(s: SupervisorView, event: EventView)
    requires
        s.state == SupervisorState::Terminated || s.state == SupervisorState::Failed,
    ensures
        s.next(event).0.state == s.state,
        s.next(event).0.failure == s.failure,
{
}

/// Once the child is gone, no event changes anything or asks for anything.
pub proof fn lemma_nothing_after_exit(s: SupervisorView, event: EventView)
    requires
        s.wf(),
        s.child == ChildStatus::Exited,
    ensures
        s.next(event) == (s, SupervisorAction::Idle),
{
}

/// Shutdown of a ready supervisor asks for the termination signal and ends
/// in the terminated state; whether the child then exits by itself or the
/// wait runs out and it is killed, it is gone afterwards.
pub proof fn lemma_shutdown_ends_child(s: SupervisorView, then: EventView)
    requires
        s.wf(),
        s.state == SupervisorState::Ready,
        then is ChildExited || then is ExitWaitElapsed,
    ensures
        s.next(EventView::Shutdown).1 == SupervisorAction::Terminate,
        s.next(EventView::Shutdown).0.state == SupervisorState::Terminated,
        s.next(EventView::Shutdown).0.next(then).0.state == SupervisorState::Terminated,
        s.next(EventView::Shutdown).0.next(then).0.child == ChildStatus::Exited,
        s.next(EventView::Shutdown).0.next(then).1 == (if then is ExitWaitElapsed {
            SupervisorAction::Kill
        } else {
            SupervisorAction::Idle
        }),
{
}

/// Shutdown is idempotent: in whatever state the first shutdown found the
/// supervisor, a second one changes nothing and asks for nothing.
pub proof fn lemma_shutdown_is_idempotent(s: SupervisorView)
    ensures
        s.next(EventView::Shutdown).0.next(EventView::Shutdown) == (
            s.next(EventView::Shutdown).0,
            SupervisorAction::Idle,
        ),
{
}

/// One event uses up what it asks for: what the supervisor asks for now and
/// what it may ask for later are together no more than what it might ask for
/// before.
pub proof fn lemma_next_spends_allowance(
    s: SupervisorView,
    event: EventView,
    action: SupervisorAction,
)
    requires
        s.wf(),
        action != SupervisorAction::Idle,
    ensures
        occurrences(seq![s.next(event).1], action) + s.next(event).0.allowance(action)
            <= s.allowance(action),
{
    let asked = seq![s.next(event).1];
    assert(asked.drop_first() =~= Seq::<SupervisorAction>::empty());
    assert(occurrences(asked.drop_first(), action) == 0);
}

/// Over any course of events a supervisor asks for each thing no more often
/// than its allowance says: a fresh one starts the process at most once,
/// probes the endpoint at most as often as it was given probes, binds the
/// client at most once, and sends the termination signal and kills at most
/// once each.
pub proof fn lemma_run_within_allowance(
    s: SupervisorView,
    events: Seq<EventView>,
    action: SupervisorAction,
)
    requires
        s.wf(),
        action != SupervisorAction::Idle,
    ensures
        s.run(events).0.wf(),
        occurrences(s.run(events).1, action) + s.run(events).0.allowance(action) <= s.allowance(
            action,
        ),
    decreases events.len(),
{
    if events.len() == 0 {
        assert(occurrences(s.run(events).1, action) == 0);
    } else {
        let (after, asked) = s.next(events[0]);
        let (last, actions) = after.run(events.drop_first());
        lemma_next_keeps_wf(s, events[0]);
        lemma_next_spends_allowance(s, events[0], action);
        lemma_run_within_allowance(after, events.drop_first(), action);
        let all = seq![asked] + actions;
        assert(all.drop_first() =~= actions);
        assert(all[0] == asked);
        assert(seq![asked].drop_first() =~= Seq::<SupervisorAction>::empty());
        assert(occurrences(seq![asked].drop_first(), action) == 0);
    }
}

} // verus!
