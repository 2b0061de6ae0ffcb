//! What holds of every run, proved of the step function.

use vstd::prelude::*;
use crate::outcome::{ErrorKind, ExitIndication};
use crate::process::{
    active, initial, launched, next, well_formed, Action, Event, Phase, Setup, State,
};
use crate::worker::{WorkerOutcome, WorkerState};

verus! {

/// The state after a sequence of events, taken in order.
pub open spec fn run(setup: Setup, state: State, events: Seq<Event>) -> State
    decreases events.len(),
{
    if events.len() == 0 {
        state
    } else {
        next(setup, run(setup, state, events.drop_last()), events.last()).0
    }
}

/// An event that reports neither a failure nor the interrupt.
pub open spec fn is_success(event: Event) -> bool {
    match event {
        Event::ConnectSucceeded
        | Event::DelayElapsed
        | Event::StatementSucceeded
        | Event::WorkerScheduled
        | Event::WorkerReady { .. } => true,
        _ => false,
    }
}

/// In a launched fleet every worker runs.
pub proof fn lemma_launched_all_active(count: nat)
    ensures
        active(launched(count)) == count,
    decreases count,
{
    if count > 0 {
        lemma_launched_all_active((count - 1) as nat);
        assert(launched(count).drop_last() == launched((count - 1) as nat));
    }
}

/// In a fleet of which no worker runs, the number of running workers is 0.
pub proof fn lemma_none_active(workers: Seq<WorkerState>)
    requires
        forall|i: int| 0 <= i < workers.len() ==> workers[i] != WorkerState::Running,
    ensures
        active(workers) == 0,
    decreases workers.len(),
{
    if workers.len() > 0 {
        lemma_none_active(workers.drop_last());
    }
}

/// A step leads from a well-formed state to a well-formed state.
pub proof fn law_steps_keep_well_formed(setup: Setup, state: State, event: Event)
    requires
        well_formed(setup, state),
    ensures
        well_formed(setup, next(setup, state, event).0),
{
}

/// A run leads from a well-formed state to a well-formed state.
pub proof fn law_runs_keep_well_formed(setup: Setup, state: State, events: Seq<Event>)
    requires
        well_formed(setup, state),
    ensures
        well_formed(setup, run(setup, state, events)),
    decreases events.len(),
{
    if events.len() > 0 {
        law_runs_keep_well_formed(setup, state, events.drop_last());
        law_steps_keep_well_formed(setup, run(setup, state, events.drop_last()), events.last());
    }
}

/// Once the process has ended nothing happens any more: whatever events
/// follow, the state stays as it is and each is answered with the same exit.
pub proof fn law_exit_is_final(
    setup: Setup,
    state: State,
    indication: ExitIndication,
    later: Seq<Event>,
    event: Event,
)
    requires
        state.phase == Phase::Exited(indication),
    ensures
        run(setup, state, later) == state,
        next(setup, run(setup, state, later), event) == (state, Action::Exit(indication)),
    decreases later.len(),
{
    if later.len() > 0 {
        law_exit_is_final(setup, state, indication, later.drop_last(), later.last());
    }
}

/// While nothing fails and no interrupt arrives, a launched fleet keeps all
/// its workers running: after any such events it is still being launched or
/// served, with as many running workers as the fleet has, and each worker
/// that reports ready is given an operation. A fleet that is served stays
/// exactly as it is.
pub proof fn law_fleet_stays_whole(setup: Setup, state: State, events: Seq<Event>)
    requires
        well_formed(setup, state),
        state.phase is Launching || state.phase is Serving,
        forall|i: int| 0 <= i < events.len() ==> is_success(#[trigger] events[i]),
    ensures
        ({
            let after = run(setup, state, events);
            &&& after.phase is Launching || after.phase is Serving
            &&& state.phase is Serving ==> after == state
            &&& after.workers == launched(setup.workers)
            &&& active(after.workers) == setup.workers
            &&& forall|i: int|
                0 <= i < setup.workers ==> after.workers[i] == WorkerState::Running
            &&& forall|worker: usize, draw: u8|
                worker < setup.workers ==> #[trigger] next(
                    setup,
                    after,
                    Event::WorkerReady { worker, draw },
                ).1 == (Action::Perform { worker, operation: setup.ratio.selects(draw) })
        }),
    decreases events.len(),
{
    lemma_launched_all_active(setup.workers);
    if events.len() > 0 {
        law_fleet_stays_whole(setup, state, events.drop_last());
        assert(is_success(events.last()));
    }
}

/// One failed operation fails the whole fleet: the process ends with
/// `WorkerExecution`, the worker stops as failed and every other worker is
/// cancelled, so none runs; and whatever events follow, no operation is
/// handed out any more.
pub proof fn law_fleet_fails_fast(
    setup: Setup,
    state: State,
    worker: usize,
    later: Seq<Event>,
    event: Event,
)
    requires
        well_formed(setup, state),
        state.phase is Launching || state.phase is Serving,
        worker < setup.workers,
    ensures
        ({
            let failure = ExitIndication::Fatal(ErrorKind::WorkerExecution);
            let (failed, action) = next(setup, state, Event::OperationFailed { worker });
            &&& action == Action::Exit(failure)
            &&& failed.phase == Phase::Exited(failure)
            &&& failed.workers.len() == setup.workers
            &&& forall|i: int|
                0 <= i < failed.workers.len() ==> failed.workers[i] == WorkerState::Terminated(
                    if i == worker {
                        WorkerOutcome::Failed
                    } else {
                        WorkerOutcome::Cancelled
                    },
                )
            &&& active(failed.workers) == 0
            &&& run(setup, failed, later) == failed
            &&& next(setup, run(setup, failed, later), event).1 == Action::Exit(failure)
        }),
{
    let failure = ExitIndication::Fatal(ErrorKind::WorkerExecution);
    let (failed, action) = next(setup, state, Event::OperationFailed { worker });
    lemma_none_active(failed.workers);
    law_exit_is_final(setup, failed, failure, later, event);
}

/// An interrupt ends a process that has not ended yet with a clean stop,
/// whatever its phase: the exit status is 0, never that of a fatal error, no
/// worker runs any more, and nothing that follows changes this.
pub proof fn law_interrupt_stops_cleanly(
    setup: Setup,
    state: State,
    later: Seq<Event>,
    event: Event,
)
    requires
        !(state.phase is Exited),
    ensures
        ({
            let (stopped, action) = next(setup, state, Event::Interrupt);
            &&& action == Action::Exit(ExitIndication::CleanStop)
            &&& stopped.phase == Phase::Exited(ExitIndication::CleanStop)
            &&& ExitIndication::CleanStop.code_spec() == 0
            &&& active(stopped.workers) == 0
            &&& run(setup, stopped, later) == stopped
            &&& next(setup, run(setup, stopped, later), event).1 == Action::Exit(
                ExitIndication::CleanStop,
            )
        }),
{
    let (stopped, action) = next(setup, state, Event::Interrupt);
    lemma_none_active(stopped.workers);
    law_exit_is_final(setup, stopped, ExitIndication::CleanStop, later, event);
}

/// The statements of the migration are run one after another, in order:
/// once the session is open and `done` statements have succeeded, the next
/// one is being run; after the last, the fleet is launched.
pub proof fn law_migration_runs_in_order(setup: Setup, state: State, done: nat)
    requires
        well_formed(setup, state),
        state.phase is Attempting,
        done <= setup.statements,
    ensures
        ({
            let events = seq![Event::ConnectSucceeded] + Seq::new(
                done,
                |i: int| Event::StatementSucceeded,
            );
            let after = run(setup, state, events);
            if done < setup.statements {
                after == (State {
                    phase: Phase::Migrating { next: done as usize },
                    workers: Seq::empty(),
                })
            } else {
                after == (State {
                    phase: if setup.workers == 0 {
                        Phase::Serving
                    } else {
                        Phase::Launching { scheduled: 0 }
                    },
                    workers: launched(setup.workers),
                })
            }
        }),
    decreases done,
{
    let events = seq![Event::ConnectSucceeded] + Seq::new(done, |i: int| Event::StatementSucceeded);
    if done == 0 {
        assert(events.drop_last() == Seq::<Event>::empty());
        assert(run(setup, state, events.drop_last()) == state);
    } else {
        let earlier = seq![Event::ConnectSucceeded] + Seq::new(
            (done - 1) as nat,
            |i: int| Event::StatementSucceeded,
        );
        law_migration_runs_in_order(setup, state, (done - 1) as nat);
        assert(events.drop_last() == earlier);
        assert(events.last() == Event::StatementSucceeded);
    }
}

/// Attempts that fail are retried for as long as the policy allows: after
/// `failures` failed attempts, each but the last followed by its delay, the
/// process waits out the delay that the policy gives for that many failures,
/// unless the policy gave up on one of them.
pub proof fn law_retries_follow_the_policy(setup: Setup, failures: nat)
    requires
        1 <= failures < u64::MAX,
        forall|f: u64| 1 <= f <= failures ==> !(#[trigger] setup.retry.decision_spec(f) is GiveUp),
    ensures
        ({
            let before = run(setup, initial(), retries((failures - 1) as nat));
            let (after, action) = next(setup, before, Event::ConnectFailed);
            &&& before.phase == Phase::Attempting { failures: (failures - 1) as u64 }
            &&& after.phase == Phase::BackingOff { failures: failures as u64 }
            &&& action == Action::Sleep {
                millis: setup.retry.delay_spec(failures) as u64,
            }
        }),
    decreases failures,
{
    if failures == 1 {
        assert(retries(0) == Seq::<Event>::empty());
    } else {
        law_retries_follow_the_policy(setup, (failures - 1) as nat);
        let state = initial();
        let earlier = retries((failures - 2) as nat);
        let now = retries((failures - 1) as nat);
        assert(now == earlier + seq![Event::ConnectFailed, Event::DelayElapsed]);
        assert(now.drop_last() == earlier.push(Event::ConnectFailed));
        assert(now.drop_last().drop_last() == earlier);
        assert(now.drop_last().last() == Event::ConnectFailed);
        assert(now.last() == Event::DelayElapsed);
        assert(!(setup.retry.decision_spec((failures - 1) as u64) is GiveUp));
        let failed = next(setup, run(setup, state, earlier), Event::ConnectFailed).0;
        assert(run(setup, state, now.drop_last()) == failed);
        assert(failed.phase == Phase::BackingOff { failures: (failures - 1) as u64 });
        assert(run(setup, state, now) == next(setup, failed, Event::DelayElapsed).0);
    }
    assert(!(setup.retry.decision_spec(failures as u64) is GiveUp));
}

/// `count` failed attempts, each followed by its delay.
pub open spec fn retries(count: nat) -> Seq<Event>
    decreases count,
{
    if count == 0 {
        Seq::empty()
    } else {
        retries((count - 1) as nat) + seq![Event::ConnectFailed, Event::DelayElapsed]
    }
}

/// The launch ends when each worker of the fleet is scheduled: after as many
/// `WorkerScheduled` as the fleet has workers it is served, with all of them
/// running; before that it is still being launched.
pub proof fn law_launch_completes(setup: Setup, state: State, scheduled: nat)
    requires
        well_formed(setup, state),
        state.phase == (Phase::Launching { scheduled: 0 }),
        scheduled <= setup.workers,
    ensures
        ({
            let after = run(setup, state, Seq::new(scheduled, |i: int| Event::WorkerScheduled));
            &&& after.workers == launched(setup.workers)
            &&& active(after.workers) == setup.workers
            &&& after.phase == if scheduled < setup.workers {
                Phase::Launching { scheduled: scheduled as u16 }
            } else {
                Phase::Serving
            }
        }),
    decreases scheduled,
{
    lemma_launched_all_active(setup.workers);
    let events = Seq::new(scheduled, |i: int| Event::WorkerScheduled);
    if scheduled > 0 {
        law_launch_completes(setup, state, (scheduled - 1) as nat);
        assert(events.drop_last() == Seq::new(
            (scheduled - 1) as nat,
            |i: int| Event::WorkerScheduled,
        ));
        assert(events.last() == Event::WorkerScheduled);
    }
}

/// Whether the session is open: the run is past its attempts to connect and
/// has not ended.
pub open spec fn has_session(state: State) -> bool {
    state.phase is Migrating || state.phase is Launching || state.phase is Serving
}

/// There is one session: once it is open, no step asks to open another, and
/// the run never goes back to connecting.
pub proof fn law_one_session(setup: Setup, state: State, later: Seq<Event>, event: Event)
    requires
        has_session(state) || state.phase is Exited,
    ensures
        ({
            let after = run(setup, state, later);
            &&& has_session(after) || after.phase is Exited
            &&& next(setup, after, event).1 != Action::Connect
            &&& !(next(setup, after, event).1 is Sleep)
        }),
    decreases later.len(),
{
    if later.len() > 0 {
        law_one_session(setup, state, later.drop_last(), later.last());
    }
}

/// No operation is handed out, and no statement is run, before the session
/// is open.
pub proof fn law_session_comes_first(setup: Setup, state: State, event: Event)
    requires
        state.phase is Attempting || state.phase is BackingOff,
        event != Event::ConnectSucceeded,
    ensures
        !(next(setup, state, event).1 is Perform),
        !(next(setup, state, event).1 is Execute),
        !(next(setup, state, event).1 is Launch),
        !has_session(next(setup, state, event).0),
{
}

} // verus!
