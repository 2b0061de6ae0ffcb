//! The run as a state machine: the session is opened under the retry policy,
//! the schema is migrated, the fleet of workers is launched and served until
//! an interrupt or a fatal error ends the process. Each step takes what has
//! happened and says what is to be done next.

use vstd::prelude::*;
use crate::backoff::{RetryDecision, RetryPolicy};
use crate::config::{plan_startup, planned_by, Environment, Opt, StartupPlan};
use crate::outcome::{ErrorKind, ExitIndication};
use crate::worker::{worker_next, worker_step, WorkerSignal, WorkerState};
use crate::workload::{Operation, WorkloadRatio};

verus! {

/// Where the run stands.
#[derive(Clone, Copy, Debug, PartialEq, Eq, Structural)]
pub enum Phase {
    /// The session is being opened; `failures` attempts have failed so far.
    Attempting { failures: u64 },
    /// The delay after the `failures`-th failed attempt is being waited out.
    BackingOff { failures: u64 },
    /// The statement with index `next` of the migration is being run.
    Migrating { next: usize },
    /// The workers of the fleet are being scheduled; `scheduled` of them
    /// are so far. Every worker counts as running from the launch on.
    Launching { scheduled: u16 },
    /// The whole fleet is scheduled and its workers run.
    Serving,
    /// The process has ended.
    Exited(ExitIndication),
}

/// What has happened.
#[derive(Clone, Copy, Debug, PartialEq, Eq, Structural)]
pub enum Event {
    /// The session is open.
    ConnectSucceeded,
    /// The attempt to open the session failed.
    ConnectFailed,
    /// The delay has passed.
    DelayElapsed,
    /// The statement was run.
    StatementSucceeded,
    /// The statement failed.
    StatementFailed,
    /// One more worker is scheduled.
    WorkerScheduled,
    /// A worker could not be scheduled, or its task was lost.
    SpawnFailed,
    /// A worker is free to run its next operation; `draw` is its random draw.
    WorkerReady { worker: usize, draw: u8 },
    /// The operation of a worker failed.
    OperationFailed { worker: usize },
    /// The interrupt signal arrived.
    Interrupt,
}

/// What is to be done next.
#[derive(Clone, Copy, Debug, PartialEq, Eq, Structural)]
pub enum Action {
    /// Open the session as the connection plan says.
    Connect,
    /// Wait, then report `DelayElapsed`.
    Sleep { millis: u64 },
    /// Run the statement with this index.
    Execute { statement: usize },
    /// Schedule this many workers, and report each with `WorkerScheduled`.
    Launch { workers: u16 },
    /// Let this worker run this operation.
    Perform { worker: usize, operation: Operation },
    /// Nothing; the event changes nothing.
    Wait,
    /// End the process with this indication.
    Exit(ExitIndication),
}

/// What a run is set up with and never changes.
pub struct Setup {
    pub retry: RetryPolicy,
    /// The number of statements of the migration.
    pub statements: nat,
    /// The number of workers of the fleet.
    pub workers: nat,
    pub ratio: WorkloadRatio,
}

/// The state of a run: its phase and the state of each worker of the fleet.
pub struct State {
    pub phase: Phase,
    pub workers: Seq<WorkerState>,
}

/// A fleet of `count` workers, all running.
pub open spec fn launched(count: nat) -> Seq<WorkerState> {
    Seq::new(count, |i: int| WorkerState::Running)
}

/// The fleet once it is halted: the worker whose operation failed, if there
/// is one, stops as failed, every other running worker is cancelled, and a
/// worker that had stopped stays as it was.
pub open spec fn halted(workers: Seq<WorkerState>, failed: Option<int>, ratio: WorkloadRatio) -> Seq<
    WorkerState,
> {
    Seq::new(
        workers.len(),
        |i: int|
            worker_next(
                workers[i],
                if failed == Some(i) {
                    WorkerSignal::OperationFailed
                } else {
                    WorkerSignal::Cancel
                },
                ratio,
            ).0,
    )
}

/// The number of workers that run.
pub open spec fn active(workers: Seq<WorkerState>) -> nat
    decreases workers.len(),
{
    if workers.len() == 0 {
        0
    } else if workers.last() == WorkerState::Running {
        active(workers.drop_last()) + 1
    } else {
        active(workers.drop_last())
    }
}

/// The number of failures after one more, counted up to `u64::MAX`.
pub open spec fn one_more(failures: u64) -> u64 {
    if failures < u64::MAX {
        (failures + 1) as u64
    } else {
        failures
    }
}

/// What follows once the session is open and `done` statements have been
/// run: the next statement, or the launch of the fleet after the last. A
/// fleet without workers is served at once.
pub open spec fn proceed(setup: Setup, done: nat) -> (State, Action) {
    if done < setup.statements && done <= usize::MAX {
        (
            State { phase: Phase::Migrating { next: done as usize }, workers: Seq::empty() },
            Action::Execute { statement: done as usize },
        )
    } else {
        (
            State {
                phase: if setup.workers == 0 {
                    Phase::Serving
                } else {
                    Phase::Launching { scheduled: 0 }
                },
                workers: launched(setup.workers),
            },
            Action::Launch { workers: setup.workers as u16 },
        )
    }
}

/// A step of the fleet, while it is launched and while it is served: a
/// worker that is ready performs the operation that its draw selects; a
/// worker that cannot be scheduled, or an operation that fails, is fatal to
/// the whole fleet.
pub open spec fn serve(setup: Setup, state: State, event: Event) -> (State, Action) {
    match event {
        Event::WorkerReady { worker, draw } => if worker < state.workers.len() {
            (state, Action::Perform { worker, operation: setup.ratio.selects(draw) })
        } else {
            (state, Action::Wait)
        },
        Event::OperationFailed { worker } => if worker < state.workers.len() {
            exit(
                setup,
                state,
                ExitIndication::Fatal(ErrorKind::WorkerExecution),
                Some(worker as int),
            )
        } else {
            (state, Action::Wait)
        },
        Event::SpawnFailed => exit(
            setup,
            state,
            ExitIndication::Fatal(ErrorKind::WorkerSpawn),
            None,
        ),
        _ => (state, Action::Wait),
    }
}

/// The end of the process with an indication: the fleet is halted.
pub open spec fn exit(setup: Setup, state: State, indication: ExitIndication, failed: Option<
    int,
>) -> (State, Action) {
    (
        State {
            phase: Phase::Exited(indication),
            workers: halted(state.workers, failed, setup.ratio),
        },
        Action::Exit(indication),
    )
}

/// The state in which a run begins: the first attempt to open the session is
/// under way.
pub open spec fn initial() -> State {
    State { phase: Phase::Attempting { failures: 0 }, workers: Seq::empty() }
}

/// One step of the run.
///
/// - Once the process has ended, nothing changes and every event is answered
///   with the same exit.
/// - An interrupt ends the process with a clean stop, whatever the phase.
/// - A failed attempt is retried after the delay of the policy, or is fatal
///   where the policy gives up. An open session starts the migration, or the
///   fleet where there is nothing to migrate.
/// - The statements run one after another; the first that fails is fatal.
/// - The fleet is served once each of its workers is scheduled. From the
///   launch on, a worker that is ready performs the operation that its draw
///   selects. A worker that cannot be scheduled, or an operation that fails,
///   is fatal to the whole fleet.
/// - An event that the phase does not wait for changes nothing.
pub open spec fn next(setup: Setup, state: State, event: Event) -> (State, Action) {
    match state.phase {
        Phase::Exited(indication) => (state, Action::Exit(indication)),
        _ => match event {
            Event::Interrupt => exit(setup, state, ExitIndication::CleanStop, None),
            _ => match state.phase {
                Phase::Attempting { failures } => match event {
                    Event::ConnectSucceeded => proceed(setup, 0),
                    Event::ConnectFailed => match setup.retry.decision_spec(one_more(failures)) {
                        RetryDecision::RetryAfter { millis } => (
                            State {
                                phase: Phase::BackingOff { failures: one_more(failures) },
                                workers: state.workers,
                            },
                            Action::Sleep { millis },
                        ),
                        RetryDecision::GiveUp => exit(
                            setup,
                            state,
                            ExitIndication::Fatal(ErrorKind::Connection),
                            None,
                        ),
                    },
                    _ => (state, Action::Wait),
                },
                Phase::BackingOff { failures } => match event {
                    Event::DelayElapsed => (
                        State { phase: Phase::Attempting { failures }, workers: state.workers },
                        Action::Connect,
                    ),
                    _ => (state, Action::Wait),
                },
                Phase::Migrating { next } => match event {
                    Event::StatementSucceeded => proceed(setup, (next + 1) as nat),
                    Event::StatementFailed => exit(
                        setup,
                        state,
                        ExitIndication::Fatal(ErrorKind::Migration),
                        None,
                    ),
                    _ => (state, Action::Wait),
                },
                Phase::Launching { scheduled } => match event {
                    Event::WorkerScheduled => (
                        State {
                            phase: if scheduled + 1 < setup.workers {
                                Phase::Launching { scheduled: (scheduled + 1) as u16 }
                            } else {
                                Phase::Serving
                            },
                            workers: state.workers,
                        },
                        Action::Wait,
                    ),
                    _ => serve(setup, state, event),
                },
                Phase::Serving => serve(setup, state, event),
                Phase::Exited(indication) => (state, Action::Exit(indication)),
            },
        },
    }
}

/// What holds of every state of a run: the statement being run is
/// one of the migration; there is no worker before the fleet is launched;
/// from the launch on the fleet has its full number of workers and all of
/// them run; once the process has ended none runs.
pub open spec fn well_formed(setup: Setup, state: State) -> bool {
    &&& setup.workers <= u16::MAX
    &&& setup.statements <= usize::MAX
    &&& setup.ratio.wf()
    &&& match state.phase {
        Phase::Attempting { .. } | Phase::BackingOff { .. } => state.workers.len() == 0,
        Phase::Migrating { next } => state.workers.len() == 0 && next < setup.statements,
        Phase::Launching { scheduled } => scheduled < setup.workers && state.workers
            == launched(setup.workers),
        Phase::Serving => state.workers == launched(setup.workers),
        Phase::Exited(_) => forall|i: int|
            0 <= i < state.workers.len() ==> state.workers[i] != WorkerState::Running,
    }
}

struct Run {
    phase: Phase,
    workers: Vec<WorkerState>,
}

/// A run: its plan and where it stands.
pub struct Process {
    plan: StartupPlan,
    run: Run,
}

impl Process {
    #[verifier::type_invariant]
    spec fn inv(self) -> bool {
        well_formed(self.setup(), self.state())
    }

    /// What the run is set up with: the retry policy, the number of
    /// statements, the number of workers and the ratio of its plan.
    pub open spec fn setup(self) -> Setup {
        Setup {
            retry: self.plan_spec().retry,
            statements: self.plan_spec().statements@.len(),
            workers: self.plan_spec().workers as nat,
            ratio: self.plan_spec().ratio,
        }
    }

    /// The state of the run.
    pub closed spec fn state(self) -> State {
        State { phase: self.run.phase, workers: self.run.workers@ }
    }

    /// The plan of the run.
    pub closed spec fn plan_spec(self) -> StartupPlan {
        self.plan
    }

    /// A run of a plan, and its first action: the first attempt to open the
    /// session.
    pub fn new(plan: StartupPlan) -> (started: (Process, Action))
        ensures
            started.0.plan_spec() == plan,
            started.0.state() == initial(),
            started.1 == Action::Connect,
            well_formed(started.0.setup(), started.0.state()),
    {
        // Reading the ratio and the length brings in what is known of them:
        // the weights add up, and the statements can be counted.
        let _ = plan.ratio.read_weight();
        let _ = plan.statements.len();
        (
            Process {
                plan,
                run: Run { phase: Phase::Attempting { failures: 0 }, workers: Vec::new() },
            },
            Action::Connect,
        )
    }

    /// A run of what is configured, and its first action; `Configuration`
    /// where the read and write ratios do not add up to 100. In that case
    /// there is no run, and so no attempt to connect.
    pub fn start(opt: &Opt, environment: &Environment, schema: &str) -> (started: Result<
        (Process, Action),
        ErrorKind,
    >)
        ensures
            started is Ok <==> opt.read_ratio + opt.write_ratio == 100,
            started is Err ==> started->Err_0 == ErrorKind::Configuration,
            started matches Ok(run) ==> {
                &&& planned_by(run.0.plan_spec(), *opt, *environment, schema@)
                &&& run.0.state() == initial()
                &&& run.1 == Action::Connect
                &&& well_formed(run.0.setup(), run.0.state())
            },
    {
        match plan_startup(opt, environment, schema) {
            Ok(plan) => Ok(Process::new(plan)),
            Err(kind) => Err(kind),
        }
    }

    /// The plan of the run.
    pub fn plan(&self) -> (plan: &StartupPlan)
        ensures
            *plan == self.plan_spec(),
    {
        &self.plan
    }

    /// Where the run stands.
    pub fn phase(&self) -> (phase: Phase)
        ensures
            phase == self.state().phase,
            well_formed(self.setup(), self.state()),
    {
        proof {
            use_type_invariant(self);
        }
        self.run.phase
    }

    /// The state of each worker of the fleet; empty before the launch.
    pub fn workers(&self) -> (workers: &Vec<WorkerState>)
        ensures
            workers@ == self.state().workers,
    {
        &self.run.workers
    }

    /// The number of workers that run.
    pub fn active_workers(&self) -> (count: usize)
        ensures
            count == active(self.state().workers),
    {
        let mut count: usize = 0;
        let mut i: usize = 0;
        while i < self.run.workers.len()
            invariant
                i <= self.run.workers@.len(),
                count <= i,
                count == active(self.run.workers@.take(i as int)),
            decreases self.run.workers@.len() - i,
        {
            assert(self.run.workers@.take(i + 1).drop_last() == self.run.workers@.take(i as int));
            if self.run.workers[i] == WorkerState::Running {
                count += 1;
            }
            i += 1;
        }
        assert(self.run.workers@.take(self.run.workers@.len() as int) == self.run.workers@);
        count
    }

    /// The text of a statement of the migration.
    pub fn statement(&self, index: usize) -> (text: Option<&str>)
        ensures
            text is Some <==> index < self.setup().statements,
            text matches Some(t) ==> t@ == self.plan_spec().statements@[index as int]@,
    {
        if index < self.plan.statements.len() {
            Some(self.plan.statements[index].as_str())
        } else {
            None
        }
    }

    fn fleet_launched(&self) -> (workers: Vec<WorkerState>)
        ensures
            workers@ == launched(self.setup().workers),
    {
        let mut workers: Vec<WorkerState> = Vec::new();
        let mut i: u16 = 0;
        while i < self.plan.workers
            invariant
                i <= self.plan.workers,
                workers@ == launched(i as nat),
            decreases self.plan.workers - i,
        {
            workers.push(WorkerState::Running);
            i += 1;
        }
        workers
    }

    fn fleet_halted(&self, failed: Option<usize>) -> (workers: Vec<WorkerState>)
        ensures
            workers@ == halted(
                self.state().workers,
                match failed {
                    Some(worker) => Some(worker as int),
                    None => None,
                },
                self.setup().ratio,
            ),
    {
        let mut workers: Vec<WorkerState> = Vec::new();
        let mut i: usize = 0;
        while i < self.run.workers.len()
            invariant
                i <= self.run.workers@.len(),
                workers@ == halted(
                    self.run.workers@,
                    match failed {
                        Some(worker) => Some(worker as int),
                        None => None,
                    },
                    self.plan.ratio,
                ).take(i as int),
            decreases self.run.workers@.len() - i,
        {
            let signal = match failed {
                Some(worker) if worker == i => WorkerSignal::OperationFailed,
                _ => WorkerSignal::Cancel,
            };
            let (after, _) = worker_step(self.run.workers[i], signal, &self.plan.ratio);
            workers.push(after);
            i += 1;
        }
        workers
    }

    fn exit(&mut self, indication: ExitIndication, failed: Option<usize>) -> (action: Action)
        requires
            !(old(self).state().phase is Exited),
        ensures
            final(self).plan_spec() == old(self).plan_spec(),
            (final(self).state(), action) == exit(
                old(self).setup(),
                old(self).state(),
                indication,
                match failed {
                    Some(worker) => Some(worker as int),
                    None => None,
                },
            ),
    {
        proof {
            use_type_invariant(&*self);
        }
        let workers = self.fleet_halted(failed);
        self.run = Run { phase: Phase::Exited(indication), workers };
        Action::Exit(indication)
    }

    fn proceed(&mut self, done: usize) -> (action: Action)
        requires
            old(self).state().workers.len() == 0,
            !(old(self).state().phase is Exited),
        ensures
            final(self).plan_spec() == old(self).plan_spec(),
            (final(self).state(), action) == proceed(old(self).setup(), done as nat),
    {
        proof {
            use_type_invariant(&*self);
        }
        if done < self.plan.statements.len() {
            self.run = Run { phase: Phase::Migrating { next: done }, workers: Vec::new() };
            Action::Execute { statement: done }
        } else {
            let workers = self.fleet_launched();
            let phase = if self.plan.workers == 0 {
                Phase::Serving
            } else {
                Phase::Launching { scheduled: 0 }
            };
            self.run = Run { phase, workers };
            Action::Launch { workers: self.plan.workers }
        }
    }

    fn serve(&mut self, event: Event) -> (action: Action)
        requires
            old(self).state().phase is Launching || old(self).state().phase is Serving,
        ensures
            final(self).plan_spec() == old(self).plan_spec(),
            (final(self).state(), action) == serve(old(self).setup(), old(self).state(), event),
    {
        match event {
            Event::WorkerReady { worker, draw } => if worker < self.run.workers.len() {
                Action::Perform { worker, operation: self.plan.ratio.select(draw) }
            } else {
                Action::Wait
            },
            Event::OperationFailed { worker } => if worker < self.run.workers.len() {
                self.exit(ExitIndication::Fatal(ErrorKind::WorkerExecution), Some(worker))
            } else {
                Action::Wait
            },
            Event::SpawnFailed => self.exit(ExitIndication::Fatal(ErrorKind::WorkerSpawn), None),
            _ => Action::Wait,
        }
    }

    /// One step of the run: takes what has happened, moves to the next state
    /// and says what is to be done.
    pub fn step(&mut self, event: Event) -> (action: Action)
        ensures
            final(self).plan_spec() == old(self).plan_spec(),
            (final(self).state(), action) == next(old(self).setup(), old(self).state(), event),
            well_formed(old(self).setup(), old(self).state()),
            well_formed(final(self).setup(), final(self).state()),
    {
        proof {
            use_type_invariant(&*self);
        }
        let action = match self.run.phase {
            Phase::Exited(indication) => Action::Exit(indication),
            Phase::Attempting { failures } => match event {
                Event::Interrupt => self.exit(ExitIndication::CleanStop, None),
                Event::ConnectSucceeded => self.proceed(0),
                Event::ConnectFailed => {
                    let failures: u64 = if failures < u64::MAX {
                        failures + 1
                    } else {
                        failures
                    };
                    match self.plan.retry.decide(failures) {
                        RetryDecision::RetryAfter { millis } => {
                            self.run.phase = Phase::BackingOff { failures };
                            Action::Sleep { millis }
                        },
                        RetryDecision::GiveUp => self.exit(
                            ExitIndication::Fatal(ErrorKind::Connection),
                            None,
                        ),
                    }
                },
                _ => Action::Wait,
            },
            Phase::BackingOff { failures } => match event {
                Event::Interrupt => self.exit(ExitIndication::CleanStop, None),
                Event::DelayElapsed => {
                    self.run.phase = Phase::Attempting { failures };
                    Action::Connect
                },
                _ => Action::Wait,
            },
            Phase::Migrating { next } => match event {
                Event::Interrupt => self.exit(ExitIndication::CleanStop, None),
                Event::StatementSucceeded => self.proceed(next + 1),
                Event::StatementFailed => self.exit(
                    ExitIndication::Fatal(ErrorKind::Migration),
                    None,
                ),
                _ => Action::Wait,
            },
            Phase::Launching { scheduled } => match event {
                Event::Interrupt => self.exit(ExitIndication::CleanStop, None),
                Event::WorkerScheduled => {
                    self.run.phase = if scheduled + 1 < self.plan.workers {
                        Phase::Launching { scheduled: scheduled + 1 }
                    } else {
                        Phase::Serving
                    };
                    Action::Wait
                },
                _ => self.serve(event),
            },
            Phase::Serving => match event {
                Event::Interrupt => self.exit(ExitIndication::CleanStop, None),
                _ => self.serve(event),
            },
        };
        proof {
            use_type_invariant(&*self);
        }
        action
    }
}

} // verus!
