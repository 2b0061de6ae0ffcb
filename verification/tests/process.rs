use loadgen::backoff::RetryPolicy;
use loadgen::config::{plan_startup, Environment, Opt, StartupPlan};
use loadgen::outcome::{ErrorKind, ExitIndication};
use loadgen::process::{Action, Event, Phase, Process};
use loadgen::worker::{WorkerOutcome, WorkerState};
use loadgen::workload::Operation;

const SCHEMA: &str = "CREATE KEYSPACE k WITH rf = <RF>;\nCREATE TABLE k.t (a int PRIMARY KEY);\n";

fn options(read_ratio: u8, write_ratio: u8, simulators: u16) -> Opt {
    Opt {
        read_ratio,
        write_ratio,
        simulators,
        db_host: String::from("0.0.0.0"),
        db_port: String::from("9042"),
        db_user: String::from("scylla"),
        db_password: String::from("asd"),
    }
}

fn environment(migrate: &str) -> Environment {
    Environment {
        consistency: None,
        datacenter: None,
        migrate: Some(String::from(migrate)),
        replication_factor: Some(String::from("3")),
    }
}

fn plan(workers: u16, migrate: &str) -> StartupPlan {
    plan_startup(&options(80, 20, workers), &environment(migrate), SCHEMA).unwrap()
}

/// A run that has opened its session and is launching its fleet.
fn launching(workers: u16) -> Process {
    let (mut process, _) = Process::new(plan(workers, "false"));
    assert_eq!(process.step(Event::ConnectSucceeded), Action::Launch { workers });
    process
}

/// A run whose fleet is scheduled in full.
fn serving(workers: u16) -> Process {
    let mut process = launching(workers);
    for _ in 0..workers {
        assert_eq!(process.step(Event::WorkerScheduled), Action::Wait);
    }
    assert_eq!(process.phase(), Phase::Serving);
    process
}

/// One run in each phase in which the process is alive.
fn alive() -> Vec<Process> {
    let attempting = Process::new(plan(3, "true")).0;
    let mut backing_off = Process::new(plan(3, "true")).0;
    backing_off.step(Event::ConnectFailed);
    let mut migrating = Process::new(plan(3, "true")).0;
    migrating.step(Event::ConnectSucceeded);
    let mut half_launched = launching(3);
    half_launched.step(Event::WorkerScheduled);
    let processes = vec![
        attempting,
        backing_off,
        migrating,
        serving(3),
        serving(0),
        launching(3),
        half_launched,
    ];
    assert_eq!(processes[0].phase(), Phase::Attempting { failures: 0 });
    assert_eq!(processes[1].phase(), Phase::BackingOff { failures: 1 });
    assert_eq!(processes[2].phase(), Phase::Migrating { next: 0 });
    assert_eq!(processes[3].phase(), Phase::Serving);
    assert_eq!(processes[4].phase(), Phase::Serving);
    assert_eq!(processes[5].phase(), Phase::Launching { scheduled: 0 });
    assert_eq!(processes[6].phase(), Phase::Launching { scheduled: 1 });
    processes
}

const EVENTS: [Event; 12] = [
    Event::ConnectSucceeded,
    Event::ConnectFailed,
    Event::DelayElapsed,
    Event::StatementSucceeded,
    Event::StatementFailed,
    Event::WorkerScheduled,
    Event::SpawnFailed,
    Event::WorkerReady { worker: 0, draw: 0 },
    Event::WorkerReady { worker: 2, draw: 99 },
    Event::OperationFailed { worker: 1 },
    Event::OperationFailed { worker: 7 },
    Event::Interrupt,
];

#[test]
fn weights_that_do_not_add_up_never_lead_to_a_connection() {
    for read in 0..=u8::MAX {
        for write in [0, 1, 20, 100 - read.min(100), 101, 178, 255] {
            let started = Process::start(&options(read, write, 5), &environment("true"), SCHEMA);
            if u16::from(read) + u16::from(write) == 100 {
                let (process, action) = started.ok().unwrap();
                assert_eq!(action, Action::Connect);
                assert_eq!(process.phase(), Phase::Attempting { failures: 0 });
            } else {
                assert_eq!(started.err(), Some(ErrorKind::Configuration));
            }
        }
    }
}

#[test]
fn a_run_connects_migrates_and_launches() {
    let (mut process, action) = Process::start(&options(80, 20, 4), &environment("true"), SCHEMA)
        .ok()
        .unwrap();
    assert_eq!(action, Action::Connect);
    assert_eq!(process.phase(), Phase::Attempting { failures: 0 });
    assert_eq!(process.active_workers(), 0);

    assert_eq!(process.step(Event::ConnectSucceeded), Action::Execute { statement: 0 });
    assert_eq!(process.phase(), Phase::Migrating { next: 0 });
    assert_eq!(process.statement(0), Some("CREATE KEYSPACE k WITH rf = 3;"));

    assert_eq!(process.step(Event::StatementSucceeded), Action::Execute { statement: 1 });
    assert_eq!(process.phase(), Phase::Migrating { next: 1 });
    assert_eq!(process.statement(1), Some(" CREATE TABLE k.t (a int PRIMARY KEY);"));
    assert_eq!(process.statement(2), None);

    assert_eq!(process.step(Event::StatementSucceeded), Action::Launch { workers: 4 });
    assert_eq!(process.phase(), Phase::Launching { scheduled: 0 });
    for scheduled in 1..4 {
        assert_eq!(process.step(Event::WorkerScheduled), Action::Wait);
        assert_eq!(process.phase(), Phase::Launching { scheduled });
    }
    assert_eq!(process.step(Event::WorkerScheduled), Action::Wait);
    assert_eq!(process.phase(), Phase::Serving);
    assert_eq!(process.workers(), &vec![WorkerState::Running; 4]);
    assert_eq!(process.active_workers(), 4);

    assert_eq!(
        process.step(Event::WorkerReady { worker: 3, draw: 79 }),
        Action::Perform { worker: 3, operation: Operation::Read }
    );
    assert_eq!(
        process.step(Event::WorkerReady { worker: 0, draw: 80 }),
        Action::Perform { worker: 0, operation: Operation::Write }
    );
    assert_eq!(process.phase(), Phase::Serving);
}

#[test]
fn without_migration_the_fleet_is_launched_at_once() {
    let (mut process, _) = Process::new(plan(30, "FALSE"));
    assert_eq!(process.statement(0), None);
    assert_eq!(process.step(Event::ConnectSucceeded), Action::Launch { workers: 30 });
    assert_eq!(process.phase(), Phase::Launching { scheduled: 0 });
    assert_eq!(process.active_workers(), 30);
}

#[test]
fn a_fleet_without_workers_is_served_at_once() {
    let (mut process, _) = Process::new(plan(0, "false"));
    assert_eq!(process.step(Event::ConnectSucceeded), Action::Launch { workers: 0 });
    assert_eq!(process.phase(), Phase::Serving);
    assert_eq!(process.active_workers(), 0);
    assert_eq!(process.step(Event::WorkerScheduled), Action::Wait);
    assert_eq!(process.phase(), Phase::Serving);
}

#[test]
fn a_worker_runs_from_the_moment_it_is_launched() {
    let mut process = launching(3);
    assert_eq!(
        process.step(Event::WorkerReady { worker: 2, draw: 5 }),
        Action::Perform { worker: 2, operation: Operation::Read }
    );
    assert_eq!(process.phase(), Phase::Launching { scheduled: 0 });
    assert_eq!(process.step(Event::WorkerScheduled), Action::Wait);
    let fatal = ExitIndication::Fatal(ErrorKind::WorkerExecution);
    assert_eq!(process.step(Event::OperationFailed { worker: 2 }), Action::Exit(fatal));
    assert_eq!(process.active_workers(), 0);
}

#[test]
fn a_worker_that_cannot_be_scheduled_ends_the_launch() {
    let mut process = launching(4);
    assert_eq!(process.step(Event::WorkerScheduled), Action::Wait);
    assert_eq!(process.step(Event::WorkerScheduled), Action::Wait);
    let fatal = ExitIndication::Fatal(ErrorKind::WorkerSpawn);
    assert_eq!(process.step(Event::SpawnFailed), Action::Exit(fatal));
    assert_eq!(process.phase(), Phase::Exited(fatal));
    assert_eq!(process.step(Event::WorkerScheduled), Action::Exit(fatal));
    assert_eq!(process.active_workers(), 0);
    assert_eq!(fatal.code(), 1);
}

#[test]
fn failed_attempts_are_retried_with_growing_delays() {
    let (mut process, _) = Process::new(plan(2, "true"));
    assert_eq!(process.step(Event::ConnectFailed), Action::Sleep { millis: 500 });
    assert_eq!(process.phase(), Phase::BackingOff { failures: 1 });
    assert_eq!(process.step(Event::DelayElapsed), Action::Connect);
    assert_eq!(process.phase(), Phase::Attempting { failures: 1 });
    for failures in 2..200 {
        assert_eq!(process.step(Event::ConnectFailed), Action::Sleep { millis: 20_000 });
        assert_eq!(process.phase(), Phase::BackingOff { failures });
        assert_eq!(process.step(Event::DelayElapsed), Action::Connect);
    }
    assert_eq!(process.step(Event::ConnectSucceeded), Action::Execute { statement: 0 });
}

#[test]
fn a_retry_limit_makes_the_connection_fatal() {
    let mut plan = plan(2, "true");
    plan.retry = RetryPolicy { initial_delay_ms: 2, max_delay_ms: 100, retry_limit: Some(3) };
    let (mut process, _) = Process::new(plan);
    for millis in [2, 4, 8] {
        assert_eq!(process.step(Event::ConnectFailed), Action::Sleep { millis });
        assert_eq!(process.step(Event::DelayElapsed), Action::Connect);
    }
    let fatal = ExitIndication::Fatal(ErrorKind::Connection);
    assert_eq!(process.step(Event::ConnectFailed), Action::Exit(fatal));
    assert_eq!(process.phase(), Phase::Exited(fatal));
    assert_eq!(fatal.code(), 1);
}

#[test]
fn a_failed_statement_stops_the_migration() {
    let (mut process, _) = Process::new(plan(2, "true"));
    assert_eq!(process.step(Event::ConnectSucceeded), Action::Execute { statement: 0 });
    let fatal = ExitIndication::Fatal(ErrorKind::Migration);
    assert_eq!(process.step(Event::StatementFailed), Action::Exit(fatal));
    assert_eq!(process.phase(), Phase::Exited(fatal));
    // The second statement is never run.
    assert_eq!(process.step(Event::StatementSucceeded), Action::Exit(fatal));
    assert_eq!(process.active_workers(), 0);
}

#[test]
fn a_worker_that_cannot_be_scheduled_is_fatal() {
    let mut process = serving(4);
    let fatal = ExitIndication::Fatal(ErrorKind::WorkerSpawn);
    assert_eq!(process.step(Event::SpawnFailed), Action::Exit(fatal));
    assert_eq!(process.phase(), Phase::Exited(fatal));
    assert_eq!(process.workers(), &vec![WorkerState::Terminated(WorkerOutcome::Cancelled); 4]);
    assert_eq!(process.active_workers(), 0);
}

#[test]
fn the_fleet_stays_whole_while_nothing_fails() {
    for workers in [0u16, 1, 5, 30, 1_000] {
        let mut process = serving(workers);
        assert_eq!(process.active_workers(), usize::from(workers));
        for round in 0..2_000usize {
            let worker = round % usize::from(workers.max(1));
            let draw = (round * 37 % 100) as u8;
            let action = process.step(Event::WorkerReady { worker, draw });
            if workers == 0 {
                assert_eq!(action, Action::Wait);
            } else {
                assert!(matches!(action, Action::Perform { worker: w, .. } if w == worker));
            }
            assert_eq!(process.phase(), Phase::Serving);
            assert_eq!(process.active_workers(), usize::from(workers));
        }
        for worker in process.workers() {
            assert_eq!(*worker, WorkerState::Running);
        }
        for event in [
            Event::ConnectSucceeded,
            Event::DelayElapsed,
            Event::StatementSucceeded,
            Event::WorkerScheduled,
        ] {
            assert_eq!(process.step(event), Action::Wait);
            assert_eq!(process.active_workers(), usize::from(workers));
        }
    }
}

#[test]
fn one_failed_operation_fails_the_fleet() {
    let mut process = serving(5);
    for worker in 0..5 {
        assert!(matches!(
            process.step(Event::WorkerReady { worker, draw: 50 }),
            Action::Perform { .. }
        ));
    }
    let fatal = ExitIndication::Fatal(ErrorKind::WorkerExecution);
    assert_eq!(process.step(Event::OperationFailed { worker: 2 }), Action::Exit(fatal));
    assert_eq!(process.phase(), Phase::Exited(fatal));
    assert_eq!(process.active_workers(), 0);
    assert_eq!(process.workers(), &vec![
        WorkerState::Terminated(WorkerOutcome::Cancelled),
        WorkerState::Terminated(WorkerOutcome::Cancelled),
        WorkerState::Terminated(WorkerOutcome::Failed),
        WorkerState::Terminated(WorkerOutcome::Cancelled),
        WorkerState::Terminated(WorkerOutcome::Cancelled),
    ]);
    // No worker is given an operation any more.
    for worker in 0..5 {
        for draw in [0, 50, 99] {
            assert_eq!(process.step(Event::WorkerReady { worker, draw }), Action::Exit(fatal));
        }
    }
    for event in EVENTS {
        assert_eq!(process.step(event), Action::Exit(fatal));
        assert_eq!(process.phase(), Phase::Exited(fatal));
    }
}

#[test]
fn a_failure_of_an_unknown_worker_changes_nothing() {
    let mut process = serving(5);
    assert_eq!(process.step(Event::OperationFailed { worker: 5 }), Action::Wait);
    assert_eq!(process.step(Event::WorkerReady { worker: 5, draw: 0 }), Action::Wait);
    assert_eq!(process.phase(), Phase::Serving);
    assert_eq!(process.active_workers(), 5);
}

#[test]
fn an_interrupt_stops_cleanly_in_every_phase() {
    for mut process in alive() {
        let clean = ExitIndication::CleanStop;
        assert_eq!(process.step(Event::Interrupt), Action::Exit(clean));
        assert_eq!(process.phase(), Phase::Exited(clean));
        assert_eq!(clean.code(), 0);
        assert_eq!(process.active_workers(), 0);
        for worker in process.workers() {
            assert_eq!(*worker, WorkerState::Terminated(WorkerOutcome::Cancelled));
        }
        for event in EVENTS {
            assert_eq!(process.step(event), Action::Exit(clean));
            assert_eq!(process.phase(), Phase::Exited(clean));
        }
    }
}

#[test]
fn an_interrupt_during_the_launch_stops_cleanly() {
    // The fleet is being scheduled and no worker has reported yet.
    let mut process = launching(30);
    for _ in 0..10 {
        process.step(Event::WorkerScheduled);
    }
    assert_eq!(process.phase(), Phase::Launching { scheduled: 10 });
    assert_eq!(process.step(Event::Interrupt), Action::Exit(ExitIndication::CleanStop));
    assert_eq!(
        process.step(Event::WorkerReady { worker: 0, draw: 0 }),
        Action::Exit(ExitIndication::CleanStop)
    );
    assert_eq!(process.step(Event::SpawnFailed), Action::Exit(ExitIndication::CleanStop));
}

#[test]
fn an_interrupt_after_a_fatal_error_does_not_change_the_indication() {
    let mut process = serving(2);
    let fatal = ExitIndication::Fatal(ErrorKind::WorkerExecution);
    assert_eq!(process.step(Event::OperationFailed { worker: 0 }), Action::Exit(fatal));
    assert_eq!(process.step(Event::Interrupt), Action::Exit(fatal));
}

#[test]
fn events_that_a_phase_does_not_wait_for_change_nothing() {
    for (index, mut process) in alive().into_iter().enumerate() {
        let phase = process.phase();
        let expected: &[Event] = match index {
            0 => &[Event::ConnectSucceeded, Event::ConnectFailed],
            1 => &[Event::DelayElapsed],
            2 => &[Event::StatementSucceeded, Event::StatementFailed],
            3 => &[
                Event::SpawnFailed,
                Event::WorkerReady { worker: 0, draw: 0 },
                Event::WorkerReady { worker: 2, draw: 99 },
                Event::OperationFailed { worker: 1 },
            ],
            4 => &[Event::SpawnFailed],
            _ => &[
                Event::WorkerScheduled,
                Event::SpawnFailed,
                Event::WorkerReady { worker: 0, draw: 0 },
                Event::WorkerReady { worker: 2, draw: 99 },
                Event::OperationFailed { worker: 1 },
            ],
        };
        for event in EVENTS {
            if event != Event::Interrupt && !expected.contains(&event) {
                assert_eq!(process.step(event), Action::Wait);
                assert_eq!(process.phase(), phase);
            }
        }
    }
}

#[test]
fn five_workers_at_80_to_20_keep_running() {
    let (mut process, action) = Process::start(&options(80, 20, 5), &environment("false"), SCHEMA)
        .ok()
        .unwrap();
    assert_eq!(action, Action::Connect);
    assert_eq!(process.step(Event::ConnectSucceeded), Action::Launch { workers: 5 });
    for _ in 0..5 {
        assert_eq!(process.step(Event::WorkerScheduled), Action::Wait);
    }

    // A small generator of draws, uniform over 0 to 99.
    let mut seed: u64 = 0x2545_f491_4f6c_dd1d;
    let mut reads = 0u32;
    let mut writes = 0u32;
    let rounds = 100_000u32;
    for round in 0..rounds {
        seed = seed.wrapping_mul(6_364_136_223_846_793_005).wrapping_add(1_442_695_040_888_963_407);
        let draw = ((seed >> 33) % 100) as u8;
        let worker = (round % 5) as usize;
        match process.step(Event::WorkerReady { worker, draw }) {
            Action::Perform { worker: w, operation: Operation::Read } if w == worker => reads += 1,
            Action::Perform { worker: w, operation: Operation::Write } if w == worker => {
                writes += 1
            },
            other => panic!("no operation was handed out: {:?}", other),
        }
        assert_eq!(process.active_workers(), 5);
    }
    assert_eq!(process.phase(), Phase::Serving);
    assert_eq!(process.workers(), &vec![WorkerState::Running; 5]);
    assert_eq!(reads + writes, rounds);
    let share = f64::from(reads) / f64::from(rounds);
    assert!((share - 0.8).abs() < 0.01, "share of reads: {}", share);
}

#[test]
fn each_of_the_hundred_draws_once_gives_the_exact_ratio() {
    let mut process = serving(5);
    let mut reads = 0;
    for draw in 0..100u8 {
        if let Action::Perform { operation: Operation::Read, .. } =
            process.step(Event::WorkerReady { worker: usize::from(draw % 5), draw })
        {
            reads += 1;
        }
    }
    assert_eq!(reads, 80);
}

#[test]
fn the_plan_of_a_run_is_kept() {
    let plan = plan(7, "true");
    let (mut process, _) = Process::new(plan.clone());
    process.step(Event::ConnectFailed);
    process.step(Event::Interrupt);
    assert_eq!(process.plan().workers, 7);
    assert_eq!(process.plan().statements, plan.statements);
    assert_eq!(process.plan().connection.endpoints, plan.connection.endpoints);
}
