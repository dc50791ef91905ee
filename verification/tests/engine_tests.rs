use loadramp::engine::LoadTest;
use loadramp::outcome::Reply;
use loadramp::ramp::{Decision, RampState};
use loadramp::scheduler::WaveAction;
use loadramp::status::StatusLog;
use loadramp::url::TargetEndpoint;

fn target() -> TargetEndpoint {
    TargetEndpoint::new(String::from("http://localhost:8080/health"))
}

/// Runs one window on a steady clock; attempt number `n` of the window
/// fails where `fails(n)` says so.
fn run_window(run: &mut LoadTest, log: &mut StatusLog, fails: &dyn Fn(u64) -> bool) -> Decision {
    let mut elapsed = 0u64;
    let mut launched = 0u64;
    loop {
        match run.next_wave(elapsed) {
            WaveAction::Launch { attempts, pause_millis } => {
                for _ in 0..attempts {
                    let reply = if fails(launched) { Reply::Status(503) } else { Reply::Status(200) };
                    run.record(reply);
                    launched += 1;
                }
                elapsed += pause_millis;
            }
            WaveAction::AwaitOutstanding => break,
        }
    }
    assert_eq!(run.outstanding(), Some(0));
    run.finish_window(log)
}

#[test]
fn start_opens_the_log_and_keeps_the_target() {
    let mut log = StatusLog::new();
    let run = LoadTest::start(target(), &mut log);
    assert_eq!(run.target(), "http://localhost:8080/health");
    assert_eq!(run.state(), RampState::Ramping { level: 10 });
    assert!(run.is_active());
    assert_eq!(run.outstanding(), Some(0));
    assert_eq!(log.read(), "\nRunning load test...");
}

#[test]
fn window_is_not_closed_while_attempts_are_outstanding() {
    let mut log = StatusLog::new();
    let mut run = LoadTest::start(target(), &mut log);
    assert_eq!(run.next_wave(0), WaveAction::Launch { attempts: 10, pause_millis: 1000 });
    assert_eq!(run.outstanding(), Some(10));
    for done in 0..9 {
        run.record(Reply::Status(200));
        assert_eq!(run.outstanding(), Some(9 - done));
        assert_eq!(run.finish_window(&mut log), Decision::Idle);
        assert_eq!(log.line_count(), 1);
    }
    run.record(Reply::TransportFault);
    assert_eq!(run.outstanding(), Some(0));
    assert_eq!(
        run.finish_window(&mut log),
        Decision::Continue { next_level: 20, cooldown_millis: 5000 }
    );
    assert_eq!(log.read(), "\nRunning load test...\nTPS: 10, Failure rate: 10.00%");
    assert_eq!(run.state(), RampState::Ramping { level: 20 });
    assert_eq!(run.outstanding(), Some(0));
}

#[test]
fn more_outcomes_than_attempts_are_not_a_whole_window() {
    let mut log = StatusLog::new();
    let mut run = LoadTest::start(target(), &mut log);
    run.record(Reply::Status(200));
    assert_eq!(run.outstanding(), None);
    assert_eq!(run.finish_window(&mut log), Decision::Idle);
    assert_eq!(log.line_count(), 1);
}

#[test]
fn run_against_an_endpoint_that_always_succeeds() {
    let mut log = StatusLog::new();
    let mut run = LoadTest::start(target(), &mut log);
    let mut expected = String::from("\nRunning load test...");
    for window in 0..6u64 {
        let level = 10 + 10 * window;
        let decision = run_window(&mut run, &mut log, &|_| false);
        assert_eq!(
            decision,
            Decision::Continue { next_level: level + 10, cooldown_millis: 5000 }
        );
        expected.push_str(&format!("\nTPS: {}, Failure rate: 0.00%", level));
        assert_eq!(log.read(), expected);
    }
    assert!(run.is_active());
}

#[test]
fn run_against_an_endpoint_that_always_fails() {
    let mut log = StatusLog::new();
    let mut run = LoadTest::start(target(), &mut log);
    let decision = run_window(&mut run, &mut log, &|_| true);
    assert_eq!(decision, Decision::Stop);
    assert_eq!(run.state(), RampState::BreakingPointFound { level: 10, ratio: 10000 });
    assert!(!run.is_active());
    assert_eq!(
        log.read(),
        "\nRunning load test...\nTPS: 10, Failure rate: 100.00%\nBreaking point reached! Failure rate exceeds 20% at 10 TPS.\nCompleted load test"
    );
    // No further window runs.
    assert_eq!(run.next_wave(0), WaveAction::AwaitOutstanding);
    assert_eq!(run.finish_window(&mut log), Decision::Idle);
    assert_eq!(log.line_count(), 4);
}

#[test]
fn run_against_an_endpoint_that_gives_way_at_level_sixty() {
    let mut log = StatusLog::new();
    let mut run = LoadTest::start(target(), &mut log);
    let mut windows = 0u64;
    loop {
        let level = match run.state() {
            RampState::Ramping { level } => level,
            other => panic!("unexpected state {:?}", other),
        };
        let decision = if level <= 50 {
            run_window(&mut run, &mut log, &|n| n % 20 == 0)
        } else {
            run_window(&mut run, &mut log, &|n| n % 2 == 0)
        };
        windows += 1;
        if decision == Decision::Stop {
            break;
        }
        assert!(windows < 10);
    }
    assert_eq!(windows, 6);
    assert_eq!(run.state(), RampState::BreakingPointFound { level: 60, ratio: 5000 });
    assert_eq!(
        log.read(),
        "\nRunning load test...\nTPS: 10, Failure rate: 5.00%\nTPS: 20, Failure rate: 5.00%\nTPS: 30, Failure rate: 5.00%\nTPS: 40, Failure rate: 5.00%\nTPS: 50, Failure rate: 5.00%\nTPS: 60, Failure rate: 50.00%\nBreaking point reached! Failure rate exceeds 20% at 60 TPS.\nCompleted load test"
    );
}

#[test]
fn each_window_launches_ten_waves_at_its_level() {
    let mut log = StatusLog::new();
    let mut run = LoadTest::start(target(), &mut log);
    for window in 0..3u64 {
        let level = 10 + 10 * window;
        let mut elapsed = 0u64;
        let mut waves = 0u64;
        while let WaveAction::Launch { attempts, pause_millis } = run.next_wave(elapsed) {
            assert_eq!(attempts, level);
            waves += 1;
            elapsed += pause_millis;
            for _ in 0..attempts {
                run.record(Reply::Status(200));
            }
        }
        assert_eq!(waves, 10);
        run.finish_window(&mut log);
    }
}

#[test]
fn cancelled_run_launches_and_decides_nothing_more() {
    let mut log = StatusLog::new();
    let mut run = LoadTest::start(target(), &mut log);
    assert_eq!(run.next_wave(0), WaveAction::Launch { attempts: 10, pause_millis: 1000 });
    run.cancel();
    assert!(!run.is_active());
    assert_eq!(run.state(), RampState::Ramping { level: 10 });
    assert_eq!(run.next_wave(1000), WaveAction::AwaitOutstanding);
    for _ in 0..10 {
        run.record(Reply::Status(200));
    }
    assert_eq!(run.outstanding(), Some(0));
    assert_eq!(run.finish_window(&mut log), Decision::Idle);
    assert_eq!(log.read(), "\nRunning load test...");
}

#[test]
fn replies_are_counted_by_their_kind() {
    let mut log = StatusLog::new();
    let mut run = LoadTest::start(target(), &mut log);
    run.next_wave(0);
    let replies = [
        Reply::Status(200),
        Reply::Status(201),
        Reply::Status(301),
        Reply::Status(404),
        Reply::Status(500),
        Reply::TransportFault,
        Reply::Status(299),
        Reply::Status(204),
        Reply::Status(200),
        Reply::Status(200),
    ];
    for reply in replies {
        run.record(reply);
    }
    assert_eq!(run.finish_window(&mut log), Decision::Stop);
    assert_eq!(run.state(), RampState::BreakingPointFound { level: 10, ratio: 4000 });
    assert_eq!(
        log.read(),
        "\nRunning load test...\nTPS: 10, Failure rate: 40.00%\nBreaking point reached! Failure rate exceeds 20% at 10 TPS.\nCompleted load test"
    );
}

#[test]
fn attempts_of_earlier_waves_are_awaited_with_later_ones() {
    let mut log = StatusLog::new();
    let mut run = LoadTest::start(target(), &mut log);
    let mut elapsed = 0u64;
    let mut launched = 0u128;
    while let WaveAction::Launch { attempts, pause_millis } = run.next_wave(elapsed) {
        launched += attempts as u128;
        elapsed += pause_millis;
        assert_eq!(run.outstanding(), Some(launched));
        assert_eq!(run.finish_window(&mut log), Decision::Idle);
    }
    assert_eq!(launched, 100);
    for done in 0..100u128 {
        assert_eq!(run.outstanding(), Some(100 - done));
        assert_eq!(run.finish_window(&mut log), Decision::Idle);
        run.record(if done < 15 { Reply::TransportFault } else { Reply::Status(200) });
    }
    assert_eq!(
        run.finish_window(&mut log),
        Decision::Continue { next_level: 20, cooldown_millis: 5000 }
    );
    assert_eq!(log.read(), "\nRunning load test...\nTPS: 10, Failure rate: 15.00%");
}
