use kanata_ime_observer::args::Backend;
use kanata_ime_observer::supervisor::{
    reader_stopped, runs_main_loop, writer_stopped, Step, Supervisor, CONNECT_TIMEOUT_SECS,
    RESTART_PAUSE_MS, RETRY_MAX_DELAY_MS, RETRY_MAX_TIMES, RETRY_MIN_DELAY_MS,
    WRITE_TIMEOUT_SECS,
};
use kanata_ime_observer::AppError;

#[test]
fn iteration_order_without_main_loop() {
    let mut supervisor = Supervisor::new(Backend::Ibus);
    let mut steps = vec![supervisor.step()];
    for _ in 0..11 {
        steps.push(supervisor.completed(true));
    }
    assert_eq!(
        steps,
        vec![
            Step::Initialize,
            Step::SpawnCatcher,
            Step::Connect,
            Step::BuildReceiver,
            Step::SpawnWriter,
            Step::SpawnReader,
            Step::JoinCatcher,
            Step::Wake,
            Step::JoinWriter,
            Step::JoinReader,
            Step::Pause,
            Step::Initialize,
        ]
    );
}

#[test]
fn iteration_order_with_main_loop() {
    for backend in [Backend::Mac, Backend::Windows, Backend::WindowsOnOff] {
        let mut supervisor = Supervisor::new(backend);
        let mut steps = Vec::new();
        for _ in 0..7 {
            steps.push(supervisor.completed(true));
        }
        assert_eq!(steps[4], Step::SpawnReader);
        assert_eq!(steps[5], Step::MainLoop);
        assert_eq!(steps[6], Step::JoinCatcher);
    }
    assert!(runs_main_loop(Backend::Mac));
    assert!(!runs_main_loop(Backend::Ibus));
    assert!(!runs_main_loop(Backend::Fcitx));
}

#[test]
fn threads_are_joined_before_restart() {
    let mut supervisor = Supervisor::new(Backend::Mac);
    let mut most = 0;
    for round in 0..3 {
        assert_eq!(supervisor.step(), Step::Initialize, "round {round}");
        assert_eq!(supervisor.live_threads(), 0);
        loop {
            let next = supervisor.completed(true);
            most = most.max(supervisor.live_threads());
            if next == Step::Pause {
                assert_eq!(supervisor.live_threads(), 0);
            }
            if next == Step::Initialize {
                break;
            }
        }
    }
    assert_eq!(most, 3);
}

#[test]
fn reconnect_after_peer_close() {
    // The reader meets the end of the stream: the iteration is torn down and
    // the next one connects again.
    let mut supervisor = Supervisor::new(Backend::Fcitx);
    while supervisor.step() != Step::JoinCatcher {
        supervisor.completed(true);
    }
    let mut connects = 0;
    for _ in 0..7 {
        if supervisor.completed(true) == Step::Connect {
            connects += 1;
        }
    }
    assert_eq!(connects, 1);
    assert_eq!(supervisor.step(), Step::Connect);
    assert_eq!(supervisor.live_threads(), 1);
}

#[test]
fn unreachable_engine_ends_the_program() {
    let mut supervisor = Supervisor::new(Backend::Ibus);
    supervisor.completed(true);
    supervisor.completed(true);
    assert_eq!(supervisor.step(), Step::Connect);
    assert_eq!(supervisor.completed(false), Step::Exit);
    assert_eq!(supervisor.completed(true), Step::Exit);
}

#[test]
fn failed_construction_restarts_the_iteration() {
    let mut supervisor = Supervisor::new(Backend::Ibus);
    supervisor.completed(true);
    supervisor.completed(true);
    supervisor.completed(true);
    assert_eq!(supervisor.step(), Step::BuildReceiver);
    assert_eq!(supervisor.completed(false), Step::Abort);
    assert_eq!(supervisor.live_threads(), 1);
    assert_eq!(supervisor.completed(true), Step::JoinCatcher);
    assert_eq!(supervisor.completed(true), Step::Pause);
    assert_eq!(supervisor.live_threads(), 0);
    assert_eq!(supervisor.completed(true), Step::Initialize);
    assert_eq!(supervisor.completed(true), Step::SpawnCatcher);
}

#[test]
fn timing_constants() {
    assert_eq!(CONNECT_TIMEOUT_SECS, 30);
    assert_eq!(WRITE_TIMEOUT_SECS, 5);
    assert_eq!(RETRY_MIN_DELAY_MS, 100);
    assert_eq!(RETRY_MAX_DELAY_MS, 10_000);
    assert_eq!(RETRY_MAX_TIMES, 10);
    assert_eq!(RESTART_PAUSE_MS, 100);
    assert_eq!(
        writer_stopped(),
        AppError::CustomError("write_to_kanata: Caught the fatal error.".to_string())
    );
    assert_eq!(
        reader_stopped(),
        AppError::CustomError("read_from_kanata: Caught the fatal error.".to_string())
    );
}
