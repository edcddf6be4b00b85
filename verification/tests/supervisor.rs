use mqtt_core::read_loop::ReadLoopResult;
use mqtt_core::supervisor::{
    ConnectionState, Supervisor, SupervisorAction, SupervisorEvent, RETRY_DELAY_SECS,
};

#[test]
fn happy_path_reaches_connected_and_reads() {
    let mut sup = Supervisor::new();
    assert_eq!(sup.current_state(), ConnectionState::Disconnected);

    assert_eq!(sup.step(SupervisorEvent::DelayElapsed), SupervisorAction::Connect);
    assert_eq!(sup.current_state(), ConnectionState::Connecting);

    assert_eq!(sup.step(SupervisorEvent::ConnectSucceeded), SupervisorAction::SendConnect);
    assert_eq!(sup.current_state(), ConnectionState::Handshaking);

    let connack = vec![0x20, 0x02, 0x00, 0x00];
    assert_eq!(
        sup.step(SupervisorEvent::ConnackReceived(connack)),
        SupervisorAction::StartSession
    );
    assert_eq!(sup.current_state(), ConnectionState::Connected);

    assert_eq!(sup.step(SupervisorEvent::SubscribeSent), SupervisorAction::SignalReady);
    assert_eq!(sup.step(SupervisorEvent::ReadySignaled), SupervisorAction::ReadNext);
    assert_eq!(
        sup.step(SupervisorEvent::ChunkHandled(ReadLoopResult::Stored)),
        SupervisorAction::ReadNext
    );
    assert_eq!(
        sup.step(SupervisorEvent::ChunkHandled(ReadLoopResult::Skipped)),
        SupervisorAction::ReadNext
    );
    assert_eq!(sup.current_state(), ConnectionState::Connected);
}

#[test]
fn connect_failure_retries_after_delay_and_does_not_terminate() {
    let mut sup = Supervisor::new();
    assert_eq!(sup.step(SupervisorEvent::DelayElapsed), SupervisorAction::Connect);
    assert_eq!(sup.step(SupervisorEvent::ConnectFailed), SupervisorAction::Wait);
    assert_eq!(sup.current_state(), ConnectionState::Disconnected);

    // After the configured delay the supervisor tries again.
    assert_eq!(RETRY_DELAY_SECS, 5);
    assert_eq!(sup.step(SupervisorEvent::DelayElapsed), SupervisorAction::Connect);
    assert_eq!(sup.current_state(), ConnectionState::Connecting);
}

#[test]
fn rejected_connack_is_a_plain_connection_failure() {
    let mut sup = Supervisor::new();
    sup.step(SupervisorEvent::DelayElapsed);
    sup.step(SupervisorEvent::ConnectSucceeded);
    let rejected = vec![0x20, 0x02, 0x00, 0x05];
    assert_eq!(sup.step(SupervisorEvent::ConnackReceived(rejected)), SupervisorAction::Wait);
    assert_eq!(sup.current_state(), ConnectionState::Disconnected);
}

#[test]
fn handshake_read_failure_retries() {
    let mut sup = Supervisor::new();
    sup.step(SupervisorEvent::DelayElapsed);
    sup.step(SupervisorEvent::ConnectSucceeded);
    assert_eq!(sup.step(SupervisorEvent::ConnackReadFailed), SupervisorAction::Wait);
    assert_eq!(sup.current_state(), ConnectionState::Disconnected);
}

#[test]
fn shutdown_during_retry_delay_stops_without_further_connect_attempts() {
    let mut sup = Supervisor::new();
    sup.step(SupervisorEvent::DelayElapsed);
    assert_eq!(sup.step(SupervisorEvent::ConnectFailed), SupervisorAction::Wait);

    // Shutdown arrives while the retry delay runs.
    assert_eq!(sup.step(SupervisorEvent::ShutdownRequested), SupervisorAction::Stop);
    assert_eq!(sup.current_state(), ConnectionState::Stopped);

    // Whatever is reported afterwards, the answer stays Stop.
    assert_eq!(sup.step(SupervisorEvent::DelayElapsed), SupervisorAction::Stop);
    assert_eq!(sup.step(SupervisorEvent::ConnectSucceeded), SupervisorAction::Stop);
    assert_eq!(sup.current_state(), ConnectionState::Stopped);
}

#[test]
fn read_loop_failures_reenter_the_retry_cycle() {
    for failure in [
        SupervisorEvent::ReadEof,
        SupervisorEvent::ReadFailed,
        SupervisorEvent::DispatchFailed,
        SupervisorEvent::SubscribeFailed,
    ] {
        let mut sup = Supervisor::new();
        sup.step(SupervisorEvent::DelayElapsed);
        sup.step(SupervisorEvent::ConnectSucceeded);
        sup.step(SupervisorEvent::ConnackReceived(vec![0x20, 0x02, 0x00, 0x00]));
        assert_eq!(sup.current_state(), ConnectionState::Connected);
        assert_eq!(sup.step(failure), SupervisorAction::Wait);
        assert_eq!(sup.current_state(), ConnectionState::Disconnected);
    }
}

#[test]
fn shutdown_in_read_loop_stops() {
    let mut sup = Supervisor::new();
    sup.step(SupervisorEvent::DelayElapsed);
    sup.step(SupervisorEvent::ConnectSucceeded);
    sup.step(SupervisorEvent::ConnackReceived(vec![0x20, 0x02, 0x00, 0x00]));
    assert_eq!(sup.step(SupervisorEvent::ShutdownRequested), SupervisorAction::Stop);
    assert_eq!(sup.current_state(), ConnectionState::Stopped);
}
