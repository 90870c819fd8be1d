use rns_interface::ble_rnode::active::ActiveExit;
use rns_interface::ble_rnode::connect::{
    bond_settle, bounded_operation_error, choose_adapter, chunk_write_error, generation_selector,
    learns_name, BlePlatform, ConnectAttempt, ConnectEvent, ConnectStep,
};
use rns_interface::ble_rnode::driver::{
    bridge_detach_settle, BleDriver, BleTransport, DriverEffect, DriverEvent, DriverPhase,
};
use rns_interface::ble_rnode::generation::{
    BleGenerationExit, BleGenerationId, BleOperationStage, OperationPoll,
};
use rns_interface::ble_rnode::pairing::{
    existing_bond, pairing_deadline, pairing_step, subscribe_stage, CharacteristicProperties,
    DesktopPairingTrigger, LinuxPairOutcome, LinuxPairing, PasskeyWait,
};
use rns_interface::ble_rnode::preflight::{
    check_detect_evidence, startup_reduction_failure, startup_wait_event, BleCapabilityOutcome,
    BleCapabilityRetry, BleStartupEvent, BleStartupFailure, BleStartupOutcome, BleStartupWait,
    BoundaryDrain, CapabilityAction, CapabilityEvent, CapabilityObservation, CapabilityPreflight,
    DrainPoll, HandshakeAction, NativeHandshake, BLE_PREFLIGHT_BOUNDARY_MAX_BYTES,
    BLE_PREFLIGHT_BOUNDARY_MAX_ITEMS, RNODE_BLE_STARTUP_QUIET, RNODE_NATIVE_HANDSHAKE_PROBE,
};
use rns_interface::ble_rnode::retry::{
    reconnect_try_exhausted, wait_or_shutdown, AdapterRetryWait, CentralState, WaitPoll,
};
use rns_interface::ble_rnode::startup::{
    is_rnode_handshake_frame, reduce_native_handshake_bytes_preserving_data,
    NativeStartupReductionError,
};
use rns_interface::ble_rnode::target::{bluez_path_mac, learn_stable_name, target_of_uri};
use rns_interface::interface::{InterfaceError, MILLISECOND, SECOND};
use rns_interface::kiss;
use rns_interface::rnode::{self, RNodeRuntimeReason};
use rns_interface::rnode_protocol::{RNodeProtocolState, RNodeProtocolTarget};

// Waiting

#[test]
fn test_wait_or_shutdown_returns_false_when_flag_stays_set() {
    assert_eq!(
        wait_or_shutdown(50 * MILLISECOND, true, 0),
        WaitPoll::Sleep {
            duration: 50 * MILLISECOND
        }
    );
    assert_eq!(
        wait_or_shutdown(50 * MILLISECOND, true, 50 * MILLISECOND),
        WaitPoll::Elapsed
    );
}

#[test]
fn test_wait_or_shutdown_returns_true_when_flag_already_cleared() {
    assert_eq!(wait_or_shutdown(30 * SECOND, false, 0), WaitPoll::ShutDown);
}

#[test]
fn test_wait_or_shutdown_returns_true_when_flag_cleared_mid_wait() {
    assert_eq!(
        wait_or_shutdown(30 * SECOND, true, 0),
        WaitPoll::Sleep { duration: SECOND }
    );
    assert_eq!(
        wait_or_shutdown(30 * SECOND, false, SECOND),
        WaitPoll::ShutDown
    );
}

#[test]
fn wait_lasts_while_the_adapter_is_off() {
    let mut wait = AdapterRetryWait::new(0, 5 * SECOND, Some(CentralState::PoweredOff));
    assert_eq!(
        wait.poll(true, 60 * SECOND),
        WaitPoll::Sleep { duration: SECOND }
    );
    assert_eq!(wait.poll(false, 60 * SECOND), WaitPoll::ShutDown);
    assert!(!wait.observe(CentralState::Unknown));
    assert!(wait.observe(CentralState::PoweredOn));

    let mut powered = AdapterRetryWait::new(0, 5 * SECOND, Some(CentralState::PoweredOn));
    assert!(!powered.observe(CentralState::PoweredOn));
    assert_eq!(powered.poll(true, 5 * SECOND), WaitPoll::Elapsed);
}

#[test]
fn tries_are_unlimited() {
    let mut tries = 7;
    assert!(!reconnect_try_exhausted(&mut tries));
    assert_eq!(tries, 7);
}

// Capability admission

#[test]
fn strict_native_ble_preflight_orders_one_rom_request_before_admission() {
    let mut preflight = CapabilityPreflight::requesting(5 * SECOND, RNODE_NATIVE_HANDSHAKE_PROBE);
    assert_eq!(preflight.poll(true, 0), CapabilityAction::Request);
    assert_eq!(preflight.written(true, 0), None);
    assert_eq!(
        preflight.poll(true, 0),
        CapabilityAction::Wait {
            until: RNODE_NATIVE_HANDSHAKE_PROBE
        }
    );
    // The probe is repeated, the request is not.
    assert_eq!(
        preflight.poll(true, RNODE_NATIVE_HANDSHAKE_PROBE),
        CapabilityAction::Probe
    );
    assert_eq!(preflight.written(true, RNODE_NATIVE_HANDSHAKE_PROBE), None);
    let read = |observation| CapabilityEvent::Read {
        len: 8,
        observation,
    };
    assert_eq!(
        preflight.event(read(CapabilityObservation::Pending), SECOND),
        None
    );
    assert_eq!(
        preflight.event(read(CapabilityObservation::Admitted), SECOND),
        None
    );
    assert_eq!(
        preflight.poll(true, SECOND),
        CapabilityAction::Wait {
            until: SECOND + RNODE_BLE_STARTUP_QUIET
        }
    );
    assert_eq!(
        preflight.poll(true, SECOND + RNODE_BLE_STARTUP_QUIET),
        CapabilityAction::Finish(BleCapabilityOutcome::Admitted)
    );
}

#[test]
fn strict_native_ble_stop_before_preflight_writes_nothing() {
    let preflight = CapabilityPreflight::requesting(5 * SECOND, RNODE_NATIVE_HANDSHAKE_PROBE);
    assert_eq!(
        preflight.poll(false, 0),
        CapabilityAction::Finish(BleCapabilityOutcome::Stopped)
    );
}

fn admitted_preflight() -> CapabilityPreflight {
    let mut preflight = CapabilityPreflight::observing(0, 5 * SECOND);
    assert_eq!(
        preflight.event(
            CapabilityEvent::Read {
                len: 1,
                observation: CapabilityObservation::Admitted
            },
            0
        ),
        None
    );
    preflight
}

#[test]
fn strict_native_ble_boundary_drains_buffered_preinit_read() {
    let mut preflight = admitted_preflight();
    let late = 50 * MILLISECOND;
    assert_eq!(
        preflight.event(
            CapabilityEvent::Read {
                len: 20,
                observation: CapabilityObservation::Admitted
            },
            late
        ),
        None
    );
    assert_eq!(
        preflight.poll(true, RNODE_BLE_STARTUP_QUIET),
        CapabilityAction::Wait {
            until: late + RNODE_BLE_STARTUP_QUIET
        }
    );
    assert_eq!(
        preflight.poll(true, late + RNODE_BLE_STARTUP_QUIET),
        CapabilityAction::Finish(BleCapabilityOutcome::Admitted)
    );
}

#[test]
fn strict_native_ble_boundary_rejects_duplicate_rom_after_admission() {
    let mut preflight = admitted_preflight();
    assert_eq!(
        preflight.event(
            CapabilityEvent::Read {
                len: 20,
                observation: CapabilityObservation::Rejected
            },
            1
        ),
        Some(BleCapabilityOutcome::Rejected)
    );
}

#[test]
fn strict_desktop_ble_preflight_classifies_rejection_and_transient_loss() {
    let mut preflight = CapabilityPreflight::observing(0, 5 * SECOND);
    let retry = |reason| Some(BleCapabilityOutcome::Retry(reason));
    assert_eq!(
        preflight.event(CapabilityEvent::Ended, 1),
        retry(BleCapabilityRetry::TransportEnded)
    );
    assert_eq!(
        preflight.event(CapabilityEvent::IoFailed, 1),
        retry(BleCapabilityRetry::TransportIo)
    );
    assert_eq!(
        preflight.written(false, 1),
        retry(BleCapabilityRetry::TransportIo)
    );
    assert_eq!(
        preflight.event(
            CapabilityEvent::Read {
                len: 1,
                observation: CapabilityObservation::Rejected
            },
            1
        ),
        Some(BleCapabilityOutcome::Rejected)
    );
    assert_eq!(
        preflight.poll(true, 5 * SECOND),
        CapabilityAction::Finish(BleCapabilityOutcome::Retry(
            BleCapabilityRetry::ResponseTimedOut
        ))
    );
    assert_eq!(
        BleCapabilityRetry::ResponseTimedOut.log_class(),
        "response_timeout"
    );
    assert_eq!(
        BleCapabilityRetry::BoundaryOverflow.log_class(),
        "boundary_overflow"
    );
}

#[test]
fn boundary_gives_up_on_endless_traffic() {
    let mut drain = BoundaryDrain::new(0, SECOND, RNODE_BLE_STARTUP_QUIET);
    for _ in 0..BLE_PREFLIGHT_BOUNDARY_MAX_ITEMS {
        assert!(drain.observe(1, 0).is_ok());
    }
    assert_eq!(
        drain.observe(1, 0),
        Err(BleCapabilityRetry::BoundaryOverflow)
    );
    let mut bytes = BoundaryDrain::new(0, SECOND, RNODE_BLE_STARTUP_QUIET);
    assert!(bytes.observe(BLE_PREFLIGHT_BOUNDARY_MAX_BYTES, 0).is_ok());
    assert!(bytes.observe(1, 0).is_err());

    let mut busy = BoundaryDrain::new(0, SECOND, RNODE_BLE_STARTUP_QUIET);
    assert!(busy.observe(1, 950 * MILLISECOND).is_ok());
    assert_eq!(busy.poll(true, SECOND), DrainPoll::TimedOut);
    assert_eq!(busy.poll(false, SECOND), DrainPoll::Stopped);
}

// Handshake

#[test]
fn test_native_ble_handshake_probe_accepts_loopback_batch() {
    let mut handshake = NativeHandshake::new(0, 6 * SECOND, RNODE_NATIVE_HANDSHAKE_PROBE);
    assert_eq!(handshake.poll(true, 0), HandshakeAction::Probe);
    handshake.probe_written(0);
    assert_eq!(
        handshake.poll(true, 1),
        HandshakeAction::Read {
            budget: RNODE_NATIVE_HANDSHAKE_PROBE - 1
        }
    );
    let mut batch = kiss::frame_with_command(rnode::CMD_DETECT, &[rnode::DETECT_RESP]);
    batch.extend(kiss::frame_with_command(rnode::CMD_FW_VERSION, &[1, 52]));
    batch.extend(kiss::frame(b"early"));
    let mut state =
        RNodeProtocolState::new(RNodeProtocolTarget::new(915_000_000, 125_000, 7, 5, 17));
    let mut held = Vec::new();
    let mut held_bytes = 0;
    assert_eq!(
        reduce_native_handshake_bytes_preserving_data(
            &mut state,
            &mut kiss::RawKissDeframer::new(),
            &batch,
            &mut held,
            &mut held_bytes,
        ),
        Ok(true)
    );
    assert_eq!(held, vec![b"early".to_vec()]);
    assert_eq!(held_bytes, 5);
    assert_eq!(
        check_detect_evidence(&state.evidence()),
        Some(BleStartupOutcome::Observed)
    );
    assert_eq!(handshake.poll(true, 6 * SECOND), HandshakeAction::GiveUp);
    assert_eq!(handshake.poll(false, 1), HandshakeAction::GiveUp);
}

#[test]
fn only_answers_of_an_rnode_shake_hands() {
    assert!(is_rnode_handshake_frame(
        rnode::CMD_DETECT,
        &[rnode::DETECT_RESP]
    ));
    assert!(!is_rnode_handshake_frame(rnode::CMD_DETECT, &[0]));
    assert!(!is_rnode_handshake_frame(rnode::CMD_DETECT, &[]));
    assert!(is_rnode_handshake_frame(rnode::CMD_FW_VERSION, &[9]));
    assert!(!is_rnode_handshake_frame(rnode::CMD_FW_VERSION, &[]));
    assert!(!is_rnode_handshake_frame(rnode::CMD_READY, &[1]));
}

#[test]
fn waits_for_evidence_end_in_their_own_words() {
    let end = |wait, event| match startup_wait_event(wait, event) {
        Some(BleStartupOutcome::Retry(failure)) => failure.words(),
        other => panic!("expected a retry, got {other:?}"),
    };
    assert_eq!(
        end(BleStartupWait::Detect, BleStartupEvent::DeadlineElapsed),
        "detect evidence timed out"
    );
    assert_eq!(
        end(BleStartupWait::DesktopReady, BleStartupEvent::StreamEnded),
        "notification stream ended before Ready"
    );
    assert_eq!(
        end(BleStartupWait::NativeReady, BleStartupEvent::StreamFailed),
        "native bridge read failed before typed Ready"
    );
    assert_eq!(
        end(
            BleStartupWait::DesktopReady,
            BleStartupEvent::TargetDisconnected
        ),
        "target disconnected before Ready"
    );
    assert_eq!(
        startup_wait_event(
            BleStartupWait::Detect,
            BleStartupEvent::Poll { running: false }
        ),
        Some(BleStartupOutcome::Stopped)
    );
    assert_eq!(
        startup_wait_event(BleStartupWait::Detect, BleStartupEvent::Progress),
        None
    );
    assert_eq!(
        startup_reduction_failure(NativeStartupReductionError::PreReadyDataOverflow),
        BleStartupFailure::PreReadyDataOverflow
    );
    assert_eq!(
        BleStartupFailure::ReadinessTimedOut.result_class(),
        "deadline_elapsed"
    );

    let mut old =
        RNodeProtocolState::new(RNodeProtocolTarget::new(915_000_000, 125_000, 7, 5, 17));
    old.apply_frame(rnode::CMD_DETECT, &[rnode::DETECT_RESP]);
    assert_eq!(check_detect_evidence(&old.evidence()), None);
    old.apply_frame(rnode::CMD_FW_VERSION, &[1, 51]);
    assert_eq!(
        check_detect_evidence(&old.evidence()),
        Some(BleStartupOutcome::Retry(
            BleStartupFailure::FirmwareUnsupported
        ))
    );
}

// Connecting

fn exit(stage: BleOperationStage) -> Option<BleGenerationExit> {
    Some(BleGenerationExit::DeadlineElapsed { stage })
}

fn failure(step: &ConnectStep) -> &str {
    match step {
        ConnectStep::Failed(error) => error.message(),
        other => panic!("expected a failure, got {other:?}"),
    }
}

#[test]
fn connecting_is_tried_three_times() {
    let mut attempt = ConnectAttempt::new(BlePlatform::Linux);
    for number in 2..=3 {
        attempt.advance(ConnectEvent::ConnectFinished(exit(
            BleOperationStage::Connect,
        )));
        assert!(matches!(attempt.step, ConnectStep::Settle { attempt } if attempt == number));
        attempt.advance(ConnectEvent::Settled);
    }
    attempt.advance(ConnectEvent::ConnectFinished(exit(
        BleOperationStage::Connect,
    )));
    assert!(matches!(attempt.step, ConnectStep::CheckConnected));
    attempt.advance(ConnectEvent::ConnectedChecked(Ok(false)));
    assert_eq!(
        failure(&attempt.step),
        "BLE connect failed after 3 attempts: connect timed out"
    );

    let mut stopped = ConnectAttempt::new(BlePlatform::Linux);
    stopped.advance(ConnectEvent::ConnectFinished(Some(
        BleGenerationExit::StopRequested {
            stage: BleOperationStage::Connect,
        },
    )));
    assert_eq!(failure(&stopped.step), "stop requested during connect");
}

#[test]
fn link_is_paired_as_its_platform_wants() {
    let secured = CharacteristicProperties {
        read: false,
        notify: true,
    };
    for (platform, stage) in [
        (BlePlatform::Apple, BleOperationStage::PairingSubscribe),
        (BlePlatform::Linux, BleOperationStage::Subscribe),
    ] {
        let mut attempt = ConnectAttempt::new(platform);
        attempt.advance(ConnectEvent::ConnectFinished(None));
        attempt.advance(ConnectEvent::ConnectedChecked(Ok(true)));
        attempt.advance(ConnectEvent::DiscoveryFinished(None));
        attempt.advance(ConnectEvent::CharacteristicsFound {
            rx: true,
            tx: Some(secured),
        });
        assert!(matches!(attempt.step, ConnectStep::Subscribe { stage: found } if found == stage));
        attempt.advance(ConnectEvent::SubscribeFinished(None));
        assert!(matches!(attempt.step, ConnectStep::Connected));
    }
    let mut windows = ConnectAttempt::new(BlePlatform::Windows);
    windows.advance(ConnectEvent::ConnectFinished(None));
    windows.advance(ConnectEvent::ConnectedChecked(Ok(true)));
    windows.advance(ConnectEvent::DiscoveryFinished(None));
    windows.advance(ConnectEvent::CharacteristicsFound {
        rx: true,
        tx: Some(secured),
    });
    assert!(matches!(windows.step, ConnectStep::PairingRead));
    windows.advance(ConnectEvent::PairingReadFinished(exit(
        BleOperationStage::PairingRead,
    )));
    assert_eq!(
        failure(&windows.step),
        "BLE pairing timed out. Did you enter the 6-digit passkey shown on the RNode when the system prompted?"
    );

    let mut other = ConnectAttempt::new(BlePlatform::Linux);
    other.advance(ConnectEvent::ConnectFinished(None));
    other.advance(ConnectEvent::ConnectedChecked(Ok(true)));
    other.advance(ConnectEvent::DiscoveryFinished(None));
    other.advance(ConnectEvent::CharacteristicsFound {
        rx: false,
        tx: None,
    });
    assert_eq!(
        failure(&other.step),
        "NUS RX characteristic not found. Is this an RNode?"
    );
    assert_eq!(
        subscribe_stage(Some(DesktopPairingTrigger::EncryptedRead)),
        BleOperationStage::Subscribe
    );
}

#[test]
fn platform_errors_are_told_in_words() {
    assert_eq!(
        bounded_operation_error("scan", Some("busy")).message(),
        "BLE scan: busy"
    );
    assert_eq!(
        bounded_operation_error("scan", None).message(),
        "BLE scan timed out"
    );
    assert_eq!(
        choose_adapter(0),
        Err(InterfaceError::SendFailed("No BLE adapter found".into()))
    );
    assert_eq!(choose_adapter(2), Ok(0));
    let mut generation = BleGenerationId::default();
    generation.next();
    assert_eq!(
        chunk_write_error(
            generation,
            BleOperationStage::Configure,
            0,
            3,
            &BleGenerationExit::StageFailed {
                stage: BleOperationStage::Configure,
                reason: "gatt".into()
            }
        )
        .message(),
        "BLE generation 1 radio configuration write chunk 1/3: radio configuration write: gatt"
    );
}

#[test]
fn addresses_name_their_targets() {
    assert_eq!(target_of_uri("ble://RNode 3B87"), "RNode 3B87");
    assert_eq!(target_of_uri("ble://"), "");
    assert_eq!(target_of_uri("RNode 3B87"), "RNode 3B87");
    assert_eq!(
        bluez_path_mac("hci0/dev_AA_BB_CC_DD_EE_FF").as_deref(),
        Some("AA:BB:CC:DD:EE:FF")
    );
    assert_eq!(bluez_path_mac("hci0"), None);
    assert_eq!(
        generation_selector(BlePlatform::Apple, Some("RNode 1")),
        Some("RNode 1")
    );
    assert_eq!(
        generation_selector(BlePlatform::Windows, Some("RNode 1")),
        None
    );
    let name = |text: &str| Some(text.to_string());
    assert_eq!(
        learn_stable_name(None, name("RNode 1")).as_deref(),
        Some("RNode 1")
    );
    assert_eq!(learn_stable_name(None, name("RNodeless")), None);
    assert_eq!(
        learn_stable_name(name("RNode 1"), name("RNode 2")).as_deref(),
        Some("RNode 1")
    );
}

#[test]
fn pairing_ends_for_the_first_reason_that_holds() {
    let deadline = pairing_deadline(0);
    assert_eq!(deadline, 60 * SECOND);
    assert_eq!(
        pairing_step(true, OperationPoll::Succeeded, 0, deadline),
        Some(LinuxPairOutcome::Cancelled)
    );
    assert_eq!(
        pairing_step(false, OperationPoll::Succeeded, deadline, deadline),
        Some(LinuxPairOutcome::Paired)
    );
    assert_eq!(
        pairing_step(false, OperationPoll::Failed("auth".into()), 0, deadline),
        Some(LinuxPairOutcome::Failed("auth".into()))
    );
    assert_eq!(
        pairing_step(false, OperationPoll::Pending, deadline, deadline),
        Some(LinuxPairOutcome::TimedOut)
    );
    assert_eq!(pairing_step(false, OperationPoll::Pending, 0, deadline), None);
    assert_eq!(LinuxPairOutcome::Paired.into_result(), Ok(true));
    assert_eq!(
        LinuxPairOutcome::Failed("auth".into()).into_result(),
        Err(InterfaceError::SendFailed(
            "BLE pairing failed: auth".into()
        ))
    );

    let mut pairing = LinuxPairing::new();
    pairing.begin_attempt();
    let (attempt, number) = pairing.request_passkey().unwrap();
    pairing.abandon_passkey(attempt, number);
    assert_eq!(pairing.poll_passkey(attempt, number), PasskeyWait::Canceled);
}

// The driver

#[test]
fn desktop_driver_brings_a_generation_up_and_tries_again() {
    let mut driver = BleDriver::new(BleTransport::Desktop, false);
    assert!(driver
        .advance(DriverEvent::Checked { running: true })
        .is_empty());
    for phase in [
        DriverPhase::AcquireAdapter,
        DriverPhase::Connect,
        DriverPhase::AcquireNotifications,
        DriverPhase::WriteDetect,
        DriverPhase::Handshake,
        DriverPhase::Configure,
    ] {
        assert_eq!(driver.phase(), phase);
        assert!(driver.advance(DriverEvent::Succeeded).is_empty());
    }
    assert_eq!(driver.generation().get(), 1);
    assert_eq!(
        driver.advance(DriverEvent::Succeeded),
        vec![
            DriverEffect::ConnectionEstablished,
            DriverEffect::SyncProtocolState,
            DriverEffect::SetOnline(true),
        ]
    );
    assert_eq!(
        driver.advance(DriverEvent::Ended {
            exit: ActiveExit::TargetDisconnected,
            running: true
        }),
        vec![
            DriverEffect::SetOnline(false),
            DriverEffect::Disconnect,
            DriverEffect::ConnectionLost,
            DriverEffect::Wait {
                seconds: 1,
                jitter: true,
                adapter: true
            },
        ]
    );
    driver.advance(DriverEvent::Waited { stopped: false });
    assert_eq!(
        driver.advance(DriverEvent::Checked { running: true }),
        vec![DriverEffect::ReconnectStarted]
    );
    assert_eq!(
        driver.advance(DriverEvent::Failed {
            pairing: false,
            running: true
        }),
        vec![
            DriverEffect::ConnectionAttemptFailed,
            DriverEffect::Wait {
                seconds: 2,
                jitter: false,
                adapter: false
            },
        ]
    );
    assert_eq!(driver.phase(), DriverPhase::Waiting { next_backoff: 4 });
    assert_eq!(
        driver.advance(DriverEvent::Waited { stopped: true }),
        vec![
            DriverEffect::ShuttingDown(RNodeRuntimeReason::StopRequested),
            DriverEffect::Stopped(RNodeRuntimeReason::StopRequested),
        ]
    );
    assert!(driver
        .advance(DriverEvent::Checked { running: true })
        .is_empty());
}

#[test]
fn strict_native_ble_spawn_publishes_deterministic_rejection_as_terminal() {
    let mut driver = BleDriver::new(BleTransport::Native, true);
    driver.advance(DriverEvent::Checked { running: true });
    driver.advance(DriverEvent::Succeeded);
    assert_eq!(driver.phase(), DriverPhase::ObserveCapability);
    assert_eq!(
        driver.advance(DriverEvent::Rejected),
        vec![DriverEffect::StoppedForAdmissionRejection]
    );
    assert_eq!(driver.phase(), DriverPhase::Stopped);
}

#[test]
fn configured_radio_is_switched_off_by_a_stop() {
    let mut driver = BleDriver::new(BleTransport::Native, true);
    driver.advance(DriverEvent::Checked { running: true });
    driver.advance(DriverEvent::Succeeded);
    driver.advance(DriverEvent::Succeeded);
    assert_eq!(driver.phase(), DriverPhase::RadioGate);
    driver.advance(DriverEvent::Checked { running: true });
    assert_eq!(driver.phase(), DriverPhase::BridgeGate);
    driver.advance(DriverEvent::Checked { running: true });
    assert_eq!(driver.phase(), DriverPhase::Configure);
    driver.advance(DriverEvent::Succeeded);
    assert_eq!(
        driver.advance(DriverEvent::Checked { running: false }),
        vec![
            DriverEffect::ShuttingDown(RNodeRuntimeReason::StopRequested),
            DriverEffect::RadioOff,
            DriverEffect::Stopped(RNodeRuntimeReason::StopRequested),
        ]
    );

    let mut early = BleDriver::new(BleTransport::Desktop, true);
    early.advance(DriverEvent::Checked { running: true });
    for _ in 0..4 {
        early.advance(DriverEvent::Succeeded);
    }
    assert_eq!(early.phase(), DriverPhase::CapabilityGate);
    assert_eq!(
        early.advance(DriverEvent::Checked { running: false }),
        vec![
            DriverEffect::Disconnect,
            DriverEffect::ShuttingDown(RNodeRuntimeReason::StopRequested),
            DriverEffect::Stopped(RNodeRuntimeReason::StopRequested),
        ]
    );
}

#[test]
fn stop_seen_before_a_strict_bridge_is_configured_detaches() {
    let mut driver = BleDriver::new(BleTransport::Native, true);
    driver.advance(DriverEvent::Checked { running: true });
    driver.advance(DriverEvent::Succeeded);
    driver.advance(DriverEvent::Succeeded);
    assert!(driver
        .advance(DriverEvent::Checked { running: true })
        .is_empty());
    assert_eq!(
        driver.advance(DriverEvent::Checked { running: false }),
        vec![
            DriverEffect::ShuttingDown(RNodeRuntimeReason::StopRequested),
            DriverEffect::RadioOff,
            DriverEffect::Stopped(RNodeRuntimeReason::StopRequested),
        ]
    );
    assert_eq!(driver.phase(), DriverPhase::Stopped);

    let mut early = BleDriver::new(BleTransport::Native, true);
    early.advance(DriverEvent::Checked { running: true });
    early.advance(DriverEvent::Succeeded);
    early.advance(DriverEvent::Succeeded);
    assert_eq!(
        early.advance(DriverEvent::Checked { running: false }),
        vec![
            DriverEffect::ShuttingDown(RNodeRuntimeReason::StopRequested),
            DriverEffect::Stopped(RNodeRuntimeReason::StopRequested),
        ]
    );
}

#[test]
fn waits_and_names_follow_what_was_found() {
    assert_eq!(bond_settle(true), Some(2_600 * MILLISECOND));
    assert_eq!(bond_settle(false), None);
    let tx = CharacteristicProperties {
        read: true,
        notify: true,
    };
    assert!(learns_name(true, Some(tx)));
    assert!(!learns_name(false, Some(tx)));
    assert!(!learns_name(true, None));
    assert_eq!(
        bridge_detach_settle(DriverPhase::Active),
        Some(100 * MILLISECOND)
    );
    assert_eq!(bridge_detach_settle(DriverPhase::AwaitReady), None);
    assert_eq!(existing_bond(true), Some(false));
    assert_eq!(existing_bond(false), None);
}

#[test]
fn bond_in_the_making_is_retried_after_a_second() {
    let mut driver = BleDriver::new(BleTransport::Desktop, false);
    driver.advance(DriverEvent::Checked { running: true });
    driver.advance(DriverEvent::Succeeded);
    assert_eq!(
        driver.advance(DriverEvent::Failed {
            pairing: true,
            running: true
        }),
        vec![
            DriverEffect::ConnectionAttemptFailed,
            DriverEffect::Wait {
                seconds: 1,
                jitter: false,
                adapter: true
            },
        ]
    );
    assert_eq!(driver.phase(), DriverPhase::Waiting { next_backoff: 1 });
}
