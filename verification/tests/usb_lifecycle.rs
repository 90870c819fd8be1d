use bytes::Bytes;
use rns_interface::android_usb::config::USB_DETACH_ACK_DEADLINE;
use rns_interface::android_usb::driver::{session_announcement, UsbAnnouncement};
use rns_interface::android_usb_lifecycle::device::{
    resolve_usb_device, UsbDeviceCandidate, UsbDeviceResolutionError, UsbDeviceSelector,
};
use rns_interface::android_usb_lifecycle::gate::{UsbTxGate, USB_PROTOCOL_READINESS_DEADLINE};
use rns_interface::android_usb_lifecycle::inbound::{
    drain_outcome, drain_turn, forward_outcome, UsbDrainEvent, UsbForward, UsbInboundOutcome,
    UsbInboundState, UsbIoEvent, UsbReadDrainOutcome,
};
use rns_interface::android_usb_lifecycle::lease::{UsbLeaseKind, UsbLeaseTable};
use rns_interface::android_usb_lifecycle::pump::{
    UsbPumpAction, UsbPumpEvent, UsbTxPump, UsbTxPumpExit,
};
use rns_interface::android_usb_lifecycle::queue::{UsbEnqueue, UsbQueuePoll, UsbWriteQueue};
use rns_interface::android_usb_lifecycle::reader::{
    reader_action, unforwarded_exit, UsbReadResult, UsbReaderAction, UsbReaderBoundary,
    UsbReaderExit,
};
use rns_interface::android_usb_lifecycle::shutdown::{
    after_join, after_release, join_outcome, UsbCleanupDisposition, UsbConnectionCleanup, UsbJoin,
    UsbJoinOutcome, UsbJoinedSession, UsbShutdownReport, UsbShutdownStep,
};
use rns_interface::android_usb_lifecycle::startup::{
    startup_detach_wait, UsbRNodeStartup, UsbStartupAction, UsbStartupEvent, UsbStartupFailure,
};
use rns_interface::android_usb_lifecycle::write::{
    acknowledgement_result, acknowledgement_time, transfer_timeout, UsbAcknowledgement,
    UsbPacketWrite, UsbTransferError, UsbWriteFailure, UsbWriteFailureKind, UsbWritePhase,
    UsbWriteProgress, UsbWriteRequest, UsbWriteStep,
};
use rns_interface::android_usb_lifecycle::writer::{
    gate_result, UsbWriter, UsbWriterExit, UsbWriterNext, UsbWriterPoll,
};
use rns_interface::ble_rnode::config::StationBeacon;
use rns_interface::ble_rnode::preflight::CapabilityObservation;
use rns_interface::interface::{MILLISECOND, SECOND};
use rns_interface::kiss;
use rns_interface::rnode;
use rns_interface::rnode_protocol::{
    RNodeProtocolEffect, RNodeProtocolState, RNodeProtocolTarget, RNodeReadiness,
};

fn usb_candidate(
    device_name: &str,
    vendor_id: u16,
    product_id: u16,
    serial_number: Option<&str>,
    has_permission: bool,
) -> UsbDeviceCandidate {
    UsbDeviceCandidate {
        device_name: device_name.into(),
        vendor_id,
        product_id,
        serial_number: serial_number.map(str::to_string),
        has_permission,
    }
}

#[test]
fn listing_order_does_not_change_what_is_resolved() {
    let selector = UsbDeviceSelector {
        legacy_device_name: "gone".into(),
        vendor_id: Some(0x303a),
        product_id: Some(0x1001),
        serial_number: Some("ABC".into()),
    };
    let mut bus = vec![
        usb_candidate("one", 0x303a, 0x1001, Some("XYZ"), true),
        usb_candidate("two", 0x303a, 0x1001, Some("ABC"), true),
        usb_candidate("three", 0x0403, 0x6001, None, true),
    ];
    let (first, _) = resolve_usb_device(&selector, &bus).unwrap();
    bus.reverse();
    let (second, _) = resolve_usb_device(&selector, &bus).unwrap();
    assert_eq!(first, second);
    assert_eq!(first.device_name, "two");
}

#[test]
fn legacy_usb_path_learns_stable_identity_and_survives_path_change() {
    let legacy = UsbDeviceSelector {
        legacy_device_name: "/dev/bus/usb/001/002".into(),
        vendor_id: None,
        product_id: None,
        serial_number: None,
    };
    let first = usb_candidate("/dev/bus/usb/001/002", 0x303a, 0x1001, Some("ABC"), true);
    let (_, learned) = resolve_usb_device(&legacy, &[first]).expect("legacy first generation");
    let moved = usb_candidate("/dev/bus/usb/001/009", 0x303a, 0x1001, Some("ABC"), true);
    let (resolved, _) =
        resolve_usb_device(&learned, &[moved]).expect("stable selector after replug");
    assert_eq!(resolved.device_name, "/dev/bus/usb/001/009");
}

#[test]
fn usb_selector_fails_closed_on_ambiguity_and_permission_loss() {
    let selector = UsbDeviceSelector {
        legacy_device_name: "old".into(),
        vendor_id: Some(0x303a),
        product_id: Some(0x1001),
        serial_number: None,
    };
    let a = usb_candidate("a", 0x303a, 0x1001, None, true);
    let b = usb_candidate("b", 0x303a, 0x1001, None, true);
    assert_eq!(
        resolve_usb_device(&selector, &[a.clone(), b]),
        Err(UsbDeviceResolutionError::Ambiguous { matches: 2 })
    );
    let denied = UsbDeviceCandidate {
        has_permission: false,
        ..a
    };
    assert_eq!(
        resolve_usb_device(&selector, &[denied]),
        Err(UsbDeviceResolutionError::PermissionRequired {
            device_name: "a".into()
        })
    );

    let serial_selector = UsbDeviceSelector {
        serial_number: Some("ABC".into()),
        ..selector
    };
    let moved_denied = usb_candidate("moved", 0x303a, 0x1001, None, false);
    assert_eq!(
        resolve_usb_device(&serial_selector, &[moved_denied]),
        Err(UsbDeviceResolutionError::PermissionRequired {
            device_name: "moved".into()
        })
    );
    let restored = usb_candidate("moved", 0x303a, 0x1001, Some("ABC"), true);
    let (resolved, learned) = resolve_usb_device(&serial_selector, &[restored])
        .expect("restored permission confirms saved serial");
    assert_eq!(resolved.device_name, "moved");
    assert_eq!(learned.serial_number.as_deref(), Some("ABC"));
}

#[test]
fn lease_table_serialises_open_activate_release_and_permanent_quarantine() {
    let mut leases = UsbLeaseTable::default();
    leases.reserve_opening("device").expect("opening lease");
    assert_eq!(leases.state("device"), Some((UsbLeaseKind::Opening, 0)));
    assert!(leases.reserve_opening("device").is_err());
    leases
        .release_opening("device")
        .expect("proven setup close releases Opening");
    assert_eq!(leases.state("device"), None);

    leases.reserve_opening("device").expect("second opening");
    leases.activate("device").expect("activate");
    assert_eq!(leases.state("device"), Some((UsbLeaseKind::Active, 0)));
    assert!(leases.reserve_opening("device").is_err());
    leases
        .release_active("device")
        .expect("proven runtime close releases Active");
    assert_eq!(leases.state("device"), None);

    leases.reserve_opening("device").expect("third opening");
    leases.quarantine("device", "first owner");
    leases.quarantine("device", "second owner");
    assert_eq!(leases.state("device"), Some((UsbLeaseKind::Quarantined, 2)));
    assert!(leases.reserve_opening("device").is_err());
    assert!(leases.release_opening("device").is_err());
    assert!(leases.release_active("device").is_err());
}

// Protocol evidence

fn usb_test_target() -> RNodeProtocolTarget {
    RNodeProtocolTarget::new(915_000_000, 125_000, 7, 5, 17)
}

fn required_protocol_frames(target: RNodeProtocolTarget) -> [(u8, Vec<u8>); 8] {
    [
        (rnode::CMD_DETECT, vec![rnode::DETECT_RESP]),
        (
            rnode::CMD_FW_VERSION,
            vec![rnode::REQUIRED_FW_VER_MAJ, rnode::REQUIRED_FW_VER_MIN],
        ),
        (
            rnode::CMD_FREQUENCY,
            target.frequency.to_be_bytes().to_vec(),
        ),
        (
            rnode::CMD_BANDWIDTH,
            target.bandwidth.to_be_bytes().to_vec(),
        ),
        (rnode::CMD_SF, vec![target.spreading_factor]),
        (rnode::CMD_CR, vec![target.coding_rate]),
        (rnode::CMD_TXPOWER, vec![target.tx_power]),
        (rnode::CMD_RADIO_STATE, vec![rnode::RADIO_STATE_ON]),
    ]
}

fn framed_protocol_frames(frames: impl IntoIterator<Item = (u8, Vec<u8>)>) -> Vec<u8> {
    let mut wire = Vec::new();
    for (command, payload) in frames {
        kiss::frame_with_command_into(command, &payload, &mut wire);
    }
    wire
}

fn projected_inbound() -> UsbInboundState {
    UsbInboundState::projected_with_protocol_state(
        0x55,
        RNodeProtocolState::new(usb_test_target()),
        0,
    )
}

fn project(inbound: &mut UsbInboundState, gate: &mut Option<UsbTxGate>, now: u128) {
    for (command, frame) in required_protocol_frames(usb_test_target()) {
        inbound.frame(gate, command, &frame, now);
    }
}

fn ready_tx_gate(flow_control: bool) -> UsbTxGate {
    let mut gate = Some(UsbTxGate::new(flow_control, 0));
    project(&mut projected_inbound(), &mut gate, 0);
    let gate = gate.unwrap();
    assert!(gate.is_ready());
    gate
}

#[test]
fn usb_packet_writes_require_fresh_protocol_and_configured_flow_permission() {
    for flow_control in [false, true] {
        let mut gate = Some(UsbTxGate::new(flow_control, 0));
        let mut inbound = projected_inbound();
        inbound.frame(&mut gate, rnode::CMD_READY, &[1], 1);
        assert!(
            !gate.unwrap().can_send(),
            "CMD_READY alone is not protocol Ready"
        );
        inbound.frame(&mut gate, rnode::CMD_READY, &[0], 2);
        let mut evidence = required_protocol_frames(usb_test_target());
        evidence[2].1 = 100_000_000u32.to_be_bytes().to_vec();
        let mut frames = inbound.deframe(&framed_protocol_frames(evidence));
        assert!(inbound.next_packet(&mut gate, &mut frames, &mut Vec::new(), 3).is_none());
        assert!(
            !gate.unwrap().can_send(),
            "mismatched RF evidence must not admit a packet"
        );
        inbound.frame(
            &mut gate,
            rnode::CMD_FREQUENCY,
            &usb_test_target().frequency.to_be_bytes(),
            4,
        );
        assert!(gate.unwrap().is_ready());
        let mut open = gate.unwrap();
        if flow_control {
            assert!(!open.can_send());
            inbound.frame(&mut gate, rnode::CMD_READY, &[1], 5);
            open = gate.unwrap();
            assert!(open.take_permit());
            gate = Some(open);
            inbound.frame(&mut gate, rnode::CMD_READY, &[1, 1], 6);
            assert!(
                !gate.unwrap().can_send(),
                "malformed grant must not release packet two"
            );
            // A repeated valid READY=1 must replenish a consumed permit.
            inbound.frame(&mut gate, rnode::CMD_READY, &[1], 7);
            open = gate.unwrap();
        }
        assert!(open.take_permit());
        open.close();
        assert!(!open.is_ready());
        assert!(!open.can_send());
    }
}

#[test]
fn usb_absent_protocol_readiness_has_a_bounded_generation_deadline() {
    let gate = UsbTxGate::new(false, 0);
    let mut pump = UsbTxPump::new(None);
    match pump.poll(&gate, false, false, 0) {
        UsbPumpAction::AwaitGate { until } => {
            assert_eq!(until, Some(USB_PROTOCOL_READINESS_DEADLINE))
        }
        other => panic!("expected the pump to wait for the transmit gate, got {other:?}"),
    }
    assert_eq!(
        pump.event(
            UsbPumpEvent::Elapsed,
            &gate,
            USB_PROTOCOL_READINESS_DEADLINE + MILLISECOND
        ),
        Some(UsbTxPumpExit::ReadinessTimedOut)
    );
    assert!(!gate.is_ready());
}

#[test]
fn changes_of_the_gate_do_not_starve_the_readiness_deadline() {
    let gate = UsbTxGate::new(false, 0);
    let mut pump = UsbTxPump::new(None);
    assert_eq!(
        pump.event(
            UsbPumpEvent::Changed,
            &gate,
            USB_PROTOCOL_READINESS_DEADLINE - 1
        ),
        None
    );
    assert_eq!(
        pump.event(UsbPumpEvent::Changed, &gate, USB_PROTOCOL_READINESS_DEADLINE),
        Some(UsbTxPumpExit::ReadinessTimedOut)
    );
}

#[test]
fn closed_application_comes_before_the_readiness_deadline_of_a_packet_wait() {
    let gate = UsbTxGate::new(false, 0);
    let late = USB_PROTOCOL_READINESS_DEADLINE;
    let mut pump = UsbTxPump::new(None);
    assert_eq!(pump.event(UsbPumpEvent::PacketWaitOver, &gate, late), None);
    assert!(matches!(
        pump.poll(&gate, true, false, late),
        UsbPumpAction::Exit(UsbTxPumpExit::ApplicationClosed)
    ));
    assert!(matches!(
        pump.poll(&gate, false, false, late),
        UsbPumpAction::AwaitGate { until: Some(until) } if until == late
    ));
    assert_eq!(
        pump.event(UsbPumpEvent::Elapsed, &gate, late),
        Some(UsbTxPumpExit::ReadinessTimedOut)
    );
}

#[test]
fn usb_coverage_review_recovered_gate_outlives_an_already_ready_stale_timer() {
    let mut gate = Some(UsbTxGate::new(true, 0));
    let mut inbound = projected_inbound();
    inbound.frame(&mut gate, rnode::CMD_READY, &[0], 0);
    let mut pump = UsbTxPump::new(None);
    assert!(matches!(
        pump.poll(&gate.unwrap(), false, false, 0),
        UsbPumpAction::AwaitGate { until: Some(_) }
    ));
    let now = USB_PROTOCOL_READINESS_DEADLINE;
    project(&mut inbound, &mut gate, now);
    let recovered = gate.unwrap();
    assert!(recovered.is_ready());
    assert!(
        !recovered.can_send(),
        "protocol recovery cannot invent a flow grant"
    );
    assert_eq!(
        pump.event(UsbPumpEvent::Elapsed, &recovered, now),
        None,
        "an expired timer snapshot must re-check current protocol readiness"
    );
    assert!(
        matches!(
            pump.poll(&recovered, false, false, 3 * now),
            UsbPumpAction::AwaitGate { until: None }
        ),
        "flow-only waiting has no protocol readiness deadline"
    );
    assert_eq!(
        pump.event(UsbPumpEvent::Stop, &recovered, 3 * now),
        Some(UsbTxPumpExit::StopRequested)
    );
}

#[test]
fn usb_readiness_recovers_after_long_idle_without_reusing_a_flow_grant() {
    for fault in [rnode::CMD_RESET, rnode::CMD_FREQUENCY] {
        let mut gate = Some(UsbTxGate::new(true, 0));
        let mut inbound = projected_inbound();
        project(&mut inbound, &mut gate, 0);
        assert!(gate.unwrap().can_send());
        let frame = if fault == rnode::CMD_RESET {
            vec![0xF8]
        } else {
            100_000_000u32.to_be_bytes().to_vec()
        };
        inbound.frame(&mut gate, fault, &frame, 60 * SECOND);
        let mut lost = gate.unwrap();
        assert!(
            !lost.take_permit(),
            "readiness loss fences the writer immediately"
        );
        assert!(
            !lost.readiness_expired(60 * SECOND),
            "idle startup age is not a new recovery deadline"
        );
        project(&mut inbound, &mut gate, 65 * SECOND);
        assert!(gate.unwrap().is_ready());
        assert!(
            !gate.unwrap().can_send(),
            "a pre-fault flow permit must not survive recovery"
        );
        inbound.frame(&mut gate, rnode::CMD_READY, &[1], 65 * SECOND);
        assert!(gate.unwrap().can_send());
        assert!(
            !gate.unwrap().readiness_expired(85 * SECOND),
            "successful recovery retires its deadline"
        );
    }
}

#[test]
fn usb_readiness_loss_gets_one_fresh_bounded_episode_after_idle() {
    let mut gate = Some(UsbTxGate::new(false, 0));
    let mut inbound = projected_inbound();
    project(&mut inbound, &mut gate, 0);
    inbound.frame(&mut gate, rnode::CMD_RESET, &[0xF8], 60 * SECOND);
    let deadline = gate.unwrap().readiness_deadline().unwrap();
    assert_eq!(deadline, 70 * SECOND);
    assert!(!gate.unwrap().readiness_expired(69 * SECOND));
    inbound.frame(&mut gate, rnode::CMD_RESET, &[0xF8], 69 * SECOND);
    inbound.frame(&mut gate, rnode::CMD_FREQUENCY, &[1], 69 * SECOND); // Malformed evidence.
    assert_eq!(gate.unwrap().readiness_deadline(), Some(deadline));
    assert!(gate.unwrap().readiness_expired(71 * SECOND));
    assert!(!gate.unwrap().can_send());
}

#[test]
fn projected_ready_frames_preserve_the_following_packet_and_accounting() {
    let mut inbound = projected_inbound();
    let payload = vec![0xAA, kiss::FEND, kiss::FESC, 0x55];
    let mut wire = framed_protocol_frames(required_protocol_frames(usb_test_target()));
    kiss::frame_with_command_into(kiss::CMD_DATA, &payload, &mut wire);
    let split = wire.len() / 2;
    let mut gate = Some(UsbTxGate::new(false, 0));
    let mut packets = Vec::new();
    for chunk in [&wire[..split], &wire[split..]] {
        let mut frames = inbound.deframe(chunk);
        while let Some(packet) = inbound.next_packet(&mut gate, &mut frames, &mut Vec::new(), 0) {
            packets.push(packet);
        }
    }
    assert!(gate.unwrap().is_ready());
    assert_eq!(packets.len(), 1);
    assert_eq!(packets[0].raw, payload);
    assert_eq!(packets[0].interface_id, 0x55);
    assert_eq!(inbound.received_bytes(), payload.len() as u64);
}

#[test]
fn malformed_and_unknown_control_frames_do_not_change_usb_observation() {
    let malformed = [
        (0xE7, vec![0xDE, 0xAD]),
        (rnode::CMD_DETECT, Vec::new()),
        (rnode::CMD_FW_VERSION, vec![rnode::REQUIRED_FW_VER_MAJ]),
        (rnode::CMD_FREQUENCY, vec![1, 2, 3]),
        (rnode::CMD_RADIO_STATE, vec![2]),
        (rnode::CMD_READY, vec![1, 0]),
        (rnode::CMD_RESET, vec![0]),
        (rnode::CMD_ERROR, vec![0x7F]),
    ];
    let mut protocol = RNodeProtocolState::new(usb_test_target());
    let before = protocol.evidence();
    for (command, frame) in &malformed {
        assert_eq!(
            protocol.apply_frame(*command, frame),
            RNodeProtocolEffect::NoChange
        );
    }
    assert_eq!(protocol.evidence(), before);

    let mut inbound = projected_inbound();
    let mut gate = Some(UsbTxGate::new(true, 0));
    let mut frames = inbound.deframe(&framed_protocol_frames(malformed));
    let mut observations = Vec::new();
    assert!(inbound
        .next_packet(&mut gate, &mut frames, &mut observations, 5)
        .is_none());
    assert_eq!(observations.len(), 8);
    assert!(observations.iter().all(|observation| {
        observation.effect == RNodeProtocolEffect::NoChange
            && observation.state == RNodeProtocolState::new(usb_test_target())
            && observation.reason().is_none()
    }));
    assert_eq!(gate, Some(UsbTxGate::new(true, 0)));
    assert_eq!(inbound.received_bytes(), 0);
}

#[test]
fn frames_of_a_session_are_observed_as_they_come() {
    let target = usb_test_target();
    let mut inbound = projected_inbound();
    let mut gate = Some(UsbTxGate::new(false, 0));
    let mut wire = framed_protocol_frames(required_protocol_frames(target));
    kiss::frame_with_command_into(kiss::CMD_DATA, b"packet", &mut wire);
    kiss::frame_with_command_into(rnode::CMD_RESET, &[rnode::RESET_ANNOUNCEMENT], &mut wire);
    let mut frames = inbound.deframe(&wire);
    let mut observations = Vec::new();
    let packet = inbound
        .next_packet(&mut gate, &mut frames, &mut observations, 0)
        .unwrap();
    assert_eq!(packet.raw, b"packet");
    let ready = observations[observations.len() - 2];
    assert_eq!(ready.effect, RNodeProtocolEffect::Changed);
    assert_eq!(ready.state.readiness(), RNodeReadiness::Ready);
    assert_ne!(
        observations[0].state.readiness(),
        RNodeReadiness::Ready,
        "each observation shows what its own frame left"
    );
    let last = observations[observations.len() - 1];
    assert_eq!(last.effect, RNodeProtocolEffect::NoChange, "a packet is no evidence");
    assert_eq!(inbound.protocol(), Some(last.state));

    let before = observations.len();
    assert!(inbound
        .next_packet(&mut gate, &mut frames, &mut observations, 0)
        .is_none());
    assert_eq!(observations.len(), before + 1);
    let reset = observations[before];
    assert_eq!(reset.effect, RNodeProtocolEffect::DeviceReset);
    assert_eq!(reset.reason(), Some(rnode::RNodeRuntimeReason::DeviceReset));
    assert_ne!(reset.state.readiness(), RNodeReadiness::Ready);

    let mut silent = UsbInboundState::new(1);
    assert!(silent.protocol().is_none());
    assert!(silent
        .frame(&mut None, rnode::CMD_READY, &[1], 0)
        .observation
        .is_none());
}

#[test]
fn cmd_ready_diagnostics_do_not_substitute_for_protocol_readiness() {
    let mut inbound = projected_inbound();
    let mut gate = Some(UsbTxGate::new(false, 0));
    inbound.frame(&mut gate, rnode::CMD_READY, &[0], 0);
    assert!(
        !gate.unwrap().can_send(),
        "flow-control off still requires typed readiness"
    );
}

// Writes

fn request(phase: UsbWritePhase, bytes: Vec<u8>) -> UsbWriteRequest<u8> {
    UsbWriteRequest {
        phase,
        bytes,
        deadline: None,
        acknowledgement: None,
        await_terminal_detach_on_failure: false,
        packet: None,
    }
}

/// Writes a request with scripted transfers; returns the pieces offered.
fn write(
    request: &UsbWriteRequest<u8>,
    script: Vec<Result<i32, UsbTransferError>>,
    now: u128,
) -> (Vec<Vec<u8>>, Result<u64, UsbWriteFailure>) {
    let mut script = script.into_iter();
    let mut calls = Vec::new();
    let mut progress = UsbWriteProgress::new(request, 100 * MILLISECOND);
    loop {
        match progress.next(now) {
            UsbWriteStep::Complete => break,
            UsbWriteStep::Fail(failure) => return (calls, Err(failure)),
            UsbWriteStep::Transfer { offset, .. } => {
                calls.push(request.bytes[offset..].to_vec());
                let answer = script
                    .next()
                    .unwrap_or(Ok((request.bytes.len() - offset) as i32));
                if let Some(failure) = progress.transferred(answer) {
                    return (calls, Err(failure));
                }
            }
        }
    }
    let completion = progress.finish(now);
    (calls, completion.result.map(|()| completion.counted))
}

#[test]
fn positive_short_writes_advance_until_the_full_request_is_acked() {
    let (calls, result) = write(
        &request(UsbWritePhase::Initialise, vec![1, 2, 3, 4, 5]),
        vec![Ok(2), Ok(1), Ok(2)],
        0,
    );
    assert_eq!(result, Ok(0));
    assert_eq!(
        calls,
        vec![vec![1, 2, 3, 4, 5], vec![3, 4, 5], vec![4, 5]]
    );
}

#[test]
fn invalid_transfer_results_fail_without_false_acknowledgement() {
    let cases = [
        (Ok(0), UsbWriteFailureKind::ZeroLength),
        (Ok(-1), UsbWriteFailureKind::NegativeLength(-1)),
        (
            Ok(4),
            UsbWriteFailureKind::OversizedLength {
                returned: 4,
                remaining: 3,
            },
        ),
        (
            Err(UsbTransferError::WrongReturnType),
            UsbWriteFailureKind::WrongReturnType,
        ),
        (
            Err(UsbTransferError::Backend("jni".into())),
            UsbWriteFailureKind::Backend("jni".into()),
        ),
    ];

    for (result, expected) in cases {
        let (_, outcome) = write(
            &request(UsbWritePhase::Initialise, vec![1, 2, 3]),
            vec![result],
            0,
        );
        let error = outcome.expect_err("invalid transfer result must fail");
        assert_eq!(error.kind, expected);
        let mut writer = UsbWriter::new();
        assert!(matches!(
            writer.finished(UsbWritePhase::Initialise, false, &Err(error)),
            UsbWriterNext::OfflineExit(UsbWriterExit::Failed(_))
        ));
    }
}

#[test]
fn completed_transfer_after_absolute_deadline_is_not_acknowledged() {
    let mut late = request(UsbWritePhase::Detach, vec![1, 2, 3]);
    late.deadline = Some(15 * MILLISECOND);
    let mut progress = UsbWriteProgress::new(&late, SECOND);
    match progress.next(0) {
        UsbWriteStep::Transfer { offset: 0, timeout } => assert!(timeout <= 15 * MILLISECOND),
        other => panic!("expected a transfer, got {other:?}"),
    }
    assert_eq!(progress.transferred(Ok(3)), None);
    assert_eq!(progress.next(25 * MILLISECOND), UsbWriteStep::Complete);
    let completion = progress.finish(25 * MILLISECOND);
    assert_eq!(
        completion.result.unwrap_err().kind,
        UsbWriteFailureKind::DeadlineElapsed
    );
}

#[test]
fn usb_late_complete_write_is_counted_once_and_not_replayed_after_join() {
    let gate = ready_tx_gate(false);
    let mut pump = UsbTxPump::new(None);
    pump.event(
        UsbPumpEvent::Packet(Bytes::from_static(b"first")),
        &gate,
        0,
    );
    let (bytes, payload_len, deadline) = match pump.poll(&gate, false, false, 0) {
        UsbPumpAction::Write {
            bytes,
            payload_len,
            deadline,
        } => (bytes, payload_len, deadline),
        other => panic!("expected a write, got {other:?}"),
    };
    assert_eq!(deadline, 2 * SECOND);
    let mut packet = request(UsbWritePhase::Packet, bytes);
    packet.deadline = Some(deadline);
    packet.packet = Some(UsbPacketWrite { payload_len });
    let mut progress = UsbWriteProgress::new(&packet, 100 * MILLISECOND);
    assert_eq!(
        progress.transferred(Ok(packet.bytes.len() as i32)),
        None
    );
    let completion = progress.finish(3 * SECOND);
    assert_eq!(completion.counted, 5, "a late packet counts as sent");
    assert!(completion.result.is_err());
    let failure = acknowledgement_result(UsbWritePhase::Packet, UsbAcknowledgement::TimedOut);
    assert!(matches!(
        pump.event(UsbPumpEvent::Written(failure), &gate, 3 * SECOND),
        Some(UsbTxPumpExit::WriterRejected(_))
    ));

    // The next session must skip the packet that is known to be written.
    pump.begin_generation();
    let next_gate = ready_tx_gate(false);
    assert!(matches!(
        pump.poll(&next_gate, false, true, 4 * SECOND),
        UsbPumpAction::AwaitPacket { .. }
    ));
    pump.event(
        UsbPumpEvent::Packet(Bytes::from_static(b"second")),
        &next_gate,
        4 * SECOND,
    );
    match pump.poll(&next_gate, false, false, 4 * SECOND) {
        UsbPumpAction::Write { bytes, .. } => assert_eq!(bytes, kiss::frame(b"second")),
        other => panic!("expected a write, got {other:?}"),
    }
}

#[test]
fn usb_failed_packet_write_is_not_counted_and_retains_complete_payload() {
    let gate = ready_tx_gate(false);
    let mut pump = UsbTxPump::new(None);
    pump.event(UsbPumpEvent::Packet(Bytes::from_static(b"retry")), &gate, 0);
    let bytes = match pump.poll(&gate, false, false, 0) {
        UsbPumpAction::Write { bytes, .. } => bytes,
        other => panic!("expected a write, got {other:?}"),
    };
    let mut packet = request(UsbWritePhase::Packet, bytes);
    packet.packet = Some(UsbPacketWrite { payload_len: 5 });
    let (_, result) = write(
        &packet,
        vec![
            Ok(2),
            Err(UsbTransferError::Backend("test write failed".into())),
        ],
        0,
    );
    let failure = result.unwrap_err();
    assert_eq!(failure.message(), "packet write: test write failed");
    assert!(matches!(
        pump.event(UsbPumpEvent::Written(Err(failure)), &gate, 0),
        Some(UsbTxPumpExit::WriterRejected(_))
    ));
    match pump.poll(&ready_tx_gate(false), false, false, 0) {
        UsbPumpAction::Write { bytes, .. } => assert_eq!(bytes, kiss::frame(b"retry")),
        other => panic!("expected the packet again, got {other:?}"),
    }
}

#[test]
fn usb_writer_checks_generation_gate_at_physical_write_boundary() {
    let mut gate = ready_tx_gate(false);
    gate.close();
    let admitted = gate.take_permit();
    let error = gate_result(UsbWritePhase::Packet, admitted)
        .expect_err("closed generation must reject writer-level packet admission");
    assert_eq!(error.kind, UsbWriteFailureKind::AdmissionClosed);
}

#[test]
fn usb_unadmitted_pending_packet_survives_stop_and_requires_new_generation_ready() {
    let mut old_gate = ready_tx_gate(false);
    let mut pump = UsbTxPump::new(None);
    pump.event(
        UsbPumpEvent::Packet(Bytes::from_static(b"first")),
        &old_gate,
        0,
    );
    assert_eq!(
        pump.event(UsbPumpEvent::Stop, &old_gate, 0),
        Some(UsbTxPumpExit::StopRequested)
    );
    old_gate.close();
    pump.begin_generation();

    let mut gate = Some(UsbTxGate::new(false, 0));
    let mut retired = Some(old_gate);
    project(&mut projected_inbound(), &mut retired, 1);
    assert!(
        !retired.unwrap().is_ready(),
        "old generation evidence must not admit retained data"
    );
    assert!(matches!(
        pump.poll(&gate.unwrap(), false, false, 1),
        UsbPumpAction::AwaitGate { .. }
    ));
    project(&mut projected_inbound(), &mut gate, 2);
    match pump.poll(&gate.unwrap(), false, false, 2) {
        UsbPumpAction::Write {
            bytes, payload_len, ..
        } => {
            assert_eq!(bytes, kiss::frame(b"first"));
            assert_eq!(payload_len, 5);
        }
        other => panic!("expected a write, got {other:?}"),
    }
}

#[test]
fn android_usb_station_id_is_armed_only_after_application_tx() {
    let gate = ready_tx_gate(false);
    let mut pump = UsbTxPump::new(Some(StationBeacon {
        interval: 0,
        callsign: Bytes::from_static(b"N0CALL"),
    }));
    assert!(matches!(
        pump.poll(&gate, false, false, 0),
        UsbPumpAction::AwaitPacket { until: None }
    ));
    pump.event(
        UsbPumpEvent::Packet(Bytes::from_static(b"payload")),
        &gate,
        0,
    );
    match pump.poll(&gate, false, false, 1) {
        UsbPumpAction::Write { bytes, .. } => assert_eq!(bytes, kiss::frame(b"payload")),
        other => panic!("expected a write, got {other:?}"),
    }
    match pump.poll(&gate, false, true, 2) {
        UsbPumpAction::Write { bytes, .. } => assert_eq!(bytes, kiss::frame(b"N0CALL")),
        other => panic!("expected the station ID, got {other:?}"),
    }
    assert!(matches!(
        pump.poll(&gate, false, true, 3),
        UsbPumpAction::AwaitPacket { until: None }
    ));
    assert!(matches!(
        pump.poll(&gate, true, false, 4),
        UsbPumpAction::Exit(UsbTxPumpExit::ApplicationClosed)
    ));
}

// Queue and writer

fn received(queue: &mut UsbWriteQueue<u8>) -> Option<UsbWriteRequest<u8>> {
    match queue.recv() {
        UsbQueuePoll::Request(request) => Some(request),
        _ => None,
    }
}

#[test]
fn application_packet_queue_preserves_fifo() {
    let mut queue = UsbWriteQueue::new(3);
    for packet in [vec![1], vec![2, 2], vec![3, 3, 3]] {
        assert!(matches!(
            queue.enqueue(request(UsbWritePhase::Packet, packet)),
            UsbEnqueue::Queued
        ));
    }
    assert!(matches!(
        queue.enqueue(request(UsbWritePhase::Packet, vec![4])),
        UsbEnqueue::Full(_)
    ));
    assert_eq!(received(&mut queue).unwrap().bytes, vec![1]);
    assert!(matches!(
        queue.enqueue(request(UsbWritePhase::Packet, vec![4])),
        UsbEnqueue::Full(_)
    ));
    queue.release_slot();
    assert!(matches!(
        queue.enqueue(request(UsbWritePhase::Packet, vec![4])),
        UsbEnqueue::Queued
    ));
    assert_eq!(received(&mut queue).unwrap().bytes, vec![2, 2]);
    assert_eq!(received(&mut queue).unwrap().bytes, vec![3, 3, 3]);
    assert_eq!(received(&mut queue).unwrap().bytes, vec![4]);
    assert!(matches!(queue.recv(), UsbQueuePoll::Empty));
}

#[test]
fn usb_control_deadline_includes_a_full_writer_queue() {
    let mut queue = UsbWriteQueue::new(0);
    assert!(matches!(
        queue.enqueue(request(UsbWritePhase::Detect, vec![1])),
        UsbEnqueue::Full(_)
    ));
    assert_eq!(
        acknowledgement_result(UsbWritePhase::Detect, UsbAcknowledgement::TimedOut)
            .unwrap_err()
            .kind,
        UsbWriteFailureKind::DeadlineElapsed
    );
    assert_eq!(acknowledgement_time(20, 19), Some(1));
    assert_eq!(acknowledgement_time(20, 20), None);
}

#[test]
fn dropped_worker_acknowledgement_is_an_explicit_failure() {
    let mut queue = UsbWriteQueue::new(1);
    queue.enqueue(request(UsbWritePhase::Initialise, vec![1]));
    queue.mark_worker_closed();
    assert!(matches!(queue.recv(), UsbQueuePoll::Closed));
    assert_eq!(
        acknowledgement_result(UsbWritePhase::Initialise, UsbAcknowledgement::Dropped)
            .unwrap_err()
            .kind,
        UsbWriteFailureKind::AcknowledgementDropped
    );
    match queue.enqueue(request(UsbWritePhase::Packet, vec![2])) {
        UsbEnqueue::Closed(failure) => {
            assert_eq!(failure.message(), "packet writer queue closed")
        }
        other => panic!("expected a closed queue, got {other:?}"),
    }
}

#[test]
fn detach_cancels_queued_packets_is_terminal_and_caps_timeout() {
    let mut queue = UsbWriteQueue::new(8);
    let mut writer = UsbWriter::new();
    queue.enqueue(request(UsbWritePhase::Packet, vec![0xAA]));
    let first = match writer.poll(&mut queue, true) {
        UsbWriterPoll::Write(request) => request,
        other => panic!("expected a write, got {other:?}"),
    };
    assert_eq!(first.bytes, vec![0xAA]);
    queue.enqueue(request(UsbWritePhase::Packet, vec![0xBB]));
    queue
        .begin_detach(vec![0xC0, 0x0A, 0xC0], 500 * MILLISECOND, 7)
        .unwrap();
    assert!(matches!(
        queue.enqueue(request(UsbWritePhase::Packet, vec![0xCC])),
        UsbEnqueue::Closed(_)
    ));
    assert!(matches!(
        writer.finished(first.phase, false, &Ok(())),
        UsbWriterNext::Continue
    ));
    let detach = match writer.poll(&mut queue, true) {
        UsbWriterPoll::Write(request) => request,
        other => panic!("expected the detach, got {other:?}"),
    };
    assert_eq!(detach.bytes, vec![0xC0, 0x0A, 0xC0]);
    assert_eq!(detach.acknowledgement, Some(7));
    assert_eq!(
        transfer_timeout(detach.deadline, 0, SECOND, detach.phase),
        Ok(500 * MILLISECOND)
    );
    assert!(matches!(
        writer.finished(detach.phase, false, &Ok(())),
        UsbWriterNext::Exit(UsbWriterExit::Detached)
    ));
    queue.cancel_and_wake();
    assert!(queue.begin_detach(vec![1], 1, 8).is_err());
    assert!(matches!(
        writer.poll(&mut queue, true),
        UsbWriterPoll::Exit(UsbWriterExit::Stopped)
    ));
}

#[test]
fn ambiguous_init_writer_still_quiesces_when_cleanup_has_no_detach() {
    let mut queue: UsbWriteQueue<u8> = UsbWriteQueue::new(8);
    let mut writer = UsbWriter::new();
    let failure = UsbWriteFailure {
        phase: UsbWritePhase::Initialise,
        kind: UsbWriteFailureKind::Backend("init".into()),
    };
    assert!(matches!(
        writer.finished(UsbWritePhase::Initialise, true, &Err(failure)),
        UsbWriterNext::Offline
    ));
    assert!(matches!(
        writer.poll(&mut queue, false),
        UsbWriterPoll::Exit(UsbWriterExit::Stopped)
    ));
    queue.enqueue(request(UsbWritePhase::Packet, vec![1]));
    match writer.poll(&mut queue, true) {
        UsbWriterPoll::Refuse { failure, exit, .. } => {
            assert_eq!(failure.kind, UsbWriteFailureKind::QueueClosed);
            assert_eq!(
                exit,
                UsbWriterExit::Failed(
                    "non-detach write followed an ambiguous USB init failure".into()
                )
            );
        }
        other => panic!("expected a refusal, got {other:?}"),
    }
}

#[test]
fn write_failures_are_told_in_words() {
    let told = |phase, kind| UsbWriteFailure { phase, kind }.message();
    assert_eq!(
        told(UsbWritePhase::Detect, UsbWriteFailureKind::WrongReturnType),
        "detect write returned a non-integer JNI value"
    );
    assert_eq!(
        told(UsbWritePhase::Capability, UsbWriteFailureKind::ZeroLength),
        "capability write made no progress"
    );
    assert_eq!(
        told(
            UsbWritePhase::Initialise,
            UsbWriteFailureKind::NegativeLength(-7)
        ),
        "init write returned -7"
    );
    assert_eq!(
        told(
            UsbWritePhase::Packet,
            UsbWriteFailureKind::OversizedLength {
                returned: 4,
                remaining: 3
            }
        ),
        "packet write returned 4 for 3 remaining bytes"
    );
    assert_eq!(
        told(
            UsbWritePhase::Detach,
            UsbWriteFailureKind::AcknowledgementDropped
        ),
        "detach writer acknowledgement dropped"
    );
    assert_eq!(
        told(UsbWritePhase::Detach, UsbWriteFailureKind::DeadlineElapsed),
        "detach queue-to-transfer deadline elapsed"
    );
    assert_eq!(
        told(UsbWritePhase::Packet, UsbWriteFailureKind::AdmissionClosed),
        "packet protocol/flow admission closed"
    );
    assert_eq!(
        transfer_timeout(Some(MILLISECOND - 1), 0, SECOND, UsbWritePhase::Packet)
            .unwrap_err()
            .kind,
        UsbWriteFailureKind::DeadlineElapsed
    );
    assert_eq!(
        transfer_timeout(None, 0, SECOND, UsbWritePhase::Packet),
        Ok(SECOND)
    );
}

// Reader

#[test]
fn idle_reads_do_not_mark_the_connection_offline() {
    assert!(matches!(
        reader_action(Ok(UsbReadResult::Idle)),
        UsbReaderAction::Idle
    ));
    assert!(matches!(
        reader_action(Ok(UsbReadResult::Data(vec![]))),
        UsbReaderAction::Continue
    ));
    assert!(matches!(
        reader_action(Ok(UsbReadResult::Data(vec![1]))),
        UsbReaderAction::Forward(bytes) if bytes == vec![1]
    ));
    assert!(matches!(
        reader_action(Err("gone".into())),
        UsbReaderAction::OfflineExit(UsbReaderExit::Failed(error)) if error == "gone"
    ));
    assert_eq!(unforwarded_exit(true), UsbReaderExit::ConsumerClosed);
    assert_eq!(unforwarded_exit(false), UsbReaderExit::Stopped);
}

#[test]
fn reader_pauses_only_after_an_idle_read() {
    let mut boundary = UsbReaderBoundary::new();
    assert!(!boundary.pause_after_idle_if_requested());
    boundary.request_pause();
    assert!(!boundary.is_paused_after_idle());
    assert!(boundary.pause_after_idle_if_requested());
    assert!(boundary.is_paused_after_idle());
    assert!(boundary.stays_paused(true));
    boundary.resume();
    assert!(!boundary.stays_paused(true));
    assert!(!boundary.is_paused_after_idle());
}

fn drain(
    events: &mut Vec<UsbIoEvent>,
    state: &mut UsbInboundState,
    stopped: bool,
    now: u128,
    deadline: u128,
) -> (UsbReadDrainOutcome, Vec<Vec<u8>>) {
    let mut forwarded = Vec::new();
    loop {
        if let Some(outcome) = drain_turn(stopped, now, deadline) {
            return (outcome, forwarded);
        }
        let event = if events.is_empty() {
            UsbDrainEvent::StreamClosed
        } else {
            match events.remove(0) {
                UsbIoEvent::Writer(_) => UsbDrainEvent::WriterEnded,
                UsbIoEvent::Reader(_) => UsbDrainEvent::ReaderEnded,
                UsbIoEvent::Read(bytes) => {
                    let mut frames = state.deframe(&bytes);
                    while let Some(packet) =
                        state.next_packet(&mut None, &mut frames, &mut Vec::new(), now)
                    {
                        forwarded.push(packet.raw);
                    }
                    UsbDrainEvent::Read(UsbInboundOutcome::Complete)
                }
            }
        };
        if let Some(outcome) = drain_outcome(event) {
            return (outcome, forwarded);
        }
    }
}

#[test]
fn explicit_stop_preempts_buffered_reader_drain() {
    let buffered = || {
        vec![
            UsbIoEvent::Read(kiss::frame(&[1, 2, 3])),
            UsbIoEvent::Reader(UsbReaderExit::Stopped),
        ]
    };
    let mut state = UsbInboundState::new(9);
    let (outcome, forwarded) = drain(&mut buffered(), &mut state, true, 0, SECOND);
    assert_eq!(outcome, UsbReadDrainOutcome::StopRequested);
    assert!(forwarded.is_empty());
    assert_eq!(state.received_bytes(), 0);

    let (outcome, forwarded) = drain(&mut buffered(), &mut state, false, SECOND, SECOND);
    assert_eq!(outcome, UsbReadDrainOutcome::DeadlineElapsed);
    assert!(forwarded.is_empty());

    let (outcome, forwarded) = drain(&mut buffered(), &mut state, false, 0, SECOND);
    assert_eq!(outcome, UsbReadDrainOutcome::Drained);
    assert_eq!(forwarded, vec![vec![1, 2, 3]]);
    assert_eq!(state.received_bytes(), 3);
}

#[test]
fn drain_ends_with_what_ends_it() {
    assert_eq!(
        drain_outcome(UsbDrainEvent::Stop),
        Some(UsbReadDrainOutcome::StopRequested)
    );
    assert_eq!(
        drain_outcome(UsbDrainEvent::Read(UsbInboundOutcome::Complete)),
        None
    );
    assert_eq!(drain_outcome(UsbDrainEvent::WriterEnded), None);
    assert_eq!(
        drain_outcome(UsbDrainEvent::ReaderEnded),
        Some(UsbReadDrainOutcome::Drained)
    );
    assert_eq!(
        drain_outcome(UsbDrainEvent::Deadline),
        Some(UsbReadDrainOutcome::DeadlineElapsed)
    );
    assert_eq!(
        forward_outcome(UsbForward::Closed),
        Some(UsbInboundOutcome::TransportClosed)
    );
    assert_eq!(forward_outcome(UsbForward::Sent), None);
}

// Startup

fn io(bytes: Vec<u8>, observation: CapabilityObservation) -> UsbStartupEvent {
    UsbStartupEvent::Io(UsbIoEvent::Read(bytes), observation)
}

#[test]
fn ordinary_usb_startup_discards_preinit_rf_ready_and_partial_frames() {
    let mut stale = framed_protocol_frames(required_protocol_frames(usb_test_target()));
    kiss::frame_with_command_into(rnode::CMD_READY, &[1], &mut stale);
    stale.extend_from_slice(&[kiss::FEND, rnode::CMD_FREQUENCY, 0x36]);

    let (mut startup, first) = UsbRNodeStartup::new(usb_test_target(), SECOND, None);
    assert!(matches!(
        first,
        UsbStartupAction::Write {
            phase: UsbWritePhase::Detect,
            await_terminal_detach_on_failure: false,
            ..
        }
    ));
    assert!(matches!(
        startup.advance(UsbStartupEvent::Written(Ok(())), 5),
        UsbStartupAction::RequestPause { until } if until == 5 + SECOND
    ));
    assert!(matches!(
        startup.advance(io(stale, CapabilityObservation::Pending), 6),
        UsbStartupAction::Continue
    ));
    assert!(matches!(
        startup.advance(UsbStartupEvent::Paused, 7),
        UsbStartupAction::DrainTail
    ));
    assert!(matches!(
        startup.advance(UsbStartupEvent::TailEmpty, 8),
        UsbStartupAction::Write {
            phase: UsbWritePhase::Initialise,
            await_terminal_detach_on_failure: true,
            ..
        }
    ));
    assert!(matches!(
        startup.advance(UsbStartupEvent::Written(Ok(())), 9),
        UsbStartupAction::Resume
    ));
    let seed = startup.into_protocol_state();
    assert!(seed.evidence().detected);
    assert!(seed.evidence().firmware.is_some());
    assert_eq!(seed.evidence().frequency, None);
    assert_eq!(seed.evidence().flow_permitted, None);
    assert_ne!(seed.readiness(), RNodeReadiness::Ready);

    let mut inbound = UsbInboundState::projected_with_protocol_state(1, seed, 0);
    let mut gate = Some(UsbTxGate::new(false, 9));
    assert!(!gate.unwrap().can_send());
    for (command, frame) in required_protocol_frames(usb_test_target())
        .into_iter()
        .skip(2)
    {
        inbound.frame(&mut gate, command, &frame, 10);
    }
    assert!(
        gate.unwrap().can_send(),
        "only fresh post-init RF echoes complete readiness"
    );
}

#[test]
fn strict_usb_startup_orders_one_capability_request_before_init() {
    let (mut startup, _) = UsbRNodeStartup::new(usb_test_target(), SECOND, Some(3 * SECOND));
    assert!(matches!(
        startup.advance(UsbStartupEvent::Written(Ok(())), 0),
        UsbStartupAction::Write {
            phase: UsbWritePhase::Capability,
            ..
        }
    ));
    assert!(matches!(
        startup.advance(UsbStartupEvent::Written(Ok(())), 0),
        UsbStartupAction::Await { until } if until == 3 * SECOND
    ));
    assert!(matches!(
        startup.advance(io(vec![1], CapabilityObservation::Pending), 1),
        UsbStartupAction::Continue
    ));
    assert!(matches!(
        startup.advance(io(vec![2], CapabilityObservation::Admitted), 2),
        UsbStartupAction::RequestPause { .. }
    ));
    startup.advance(UsbStartupEvent::Paused, 3);
    assert!(matches!(
        startup.advance(UsbStartupEvent::TailEmpty, 4),
        UsbStartupAction::Write {
            phase: UsbWritePhase::Initialise,
            await_terminal_detach_on_failure: true,
            ..
        }
    ));
}

/// A session whose writer takes every request in turn, and fails those that `broken` says.
struct WiredSession {
    queue: UsbWriteQueue<u8>,
    writer: UsbWriter,
    broken: UsbWritePhase,
    calls: Vec<(UsbWritePhase, Vec<u8>)>,
    exit: Option<UsbWriterExit>,
}

impl WiredSession {
    fn new(broken: UsbWritePhase) -> Self {
        WiredSession {
            queue: UsbWriteQueue::new(8),
            writer: UsbWriter::new(),
            broken,
            calls: Vec::new(),
            exit: None,
        }
    }

    fn turn(&mut self) -> Result<(), UsbWriteFailure> {
        let next = match self.writer.poll(&mut self.queue, true) {
            UsbWriterPoll::Write(request) => request,
            other => panic!("expected a write, got {other:?}"),
        };
        self.calls.push((next.phase, next.bytes.clone()));
        let script = if next.phase == self.broken {
            vec![Err(UsbTransferError::Backend("ambiguous init failure".into()))]
        } else {
            vec![]
        };
        let result = write(&next, script, 0).1.map(|_| ());
        self.queue.release_slot();
        match self
            .writer
            .finished(next.phase, next.await_terminal_detach_on_failure, &result)
        {
            UsbWriterNext::Continue | UsbWriterNext::Offline => {}
            UsbWriterNext::Exit(exit) | UsbWriterNext::OfflineExit(exit) => self.exit = Some(exit),
        }
        result
    }

    /// Runs the strict startup up to its failure.
    fn start_up(&mut self, observation: CapabilityObservation) -> UsbStartupFailure {
        let (mut startup, mut action) =
            UsbRNodeStartup::new(usb_test_target(), SECOND, Some(SECOND));
        loop {
            let event = match action {
                UsbStartupAction::Fail(failure) => return failure,
                UsbStartupAction::Write {
                    phase,
                    await_terminal_detach_on_failure,
                    ..
                } => {
                    let mut next = request(phase, wire_of(phase));
                    next.await_terminal_detach_on_failure = await_terminal_detach_on_failure;
                    assert!(matches!(self.queue.enqueue(next), UsbEnqueue::Queued));
                    UsbStartupEvent::Written(self.turn())
                }
                UsbStartupAction::Await { .. } => io(vec![1], observation),
                UsbStartupAction::RequestPause { .. } => UsbStartupEvent::Paused,
                UsbStartupAction::DrainTail => UsbStartupEvent::TailEmpty,
                other => panic!("startup went on without a failure: {other:?}"),
            };
            action = startup.advance(event, 0);
        }
    }

    /// Takes the session down; returns what becomes of its owner.
    fn shut_down(&mut self, failure: &UsbStartupFailure) -> UsbShutdownReport {
        let detach = startup_detach_wait(failure).map(|wait| {
            assert_eq!(wait, USB_DETACH_ACK_DEADLINE);
            self.queue
                .begin_detach(rnode::build_detach_sequence(), wait, 7)
                .unwrap();
            self.turn()
        });
        self.queue.cancel_and_wake();
        let writer = self.exit.clone().unwrap_or(UsbWriterExit::Stopped);
        let session = UsbJoinedSession {
            detach,
            writer: join_outcome(UsbJoin::Ended(writer)),
            reader: join_outcome(UsbJoin::Ended(UsbReaderExit::Stopped)),
        };
        match after_join(session, Some("owner")) {
            UsbShutdownStep::Release { owner, joined } => {
                assert_eq!(owner, "owner");
                match after_release(
                    joined,
                    UsbConnectionCleanup::<&str>::Closed {
                        release_interface: Ok(()),
                    },
                ) {
                    UsbShutdownStep::Report(report) => report,
                    other => panic!("expected a report, got {other:?}"),
                }
            }
            other => panic!("expected the release of the owner, got {other:?}"),
        }
    }
}

fn wire_of(phase: UsbWritePhase) -> Vec<u8> {
    match phase {
        UsbWritePhase::Detect => rnode::build_detect_sequence(),
        UsbWritePhase::Capability => vec![0xCA],
        UsbWritePhase::Initialise => vec![0xA1, 0xA2],
        other => panic!("startup writes no {other:?}"),
    }
}

#[test]
fn strict_usb_rejection_sends_no_init_or_detach_and_releases_owner() {
    let mut session = WiredSession::new(UsbWritePhase::Detach);
    let failure = session.start_up(CapabilityObservation::Rejected);
    assert_eq!(failure, UsbStartupFailure::Rejected);
    let sent = vec![
        (UsbWritePhase::Detect, rnode::build_detect_sequence()),
        (UsbWritePhase::Capability, vec![0xCA]),
    ];
    assert_eq!(
        session.calls, sent,
        "deterministic rejection must not send init or detach"
    );
    let report = session.shut_down(&failure);
    assert_eq!(report.detach, None);
    assert_eq!(report.disposition, UsbCleanupDisposition::Released);
    assert_eq!(report.as_result(), Ok(()));
    assert_eq!(session.calls, sent);
}

#[test]
fn strict_usb_ambiguous_init_failure_requests_ordered_detach_cleanup() {
    let mut session = WiredSession::new(UsbWritePhase::Initialise);
    let failure = session.start_up(CapabilityObservation::Admitted);
    assert!(matches!(
        failure,
        UsbStartupFailure::Initialise(UsbWriteFailure {
            phase: UsbWritePhase::Initialise,
            ..
        })
    ));
    let report = session.shut_down(&failure);
    assert_eq!(
        report.detach,
        Some(Ok(())),
        "ambiguous init must physically acknowledge ordered detach cleanup"
    );
    assert_eq!(session.exit, Some(UsbWriterExit::Detached));
    assert_eq!(report.disposition, UsbCleanupDisposition::Released);
    assert_eq!(
        session.calls,
        vec![
            (UsbWritePhase::Detect, rnode::build_detect_sequence()),
            (UsbWritePhase::Capability, vec![0xCA]),
            (UsbWritePhase::Initialise, vec![0xA1, 0xA2]),
            (UsbWritePhase::Detach, rnode::build_detach_sequence()),
        ]
    );
}

#[test]
fn only_a_failed_initialisation_is_followed_by_a_detach() {
    let failure = UsbWriteFailure {
        phase: UsbWritePhase::Detect,
        kind: UsbWriteFailureKind::QueueClosed,
    };
    assert_eq!(
        startup_detach_wait(&UsbStartupFailure::Initialise(failure.clone())),
        Some(500 * MILLISECOND)
    );
    assert_eq!(startup_detach_wait(&UsbStartupFailure::Write(failure)), None);
    assert_eq!(startup_detach_wait(&UsbStartupFailure::StreamClosed), None);
    assert_eq!(session_announcement(true), UsbAnnouncement::Admitted);
    assert_eq!(session_announcement(false), UsbAnnouncement::Connected);
}

#[test]
fn startup_failures_are_told_apart() {
    let failed = |capability: Option<u128>, events: Vec<UsbStartupEvent>| {
        let (mut startup, _) = UsbRNodeStartup::new(usb_test_target(), SECOND, capability);
        let mut last = None;
        for event in events {
            if let UsbStartupAction::Fail(failure) = startup.advance(event, 0) {
                last = Some(failure);
            }
        }
        last.unwrap()
    };
    let written = || UsbStartupEvent::Written(Ok(()));
    assert_eq!(
        failed(Some(1), vec![written(), written(), UsbStartupEvent::Elapsed]),
        UsbStartupFailure::ResponseTimedOut
    );
    assert_eq!(
        failed(
            Some(1),
            vec![written(), written(), UsbStartupEvent::StreamClosed]
        )
        .transport_message()
        .as_deref(),
        Some("Android USB capability event stream closed")
    );
    let admitted = || io(vec![], CapabilityObservation::Admitted);
    assert_eq!(
        failed(
            Some(1),
            vec![written(), written(), admitted(), UsbStartupEvent::Elapsed]
        )
        .transport_message()
        .as_deref(),
        Some("Android USB capability reader boundary timed out")
    );
    assert_eq!(
        failed(
            Some(1),
            vec![
                written(),
                written(),
                admitted(),
                UsbStartupEvent::StreamClosed
            ]
        )
        .transport_message()
        .as_deref(),
        Some("Android USB capability event stream closed at reader boundary")
    );
    assert_eq!(
        failed(
            Some(1),
            vec![
                written(),
                written(),
                UsbStartupEvent::Io(
                    UsbIoEvent::Writer(UsbWriterExit::Failed("jni \"x\"\n".into())),
                    CapabilityObservation::Pending
                )
            ]
        )
        .transport_message()
        .as_deref(),
        Some("Android USB capability writer ended: Failed(\"jni \\\"x\\\"\\n\")")
    );
    assert_eq!(
        failed(
            Some(1),
            vec![
                written(),
                written(),
                UsbStartupEvent::Io(
                    UsbIoEvent::Reader(UsbReaderExit::ConsumerClosed),
                    CapabilityObservation::Pending
                )
            ]
        )
        .transport_message()
        .as_deref(),
        Some("Android USB capability reader ended: ConsumerClosed")
    );
    assert_eq!(
        failed(None, vec![written(), UsbStartupEvent::Elapsed]),
        UsbStartupFailure::Write(UsbWriteFailure {
            phase: UsbWritePhase::Detect,
            kind: UsbWriteFailureKind::DeadlineElapsed,
        })
    );
    assert_eq!(
        failed(None, vec![written(), UsbStartupEvent::StreamClosed]),
        UsbStartupFailure::Write(UsbWriteFailure {
            phase: UsbWritePhase::Detect,
            kind: UsbWriteFailureKind::QueueClosed,
        })
    );
}

// Shutdown

fn joined(
    writer: UsbJoin<UsbWriterExit>,
    reader: UsbJoin<UsbReaderExit>,
) -> UsbJoinedSession {
    UsbJoinedSession {
        detach: None,
        writer: join_outcome(writer),
        reader: join_outcome(reader),
    }
}

fn stopped() -> UsbJoinedSession {
    joined(
        UsbJoin::Ended(UsbWriterExit::Stopped),
        UsbJoin::Ended(UsbReaderExit::Stopped),
    )
}

#[test]
fn workers_are_joined_before_release_and_release_failure_still_closes() {
    match after_join(stopped(), Some("owner")) {
        UsbShutdownStep::Release { owner, joined } => {
            assert_eq!(owner, "owner");
            match after_release(
                joined,
                UsbConnectionCleanup::<&str>::Closed {
                    release_interface: Err("release false".into()),
                },
            ) {
                UsbShutdownStep::Report(report) => {
                    assert!(report.release_interface.as_ref().unwrap().is_err());
                    assert!(report.close_connection.as_ref().unwrap().is_ok());
                    assert_eq!(report.disposition, UsbCleanupDisposition::Released);
                    assert_eq!(
                        report.as_result(),
                        Err("releaseInterface: release false".to_string())
                    );
                }
                other => panic!("expected a report, got {other:?}"),
            }
        }
        other => panic!("expected the release, got {other:?}"),
    }
}

#[test]
fn unproven_close_retains_owner_and_reports_quarantine() {
    match after_release(
        stopped(),
        UsbConnectionCleanup::Unclosed {
            owner: "owner",
            release_interface: Ok(()),
            close_connection: "close failed".into(),
        },
    ) {
        UsbShutdownStep::Quarantine { retained, report } => {
            assert_eq!(retained, Some("owner"));
            assert_eq!(report.disposition, UsbCleanupDisposition::Quarantined);
            assert!(report.is_quarantined());
            assert_eq!(
                report.as_result(),
                Err(
                    "close: close failed; USB ownership quarantined because closure was unproven"
                        .to_string()
                )
            );
        }
        other => panic!("expected quarantine, got {other:?}"),
    }
}

#[test]
fn missed_join_deadline_quarantines_without_release_or_close() {
    let session = joined(
        UsbJoin::Ended(UsbWriterExit::Failed("broken".into())),
        UsbJoin::Elapsed,
    );
    assert!(!UsbJoinOutcome::<u8>::NonQuiesced.quiesced());
    match after_join(session, Some(1u8)) {
        UsbShutdownStep::Quarantine { retained, report } => {
            assert_eq!(retained, Some(1));
            assert!(report.release_interface.is_none());
            assert!(report.close_connection.is_none());
            assert_eq!(
                report.as_result(),
                Err("writer: broken; reader did not quiesce; \
                     USB ownership quarantined because closure was unproven"
                    .to_string())
            );
        }
        other => panic!("expected quarantine, got {other:?}"),
    }
}

#[test]
fn every_step_of_a_shutdown_can_fail_at_once() {
    let session = UsbJoinedSession {
        detach: Some(Err(UsbWriteFailure {
            phase: UsbWritePhase::Detach,
            kind: UsbWriteFailureKind::QueueClosed,
        })),
        writer: join_outcome(UsbJoin::Missing),
        reader: join_outcome(UsbJoin::Failed("panicked".into())),
    };
    match after_join(session, None::<u8>) {
        UsbShutdownStep::Report(report) => {
            assert!(!report.is_quarantined());
            assert_eq!(
                report.as_result(),
                Err("detach writer queue closed; writer join: worker handle missing; \
                     reader join: panicked; \
                     releaseInterface: USB owner missing during cleanup; \
                     close: USB owner missing during cleanup"
                    .to_string())
            );
        }
        other => panic!("expected a report, got {other:?}"),
    }
    match after_join(stopped(), Some(1u8)) {
        UsbShutdownStep::Release { joined, .. } => {
            match after_release(
                joined,
                UsbConnectionCleanup::<u8>::Closed {
                    release_interface: Ok(()),
                },
            ) {
                UsbShutdownStep::Report(report) => assert_eq!(report.as_result(), Ok(())),
                other => panic!("expected a report, got {other:?}"),
            }
        }
        other => panic!("expected the release, got {other:?}"),
    }
}

#[test]
fn application_queue_survives_sequential_usb_generations() {
    let mut pump = UsbTxPump::new(None);
    for (number, packet) in [b"first".as_slice(), b"second".as_slice()]
        .into_iter()
        .enumerate()
    {
        pump.begin_generation();
        let gate = ready_tx_gate(false);
        let now = number as u128;
        assert!(matches!(
            pump.poll(&gate, false, false, now),
            UsbPumpAction::AwaitPacket { .. }
        ));
        pump.event(
            UsbPumpEvent::Packet(Bytes::copy_from_slice(packet)),
            &gate,
            now,
        );
        match pump.poll(&gate, false, false, now) {
            UsbPumpAction::Write { bytes, .. } => assert_eq!(bytes, kiss::frame(packet)),
            other => panic!("expected a write, got {other:?}"),
        }
        assert_eq!(pump.event(UsbPumpEvent::Written(Ok(())), &gate, now), None);
        assert!(matches!(
            pump.poll(&gate, false, true, now),
            UsbPumpAction::AwaitPacket { .. }
        ));
        assert_eq!(
            pump.event(UsbPumpEvent::Stop, &gate, now),
            Some(UsbTxPumpExit::StopRequested)
        );
    }
}

#[test]
fn usb_tx_counter_waits_for_complete_physical_write_even_if_ack_is_dropped() {
    let mut packet = request(UsbWritePhase::Packet, vec![1, 2, 3, 4]);
    packet.packet = Some(UsbPacketWrite { payload_len: 2 });
    let mut progress = UsbWriteProgress::new(&packet, SECOND);
    assert_eq!(progress.transferred(Ok(3)), None);
    assert!(matches!(
        progress.next(0),
        UsbWriteStep::Transfer { offset: 3, .. }
    ));
    assert_eq!(progress.transferred(Ok(1)), None);
    assert_eq!(progress.next(0), UsbWriteStep::Complete);
    let completion = progress.finish(0);
    assert_eq!(completion.counted, 2);
    assert_eq!(completion.result, Ok(()));
}

#[test]
fn rejected_or_stop_preempted_packet_admission_does_not_count_tx() {
    let gate = ready_tx_gate(false);
    let mut pump = UsbTxPump::new(None);
    pump.event(UsbPumpEvent::Packet(Bytes::from_static(b"kept")), &gate, 0);
    assert!(matches!(
        pump.poll(&gate, false, false, 0),
        UsbPumpAction::Write { .. }
    ));
    let refused = UsbWriteFailure {
        phase: UsbWritePhase::Packet,
        kind: UsbWriteFailureKind::AdmissionClosed,
    };
    assert_eq!(
        pump.event(UsbPumpEvent::Written(Err(refused.clone())), &gate, 0),
        Some(UsbTxPumpExit::WriterRejected(refused))
    );
    match pump.poll(&gate, false, false, 0) {
        UsbPumpAction::Write { payload_len, .. } => assert_eq!(payload_len, 4),
        other => panic!("expected the packet again, got {other:?}"),
    }
}

#[test]
fn usb_coverage_review_stop_wins_simultaneous_timer_and_invalid_frame_notification() {
    let gate = UsbTxGate::new(true, 0);
    let mut pump = UsbTxPump::new(None);
    pump.poll(&gate, false, false, 0);
    assert_eq!(
        pump.event(UsbPumpEvent::Stop, &gate, 2 * USB_PROTOCOL_READINESS_DEADLINE),
        Some(UsbTxPumpExit::StopRequested)
    );
}
