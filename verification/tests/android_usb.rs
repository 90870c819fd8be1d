use rns_interface::android_usb::config::{
    chipset_of_vid, list_usb_device, list_usb_devices, AndroidUsbConfig, BAUD_RATE,
    USB_DETACH_ACK_DEADLINE, USB_WORKER_JOIN_DEADLINE,
};
use rns_interface::android_usb::driver::{
    UsbDriver, UsbDriverEffect, UsbDriverEvent, UsbDriverPhase, UsbPumpEnd,
};
use rns_interface::android_usb::opening::{UsbOpening, UsbOpeningAction, UsbOpeningEvent};
use rns_interface::android_usb::session::{
    after_close, after_failed_open, after_unowned_open, choose_endpoints, interface_released,
    line_coding, read_count, release_android_usb_lease, startup_failure_message, write_arguments,
    UsbInterfaceShape, UsbLeasePhase, UsbSerialEndpoints, UsbWriteArguments,
};
use rns_interface::android_usb::stop::{
    register_android_usb_rnode_stop, stop_android_usb_rnode_interface, UsbStopRegistry,
};
use rns_interface::android_usb_lifecycle::inbound::{
    UsbInboundOutcome, UsbInboundState, UsbReadDrainOutcome,
};
use rns_interface::android_usb_lifecycle::lease::UsbLeaseTable;
use rns_interface::android_usb_lifecycle::reader::UsbReaderExit;
use rns_interface::android_usb_lifecycle::shutdown::{
    UsbCleanupDisposition, UsbConnectionCleanup, UsbJoinOutcome, UsbShutdownReport,
};
use rns_interface::android_usb_lifecycle::write::UsbTransferError;
use rns_interface::android_usb_lifecycle::writer::UsbWriterExit;
use rns_interface::interface::{InterfaceId, InterfaceMode, MILLISECOND};
use rns_interface::kiss;
use rns_interface::rnode::{self, RNodeRuntimeReason};

fn fragmented_decode(wire: &[u8]) -> Vec<(u8, Vec<u8>)> {
    let mut deframer = kiss::RawKissDeframer::new();
    let fragment_widths = [1, 2, 1, 3, 2, 4];
    let mut decoded = Vec::new();
    let mut offset = 0;
    let mut fragment = 0;

    while offset < wire.len() {
        let end = (offset + fragment_widths[fragment % fragment_widths.len()]).min(wire.len());
        decoded.extend(deframer.feed(&wire[offset..end]));
        offset = end;
        fragment += 1;
    }

    decoded
}

#[test]
fn android_usb_deframer_preserves_extended_commands_when_fragmented_and_escaped() {
    let expected = vec![
        (
            rnode::CMD_FW_VERSION,
            vec![0x01, kiss::FEND, 0x02, kiss::FESC],
        ),
        (rnode::CMD_ERROR, vec![kiss::FESC, kiss::FEND]),
        (
            rnode::CMD_ROM_READ,
            vec![0x00, kiss::FEND, kiss::FESC, 0xFF],
        ),
        (
            kiss::CMD_DATA,
            vec![0x10, kiss::FESC, 0x20, kiss::FEND, 0x30],
        ),
    ];
    let mut wire = Vec::new();
    for (command, payload) in &expected {
        kiss::frame_with_command_into(*command, payload, &mut wire);
    }

    assert_eq!(fragmented_decode(&wire), expected);
}

#[test]
fn android_usb_only_forwards_and_accounts_real_data_frames() {
    let data_payload = vec![0xAA, kiss::FEND, kiss::FESC, 0x55];
    let expected_controls = [rnode::CMD_FW_VERSION, rnode::CMD_ERROR, rnode::CMD_ROM_READ];
    let mut wire = Vec::new();
    kiss::frame_with_command_into(rnode::CMD_FW_VERSION, &[1, 2], &mut wire);
    kiss::frame_with_command_into(rnode::CMD_ERROR, &[0x01], &mut wire);
    kiss::frame_with_command_into(rnode::CMD_ROM_READ, &[0x10, 0x20], &mut wire);
    kiss::frame_with_command_into(kiss::CMD_DATA, &data_payload, &mut wire);

    let mut last_rssi = None;
    let mut last_snr = None;
    let mut control_commands = Vec::new();
    let mut packet_count = 0;
    let mut packet_bytes = 0;

    for (command, frame) in fragmented_decode(&wire) {
        match rnode::process_rnode_response(command, &frame, 7, &mut last_rssi, &mut last_snr) {
            rnode::RNodeResponse::Packet(_) => {
                assert_eq!(command, kiss::CMD_DATA);
                packet_count += 1;
                packet_bytes += frame.len();
            }
            rnode::RNodeResponse::Ready(_) | rnode::RNodeResponse::Ignored => {
                if command != kiss::CMD_DATA {
                    control_commands.push(command);
                }
            }
        }
    }

    assert_eq!(control_commands, expected_controls);
    assert_eq!(packet_count, 1);
    assert_eq!(packet_bytes, data_payload.len());

    // The session's receiving side counts the same.
    let mut inbound = UsbInboundState::new(7);
    let mut frames = inbound.deframe(&wire);
    let packet = inbound.next_packet(&mut None, &mut frames, &mut Vec::new(), 0).unwrap();
    assert_eq!(packet.raw, data_payload);
    assert_eq!(packet.interface_id, 7);
    assert!(inbound.next_packet(&mut None, &mut frames, &mut Vec::new(), 0).is_none());
    assert_eq!(inbound.received_bytes(), data_payload.len() as u64);
}

#[test]
fn android_usb_exact_shutdown_and_cleanup_resist_same_id_aba() {
    let mut registry = UsbStopRegistry::new();
    let id: InterfaceId = 0xA11D_0001;
    let old_token = register_android_usb_rnode_stop(&mut registry, id);
    let new_token = register_android_usb_rnode_stop(&mut registry, id);

    registry.withdraw(id, old_token);
    registry.request_shutdown(old_token);
    assert!(registry.is_told(old_token));
    assert!(
        !registry.is_told(new_token),
        "the retired handle must not stop the newer same-ID USB driver"
    );

    assert_eq!(
        stop_android_usb_rnode_interface(&mut registry, id),
        Some(new_token)
    );
    assert!(
        registry.is_told(new_token),
        "retired guard cleanup must preserve the newer compatibility entry"
    );
    registry.withdraw(id, new_token);
    assert!(!registry.contains(id));
    assert_eq!(stop_android_usb_rnode_interface(&mut registry, id), None);
}

fn report(disposition: UsbCleanupDisposition) -> UsbShutdownReport {
    UsbShutdownReport {
        detach: None,
        writer: UsbJoinOutcome::Joined(UsbWriterExit::Stopped),
        reader: UsbJoinOutcome::Joined(UsbReaderExit::Stopped),
        release_interface: None,
        close_connection: None,
        disposition,
    }
}

#[test]
fn quarantined_outcome_can_still_be_asked_for() {
    let mut registry = UsbStopRegistry::new();
    let token = register_android_usb_rnode_stop(&mut registry, 4);
    assert!(registry.outcome(token).is_none());
    registry.complete(token, &report(UsbCleanupDisposition::Quarantined));
    registry.withdraw(4, token);
    assert!(registry.contains(4));
    let again = stop_android_usb_rnode_interface(&mut registry, 4).unwrap();
    assert_eq!(
        registry.outcome(again),
        Some(Err(
            "USB ownership quarantined because closure was unproven".to_string()
        ))
    );

    let clean = register_android_usb_rnode_stop(&mut registry, 5);
    registry.complete(clean, &report(UsbCleanupDisposition::Released));
    assert_eq!(registry.outcome(clean), Some(Ok(())));
    registry.withdraw(5, clean);
    assert!(!registry.contains(5));
    registry.forget(clean);
    assert_eq!(
        registry.outcome(clean),
        Some(Err(
            "Android USB owner ended without a shutdown outcome".to_string()
        ))
    );
}

#[test]
fn usb_configuration_has_its_defaults() {
    let config = AndroidUsbConfig::new("usb0", "/dev/bus/usb/001/002");
    assert_eq!(config.name, "usb0");
    assert_eq!(config.device_name, "/dev/bus/usb/001/002");
    assert_eq!(config.baud_rate, 115_200);
    assert_eq!(config.frequency, 915_000_000);
    assert_eq!(config.bandwidth, 125_000);
    assert_eq!(config.spreading_factor, 8);
    assert_eq!(config.coding_rate, 6);
    assert_eq!(config.tx_power, 17);
    assert_eq!(config.mode, InterfaceMode::Full);
    assert!(!config.flow_control);
    assert_eq!(config.protocol_target().spreading_factor, 8);
    let profile = config.interface_profile(11);
    assert_eq!(profile.bitrate, u64::from(BAUD_RATE));
    assert_eq!(profile.mtu, 500);
    assert!(profile.direction.forward);
    let frames = kiss::RawKissDeframer::new().feed(&config.init_sequence());
    assert_eq!(
        frames[0],
        (rnode::CMD_FREQUENCY, 915_000_000u32.to_be_bytes().to_vec())
    );
}

#[test]
fn only_known_chipsets_are_listed() {
    assert_eq!(chipset_of_vid(0x303A), Some("Espressif ESP32-S3"));
    assert_eq!(chipset_of_vid(0x0403), Some("FTDI"));
    assert_eq!(chipset_of_vid(0x1915), Some("Nordic Semiconductor NRF52840"));
    let listed = list_usb_device("device".into(), 0x10C4, 0xEA60).unwrap();
    assert_eq!(listed.chipset, "Silicon Labs CP210x");
    assert_eq!((listed.vid, listed.pid), (0x10C4, 0xEA60));
    assert!(listed.manufacturer.is_empty() && listed.product.is_empty());
    assert!(list_usb_device("device".into(), 0x1234, 1).is_none());

    let bus = vec![
        ("first".to_string(), 0x303A, 1),
        ("mouse".to_string(), 0x046D, 2),
        ("second".to_string(), 0x0403, 3),
    ];
    let listed = list_usb_devices(&bus);
    assert_eq!(listed.len(), 2);
    assert_eq!(listed[0].device_name, "first");
    assert_eq!(listed[0].chipset, "Espressif ESP32-S3");
    assert_eq!((listed[0].vid, listed[0].pid), (0x303A, 1));
    assert_eq!(listed[1].device_name, "second");
    assert_eq!(listed[1].chipset, "FTDI");
    assert!(list_usb_devices(&vec![]).is_empty());
}

fn shape(class: i32, directions: &[i32]) -> UsbInterfaceShape {
    UsbInterfaceShape {
        class,
        directions: directions.to_vec(),
    }
}

#[test]
fn first_interface_with_both_directions_serves_the_line() {
    let shapes = vec![
        shape(0x02, &[0x80, 0x00]),
        shape(0x0A, &[0x80]),
        shape(0xFF, &[0x80, 0x00, 0x80]),
        shape(0x0A, &[0x80, 0x00]),
    ];
    assert_eq!(
        choose_endpoints(&shapes),
        Some(UsbSerialEndpoints {
            interface: 2,
            input: 2,
            output: 1,
        })
    );
    assert_eq!(choose_endpoints(&shapes[..2].to_vec()), None);
}

#[test]
fn line_coding_is_little_endian_eight_data_bits() {
    assert_eq!(line_coding(115_200), vec![0x00, 0xC2, 0x01, 0x00, 0, 0, 8]);
    assert_eq!(
        line_coding(0x0102_0304),
        vec![0x04, 0x03, 0x02, 0x01, 0, 0, 8]
    );
}

#[test]
fn transfers_are_checked_against_the_platform_limits() {
    assert_eq!(read_count(-1), Ok(None));
    assert_eq!(read_count(0), Ok(None));
    assert_eq!(read_count(1), Ok(Some(1)));
    assert_eq!(read_count(1_024), Ok(Some(1_024)));
    assert_eq!(
        read_count(1_025),
        Err("USB bulk read returned invalid length 1025 (capacity 1024)".to_string())
    );
    assert_eq!(
        write_arguments(3, 1_500 * MILLISECOND),
        Ok(UsbWriteArguments {
            length: 3,
            timeout_ms: 1_500,
        })
    );
    assert_eq!(
        write_arguments(3, MILLISECOND - 1),
        Err(UsbTransferError::Backend(
            "USB write timeout budget is below one millisecond".into()
        ))
    );
    assert_eq!(
        write_arguments(0x8000_0000, MILLISECOND),
        Err(UsbTransferError::Backend(
            "USB write length 2147483648 exceeds Android's signed limit".into()
        ))
    );
    assert_eq!(
        write_arguments(1, u128::MAX),
        Ok(UsbWriteArguments {
            length: 1,
            timeout_ms: i32::MAX,
        })
    );
}

#[test]
fn cleanup_failures_are_told_and_unproven_ones_quarantined() {
    let clean = after_close(Ok(()), Ok(()));
    assert!(clean.error.is_none() && clean.quarantine.is_none());
    let release = after_close(Err("r".into()), Ok(()));
    assert_eq!(release.error.as_deref(), Some("r"));
    assert!(release.quarantine.is_none());
    let lease = after_close(Ok(()), Err("l".into()));
    assert_eq!(lease.error.as_deref(), Some("lease release: l"));
    assert_eq!(
        lease.quarantine.as_deref(),
        Some("closed connection but failed to release lease: l")
    );
    let both = after_close(Err("r".into()), Err("l".into()));
    assert_eq!(both.error.as_deref(), Some("r; lease release: l"));
    assert_eq!(interface_released(true), Ok(()));
    assert_eq!(
        interface_released(false),
        Err("Java releaseInterface returned false".to_string())
    );

    let closed = UsbConnectionCleanup::<u8>::Closed {
        release_interface: Err("c".into()),
    };
    assert_eq!(
        after_failed_open("setup".into(), &closed).error.as_deref(),
        Some("setup; cleanup: c")
    );
    let unclosed = UsbConnectionCleanup::Unclosed {
        owner: 1u8,
        release_interface: Err("r".into()),
        close_connection: "c".into(),
    };
    let aftermath = after_failed_open("setup".into(), &unclosed);
    assert_eq!(
        aftermath.error.as_deref(),
        Some("setup; cleanup unproven: r; close: c")
    );
    assert_eq!(
        aftermath.quarantine.as_deref(),
        Some("USB setup cleanup failed: r; close: c")
    );
    let unowned = after_unowned_open("a".into(), Err("c".into()));
    assert_eq!(unowned.error.as_deref(), Some("a; cleanup unproven: c"));
    assert_eq!(unowned.quarantine.as_deref(), Some("a; c"));
    assert_eq!(
        startup_failure_message("no answer", Ok(())),
        "Android USB RNode startup failed: no answer"
    );
    assert_eq!(
        startup_failure_message("no answer", Err("stuck".into())),
        "Android USB RNode startup failed: no answer; cleanup: stuck"
    );
}

#[test]
fn lease_is_released_from_its_own_phase_only() {
    let mut leases: UsbLeaseTable<u8> = UsbLeaseTable::new();
    leases.reserve_opening("device").unwrap();
    assert!(release_android_usb_lease(&mut leases, "device", UsbLeasePhase::Active).is_err());
    assert!(release_android_usb_lease(&mut leases, "device", UsbLeasePhase::Opening).is_ok());
    assert_eq!(leases.state("device"), None);
}

type Action = UsbOpeningAction<u8>;

#[test]
fn device_is_opened_step_by_step() {
    let mut opening = UsbOpening::new("device", 115_200);
    assert!(matches!(opening.begin::<u8>(), Action::Find));
    let done = || UsbOpeningEvent::<u8>::Done;
    assert!(matches!(opening.advance(done()), Action::Open));
    assert!(matches!(opening.advance(done()), Action::Own));
    assert!(matches!(opening.advance(done()), Action::Describe));
    assert!(matches!(
        opening.advance(UsbOpeningEvent::<u8>::Described(vec![
            shape(0x02, &[]),
            shape(0x0A, &[0x00, 0x80])
        ])),
        Action::HoldInterface { interface: 1 }
    ));
    assert!(matches!(opening.advance(done()), Action::Claim));
    match opening.advance(done()) {
        Action::SetUpLine { coding } => assert_eq!(coding, line_coding(115_200)),
        other => panic!("expected the line to be set up, got {other:?}"),
    }
    // The line coding is best effort.
    match opening.advance(UsbOpeningEvent::<u8>::Failed("unsupported".into())) {
        Action::HoldEndpoints { endpoints } => {
            assert_eq!(
                endpoints,
                UsbSerialEndpoints {
                    interface: 1,
                    input: 1,
                    output: 0
                }
            )
        }
        other => panic!("expected the endpoints to be held, got {other:?}"),
    }
    assert!(matches!(opening.advance(done()), Action::Activate));
    assert!(matches!(opening.advance(done()), Action::Ready));
}

#[test]
fn failed_opening_is_cleaned_up_before_it_is_reported() {
    let mut missing = UsbOpening::new("device", 115_200);
    match missing.advance(UsbOpeningEvent::<u8>::Refused) {
        Action::Fail {
            error,
            quarantine: None,
            unclosed: None,
        } => assert_eq!(error, "USB device not found: device"),
        other => panic!("expected a failure, got {other:?}"),
    }

    let mut unclaimed = UsbOpening::new("device", 115_200);
    for _ in 0..3 {
        unclaimed.advance(UsbOpeningEvent::<u8>::Done);
    }
    unclaimed.advance(UsbOpeningEvent::<u8>::Described(vec![shape(
        0x0A,
        &[0x80, 0x00],
    )]));
    unclaimed.advance(UsbOpeningEvent::<u8>::Done);
    assert!(matches!(
        unclaimed.advance(UsbOpeningEvent::<u8>::Refused),
        Action::CleanUp { claimed: false }
    ));
    match unclaimed.advance(UsbOpeningEvent::CleanedUp(UsbConnectionCleanup::Unclosed {
        owner: 9u8,
        release_interface: Ok(()),
        close_connection: "close failed".into(),
    })) {
        Action::Fail {
            error,
            quarantine,
            unclosed,
        } => {
            assert_eq!(
                error,
                "Java claimInterface returned false; cleanup unproven: close failed"
            );
            assert_eq!(
                quarantine.as_deref(),
                Some("USB setup cleanup failed: close failed")
            );
            assert_eq!(unclosed, Some(9));
        }
        other => panic!("expected a failure, got {other:?}"),
    }

    let mut unowned = UsbOpening::new("device", 115_200);
    unowned.advance(UsbOpeningEvent::<u8>::Done);
    unowned.advance(UsbOpeningEvent::<u8>::Done);
    assert!(matches!(
        unowned.advance(UsbOpeningEvent::<u8>::Failed("no reference".into())),
        Action::CloseUnowned
    ));
    match unowned.advance(UsbOpeningEvent::<u8>::ClosedUnowned(Ok(()))) {
        Action::Fail {
            error, quarantine, ..
        } => {
            assert_eq!(error, "no reference");
            assert_eq!(quarantine, None);
        }
        other => panic!("expected a failure, got {other:?}"),
    }

    let mut other_device = UsbOpening::new("device", 115_200);
    for _ in 0..3 {
        other_device.advance(UsbOpeningEvent::<u8>::Done);
    }
    assert!(matches!(
        other_device.advance(UsbOpeningEvent::<u8>::Described(vec![shape(0x03, &[0x80])])),
        Action::CleanUp { claimed: false }
    ));
}

#[test]
fn session_is_taken_down_in_order() {
    let mut driver = UsbDriver::new();
    assert!(driver
        .advance(UsbDriverEvent::ReadHandled(UsbInboundOutcome::Complete))
        .is_empty());
    assert_eq!(
        driver.advance(UsbDriverEvent::WriterEnded),
        vec![
            UsbDriverEffect::AnnounceShutdown(RNodeRuntimeReason::ConnectionLost),
            UsbDriverEffect::StopPump {
                wait: USB_WORKER_JOIN_DEADLINE
            },
        ]
    );
    assert_eq!(
        driver.advance(UsbDriverEvent::PumpJoined { in_time: false }),
        vec![
            UsbDriverEffect::AbortPump,
            UsbDriverEffect::StopWorkers,
            UsbDriverEffect::DrainReader {
                wait: USB_WORKER_JOIN_DEADLINE
            },
        ]
    );
    assert_eq!(
        driver.advance(UsbDriverEvent::Drained(UsbReadDrainOutcome::StopRequested)),
        vec![
            UsbDriverEffect::AnnounceShutdown(RNodeRuntimeReason::StopRequested),
            UsbDriverEffect::ShutDown {
                detach_wait: USB_DETACH_ACK_DEADLINE,
                join_wait: USB_WORKER_JOIN_DEADLINE,
            },
        ]
    );
    assert!(driver.stop_requested);
    assert_eq!(
        driver.advance(UsbDriverEvent::ShutDown),
        vec![
            UsbDriverEffect::GoOffline,
            UsbDriverEffect::AnnounceStopped(RNodeRuntimeReason::StopRequested),
            UsbDriverEffect::PublishOutcome,
        ]
    );
    assert_eq!(driver.phase, UsbDriverPhase::Stopped);
    assert!(driver.advance(UsbDriverEvent::StopRequested).is_empty());
}

#[test]
fn session_names_why_it_ended() {
    for (event, reason, drain) in [
        (
            UsbDriverEvent::StopRequested,
            RNodeRuntimeReason::StopRequested,
            false,
        ),
        (
            UsbDriverEvent::StopChannelClosed,
            RNodeRuntimeReason::DriverTerminated,
            false,
        ),
        (
            UsbDriverEvent::PumpEnded(UsbPumpEnd::WriterRejected),
            RNodeRuntimeReason::ConnectionLost,
            true,
        ),
        (
            UsbDriverEvent::PumpEnded(UsbPumpEnd::ApplicationClosed),
            RNodeRuntimeReason::TransportConsumerClosed,
            false,
        ),
        (
            UsbDriverEvent::PumpEnded(UsbPumpEnd::Lost),
            RNodeRuntimeReason::DriverTerminated,
            true,
        ),
        (
            UsbDriverEvent::ReaderEnded,
            RNodeRuntimeReason::ConnectionLost,
            false,
        ),
        (
            UsbDriverEvent::ReadHandled(UsbInboundOutcome::TransportClosed),
            RNodeRuntimeReason::TransportConsumerClosed,
            false,
        ),
    ] {
        let mut driver = UsbDriver::new();
        driver.advance(event);
        assert_eq!(driver.reason, reason);
        assert_eq!(driver.drain_reader_tail, drain);
        assert_eq!(
            driver.stop_requested,
            reason == RNodeRuntimeReason::StopRequested
        );
    }
}
