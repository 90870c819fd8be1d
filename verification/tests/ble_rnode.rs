use bytes::Bytes;
use rns_interface::ble_rnode::active::{
    active_adapter_event, active_head, claim_ble_packet_permit, native_active_frame,
    native_active_poll, native_startup_frames, project_active_ble_rnode_frame,
    project_ble_rnode_frame, AckOutcome, ActiveAdapterEvent, ActiveBlePacketAdmission, ActiveExit,
    ActiveReceiver, BleOutbound, NativeFrameOutcome, NativePendingOutbound,
};
use rns_interface::ble_rnode::config::{
    beacon_from_config, ble_interface_profile, ble_protocol_target, BleRNodeConfig, BLE_RNODE_MTU,
};
use rns_interface::ble_rnode::connect::{
    admit_adapter_use, ble_scan_filter, ble_write_chunk_size, ble_write_type,
    bounded_operation_error, choose_adapter, is_btleplug_initialized, mark_btleplug_initialized,
    write_chunks, BlePlatform, BleWriteType, BtleplugInitialization,
    BLE_DEFAULT_ATT_WRITE_PAYLOAD, BLE_RNODE_ATT_WRITE_PAYLOAD,
};
use rns_interface::ble_rnode::generation::{
    generation_deadline, generation_exit_result_class, generation_step, generation_wake,
    BleGenerationExit, BleGenerationId, BleOperationStage, EventPoll, GenerationStep,
    OperationPoll, PendingOutbound,
};
use rns_interface::ble_rnode::pairing::{
    desktop_pairing_trigger_for_properties, is_pairing_transition_error, linux_cancel_pairing,
    linux_submit_passkey, map_pairing_read_error, map_subscribe_generation_error,
    CharacteristicProperties, DesktopPairingTrigger, LinuxPairOutcome, LinuxPairing, PasskeyRefusal,
    PasskeyWait,
};
use rns_interface::ble_rnode::retry::{
    adapter_power_transition_wakes, ble_reconnect_delay, is_registered, next_backoff,
    reconnect_delay_with_jitter, register_running, register_valid, stop_ble_rnode_interface,
    unregister_running,
    CentralState, RunningMap,
};
use rns_interface::ble_rnode::startup::{
    hold_native_pre_ready_data, native_bridge_acknowledged_data_frames,
    reduce_native_handshake_bytes, reduce_native_startup_bytes, NativeStartupReductionError,
    RNODE_NATIVE_ACK_CALLBACK_MS, RNODE_NATIVE_ACK_ENQUEUE_RETRY_MS, RNODE_NATIVE_ACK_PACING_MS,
    RNODE_NATIVE_ACK_WORST_CASE_CHUNKS, RNODE_NATIVE_BRIDGE_ACK_COMMAND,
    RNODE_NATIVE_BRIDGE_ACK_TIMEOUT_MS, RNODE_NATIVE_MAX_PACKET,
    RNODE_NATIVE_STARTUP_PRE_READY_DATA_MAX_BYTES,
};
use rns_interface::ble_rnode::target::{
    ble_name_resolution_class, list_devices, list_rnode_candidates, parse_linux_ble_address,
    resolve_ble_target, BleAdvertisedProperties, BleAdvertisement, BleDeviceType, BleTargetResolutionClass,
    NUS_RX_CHAR_UUID, NUS_SERVICE_UUID, NUS_TX_CHAR_UUID,
};
use rns_interface::interface::{InterfaceError, InterfaceId, InterfaceMode, MILLISECOND, SECOND};
use rns_interface::kiss;
use rns_interface::rnode;
use rns_interface::rnode_protocol::{
    RNodeFirmwareVersion, RNodeProtocolEffect, RNodeProtocolState, RNodeProtocolTarget,
    RNodeReadiness, RNodeReadinessBlocker, RNodeReadinessEvidence,
};

const ACK_MAGIC: [u8; 5] = [0x52, 0x53, 0x42, 0x41, 0x01];

fn target_of(config: &BleRNodeConfig) -> RNodeProtocolTarget {
    RNodeProtocolTarget::new(
        config.frequency,
        config.bandwidth,
        config.spreading_factor,
        config.coding_rate,
        config.tx_power,
    )
}

fn acknowledgement(count: u64) -> Vec<u8> {
    let mut payload = ACK_MAGIC.to_vec();
    payload.extend_from_slice(&count.to_be_bytes());
    payload
}

#[test]
fn ble_flow_ready_is_a_saturating_one_packet_permit() {
    let mut ready = true;
    assert!(claim_ble_packet_permit(true, &mut ready));
    assert!(
        !claim_ble_packet_permit(true, &mut ready),
        "one positive READY must not release a second packet"
    );

    ready = true;
    assert!(claim_ble_packet_permit(true, &mut ready));
    assert!(!ready);

    assert!(claim_ble_packet_permit(false, &mut ready));
    assert!(claim_ble_packet_permit(false, &mut ready));
}

#[test]
fn native_bridge_ack_is_closed_exact_and_generation_local() {
    let wire = [
        kiss::FEND,
        RNODE_NATIVE_BRIDGE_ACK_COMMAND,
        0x52,
        0x53,
        0x42,
        0x41,
        0x01,
        0x00,
        0x00,
        0x00,
        0x00,
        0x00,
        0x00,
        0x00,
        0x01,
        kiss::FEND,
    ];
    let mut deframer = kiss::RawKissDeframer::new();
    let frames = deframer.feed(&wire);
    assert_eq!(frames.len(), 1);
    assert_eq!(
        native_bridge_acknowledged_data_frames(frames[0].0, &frames[0].1),
        Some(1),
        "both ends of the bridge share one exact wire contract"
    );

    let payload = acknowledgement(7);
    assert_eq!(
        native_bridge_acknowledged_data_frames(RNODE_NATIVE_BRIDGE_ACK_COMMAND, &payload),
        Some(7)
    );
    assert_eq!(
        native_bridge_acknowledged_data_frames(kiss::CMD_DATA, &payload),
        None,
        "ordinary RNode data can never be interpreted as a bridge ACK"
    );

    let mut wrong_magic = payload.clone();
    wrong_magic[0] ^= 0x01;
    assert_eq!(
        native_bridge_acknowledged_data_frames(RNODE_NATIVE_BRIDGE_ACK_COMMAND, &wrong_magic),
        None
    );
    assert_eq!(
        native_bridge_acknowledged_data_frames(
            RNODE_NATIVE_BRIDGE_ACK_COMMAND,
            &payload[..payload.len() - 1],
        ),
        None
    );
}

#[test]
fn native_bridge_ack_timeout_exceeds_the_shared_android_write_bound() {
    assert_eq!(RNODE_NATIVE_ACK_WORST_CASE_CHUNKS, 51);
    let write_bound_ms = RNODE_NATIVE_ACK_WORST_CASE_CHUNKS
        * (RNODE_NATIVE_ACK_ENQUEUE_RETRY_MS + RNODE_NATIVE_ACK_CALLBACK_MS)
        + (RNODE_NATIVE_ACK_WORST_CASE_CHUNKS - 1) * RNODE_NATIVE_ACK_PACING_MS;
    assert_eq!(write_bound_ms, 316_800);
    assert_eq!(RNODE_NATIVE_BRIDGE_ACK_TIMEOUT_MS, 318_800);
    assert!(RNODE_NATIVE_BRIDGE_ACK_TIMEOUT_MS > write_bound_ms);
}

fn apply_all_but_radio_state(state: &mut RNodeProtocolState, target: RNodeProtocolTarget) {
    for (command, frame) in [
        (rnode::CMD_DETECT, vec![rnode::DETECT_RESP]),
        (
            rnode::CMD_FW_VERSION,
            vec![rnode::REQUIRED_FW_VER_MAJ, rnode::REQUIRED_FW_VER_MIN],
        ),
        (
            rnode::CMD_FREQUENCY,
            target.frequency.to_be_bytes().to_vec(),
        ),
        (
            rnode::CMD_BANDWIDTH,
            target.bandwidth.to_be_bytes().to_vec(),
        ),
        (rnode::CMD_SF, vec![target.spreading_factor]),
        (rnode::CMD_CR, vec![target.coding_rate]),
        (rnode::CMD_TXPOWER, vec![target.tx_power]),
    ] {
        state.apply_frame(command, &frame);
    }
}

#[test]
fn native_startup_holds_pre_ready_data_and_preserves_post_ready_order() {
    let target = RNodeProtocolTarget::new(915_000_000, 125_000, 7, 5, 17);
    let mut state = RNodeProtocolState::new(target);
    apply_all_but_radio_state(&mut state, target);
    assert!(!matches!(state.readiness(), RNodeReadiness::Ready));

    let held = b"pre-ready";
    let retained = b"post-ready";
    let mut same_read = kiss::frame(held);
    same_read.extend(kiss::frame_with_command(
        rnode::CMD_RADIO_STATE,
        &[rnode::RADIO_STATE_ON],
    ));
    same_read.extend(kiss::frame(retained));
    let mut deframer = kiss::RawKissDeframer::new();
    let mut pre_ready_data = Vec::new();
    let mut pre_ready_data_bytes = 0;
    let mut active_frames = Vec::new();
    let mut active_bytes = 0;
    assert_eq!(
        reduce_native_startup_bytes(
            &mut state,
            &mut deframer,
            &same_read,
            &mut pre_ready_data,
            &mut pre_ready_data_bytes,
            &mut active_frames,
            &mut active_bytes,
        ),
        Ok(())
    );
    assert_eq!(state.readiness(), RNodeReadiness::Ready);
    assert_eq!(pre_ready_data, vec![held.to_vec()]);
    assert_eq!(pre_ready_data_bytes, held.len());
    assert_eq!(active_frames, vec![(kiss::CMD_DATA, retained.to_vec())]);
    assert_eq!(active_bytes, retained.len() + 1);
    assert_eq!(
        native_startup_frames(pre_ready_data, active_frames),
        vec![
            (kiss::CMD_DATA, held.to_vec()),
            (kiss::CMD_DATA, retained.to_vec())
        ]
    );
}

#[test]
fn native_startup_carries_partial_data_begun_after_ready_into_active_read() {
    let target = RNodeProtocolTarget::new(915_000_000, 125_000, 7, 5, 17);
    let mut state = RNodeProtocolState::new(target);
    apply_all_but_radio_state(&mut state, target);

    let retained = b"post-ready-split-across-reads";
    let framed = kiss::frame(retained);
    let split = framed.len() / 2;
    let mut first_read = kiss::frame_with_command(rnode::CMD_RADIO_STATE, &[rnode::RADIO_STATE_ON]);
    first_read.extend_from_slice(&framed[..split]);

    let mut startup_deframer = kiss::RawKissDeframer::new();
    let mut pre_ready_data = Vec::new();
    let mut pre_ready_data_bytes = 0;
    let mut active_frames = Vec::new();
    let mut active_bytes = 0;
    assert_eq!(
        reduce_native_startup_bytes(
            &mut state,
            &mut startup_deframer,
            &first_read,
            &mut pre_ready_data,
            &mut pre_ready_data_bytes,
            &mut active_frames,
            &mut active_bytes,
        ),
        Ok(())
    );
    assert_eq!(state.readiness(), RNodeReadiness::Ready);
    assert!(pre_ready_data.is_empty());
    assert!(active_frames.is_empty());

    let mut active_deframer = startup_deframer;
    assert_eq!(
        active_deframer.feed(&framed[split..]),
        vec![(kiss::CMD_DATA, retained.to_vec())]
    );
    assert!(active_deframer.feed(&[]).is_empty());
}

#[test]
fn native_startup_pre_ready_data_bound_exceeds_rnode_receive_buffer_and_fails_explicitly() {
    let target = RNodeProtocolTarget::new(915_000_000, 125_000, 7, 5, 17);
    let mut state = RNodeProtocolState::new(target);
    let mut deframer = kiss::RawKissDeframer::new();
    let mut pre_ready_data = Vec::new();
    let mut pre_ready_data_bytes = 0;
    let mut active_frames = Vec::new();
    let mut active_bytes = 0;
    let record = vec![0x41; RNODE_NATIVE_MAX_PACKET];

    for _ in 0..129 {
        assert_eq!(
            reduce_native_startup_bytes(
                &mut state,
                &mut deframer,
                &kiss::frame(&record),
                &mut pre_ready_data,
                &mut pre_ready_data_bytes,
                &mut active_frames,
                &mut active_bytes,
            ),
            Ok(())
        );
    }
    assert!(pre_ready_data_bytes > 6_144);
    assert!(pre_ready_data_bytes <= RNODE_NATIVE_STARTUP_PRE_READY_DATA_MAX_BYTES);
    assert_eq!(
        reduce_native_startup_bytes(
            &mut state,
            &mut deframer,
            &kiss::frame(&record),
            &mut pre_ready_data,
            &mut pre_ready_data_bytes,
            &mut active_frames,
            &mut active_bytes,
        ),
        Err(NativeStartupReductionError::PreReadyDataOverflow)
    );
}

#[test]
fn native_startup_active_carry_is_bounded() {
    let target = RNodeProtocolTarget::new(915_000_000, 125_000, 7, 5, 17);
    let mut state = RNodeProtocolState::new(target);
    apply_all_but_radio_state(&mut state, target);
    let mut read = kiss::frame_with_command(rnode::CMD_RADIO_STATE, &[rnode::RADIO_STATE_ON]);
    for _ in 0..9 {
        read.extend(kiss::frame(&[0x42; 508]));
    }
    let mut deframer = kiss::RawKissDeframer::new();
    let mut pre_ready_data = Vec::new();
    let mut pre_ready_data_bytes = 0;
    let mut active_frames = Vec::new();
    let mut active_bytes = 0;
    assert_eq!(
        reduce_native_startup_bytes(
            &mut state,
            &mut deframer,
            &read,
            &mut pre_ready_data,
            &mut pre_ready_data_bytes,
            &mut active_frames,
            &mut active_bytes,
        ),
        Err(NativeStartupReductionError::ActiveCarryOverflow)
    );
}

#[test]
fn held_packets_are_bounded_in_number() {
    let mut held = Vec::new();
    let mut bytes = 0;
    for _ in 0..256 {
        assert!(hold_native_pre_ready_data(vec![1], &mut held, &mut bytes));
    }
    assert!(!hold_native_pre_ready_data(vec![1], &mut held, &mut bytes));
    assert_eq!(held.len(), 256);
    assert_eq!(bytes, 256);
}

#[test]
fn native_pending_payload_survives_generation_reset_without_old_ack_state() {
    let payload = Bytes::from_static(b"retain-across-generation");
    let mut pending = NativePendingOutbound::new(PendingOutbound::new(payload.clone(), false));
    pending.expected_ack = Some(9);
    pending.sent_at = Some(1);

    pending.reset_for_generation();

    assert_eq!(pending.outbound.payload(), &payload);
    assert_eq!(pending.expected_ack, None);
    assert_eq!(pending.sent_at, None);
}

#[test]
fn ble_reconnect_jitter_stays_within_twenty_percent() {
    assert_eq!(reconnect_delay_with_jitter(1, 0), SECOND);
    assert!(reconnect_delay_with_jitter(1, u64::MAX) <= 1_200 * MILLISECOND);
    assert!(reconnect_delay_with_jitter(30, u64::MAX) <= 36 * SECOND);
}

#[test]
fn reconnect_delay_takes_a_random_number_within_its_bounds() {
    for _ in 0..64 {
        let delay = ble_reconnect_delay(10);
        assert!(delay >= 10 * SECOND);
        assert!(delay <= 12 * SECOND);
    }
}

#[test]
fn backoff_doubles_up_to_its_limit() {
    let mut waits = vec![1];
    for _ in 0..6 {
        waits.push(next_backoff(*waits.last().unwrap()));
    }
    assert_eq!(waits, vec![1, 2, 4, 8, 16, 30, 30]);
}

#[test]
fn adapter_power_recovery_wakes_only_after_observed_off_state() {
    let mut saw_powered_off = false;
    assert!(!adapter_power_transition_wakes(
        &mut saw_powered_off,
        CentralState::PoweredOn,
    ));
    assert!(!adapter_power_transition_wakes(
        &mut saw_powered_off,
        CentralState::Unknown,
    ));
    assert!(!adapter_power_transition_wakes(
        &mut saw_powered_off,
        CentralState::PoweredOff,
    ));
    assert!(saw_powered_off);
    assert!(adapter_power_transition_wakes(
        &mut saw_powered_off,
        CentralState::PoweredOn,
    ));
}

#[test]
fn ble_write_chunk_size_matches_platform_transport_guarantee() {
    assert_eq!(
        ble_write_chunk_size(BlePlatform::Apple),
        BLE_DEFAULT_ATT_WRITE_PAYLOAD
    );
    assert!(matches!(
        ble_write_type(BlePlatform::Apple),
        BleWriteType::WithResponse
    ));

    assert_eq!(
        ble_write_chunk_size(BlePlatform::Linux),
        BLE_RNODE_ATT_WRITE_PAYLOAD
    );
    assert!(matches!(
        ble_write_type(BlePlatform::Linux),
        BleWriteType::WithoutResponse
    ));
}

#[test]
fn writes_are_cut_in_order_and_lose_nothing() {
    let data: Vec<u8> = (0..=99).collect();
    let chunks = write_chunks(&data, 30).unwrap();
    assert_eq!(
        chunks.iter().map(Vec::len).collect::<Vec<_>>(),
        vec![30, 30, 30, 10]
    );
    assert_eq!(chunks.concat(), data);
    assert!(write_chunks(&data, 0).is_err());
}

#[test]
fn fresh_bond_disconnect_uses_fast_pairing_transition_retry() {
    let transition = InterfaceError::SendFailed(
        "BLE pairing in progress: RNode completed fresh bond and disconnected; reconnecting".into(),
    );
    assert!(is_pairing_transition_error(&transition));

    let ordinary_disconnect =
        InterfaceError::SendFailed("BLE connect failed: device disconnected".into());
    assert!(!is_pairing_transition_error(&ordinary_disconnect));
}

const ESP_TX: CharacteristicProperties = CharacteristicProperties {
    read: true,
    notify: true,
};

const NRF_TX: CharacteristicProperties = CharacteristicProperties {
    read: false,
    notify: true,
};

#[test]
fn apple_pairing_trigger_follows_discovered_tx_properties() {
    assert_eq!(
        desktop_pairing_trigger_for_properties(ESP_TX, true),
        DesktopPairingTrigger::EncryptedRead,
        "Apple must retain the reviewed encrypted-read trigger for ESP TX"
    );

    assert_eq!(
        desktop_pairing_trigger_for_properties(NRF_TX, true),
        DesktopPairingTrigger::SecuredSubscribe,
        "Apple must authenticate a Bluefruit notify-only TX through its CCCD"
    );
    assert_eq!(
        desktop_pairing_trigger_for_properties(NRF_TX, false),
        DesktopPairingTrigger::EncryptedRead,
        "Android and Windows retain their existing encrypted-read behavior"
    );
}

#[test]
fn corebluetooth_uuid_primary_uses_verified_name_for_post_bond_resolution() {
    let configured_uuid = "64F6A7A3-7349-4D15-92B7-AEAE9D2A0E61";
    let verified_name = "RNode 0544";

    assert_eq!(
        ble_name_resolution_class(configured_uuid, None, verified_name),
        None,
        "an unverified name must not replace the configured UUID"
    );
    assert_eq!(
        ble_name_resolution_class(configured_uuid, Some(verified_name), verified_name),
        Some(BleTargetResolutionClass::GenerationStableName),
        "the first exact RNode name must survive a post-bond CB handle replacement"
    );
    assert_eq!(
        ble_name_resolution_class(configured_uuid, Some(verified_name), "RNode 9999"),
        None,
        "a different advertised RNode name must not satisfy the fallback"
    );
}

#[test]
fn apple_nrf_fresh_bond_disconnect_retries_without_invalid_read_and_reaches_ready() {
    // Generation one authenticates through the secured CCCD. nRF firmware then
    // disconnects on purpose after storing the bond.
    assert_eq!(
        desktop_pairing_trigger_for_properties(NRF_TX, true),
        DesktopPairingTrigger::SecuredSubscribe
    );
    let mut generations = BleGenerationId::default();
    let first_generation = generations.next();
    let transition = map_subscribe_generation_error(&BleGenerationExit::TargetDisconnected {
        stage: BleOperationStage::PairingSubscribe,
    });
    assert!(is_pairing_transition_error(&transition));
    assert_eq!(
        BleOperationStage::PairingSubscribe.deadline(),
        60 * SECOND,
        "the secured CCCD trigger must leave time for human PIN entry"
    );
    assert_eq!(
        BleOperationStage::Subscribe.deadline(),
        10 * SECOND,
        "ordinary notification subscription retains its bounded deadline"
    );

    let immediate_auth_error = map_subscribe_generation_error(&BleGenerationExit::StageFailed {
        stage: BleOperationStage::PairingSubscribe,
        reason: "redacted platform error".into(),
    });
    assert!(is_pairing_transition_error(&immediate_auth_error));

    // The outer owner resolves a fresh peripheral for generation two. Its GATT contract
    // still selects subscribe directly; after the stored bond admits that CCCD write,
    // normal protocol evidence reaches Ready.
    assert_eq!(
        desktop_pairing_trigger_for_properties(NRF_TX, true),
        DesktopPairingTrigger::SecuredSubscribe
    );
    let second_generation = generations.next();
    assert_ne!(first_generation, second_generation);
    let target = RNodeProtocolTarget::new(915_000_000, 250_000, 9, 5, 17);
    let mut protocol_state = RNodeProtocolState::new(target);
    apply_all_but_radio_state(&mut protocol_state, target);
    protocol_state.apply_frame(rnode::CMD_RADIO_STATE, &[rnode::RADIO_STATE_ON]);
    assert_eq!(protocol_state.readiness(), RNodeReadiness::Ready);
}

#[test]
fn active_packet_admission_latches_for_one_physical_generation() {
    let mut startup = ActiveBlePacketAdmission::for_startup_policy(true);
    assert!(!startup.allows_packet());

    startup.observe_readiness(RNodeReadiness::Ready);
    assert!(startup.allows_packet());

    startup.observe_readiness(RNodeReadiness::Blocked(RNodeReadinessBlocker::Missing(
        RNodeReadinessEvidence::Frequency,
    )));
    assert!(
        startup.allows_packet(),
        "later evidence regression must not discard active-session packets"
    );

    let legacy = ActiveBlePacketAdmission::for_startup_policy(false);
    assert!(legacy.allows_packet());

    // A reconnect never inherits the prior generation's active boundary.
    let reconnect = ActiveBlePacketAdmission::for_startup_policy(true);
    assert!(!reconnect.allows_packet());
}

#[test]
fn test_ble_rnode_config_defaults() {
    let cfg = BleRNodeConfig::new("ble-rnode", "ble://RNode 3B87");
    assert_eq!(cfg.name, "ble-rnode");
    assert_eq!(cfg.ble_uri, "ble://RNode 3B87");
    assert_eq!(cfg.frequency, 868_000_000);
    assert_eq!(cfg.bandwidth, 125_000);
    assert_eq!(cfg.spreading_factor, 7);
    assert_eq!(cfg.coding_rate, 5);
    assert_eq!(cfg.tx_power, 14);
    assert!(!cfg.flow_control, "flow_control defaults off");
    assert!(cfg.st_alock.is_none());
    assert!(cfg.lt_alock.is_none());
}

#[test]
fn test_ble_rnode_config_custom_params() {
    let mut cfg = BleRNodeConfig::new("custom", "ble://F4:12:73:29:4E:89");
    cfg.frequency = 915_000_000;
    cfg.bandwidth = 250_000;
    cfg.spreading_factor = 12;
    cfg.coding_rate = 8;
    cfg.tx_power = 22;
    cfg.mode = InterfaceMode::AccessPoint;
    cfg.flow_control = false;
    cfg.st_alock = Some(5_000);
    cfg.lt_alock = Some(7_500);

    assert_eq!(cfg.frequency, 915_000_000);
    assert_eq!(cfg.bandwidth, 250_000);
    assert_eq!(cfg.spreading_factor, 12);
    assert_eq!(cfg.coding_rate, 8);
    assert_eq!(cfg.tx_power, 22);
    assert_eq!(cfg.mode, InterfaceMode::AccessPoint);
    assert!(!cfg.flow_control);
    assert_eq!(cfg.st_alock.map(|limit| f32::from(limit) / 100.0), Some(50.0));
    assert_eq!(cfg.lt_alock.map(|limit| f32::from(limit) / 100.0), Some(75.0));
}

#[test]
fn test_ble_rnode_config_empty_uri() {
    let cfg = BleRNodeConfig::new("any-rnode", "ble://");
    assert_eq!(cfg.ble_uri, "ble://");
}

#[test]
fn test_ble_rnode_config_address_uri() {
    let cfg = BleRNodeConfig::new("addr-rnode", "ble://F4:12:73:29:4E:89");
    assert_eq!(cfg.ble_uri, "ble://F4:12:73:29:4E:89");
}

#[test]
fn test_ble_rnode_config_name_uri() {
    let cfg = BleRNodeConfig::new("named-rnode", "ble://RNode 3B87");
    assert_eq!(cfg.ble_uri, "ble://RNode 3B87");
}

#[test]
fn ble_interface_is_described_to_the_transport() {
    let cfg = BleRNodeConfig::new("ble0", "ble://");
    let profile = ble_interface_profile(&cfg, 12, 9_600);
    assert_eq!(profile.id, 12);
    assert_eq!(profile.name, "ble0");
    assert_eq!(profile.parent_id, None);
    assert_eq!(profile.bitrate, 9_600);
    assert_eq!(profile.mtu, BLE_RNODE_MTU);
    assert!(profile.direction.inbound && profile.direction.outbound);
    assert!(!profile.direction.forward && !profile.direction.repeat);
    assert_eq!(ble_protocol_target(&cfg), target_of(&cfg));
}

#[test]
fn oversized_callsign_disables_the_station_beacon() {
    let mut cfg = BleRNodeConfig::new("ble0", "ble://");
    assert!(beacon_from_config(&cfg).is_none());
    cfg.id_interval = Some(600);
    assert!(beacon_from_config(&cfg).is_none());
    cfg.id_callsign = Some(b"N0CALL".to_vec());
    let beacon = beacon_from_config(&cfg).unwrap();
    assert_eq!(beacon.interval, 600 * SECOND);
    assert_eq!(beacon.callsign, Bytes::from_static(b"N0CALL"));
    cfg.id_callsign = Some(vec![b'A'; 33]);
    assert!(beacon_from_config(&cfg).is_none());
}

#[test]
fn test_nus_uuids() {
    assert_eq!(
        uuid::Uuid::from_u128(NUS_SERVICE_UUID).to_string().to_uppercase(),
        "6E400001-B5A3-F393-E0A9-E50E24DCCA9E"
    );
    assert_eq!(
        uuid::Uuid::from_u128(NUS_RX_CHAR_UUID).to_string().to_uppercase(),
        "6E400002-B5A3-F393-E0A9-E50E24DCCA9E"
    );
    assert_eq!(
        uuid::Uuid::from_u128(NUS_TX_CHAR_UUID).to_string().to_uppercase(),
        "6E400003-B5A3-F393-E0A9-E50E24DCCA9E"
    );
}

#[test]
fn test_nus_service_uuid_distinct() {
    assert_ne!(NUS_SERVICE_UUID, NUS_RX_CHAR_UUID);
    assert_ne!(NUS_SERVICE_UUID, NUS_TX_CHAR_UUID);
    assert_ne!(NUS_RX_CHAR_UUID, NUS_TX_CHAR_UUID);
}

// Shutdown and running flags

#[test]
fn test_register_unregister_running() {
    let mut map = RunningMap::new();
    let id: InterfaceId = 0xDEAD_BEEF_0000_0001;
    assert!(!is_registered(&map, id));
    let flag = register_running(&mut map, id);
    assert!(is_registered(&map, id));
    assert!(map.is_running(flag));
    unregister_running(&mut map, id, flag);
    assert!(!is_registered(&map, id));
}

#[test]
fn test_stop_ble_rnode_interface_sets_flag() {
    let mut map = RunningMap::new();
    let id: InterfaceId = 0xDEAD_BEEF_0000_0002;
    let flag = register_running(&mut map, id);
    assert!(map.is_running(flag));
    stop_ble_rnode_interface(&mut map, id);
    assert!(!map.is_running(flag));
    // The entry stays until the driver that owns it is gone.
    unregister_running(&mut map, id, flag);
}

#[test]
fn test_stop_ble_rnode_interface_unknown_id_is_noop() {
    let mut map = RunningMap::new();
    let id: InterfaceId = 0xDEAD_BEEF_0000_0003;
    assert!(!is_registered(&map, id));
    assert!(!stop_ble_rnode_interface(&mut map, id));
    assert!(!is_registered(&map, id));
}

#[test]
fn test_ble_exact_shutdown_and_cleanup_resist_same_id_aba() {
    let mut map = RunningMap::new();
    let id: InterfaceId = 0xDEAD_BEEF_0000_0004;
    let old_running = register_running(&mut map, id);
    let new_running = register_running(&mut map, id);

    unregister_running(&mut map, id, old_running);
    assert!(
        is_registered(&map, id),
        "retired task cleanup must preserve the newer compatibility entry"
    );
    map.request_shutdown(old_running);
    assert!(!map.is_running(old_running));
    assert!(
        map.is_running(new_running),
        "the retired handle must not stop the newer same-ID BLE driver"
    );

    stop_ble_rnode_interface(&mut map, id);
    assert!(
        !map.is_running(new_running),
        "the compatibility facade must still stop the current registration"
    );
    unregister_running(&mut map, id, new_running);
    map.release_flag(old_running);
    map.release_flag(new_running);
    assert!(!map.is_running(new_running));
}

#[test]
fn faulty_config_is_refused_before_registration() {
    let mut map = RunningMap::new();
    let fault = rnode::RNodeConfigFault {
        field: "frequency".into(),
        error: "out of range".into(),
    };
    assert_eq!(
        register_valid(&mut map, 7, Some(&fault)),
        Err(InterfaceError::SendFailed(
            "rnode config frequency: out of range".into()
        ))
    );
    assert!(!is_registered(&map, 7));
    let flag = register_valid(&mut map, 7, None).unwrap();
    assert!(is_registered(&map, 7));
    assert!(map.is_running(flag));
}

// Devices

#[test]
fn test_device_type_equality() {
    assert_eq!(BleDeviceType::RNode, BleDeviceType::RNode);
    assert_eq!(BleDeviceType::Unknown, BleDeviceType::Unknown);
    assert_ne!(BleDeviceType::RNode, BleDeviceType::Unknown);
}

fn advertisement(id: &str, name: Option<&str>, nus: bool, rssi: Option<i16>) -> BleAdvertisement {
    BleAdvertisement {
        id: id.into(),
        properties: Some(BleAdvertisedProperties {
            local_name: name.map(str::to_string),
            services: if nus { vec![NUS_SERVICE_UUID] } else { vec![] },
            rssi,
        }),
        bonded: false,
    }
}

fn scanned() -> Vec<BleAdvertisement> {
    let mut bonded = advertisement("F4:12:73:29:4E:89", Some("RNode 3B87"), true, Some(-65));
    bonded.bonded = true;
    vec![
        bonded,
        advertisement("11:22:33:44:55:66", Some("Headphones"), false, None),
        BleAdvertisement {
            id: "no properties".into(),
            properties: None,
            bonded: false,
        },
        advertisement("no name", None, true, None),
        advertisement("empty name", Some(""), true, None),
        advertisement("AA:BB:CC:DD:EE:FF", Some("Bangle.js"), true, None),
        advertisement("12:34:56:78:9A:BC", Some("RNode 1111"), false, Some(-80)),
    ]
}

#[test]
fn scan_lists_named_devices() {
    let devices = list_devices(&scanned());
    let listed: Vec<(&str, BleDeviceType)> = devices
        .iter()
        .map(|device| (device.name.as_str(), device.device_type.clone()))
        .collect();
    assert_eq!(
        listed,
        vec![
            ("RNode 3B87", BleDeviceType::RNode),
            ("Headphones", BleDeviceType::Unknown),
            ("Bangle.js", BleDeviceType::RNode),
            ("RNode 1111", BleDeviceType::Unknown),
        ]
    );
    assert_eq!(devices[0].address, "F4:12:73:29:4E:89");
    assert_eq!(devices[0].rssi, Some(-65));
    assert!(devices[0].bonded);
    assert_eq!(devices[3].rssi, Some(-80));
    assert!(!devices[3].bonded);
}

#[test]
fn picker_lists_rnode_candidates() {
    let names: Vec<String> = list_rnode_candidates(&scanned())
        .into_iter()
        .map(|device| device.name)
        .collect();
    assert_eq!(names, vec!["RNode 3B87", "RNode 1111"]);
}

#[test]
fn target_is_resolved_by_address_before_name() {
    let seen = vec![
        advertisement("AA:BB:CC:DD:EE:FF", Some("RNode 1111"), true, None),
        advertisement("F4:12:73:29:4E:89", Some("RNode 2222"), true, None),
    ];
    assert_eq!(
        resolve_ble_target("ble://f4:12:73:29:4e:89", None, &seen)
            .unwrap()
            .0,
        1
    );
    assert_eq!(
        resolve_ble_target("ble://RNode 1111", None, &seen).unwrap().0,
        0
    );
    assert_eq!(resolve_ble_target("ble://", None, &seen).unwrap().0, 0);
    assert!(resolve_ble_target("ble://RNode 3333", None, &seen).is_err());
    assert_eq!(
        resolve_ble_target("ble://64F6A7A3-7349-4D15-92B7-AEAE9D2A0E61", Some("RNode 2222"), &seen)
            .unwrap(),
        (1, BleTargetResolutionClass::GenerationStableName)
    );
}

#[test]
fn linux_address_is_read_directly_or_from_a_bluez_path() {
    let wanted = [0xF4, 0x12, 0x73, 0x29, 0x4E, 0x89];
    assert_eq!(parse_linux_ble_address("F4:12:73:29:4E:89").unwrap(), wanted);
    assert_eq!(
        parse_linux_ble_address("hci0/dev_F4_12_73_29_4E_89").unwrap(),
        wanted
    );
    assert!(parse_linux_ble_address("not an address").is_err());
}

// Startup and handshake

fn project_startup(
    state: &mut RNodeProtocolState,
    deframer: &mut kiss::RawKissDeframer,
    bytes: &[u8],
) -> (usize, usize) {
    let mut complete = 0;
    let mut suppressed = 0;
    for (command, frame) in deframer.feed(bytes) {
        complete += 1;
        if command == kiss::CMD_DATA && !frame.is_empty() {
            suppressed += 1;
        }
        project_ble_rnode_frame(state, command, &frame);
    }
    (complete, suppressed)
}

#[test]
fn test_desktop_ble_observation_rejects_malformed_startup_evidence() {
    let config = BleRNodeConfig::new("ble0", "ble://RNode 1234");
    let mut protocol_state = RNodeProtocolState::new(target_of(&config));

    let before = protocol_state.evidence();
    project_ble_rnode_frame(&mut protocol_state, rnode::CMD_DETECT, &[]);
    assert_eq!(before, protocol_state.evidence());

    project_ble_rnode_frame(&mut protocol_state, rnode::CMD_DETECT, &[rnode::DETECT_RESP]);
    assert!(protocol_state.evidence().detected);
    assert!(!matches!(protocol_state.readiness(), RNodeReadiness::Ready));
}

#[test]
fn test_desktop_ble_startup_drain_projects_control_without_legacy_packet_effect() {
    let config = BleRNodeConfig::new("ble0", "ble://RNode 1234");
    let mut protocol_state = RNodeProtocolState::new(target_of(&config));
    let mut deframer = kiss::RawKissDeframer::new();

    let packet = [0x01, 0x02, 0x03];
    let mut startup_bytes = kiss::frame(&packet);
    startup_bytes.extend(kiss::frame_with_command(
        rnode::CMD_DETECT,
        &[rnode::DETECT_RESP],
    ));

    assert_eq!(
        project_startup(&mut protocol_state, &mut deframer, &startup_bytes),
        (2, 1)
    );
    assert!(protocol_state.evidence().detected);

    // The startup data was packet-shaped and would have been forwarded in an active
    // session.
    let mut rssi = None;
    let mut snr = None;
    assert!(matches!(
        rnode::process_rnode_response(kiss::CMD_DATA, &packet, 7, &mut rssi, &mut snr),
        rnode::RNodeResponse::Packet(_)
    ));
}

#[test]
fn test_desktop_ble_startup_drain_discards_partial_packet_at_active_boundary() {
    let config = BleRNodeConfig::new("ble0", "ble://RNode 1234");
    let mut protocol_state = RNodeProtocolState::new(target_of(&config));

    let framed = kiss::frame(&[0x01, 0x02, 0x03]);
    let split = framed.len() - 1;
    let (startup_prefix, active_tail) = framed.split_at(split);

    let mut carried = kiss::RawKissDeframer::new();
    assert!(carried.feed(startup_prefix).is_empty());
    assert_eq!(
        carried.feed(active_tail),
        vec![(kiss::CMD_DATA, vec![0x01, 0x02, 0x03])]
    );

    let mut boundary_deframer = kiss::RawKissDeframer::new();
    assert_eq!(
        project_startup(&mut protocol_state, &mut boundary_deframer, startup_prefix),
        (0, 0)
    );

    boundary_deframer.reset();
    assert!(boundary_deframer.feed(active_tail).is_empty());
}

#[test]
fn test_native_ble_handshake_reduces_full_accepted_batch_before_publication() {
    let config = BleRNodeConfig::new("ble0", "ble://RNode 1234");
    let mut protocol_state = RNodeProtocolState::new(target_of(&config));
    let mut deframer = kiss::RawKissDeframer::new();

    let mut batch = kiss::frame_with_command(rnode::CMD_DETECT, &[rnode::DETECT_RESP]);
    batch.extend(kiss::frame_with_command(
        rnode::CMD_FW_VERSION,
        &[rnode::REQUIRED_FW_VER_MAJ, rnode::REQUIRED_FW_VER_MIN],
    ));

    assert!(reduce_native_handshake_bytes(
        &mut protocol_state,
        &mut deframer,
        &batch,
    ));
    let evidence = protocol_state.evidence();
    assert!(evidence.detected);
    assert_eq!(
        evidence.firmware,
        Some(RNodeFirmwareVersion::new(
            rnode::REQUIRED_FW_VER_MAJ,
            rnode::REQUIRED_FW_VER_MIN,
        ))
    );
}

#[test]
fn test_native_ble_split_control_is_recovered_by_post_init_refresh() {
    let target = RNodeProtocolTarget::new(915_000_000, 125_000, 7, 5, 17);
    let mut protocol_state = RNodeProtocolState::new(target);
    let mut handshake_deframer = kiss::RawKissDeframer::new();

    let firmware = kiss::frame_with_command(
        rnode::CMD_FW_VERSION,
        &[rnode::REQUIRED_FW_VER_MAJ, rnode::REQUIRED_FW_VER_MIN],
    );
    let split = firmware.len() - 2;
    let (firmware_prefix, firmware_tail) = firmware.split_at(split);
    let mut accepted_read = kiss::frame_with_command(rnode::CMD_DETECT, &[rnode::DETECT_RESP]);
    accepted_read.extend_from_slice(firmware_prefix);

    assert!(reduce_native_handshake_bytes(
        &mut protocol_state,
        &mut handshake_deframer,
        &accepted_read,
    ));
    assert!(
        protocol_state.evidence().firmware.is_none(),
        "the split firmware frame is not complete at admission"
    );

    // Admission drops the handshake deframer. The unread tail cannot complete by itself,
    // but the detect sequence after the initialisation elicits a full replacement.
    drop(handshake_deframer);
    let mut active_bytes = firmware_tail.to_vec();
    active_bytes.extend_from_slice(&firmware);
    let mut active_deframer = kiss::RawKissDeframer::new();
    let active_frames = active_deframer.feed(&active_bytes);
    assert_eq!(
        active_frames,
        vec![(
            rnode::CMD_FW_VERSION,
            vec![rnode::REQUIRED_FW_VER_MAJ, rnode::REQUIRED_FW_VER_MIN],
        )]
    );
    for (command, frame) in active_frames {
        protocol_state.apply_frame(command, &frame);
    }
    assert!(protocol_state.evidence().firmware.is_some());
}

#[test]
fn test_native_ble_split_data_is_discarded_at_active_boundary() {
    let target = RNodeProtocolTarget::new(915_000_000, 125_000, 7, 5, 17);
    let mut protocol_state = RNodeProtocolState::new(target);
    let mut handshake_deframer = kiss::RawKissDeframer::new();
    let partial_packet = kiss::frame(&[0x11, 0x22, 0x33]);
    let split = partial_packet.len() - 2;
    let (packet_prefix, packet_tail) = partial_packet.split_at(split);
    let mut accepted_read = kiss::frame_with_command(rnode::CMD_DETECT, &[rnode::DETECT_RESP]);
    accepted_read.extend_from_slice(packet_prefix);

    assert!(reduce_native_handshake_bytes(
        &mut protocol_state,
        &mut handshake_deframer,
        &accepted_read,
    ));

    drop(handshake_deframer);
    let firmware_response = kiss::frame_with_command(
        rnode::CMD_FW_VERSION,
        &[rnode::REQUIRED_FW_VER_MAJ, rnode::REQUIRED_FW_VER_MIN],
    );
    let active_packet = vec![0x44, 0x55];
    let mut active_bytes = packet_tail.to_vec();
    active_bytes.extend_from_slice(&firmware_response);
    active_bytes.extend_from_slice(&kiss::frame(&active_packet));

    let mut active_deframer = kiss::RawKissDeframer::new();
    let active_frames = active_deframer.feed(&active_bytes);
    assert_eq!(
        active_frames,
        vec![
            (
                rnode::CMD_FW_VERSION,
                vec![rnode::REQUIRED_FW_VER_MAJ, rnode::REQUIRED_FW_VER_MIN],
            ),
            (kiss::CMD_DATA, active_packet),
        ]
    );
    assert!(
        active_frames
            .iter()
            .all(|(command, frame)| *command != kiss::CMD_DATA
                || frame.as_slice() != [0x11, 0x22, 0x33]),
        "partial pre-init data must never enter active forwarding"
    );
}

#[test]
fn test_native_ble_pre_admission_reset_is_not_misattributed_to_new_generation() {
    let target = RNodeProtocolTarget::new(915_000_000, 125_000, 7, 5, 17);
    let mut protocol_state = RNodeProtocolState::new(target);
    let mut deframer = kiss::RawKissDeframer::new();
    let mut batch = kiss::frame_with_command(rnode::CMD_DETECT, &[rnode::DETECT_RESP]);
    batch.extend(kiss::frame_with_command(rnode::CMD_RESET, &[0xF8]));
    batch.extend(kiss::frame_with_command(
        rnode::CMD_FW_VERSION,
        &[rnode::REQUIRED_FW_VER_MAJ, rnode::REQUIRED_FW_VER_MIN],
    ));

    assert!(reduce_native_handshake_bytes(
        &mut protocol_state,
        &mut deframer,
        &batch,
    ));
    assert!(
        !protocol_state.evidence().detected,
        "reset must clear evidence accumulated earlier in the pending batch"
    );
    assert!(protocol_state.evidence().firmware.is_some());

    let reset = project_ble_rnode_frame(&mut protocol_state, rnode::CMD_RESET, &[0xF8]);
    assert_eq!(reset.effect, RNodeProtocolEffect::DeviceReset);
    assert_eq!(reset.reason(), Some(rnode::RNodeRuntimeReason::DeviceReset));
    assert!(reset.state.evidence().firmware.is_none());
    assert!(protocol_state.evidence().firmware.is_none());
}

#[test]
fn frames_of_an_active_generation_are_observed() {
    let mut receiver = ready_receiver(true);
    let mut outbound = BleOutbound::new(false, None);
    let mut take = |command: u8, frame: &[u8]| match native_active_frame(
        &mut receiver,
        &mut outbound,
        command,
        frame,
        0,
    ) {
        NativeFrameOutcome::Received(received) => received,
        other => panic!("expected a frame of the device, got {other:?}"),
    };
    let flow = take(rnode::CMD_READY, &[0]);
    assert_eq!(flow.observation.effect, RNodeProtocolEffect::Changed);
    assert_eq!(flow.observation.state.evidence().flow_permitted, Some(false));
    assert_eq!(
        take(rnode::CMD_READY, &[0]).observation.effect,
        RNodeProtocolEffect::NoChange
    );
    let packet = take(kiss::CMD_DATA, b"packet");
    assert_eq!(packet.packet.unwrap().raw, b"packet");
    assert_eq!(packet.observation.effect, RNodeProtocolEffect::NoChange);
    let lost = take(rnode::CMD_RADIO_STATE, &[rnode::RADIO_STATE_OFF]);
    assert_eq!(lost.observation.effect, RNodeProtocolEffect::Changed);
    assert_ne!(lost.observation.state.readiness(), RNodeReadiness::Ready);
    let reset = take(rnode::CMD_RESET, &[rnode::RESET_ANNOUNCEMENT]);
    assert_eq!(
        reset.observation.reason(),
        Some(rnode::RNodeRuntimeReason::DeviceReset)
    );
}

#[test]
fn test_native_ble_malformed_accepted_handshake_has_no_typed_publication() {
    let target = RNodeProtocolTarget::new(915_000_000, 125_000, 7, 5, 17);
    let mut protocol_state = RNodeProtocolState::new(target);
    let mut deframer = kiss::RawKissDeframer::new();

    // Any firmware response that is not empty admits a bridge's connection; a payload of
    // the wrong width is still no evidence.
    let malformed = kiss::frame_with_command(rnode::CMD_FW_VERSION, &[rnode::REQUIRED_FW_VER_MAJ]);
    assert!(reduce_native_handshake_bytes(
        &mut protocol_state,
        &mut deframer,
        &malformed,
    ));
    assert!(protocol_state.evidence().firmware.is_none());
}

#[test]
fn strict_active_handler_keeps_same_notification_data_ready_and_rssi_after_fresh_rf() {
    let config = BleRNodeConfig::new("ble0", "ble://RNode 1234");
    let target = target_of(&config);
    let mut state = RNodeProtocolState::new(target);
    state.apply_frame(rnode::CMD_DETECT, &[rnode::DETECT_RESP]);
    state.apply_frame(
        rnode::CMD_FW_VERSION,
        &[rnode::REQUIRED_FW_VER_MAJ, rnode::REQUIRED_FW_VER_MIN],
    );
    state.apply_frame(rnode::CMD_RADIO_STATE, &[rnode::RADIO_STATE_OFF]);

    let mut notification =
        kiss::frame_with_command(rnode::CMD_RADIO_STATE, &[rnode::RADIO_STATE_OFF]);
    notification.extend(kiss::frame_with_command(
        rnode::CMD_FREQUENCY,
        &target.frequency.to_be_bytes(),
    ));
    notification.extend(kiss::frame_with_command(
        rnode::CMD_BANDWIDTH,
        &target.bandwidth.to_be_bytes(),
    ));
    notification.extend(kiss::frame_with_command(
        rnode::CMD_SF,
        &[target.spreading_factor],
    ));
    notification.extend(kiss::frame_with_command(
        rnode::CMD_CR,
        &[target.coding_rate],
    ));
    notification.extend(kiss::frame_with_command(
        rnode::CMD_TXPOWER,
        &[target.tx_power],
    ));
    notification.extend(kiss::frame_with_command(
        rnode::CMD_RADIO_STATE,
        &[rnode::RADIO_STATE_ON],
    ));
    notification.extend(kiss::frame(b"first-active-packet"));
    notification.extend(kiss::frame_with_command(rnode::CMD_READY, &[1]));
    notification.extend(kiss::frame_with_command(rnode::CMD_STAT_RSSI, &[67]));

    let mut deframer = kiss::RawKissDeframer::new();
    let mut last_rssi = None;
    let mut last_snr = None;
    let mut packets = 0usize;
    let mut flow_ready = false;
    let mut packet_admission = ActiveBlePacketAdmission::for_startup_policy(true);
    packet_admission.observe_readiness(state.readiness());
    for (command, frame) in deframer.feed(&notification) {
        let data_allowed =
            project_active_ble_rnode_frame(&mut state, &mut packet_admission, command, &frame);
        match rnode::process_rnode_response(command, &frame, 1, &mut last_rssi, &mut last_snr) {
            rnode::RNodeResponse::Packet(_) if data_allowed => packets += 1,
            rnode::RNodeResponse::Ready(value) => flow_ready = value,
            rnode::RNodeResponse::Packet(_) | rnode::RNodeResponse::Ignored => {}
        }
    }

    assert_eq!(packets, 1, "fresh post-Ready DATA must not be drained");
    assert!(flow_ready, "same-notification READY must be applied");
    assert_eq!(
        last_rssi.map(f32::from),
        Some(-90.0),
        "same-notification RSSI must be retained"
    );
    assert!(matches!(state.readiness(), RNodeReadiness::Ready));

    // The receiver does the same in one step.
    let mut seed = RNodeProtocolState::new(target);
    seed.apply_frame(rnode::CMD_DETECT, &[rnode::DETECT_RESP]);
    seed.apply_frame(
        rnode::CMD_FW_VERSION,
        &[rnode::REQUIRED_FW_VER_MAJ, rnode::REQUIRED_FW_VER_MIN],
    );
    let mut receiver = ActiveReceiver::new(1, kiss::RawKissDeframer::new(), seed, true);
    let received = receiver.notification(&notification);
    let delivered: Vec<Vec<u8>> = received
        .iter()
        .filter_map(|frame| frame.packet.as_ref())
        .map(|packet| packet.raw.clone())
        .collect();
    assert_eq!(delivered, vec![b"first-active-packet".to_vec()]);
    let last = received.last().unwrap().observation;
    assert_eq!(last.state, *receiver.protocol());
    assert_eq!(last.state.readiness(), RNodeReadiness::Ready);
    assert!(received
        .iter()
        .any(|frame| frame.observation.effect == RNodeProtocolEffect::Changed
            && frame.observation.state.readiness() == RNodeReadiness::Ready));
}

#[test]
fn strict_active_admission_survives_first_frame_readiness_regression() {
    let target = RNodeProtocolTarget::new(915_000_000, 125_000, 8, 6, 17);
    let mut state = RNodeProtocolState::new(target);
    state.apply_frame(rnode::CMD_DETECT, &[rnode::DETECT_RESP]);
    state.apply_frame(
        rnode::CMD_FW_VERSION,
        &[rnode::REQUIRED_FW_VER_MAJ, rnode::REQUIRED_FW_VER_MIN],
    );
    state.apply_frame(rnode::CMD_FREQUENCY, &target.frequency.to_be_bytes());
    state.apply_frame(rnode::CMD_BANDWIDTH, &target.bandwidth.to_be_bytes());
    state.apply_frame(rnode::CMD_SF, &[target.spreading_factor]);
    state.apply_frame(rnode::CMD_CR, &[target.coding_rate]);
    state.apply_frame(rnode::CMD_TXPOWER, &[target.tx_power]);
    state.apply_frame(rnode::CMD_RADIO_STATE, &[rnode::RADIO_STATE_ON]);
    assert_eq!(state.readiness(), RNodeReadiness::Ready);

    let mut admission = ActiveBlePacketAdmission::for_startup_policy(true);
    admission.observe_readiness(state.readiness());

    let mismatched_frequency = target.frequency.saturating_add(101).to_be_bytes();
    assert!(project_active_ble_rnode_frame(
        &mut state,
        &mut admission,
        rnode::CMD_FREQUENCY,
        &mismatched_frequency,
    ));
    assert_ne!(state.readiness(), RNodeReadiness::Ready);
    assert!(project_active_ble_rnode_frame(
        &mut state,
        &mut admission,
        kiss::CMD_DATA,
        b"valid-active-packet",
    ));

    let mut reconnect = ActiveBlePacketAdmission::for_startup_policy(true);
    let mut reconnect_state = RNodeProtocolState::new(target);
    assert!(!project_active_ble_rnode_frame(
        &mut reconnect_state,
        &mut reconnect,
        kiss::CMD_DATA,
        b"pre-admission-packet",
    ));
}

// Native bridge

fn ready_receiver(strict: bool) -> ActiveReceiver {
    let target = RNodeProtocolTarget::new(915_000_000, 125_000, 7, 5, 17);
    let mut state = RNodeProtocolState::new(target);
    apply_all_but_radio_state(&mut state, target);
    state.apply_frame(rnode::CMD_RADIO_STATE, &[rnode::RADIO_STATE_ON]);
    ActiveReceiver::new(5, kiss::RawKissDeframer::new(), state, strict)
}

#[test]
fn unacknowledged_packet_is_written_again_by_the_next_generation() {
    let mut receiver = ready_receiver(true);
    let mut outbound = BleOutbound::new(false, None);
    assert!(outbound.wants_packet());
    assert!(outbound.accept(Bytes::from_static(b"payload")).is_none());
    assert_eq!(
        outbound.accept(Bytes::from_static(b"second")),
        Some(Bytes::from_static(b"second"))
    );
    assert_eq!(
        outbound.next_write(&mut receiver),
        Some(kiss::frame(b"payload"))
    );
    outbound.written(10);
    assert_eq!(outbound.next_write(&mut receiver), None);

    outbound.begin_generation();
    let mut next = ready_receiver(true);
    assert_eq!(outbound.next_write(&mut next), Some(kiss::frame(b"payload")));
    outbound.written(20);
    assert!(matches!(
        native_active_frame(
            &mut next,
            &mut outbound,
            RNODE_NATIVE_BRIDGE_ACK_COMMAND,
            &acknowledgement(1),
            30
        ),
        NativeFrameOutcome::Sent { bytes: 7 }
    ));
    assert_eq!(outbound.acknowledge(1, 31), AckOutcome::Duplicate);
    assert!(outbound.wants_packet());
}

#[test]
fn bridge_acknowledgements_out_of_order_end_the_generation() {
    let mut receiver = ready_receiver(true);
    let mut outbound = BleOutbound::new(false, None);
    outbound.accept(Bytes::from_static(b"payload"));
    outbound.written(0);
    assert!(matches!(
        native_active_frame(
            &mut receiver,
            &mut outbound,
            RNODE_NATIVE_BRIDGE_ACK_COMMAND,
            &acknowledgement(2),
            1
        ),
        NativeFrameOutcome::Exit(ActiveExit::BridgeAckOutOfSequence)
    ));
    assert!(matches!(
        native_active_frame(
            &mut receiver,
            &mut outbound,
            RNODE_NATIVE_BRIDGE_ACK_COMMAND,
            b"short",
            1
        ),
        NativeFrameOutcome::Exit(ActiveExit::BridgeAckMalformed)
    ));
    assert_eq!(native_active_poll(&mut outbound, 318_799 * MILLISECOND), None);
    assert_eq!(
        native_active_poll(&mut outbound, 318_800 * MILLISECOND),
        Some(ActiveExit::BridgeAckTimedOut)
    );
}

#[test]
fn flow_control_admits_one_packet_for_each_permission() {
    let mut receiver = ready_receiver(false);
    let mut outbound = BleOutbound::new(true, None);
    outbound.accept(Bytes::from_static(b"one"));
    assert!(outbound.next_write(&mut receiver).is_some());
    assert_eq!(outbound.completed(5), 3);
    outbound.accept(Bytes::from_static(b"two"));
    assert!(outbound.next_write(&mut receiver).is_none());
    receiver.frame(rnode::CMD_READY, &[1]);
    assert!(outbound.next_write(&mut receiver).is_some());
}

#[test]
fn station_identifies_itself_an_interval_after_a_packet() {
    let mut cfg = BleRNodeConfig::new("ble0", "ble://");
    cfg.id_interval = Some(10);
    cfg.id_callsign = Some(b"N0CALL".to_vec());
    let mut outbound = BleOutbound::new(false, beacon_from_config(&cfg));
    let mut receiver = ready_receiver(false);
    assert!(!outbound.poll_beacon(100 * SECOND));
    outbound.accept(Bytes::from_static(b"data"));
    outbound.completed(SECOND);
    assert!(!outbound.poll_beacon(11 * SECOND - 1));
    assert!(outbound.poll_beacon(11 * SECOND));
    assert_eq!(
        outbound.next_write(&mut receiver),
        Some(kiss::frame(b"N0CALL"))
    );
    assert_eq!(outbound.completed(11 * SECOND), 6);
    assert!(!outbound.poll_beacon(100 * SECOND));
}

#[test]
fn active_generation_ends_for_the_first_reason_that_holds() {
    assert_eq!(active_head(true, true), None);
    assert_eq!(active_head(false, false), Some(ActiveExit::OnlineCleared));
    assert_eq!(active_head(true, false), Some(ActiveExit::StopRequested));
    assert_eq!(active_adapter_event(ActiveAdapterEvent::Unrelated), None);
    assert_eq!(
        active_adapter_event(ActiveAdapterEvent::PoweredOff),
        Some(ActiveExit::AdapterPoweredOff)
    );
    assert!(ActiveExit::OutboundChannelClosed.transport_closed());
    assert!(!ActiveExit::WriteFailed.transport_closed());
    assert_eq!(ActiveExit::BridgeClosed.result_class(), "bridge_closed");
}

// Generations

const STAGES: [BleOperationStage; 10] = [
    BleOperationStage::Connect,
    BleOperationStage::ConnectedCheck,
    BleOperationStage::Discovery,
    BleOperationStage::PairingRead,
    BleOperationStage::Subscribe,
    BleOperationStage::NotificationAcquisition,
    BleOperationStage::Detect,
    BleOperationStage::Capability,
    BleOperationStage::Configure,
    BleOperationStage::ActiveWrite,
];

#[test]
fn target_disconnect_preempts_platform_future_that_never_resolves() {
    for stage in STAGES {
        let deadline = generation_deadline(stage, 0);
        assert_eq!(
            generation_step(
                stage,
                deadline,
                true,
                OperationPoll::Pending,
                EventPoll::Unrelated,
                1
            ),
            GenerationStep::Continue
        );
        assert_eq!(
            generation_step(
                stage,
                deadline,
                true,
                OperationPoll::Pending,
                EventPoll::TargetDisconnected,
                1
            ),
            GenerationStep::Exit(BleGenerationExit::TargetDisconnected { stage })
        );
    }
}

#[test]
fn unrelated_disconnect_does_not_end_generation() {
    assert_eq!(
        generation_step(
            BleOperationStage::Subscribe,
            SECOND,
            true,
            OperationPoll::Succeeded,
            EventPoll::Unrelated,
            1
        ),
        GenerationStep::Succeeded
    );
}

#[test]
fn every_stage_has_an_independent_deadline() {
    for stage in STAGES.into_iter().chain([BleOperationStage::Disconnect]) {
        let deadline = generation_deadline(stage, 7);
        assert_eq!(deadline, 7 + stage.deadline());
        assert_eq!(generation_wake(deadline, 7), 7 + 100 * MILLISECOND);
        assert_eq!(
            generation_step(
                stage,
                deadline,
                true,
                OperationPoll::Pending,
                EventPoll::Pending,
                deadline
            ),
            GenerationStep::Exit(BleGenerationExit::DeadlineElapsed { stage })
        );
    }
    assert_eq!(BleOperationStage::PairingRead.deadline(), 60 * SECOND);
    assert_eq!(BleOperationStage::ActiveWrite.deadline(), 5 * SECOND);
    assert_eq!(BleOperationStage::Disconnect.deadline(), 3 * SECOND);
}

#[test]
fn stop_preempts_pending_operation() {
    assert_eq!(
        generation_step(
            BleOperationStage::ActiveWrite,
            SECOND,
            false,
            OperationPoll::Pending,
            EventPoll::Pending,
            0
        ),
        GenerationStep::Exit(BleGenerationExit::StopRequested {
            stage: BleOperationStage::ActiveWrite,
        })
    );
}

#[test]
fn event_stream_closure_is_not_success() {
    assert_eq!(
        generation_step(
            BleOperationStage::Connect,
            SECOND,
            true,
            OperationPoll::Pending,
            EventPoll::Ended,
            0
        ),
        GenerationStep::Exit(BleGenerationExit::EventStreamEnded {
            stage: BleOperationStage::Connect,
        })
    );
}

#[test]
fn generation_ids_are_monotonic_and_pending_payload_is_stable() {
    let mut id = BleGenerationId::default();
    assert!(id.next() < id.next());
    let pending = PendingOutbound::new(Bytes::from_static(b"packet"), false);
    assert_eq!(pending.payload(), &Bytes::from_static(b"packet"));
    assert_eq!(pending.as_slice(), b"packet");
    assert!(!pending.is_station_id());
}

#[test]
fn exits_are_told_in_words() {
    let exit = BleGenerationExit::StageFailed {
        stage: BleOperationStage::Discovery,
        reason: "gone".into(),
    };
    assert_eq!(exit.message(), "service discovery: gone");
    assert_eq!(generation_exit_result_class(&exit), "stage_failed");
    assert_eq!(
        BleGenerationExit::DeadlineElapsed {
            stage: BleOperationStage::Connect
        }
        .message(),
        "connect timed out"
    );
}

// Adapter and pairing

#[test]
fn btleplug_has_to_be_initialized_on_android() {
    let mut state = BtleplugInitialization { initialized: false };
    assert!(!is_btleplug_initialized(&state));
    assert!(admit_adapter_use(BlePlatform::Android, &state).is_err());
    assert!(admit_adapter_use(BlePlatform::Linux, &state).is_ok());
    mark_btleplug_initialized(&mut state);
    assert!(is_btleplug_initialized(&state));
    assert!(admit_adapter_use(BlePlatform::Android, &state).is_ok());
    assert_eq!(choose_adapter(2).unwrap(), 0);
    assert!(choose_adapter(0).is_err());
    assert_eq!(
        bounded_operation_error("scan", Some("radio off")).message(),
        "BLE scan: radio off"
    );
    assert_eq!(
        ble_scan_filter(BlePlatform::Apple).contains(&NUS_SERVICE_UUID),
        true
    );
}

#[test]
fn passkey_reaches_the_request_that_waits_for_it() {
    let mut pairing = LinuxPairing::new();
    assert!(!linux_submit_passkey(&mut pairing, 123_456));
    let (attempt, _) = pairing.begin_attempt();
    assert!(!linux_submit_passkey(&mut pairing, 123_456));
    let (asked, number) = pairing.request_passkey().unwrap();
    assert_eq!(asked, attempt);
    assert!(matches!(
        pairing.poll_passkey(asked, number),
        PasskeyWait::Waiting
    ));
    assert!(linux_submit_passkey(&mut pairing, 123_456));
    assert!(matches!(
        pairing.poll_passkey(asked, number),
        PasskeyWait::Entered(123_456)
    ));
    let finished = pairing.finish_attempt(attempt, &LinuxPairOutcome::Paired);
    assert_eq!(finished.attempt_id, attempt);
    assert_eq!(finished.status, "ok");
}

#[test]
fn cancelled_pairing_takes_no_passkey() {
    let mut pairing = LinuxPairing::new();
    let (attempt, _) = pairing.begin_attempt();
    let (asked, number) = pairing.request_passkey().unwrap();
    assert_eq!(linux_cancel_pairing(&mut pairing), Some(attempt));
    assert!(!linux_submit_passkey(&mut pairing, 1));
    assert!(matches!(
        pairing.poll_passkey(asked, number),
        PasskeyWait::Canceled
    ));
    assert!(matches!(
        pairing.request_passkey(),
        Err(PasskeyRefusal::NoActiveAttempt)
    ));
    assert_eq!(LinuxPairOutcome::Cancelled.status(), "cancelled");
    assert_eq!(LinuxPairOutcome::TimedOut.status(), "timed_out");
    assert!(LinuxPairOutcome::TimedOut.into_result().is_err());
}

#[test]
fn accepted_passkey_survives_a_second_request() {
    let mut pairing = LinuxPairing::new();
    let (attempt, _) = pairing.begin_attempt();
    let (_, first) = pairing.request_passkey().unwrap();
    assert!(linux_submit_passkey(&mut pairing, 111_111));
    let (_, second) = pairing.request_passkey().unwrap();
    assert_ne!(first, second);
    assert!(linux_submit_passkey(&mut pairing, 222_222));
    assert_eq!(
        pairing.poll_passkey(attempt, first),
        PasskeyWait::Entered(111_111)
    );
    assert_eq!(
        pairing.poll_passkey(attempt, second),
        PasskeyWait::Entered(222_222)
    );
    let (_, third) = pairing.request_passkey().unwrap();
    let (_, fourth) = pairing.request_passkey().unwrap();
    assert_eq!(pairing.poll_passkey(attempt, third), PasskeyWait::Canceled);
    assert_eq!(pairing.poll_passkey(attempt, fourth), PasskeyWait::Waiting);
}

#[test]
fn cancel_drains_queued_prompts() {
    let mut pairing = LinuxPairing::new();
    let (first, _) = pairing.begin_attempt();
    pairing.request_passkey().unwrap();
    assert!(pairing.is_live(first));
    assert!(pairing.prompt_is_current(first));
    assert_eq!(linux_cancel_pairing(&mut pairing), Some(first));
    assert!(!pairing.is_live(first));
    assert!(!pairing.prompt_is_current(first));

    let (second, replaced) = pairing.begin_attempt();
    assert_eq!(replaced, Some(first));
    assert!(pairing.is_live(second));
    assert!(!pairing.is_live(first));
    assert!(pairing.prompt_is_current(second));
    assert!(!pairing.prompt_is_current(first));
    pairing.finish_attempt(second, &LinuxPairOutcome::TimedOut);
    assert!(!pairing.is_live(second));
    assert!(pairing.prompt_is_current(second));
    assert_eq!(linux_cancel_pairing(&mut pairing), None);
    assert!(!pairing.prompt_is_current(second));
}

#[test]
fn failed_pairing_read_is_a_transition() {
    for exit in [
        BleGenerationExit::TargetDisconnected {
            stage: BleOperationStage::PairingRead,
        },
        BleGenerationExit::StageFailed {
            stage: BleOperationStage::PairingRead,
            reason: "authentication".into(),
        },
    ] {
        assert!(is_pairing_transition_error(&map_pairing_read_error(&exit)));
    }
}
