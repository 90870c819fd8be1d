use rns_interface::ble_rnode::config::{
    build_ble_rnode_init_sequence, build_ble_rnode_init_stages, build_native_rnode_init_sequence,
    ble_radio_settings, BleRNodeConfig,
};
use rns_interface::ble_rnode::connect::BLE_DEFAULT_ATT_WRITE_PAYLOAD;
use rns_interface::kiss;
use rns_interface::rnode;

// KISS framing over BLE

#[test]
fn test_kiss_frame_fits_single_ble_chunk() {
    let payload = vec![0x42; 100];
    let framed = kiss::frame(&payload);
    assert!(framed.len() <= 512);
    let chunks: Vec<&[u8]> = framed.chunks(512).collect();
    assert_eq!(chunks.len(), 1);
}

#[test]
fn test_kiss_frame_requires_chunking() {
    let payload = vec![0x42; 500];
    let framed = kiss::frame(&payload);
    assert_eq!(framed.len(), 503); // 500 + FEND + CMD + FEND
    let chunks: Vec<&[u8]> = framed.chunks(256).collect();
    assert_eq!(chunks.len(), 2);
}

#[test]
fn test_kiss_frame_with_many_special_bytes() {
    // Every FEND takes two bytes.
    let payload = vec![kiss::FEND; 100];
    let framed = kiss::frame(&payload);
    assert_eq!(framed.len(), 200 + 3);
}

#[test]
fn test_kiss_deframe_from_ble_notification_chunks() {
    let payload = b"hello from rnode over ble";
    let framed = kiss::frame(payload);

    let mut deframer = kiss::RawKissDeframer::new();
    let mut frames_received = Vec::new();
    for chunk in framed.chunks(10) {
        frames_received.extend(deframer.feed(chunk));
    }
    assert_eq!(frames_received.len(), 1);
    assert_eq!(frames_received[0].0, kiss::CMD_DATA);
    assert_eq!(frames_received[0].1, payload);
}

#[test]
fn test_kiss_deframe_multiple_frames_in_one_notification() {
    let f1 = kiss::frame(b"first");
    let f2 = kiss::frame(b"second");
    let mut combined = f1;
    combined.extend_from_slice(&f2);

    let mut deframer = kiss::RawKissDeframer::new();
    let frames = deframer.feed(&combined);
    assert_eq!(frames.len(), 2);
    assert_eq!(frames[0].1, b"first");
    assert_eq!(frames[1].1, b"second");
}

#[test]
fn test_kiss_deframe_split_across_notifications() {
    let framed = kiss::frame(b"split test data");
    let mid = framed.len() / 2;

    let mut deframer = kiss::RawKissDeframer::new();
    let first = deframer.feed(&framed[..mid]);
    assert!(first.is_empty());

    let second = deframer.feed(&framed[mid..]);
    assert_eq!(second.len(), 1);
    assert_eq!(second[0].1, b"split test data");
}

#[test]
fn framing_escapes_exactly_the_two_special_bytes() {
    assert_eq!(
        kiss::frame_with_command(0x23, &[0xC0, 0xDB, 0x01]),
        vec![0xC0, 0x23, 0xDB, 0xDC, 0xDB, 0xDD, 0x01, 0xC0]
    );
    let mut out = vec![0x7F];
    kiss::frame_with_command_into(0x00, &[0xDC], &mut out);
    assert_eq!(out, vec![0x7F, 0xC0, 0x00, 0xDC, 0xC0]);
}

#[test]
fn reset_forgets_a_frame_under_way() {
    let framed = kiss::frame(&[1, 2, 3]);
    let mut deframer = kiss::RawKissDeframer::new();
    assert!(deframer.feed(&framed[..4]).is_empty());
    deframer.reset();
    assert!(deframer.feed(&framed[4..]).is_empty());
    assert_eq!(deframer.feed(&framed), vec![(kiss::CMD_DATA, vec![1, 2, 3])]);
}

#[test]
fn deframing_undoes_framing_for_every_byte() {
    let payload: Vec<u8> = (0..=255).collect();
    for command in [0x00, 0x0F, 0x51, 0x90] {
        let wire = kiss::frame_with_command(command, &payload);
        for cut in 0..wire.len() {
            let mut deframer = kiss::RawKissDeframer::new();
            let mut frames = deframer.feed(&wire[..cut]);
            frames.extend(deframer.feed(&wire[cut..]));
            assert_eq!(frames, vec![(command, payload.clone())]);
        }
    }
}

// Sequences

fn frame_command_count(frames: &[(u8, Vec<u8>)], command: u8) -> usize {
    frames.iter().filter(|(cmd, _)| *cmd == command).count()
}

#[test]
fn test_ble_init_sequence_uses_rnode_helpers() {
    let ble_cfg = BleRNodeConfig::new("ble0", "ble://RNode 1234");
    let settings = ble_radio_settings(&ble_cfg);
    let seq = build_ble_rnode_init_sequence(&ble_cfg);
    assert!(!seq.is_empty());
    assert_eq!(
        seq,
        rnode::build_ble_radio_reassertion_stages(settings).concat()
    );

    let mut deframer = kiss::RawKissDeframer::new();
    let frames = deframer.feed(&seq);
    assert_eq!(frames.len(), 6);
    assert_eq!(
        frames[0],
        (
            rnode::CMD_FREQUENCY,
            ble_cfg.frequency.to_be_bytes().to_vec()
        )
    );
    assert_eq!(
        frames.last().unwrap(),
        &(rnode::CMD_RADIO_STATE, vec![rnode::RADIO_STATE_ON])
    );
}

#[test]
fn test_ble_detect_sequence_parseable() {
    let seq = rnode::build_detect_sequence();
    let mut deframer = kiss::RawKissDeframer::new();
    let frames = deframer.feed(&seq);
    assert_eq!(frames.len(), 4);
}

#[test]
fn test_ble_full_init_with_airtime() {
    let mut cfg = BleRNodeConfig::new("test", "ble://");
    cfg.st_alock = Some(2_500);
    cfg.lt_alock = Some(5_000);
    // Airtime locks are part of the init sequence, before RADIO_STATE_ON.
    let seq = build_ble_rnode_init_sequence(&cfg);

    let mut deframer = kiss::RawKissDeframer::new();
    let frames = deframer.feed(&seq);
    assert_eq!(frames.len(), 8);
    assert_eq!(
        frames[0],
        (rnode::CMD_FREQUENCY, cfg.frequency.to_be_bytes().to_vec())
    );
    assert_eq!(
        frames.last().unwrap(),
        &(rnode::CMD_RADIO_STATE, vec![rnode::RADIO_STATE_ON])
    );
    assert_eq!(frame_command_count(&frames, rnode::CMD_ST_ALOCK), 1);
    assert_eq!(frame_command_count(&frames, rnode::CMD_LT_ALOCK), 1);
    let radio_on = frames.len() - 1;
    let st = frames
        .iter()
        .position(|(cmd, _)| *cmd == rnode::CMD_ST_ALOCK)
        .expect("CMD_ST_ALOCK present");
    let lt = frames
        .iter()
        .position(|(cmd, _)| *cmd == rnode::CMD_LT_ALOCK)
        .expect("CMD_LT_ALOCK present");
    assert!(st < radio_on);
    assert!(lt < radio_on);
    assert_eq!(frames[st].1, 2_500u16.to_be_bytes().to_vec());
    assert_eq!(frames[lt].1, 5_000u16.to_be_bytes().to_vec());
}

#[test]
fn ble_init_stages_fit_the_apple_baseline_and_never_turn_radio_off() {
    let stages = build_ble_rnode_init_stages(&BleRNodeConfig::new("ble0", "ble://RNode"));
    assert!(stages
        .iter()
        .all(|stage| stage.len() <= BLE_DEFAULT_ATT_WRITE_PAYLOAD));
    let mut deframer = kiss::RawKissDeframer::new();
    let frames: Vec<_> = stages
        .iter()
        .flat_map(|stage| deframer.feed(stage))
        .collect();
    assert!(frames.iter().all(|(command, payload)| {
        *command != rnode::CMD_RADIO_STATE || payload.as_slice() != [rnode::RADIO_STATE_OFF]
    }));
}

#[test]
fn ble_init_sequence_uses_no_probe_controls() {
    let config = BleRNodeConfig::new("ble0", "ble://RNode 1234");
    let mut deframer = kiss::RawKissDeframer::new();
    let frames = deframer.feed(&build_ble_rnode_init_sequence(&config));

    assert_eq!(
        frames.first(),
        Some(&(
            rnode::CMD_FREQUENCY,
            config.frequency.to_be_bytes().to_vec()
        ))
    );
    assert_eq!(
        frames.last(),
        Some(&(rnode::CMD_RADIO_STATE, vec![rnode::RADIO_STATE_ON]))
    );
    assert!(frames.iter().all(|(command, _)| {
        !matches!(
            *command,
            rnode::CMD_READY | rnode::CMD_STAT_TX | rnode::CMD_ROM_READ
        )
    }));
    assert!(frames.iter().all(|(command, payload)| {
        *command != rnode::CMD_RADIO_STATE || payload.as_slice() != [rnode::RADIO_STATE_OFF]
    }));
}

#[test]
fn test_native_ble_init_reissues_typed_handshake_evidence() {
    let config = BleRNodeConfig::new("ble0", "ble://RNode 1234");
    let base_init = build_ble_rnode_init_sequence(&config);
    let evidence_refresh = rnode::build_detect_sequence();
    let native_init = build_native_rnode_init_sequence(&config);

    assert_eq!(&native_init[..base_init.len()], base_init.as_slice());
    assert_eq!(&native_init[base_init.len()..], evidence_refresh.as_slice());
}

#[test]
fn detach_switches_the_radio_off_and_leaves() {
    assert_eq!(
        rnode::build_detach_sequence(),
        vec![0xC0, 0x06, 0x00, 0xC0, 0xC0, 0x0A, 0xFF, 0xC0]
    );
}

#[test]
fn detect_probe_is_four_requests_on_the_wire() {
    assert_eq!(
        rnode::build_detect_sequence(),
        vec![
            0xC0, 0x08, 0x73, 0xC0, 0xC0, 0x50, 0x00, 0xC0, 0xC0, 0x48, 0x00, 0xC0, 0xC0, 0x49,
            0x00, 0xC0
        ]
    );
}

// Received reports

#[test]
fn test_response_data_packet() {
    let data = vec![0x01, 0x02, 0x03];
    let mut rssi = Some(-65);
    let mut snr = Some(32);
    match rnode::process_rnode_response(kiss::CMD_DATA, &data, 42, &mut rssi, &mut snr) {
        rnode::RNodeResponse::Packet(pkt) => {
            assert_eq!(pkt.raw, data);
            assert_eq!(pkt.interface_id, 42);
            assert_eq!(pkt.rssi.map(f32::from), Some(-65.0));
            assert_eq!(pkt.snr.map(|quarters| f32::from(quarters) / 4.0), Some(8.0));
        }
        _ => panic!("Expected Packet response"),
    }
    assert!(rssi.is_none());
    assert!(snr.is_none());
}

#[test]
fn test_response_empty_data_ignored() {
    let mut rssi = None;
    let mut snr = None;
    match rnode::process_rnode_response(kiss::CMD_DATA, &[], 1, &mut rssi, &mut snr) {
        rnode::RNodeResponse::Ignored => {}
        _ => panic!("Expected nothing for empty data"),
    }
}

#[test]
fn test_response_rssi_updates() {
    let mut rssi = None;
    let mut snr = None;
    rnode::process_rnode_response(rnode::CMD_STAT_RSSI, &[92], 1, &mut rssi, &mut snr);
    assert_eq!(rssi.map(f32::from), Some(-65.0));
}

#[test]
fn test_response_snr_updates() {
    let mut rssi = None;
    let mut snr = None;
    rnode::process_rnode_response(rnode::CMD_STAT_SNR, &[32], 1, &mut rssi, &mut snr);
    assert_eq!(snr.map(|quarters| f32::from(quarters) / 4.0), Some(8.0));
}

#[test]
fn negative_snr_is_read_as_twos_complement() {
    let mut rssi = None;
    let mut snr = None;
    rnode::process_rnode_response(rnode::CMD_STAT_SNR, &[0xF6], 1, &mut rssi, &mut snr);
    assert_eq!(snr.map(|quarters| f32::from(quarters) / 4.0), Some(-2.5));
}

#[test]
fn test_response_rssi_snr_reset_after_data() {
    let mut rssi = Some(-70);
    let mut snr = Some(24);
    rnode::process_rnode_response(kiss::CMD_DATA, &[0xFF], 1, &mut rssi, &mut snr);
    assert!(rssi.is_none());
    assert!(snr.is_none());
}

#[test]
fn test_response_ready_true() {
    let mut rssi = None;
    let mut snr = None;
    match rnode::process_rnode_response(rnode::CMD_READY, &[0x01], 1, &mut rssi, &mut snr) {
        rnode::RNodeResponse::Ready(true) => {}
        _ => panic!("Expected Ready(true)"),
    }
}

#[test]
fn test_response_ready_false() {
    let mut rssi = None;
    let mut snr = None;
    match rnode::process_rnode_response(rnode::CMD_READY, &[0x00], 1, &mut rssi, &mut snr) {
        rnode::RNodeResponse::Ready(false) => {}
        _ => panic!("Expected Ready(false)"),
    }
}

fn is_ignored(command: u8, frame: &[u8]) -> bool {
    let mut rssi = None;
    let mut snr = None;
    matches!(
        rnode::process_rnode_response(command, frame, 1, &mut rssi, &mut snr),
        rnode::RNodeResponse::Ignored
    )
}

#[test]
fn test_response_detect() {
    assert!(is_ignored(rnode::CMD_DETECT, &[rnode::DETECT_RESP]));
}

#[test]
fn test_response_radio_state_on() {
    assert!(is_ignored(rnode::CMD_RADIO_STATE, &[rnode::RADIO_STATE_ON]));
}

#[test]
fn test_response_firmware_version() {
    assert!(is_ignored(rnode::CMD_FW_VERSION, &[2, 10]));
}

#[test]
fn test_response_battery_status() {
    assert!(is_ignored(rnode::CMD_STAT_BAT, &[0x0E, 0x74]));
}

#[test]
fn test_response_temperature() {
    assert!(is_ignored(rnode::CMD_STAT_TEMP, &[25]));
}

#[test]
fn test_response_error() {
    assert!(is_ignored(rnode::CMD_ERROR, &[0x01]));
}

#[test]
fn test_response_unknown_command() {
    assert!(is_ignored(0xFE, &[0x01, 0x02]));
}

// Write chunking

#[test]
fn test_data_chunking_512() {
    let data = vec![0u8; 1024];
    let chunks = rns_interface::ble_rnode::connect::write_chunks(&data, 512).unwrap();
    assert_eq!(chunks.len(), 2);
    assert_eq!(chunks[0].len(), 512);
    assert_eq!(chunks[1].len(), 512);
}

#[test]
fn test_data_chunking_exact_boundary() {
    let data = vec![0u8; 512];
    let chunks = rns_interface::ble_rnode::connect::write_chunks(&data, 512).unwrap();
    assert_eq!(chunks.len(), 1);
}

#[test]
fn test_data_chunking_small() {
    let data = [0u8; 20];
    let chunks = rns_interface::ble_rnode::connect::write_chunks(&data, 512).unwrap();
    assert_eq!(chunks.len(), 1);
}

#[test]
fn test_data_no_chunking_needed() {
    let data = [0u8; 100];
    let chunks = rns_interface::ble_rnode::connect::write_chunks(&data, 512).unwrap();
    assert_eq!(chunks.len(), 1);
    assert_eq!(chunks[0].len(), 100);
}
