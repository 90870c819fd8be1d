//! The configuration of a BLE RNode interface and what follows from it.
use vstd::prelude::*;
use vstd::string::*;
use bytes::Bytes;
use crate::interface::{InterfaceDirection, InterfaceId, InterfaceMode, InterfaceProfile, SECOND};
use crate::payload::{buffer_from, contents};
use crate::kiss::{fragmentation_is_invisible, frames_in, Assembly, Frame};
use crate::rnode::{
    be_bytes_u16, be_bytes_u32, build_ble_radio_reassertion_stages, build_detect_sequence,
    concat_stages, concatenated, detect_sequence, each_request_is_one_write,
    probe_and_detach_are_understood, radio_reassertion_stages, radio_requests, stages_view,
    RNodeRadioSettings, CALLSIGN_MAX_LEN,
};
use crate::rnode_protocol::{
    evidence_after_frames, proves, reported_settings_prove_the_target, RNodeProtocolEvidence,
    RNodeProtocolTarget,
};

verus! {

/// The largest packet that a BLE RNode takes.
pub const BLE_RNODE_MTU: u32 = 508;

/// How a BLE RNode interface is set up. Airtime limits are in hundredths of a
/// percent.
#[derive(Clone, Debug)]
pub struct BleRNodeConfig {
    pub name: String,
    /// The `ble://` address: an address, a name, or nothing for any RNode.
    pub ble_uri: String,
    pub frequency: u32,
    pub bandwidth: u32,
    pub spreading_factor: u8,
    pub coding_rate: u8,
    pub tx_power: u8,
    pub mode: InterfaceMode,
    pub flow_control: bool,
    pub st_alock: Option<u16>,
    pub lt_alock: Option<u16>,
    /// Seconds between station identifications, counted from a packet sent.
    pub id_interval: Option<u64>,
    /// What the station identifies itself as.
    pub id_callsign: Option<Vec<u8>>,
}

impl BleRNodeConfig {
    /// The defaults for an interface of that name at that address.
    pub fn new(name: &str, ble_uri: &str) -> (config: Self)
        ensures
            config.name@ == name@,
            config.ble_uri@ == ble_uri@,
            config.settings() == (RNodeRadioSettings {
                frequency: 868_000_000,
                bandwidth: 125_000,
                spreading_factor: 7,
                coding_rate: 5,
                tx_power: 14,
                st_alock: None,
                lt_alock: None,
            }),
            config.mode is Full,
            !config.flow_control,
            config.id_interval is None,
            config.id_callsign is None,
    {
        BleRNodeConfig {
            name: name.to_owned(),
            ble_uri: ble_uri.to_owned(),
            frequency: 868_000_000,
            bandwidth: 125_000,
            spreading_factor: 7,
            coding_rate: 5,
            tx_power: 14,
            mode: InterfaceMode::Full,
            flow_control: false,
            st_alock: None,
            lt_alock: None,
            id_interval: None,
            id_callsign: None,
        }
    }

    /// The radio settings in the configuration.
    pub open spec fn settings(self) -> RNodeRadioSettings {
        RNodeRadioSettings {
            frequency: self.frequency,
            bandwidth: self.bandwidth,
            spreading_factor: self.spreading_factor,
            coding_rate: self.coding_rate,
            tx_power: self.tx_power,
            st_alock: self.st_alock,
            lt_alock: self.lt_alock,
        }
    }

    /// What a generation has to prove before it is ready.
    pub open spec fn target(self) -> RNodeProtocolTarget {
        RNodeProtocolTarget {
            frequency: self.frequency,
            bandwidth: self.bandwidth,
            spreading_factor: self.spreading_factor,
            coding_rate: self.coding_rate,
            tx_power: self.tx_power,
        }
    }
}

/// The radio settings in a configuration.
pub fn ble_radio_settings(config: &BleRNodeConfig) -> (settings: RNodeRadioSettings)
    ensures
        settings == config.settings(),
{
    RNodeRadioSettings {
        frequency: config.frequency,
        bandwidth: config.bandwidth,
        spreading_factor: config.spreading_factor,
        coding_rate: config.coding_rate,
        tx_power: config.tx_power,
        st_alock: config.st_alock,
        lt_alock: config.lt_alock,
    }
}

/// What a generation has to prove before it is ready.
pub fn ble_protocol_target(config: &BleRNodeConfig) -> (target: RNodeProtocolTarget)
    ensures
        target == config.target(),
{
    RNodeProtocolTarget::new(
        config.frequency,
        config.bandwidth,
        config.spreading_factor,
        config.coding_rate,
        config.tx_power,
    )
}

/// The station's identification.
#[derive(Debug)]
pub struct StationBeacon {
    /// The nanoseconds between a packet and the identification that follows it.
    pub interval: u128,
    pub callsign: Bytes,
}

/// `beacon` is the station identification of a configuration.
pub open spec fn identifies(config: BleRNodeConfig, beacon: Option<StationBeacon>) -> bool {
    &&& beacon is Some <==> config.id_interval is Some && config.id_callsign is Some
        && config.id_callsign->0@.len() <= CALLSIGN_MAX_LEN
    &&& beacon is Some ==> beacon->0.interval == config.id_interval->0 * 1_000_000_000 && contents(
        beacon->0.callsign,
    ) == config.id_callsign->0@
}

/// The station identification of a configuration. It takes both an interval and a
/// callsign, and an oversized callsign disables it.
pub fn beacon_from_config(config: &BleRNodeConfig) -> (beacon: Option<StationBeacon>)
    ensures
        identifies(*config, beacon),
{
    match config.id_interval {
        Some(seconds) => match &config.id_callsign {
            Some(callsign) => {
                if callsign.len() <= CALLSIGN_MAX_LEN {
                    let copy = vstd::slice::slice_to_vec(callsign.as_slice());
                    Some(
                        StationBeacon {
                            interval: seconds as u128 * SECOND,
                            callsign: buffer_from(copy),
                        },
                    )
                } else {
                    None
                }
            },
            None => None,
        },
        None => None,
    }
}

/// Builds the writes that configure the radio, one request each.
pub fn build_ble_rnode_init_stages(config: &BleRNodeConfig) -> (stages: Vec<Vec<u8>>)
    ensures
        stages_view(stages@) == radio_reassertion_stages(config.settings()),
{
    build_ble_radio_reassertion_stages(ble_radio_settings(config))
}

/// Builds the same as one write.
pub fn build_ble_rnode_init_sequence(config: &BleRNodeConfig) -> (sequence: Vec<u8>)
    ensures
        sequence@ == concatenated(radio_reassertion_stages(config.settings())),
{
    let stages = build_ble_rnode_init_stages(config);
    concat_stages(&stages)
}

/// Builds the write that configures the radio over a native bridge and asks for
/// detect evidence again: what the bridge answered before was discarded.
pub fn build_native_rnode_init_sequence(config: &BleRNodeConfig) -> (sequence: Vec<u8>)
    ensures
        sequence@ == concatenated(radio_reassertion_stages(config.settings())) + detect_sequence(),
{
    let mut sequence = build_ble_rnode_init_sequence(config);
    let mut detect = build_detect_sequence();
    sequence.append(&mut detect);
    sequence
}

/// The bytes that configure the radio over a native bridge.
pub open spec fn native_startup_bytes(config: BleRNodeConfig, strict: bool) -> Seq<u8> {
    concatenated(radio_reassertion_stages(config.settings())) + (if strict {
        Seq::<u8>::empty()
    } else {
        detect_sequence()
    })
}

/// Builds the write that configures the radio over a native bridge. A strict
/// generation has kept the detect evidence of its capability admission and does not
/// ask for it again.
pub fn native_startup_sequence(config: &BleRNodeConfig, strict: bool) -> (sequence: Vec<u8>)
    ensures
        sequence@ == native_startup_bytes(*config, strict),
{
    if strict {
        let sequence = build_ble_rnode_init_sequence(config);
        assert(sequence@ + Seq::<u8>::empty() =~= sequence@);
        sequence
    } else {
        build_native_rnode_init_sequence(config)
    }
}

/// What the transport is told of a BLE RNode interface.
pub fn ble_interface_profile(config: &BleRNodeConfig, id: InterfaceId, bitrate: u64) -> (profile:
    InterfaceProfile)
    ensures
        profile.id == id,
        profile.parent_id is None,
        profile.name@ == config.name@,
        profile.mode == config.mode,
        profile.direction == (InterfaceDirection {
            inbound: true,
            outbound: true,
            forward: false,
            repeat: false,
        }),
        profile.bitrate == bitrate,
        profile.mtu == BLE_RNODE_MTU,
{
    InterfaceProfile {
        id,
        parent_id: None,
        name: config.name.clone(),
        mode: config.mode,
        direction: InterfaceDirection {
            inbound: true,
            outbound: true,
            forward: false,
            repeat: false,
        },
        bitrate,
        mtu: BLE_RNODE_MTU,
    }
}

/// What is written to configure the radio asks for each configured setting under its own
/// command, and a device that reports it all back has proved the configuration.
pub proof fn configured_radio_proves_its_configuration(
    config: BleRNodeConfig,
    evidence: RNodeProtocolEvidence,
)
    requires
        evidence.detected,
        evidence.firmware is Some,
        evidence.firmware->0.major > 1 || (evidence.firmware->0.major == 1
            && evidence.firmware->0.minor >= 52),
        !evidence.radio_initialisation_fault,
    ensures
        radio_requests(config.settings()).contains((0x01u8, be_bytes_u32(config.frequency))),
        radio_requests(config.settings()).contains((0x02u8, be_bytes_u32(config.bandwidth))),
        radio_requests(config.settings()).contains((0x03u8, seq![config.tx_power])),
        radio_requests(config.settings()).contains((0x04u8, seq![config.spreading_factor])),
        radio_requests(config.settings()).contains((0x05u8, seq![config.coding_rate])),
        proves(
            evidence_after_frames(evidence, radio_requests(config.settings())),
            config.target(),
        ),
        config.target().frequency == config.frequency,
{
    let requests = radio_requests(config.settings());
    assert(requests[0] == (0x01u8, be_bytes_u32(config.frequency)));
    assert(requests[1] == (0x02u8, be_bytes_u32(config.bandwidth)));
    assert(requests[2] == (0x03u8, seq![config.tx_power]));
    assert(requests[3] == (0x04u8, seq![config.spreading_factor]));
    assert(requests[4] == (0x05u8, seq![config.coding_rate]));
    reported_settings_prove_the_target(evidence, config.settings(), config.target());
}

/// The radio is given each airtime limit that is configured, under its own command.
pub proof fn configured_airtime_limits_are_asked_for(config: BleRNodeConfig, limit: u16)
    ensures
        config.st_alock == Some(limit) ==> radio_requests(config.settings()).contains(
            (0x0Bu8, be_bytes_u16(limit)),
        ),
        config.lt_alock == Some(limit) ==> radio_requests(config.settings()).contains(
            (0x0Cu8, be_bytes_u16(limit)),
        ),
{
    let requests = radio_requests(config.settings());
    if config.st_alock == Some(limit) {
        assert(requests[5] == (0x0Bu8, be_bytes_u16(limit)));
    }
    if config.lt_alock == Some(limit) {
        if config.st_alock is Some {
            assert(requests[6] == (0x0Cu8, be_bytes_u16(limit)));
        } else {
            assert(requests[5] == (0x0Cu8, be_bytes_u16(limit)));
        }
    }
}

/// Over a native bridge the radio receives its configuration, and behind it the four
/// requests for detect evidence unless the generation is strict.
pub proof fn native_startup_asks_for_evidence_unless_strict(
    config: BleRNodeConfig,
    strict: bool,
    state: Assembly,
)
    requires
        !state.in_frame || state.command is None,
    ensures
        frames_in(state, native_startup_bytes(config, strict)) == radio_requests(config.settings())
            + (if strict {
            Seq::<Frame>::empty()
        } else {
            seq![
                (0x08u8, seq![0x73u8]),
                (0x50u8, seq![0x00u8]),
                (0x48u8, seq![0x00u8]),
                (0x49u8, seq![0x00u8]),
            ]
        }),
{
    let front = concatenated(radio_reassertion_stages(config.settings()));
    each_request_is_one_write(config.settings(), state);
    if strict {
        assert(front + Seq::<u8>::empty() =~= front);
        assert(radio_requests(config.settings()) + Seq::<Frame>::empty() =~= radio_requests(
            config.settings(),
        ));
    } else {
        fragmentation_is_invisible(state, front, detect_sequence());
        probe_and_detach_are_understood(crate::kiss::opened_assembly());
    }
}

/// A station identifies itself by its configured callsign after the configured seconds. It
/// does not where either is missing, or where the callsign is longer than 32 bytes.
pub proof fn station_is_identified_as_configured(
    config: BleRNodeConfig,
    beacon: Option<StationBeacon>,
)
    requires
        identifies(config, beacon),
    ensures
        config.id_interval is None || config.id_callsign is None ==> beacon is None,
        config.id_interval is Some && config.id_callsign is Some ==> (beacon is Some
            <==> config.id_callsign->0@.len() <= 32),
        beacon is Some ==> contents(beacon->0.callsign) == config.id_callsign->0@,
        beacon is Some ==> beacon->0.interval == config.id_interval->0 * 1_000_000_000,
{
}

} // verus!
