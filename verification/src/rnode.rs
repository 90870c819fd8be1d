//! The RNode serial command set: commands, requests and received reports.
use vstd::prelude::*;
use vstd::string::*;
use crate::interface::{InterfaceError, InterfaceId};
use crate::kiss::{self, framed, Frame};
use crate::text::{join2, join3};

verus! {

pub const CMD_FREQUENCY: u8 = 0x01;

pub const CMD_BANDWIDTH: u8 = 0x02;

pub const CMD_TXPOWER: u8 = 0x03;

pub const CMD_SF: u8 = 0x04;

pub const CMD_CR: u8 = 0x05;

pub const CMD_RADIO_STATE: u8 = 0x06;

pub const CMD_DETECT: u8 = 0x08;

pub const CMD_LEAVE: u8 = 0x0A;

pub const CMD_ST_ALOCK: u8 = 0x0B;

pub const CMD_LT_ALOCK: u8 = 0x0C;

pub const CMD_READY: u8 = 0x0F;

pub const CMD_STAT_TX: u8 = 0x22;

pub const CMD_STAT_RSSI: u8 = 0x23;

pub const CMD_STAT_SNR: u8 = 0x24;

pub const CMD_STAT_BAT: u8 = 0x27;

pub const CMD_STAT_TEMP: u8 = 0x29;

pub const CMD_PLATFORM: u8 = 0x48;

pub const CMD_MCU: u8 = 0x49;

pub const CMD_FW_VERSION: u8 = 0x50;

pub const CMD_ROM_READ: u8 = 0x51;

pub const CMD_RESET: u8 = 0x55;

pub const CMD_ERROR: u8 = 0x90;

/// Asks a device whether it is an RNode.
pub const DETECT_REQ: u8 = 0x73;

/// An RNode's answer to `DETECT_REQ`.
pub const DETECT_RESP: u8 = 0x46;

pub const RADIO_STATE_OFF: u8 = 0x00;

pub const RADIO_STATE_ON: u8 = 0x01;

/// The payload by which a device announces that it has reset.
pub const RESET_ANNOUNCEMENT: u8 = 0xF8;

/// The radio could not be initialised.
pub const ERROR_INITRADIO: u8 = 0x01;

/// The oldest firmware that a driver accepts.
pub const REQUIRED_FW_VER_MAJ: u8 = 1;

pub const REQUIRED_FW_VER_MIN: u8 = 52;

/// The longest callsign that a station-ID beacon may carry.
pub const CALLSIGN_MAX_LEN: usize = 32;

/// The RSSI report counts up from this many dBm.
pub const RSSI_OFFSET: i16 = 157;

/// Tells a device that its host is leaving.
pub const LEAVE_REQ: u8 = 0xFF;

/// Why a driver stops, or its device starts over.
#[derive(Clone, Copy, Debug, PartialEq, Eq, Structural)]
pub enum RNodeRuntimeReason {
    /// The device announced that it has reset; the driver goes on.
    DeviceReset,
    StopRequested,
    DriverTerminated,
    ConnectionLost,
    TransportConsumerClosed,
}

/// What is wrong with a configuration: the setting, and what the rules say of it.
#[derive(Clone, Debug, PartialEq, Eq)]
pub struct RNodeConfigFault {
    pub field: String,
    pub error: String,
}

impl RNodeConfigFault {
    /// The fault in words.
    pub open spec fn words(self) -> Seq<char> {
        "rnode config "@ + self.field@ + (": "@ + self.error@)
    }

    /// The error by which an interface with that configuration is refused.
    pub fn refusal(&self) -> (error: InterfaceError)
        ensures
            error.detail() == self.words(),
    {
        let detail = join2(": ", self.error.as_str());
        InterfaceError::SendFailed(join3("rnode config ", self.field.as_str(), detail.as_str()))
    }
}

/// A packet that came out of the radio.
#[derive(Clone, Debug, PartialEq, Eq)]
pub struct InboundPacket {
    pub raw: Vec<u8>,
    pub interface_id: InterfaceId,
    /// In dBm.
    pub rssi: Option<i16>,
    /// In quarters of a decibel.
    pub snr: Option<i16>,
}

/// What one frame from the device means to the driver.
#[derive(Clone, Debug, PartialEq, Eq)]
pub enum RNodeResponse {
    Packet(InboundPacket),
    Ready(bool),
    Ignored,
}

/// The flow permission that a frame grants or revokes, where it is one.
pub open spec fn flow_permission(command: u8, frame: Seq<u8>) -> Option<bool> {
    if command == CMD_READY && frame.len() == 1 && frame[0] <= 1 {
        Some(frame[0] == 1)
    } else {
        None
    }
}

/// The RSSI that a report byte stands for, in dBm.
pub open spec fn rssi_dbm(report: u8) -> int {
    report - RSSI_OFFSET
}

/// A report byte read as a two's-complement number.
pub open spec fn signed_byte(report: u8) -> int {
    if report < 128 {
        report as int
    } else {
        report - 256
    }
}

/// The signal quality remembered after one frame: a report replaces it, a packet
/// consumes it.
pub open spec fn rssi_after(command: u8, frame: Seq<u8>, last: Option<i16>) -> Option<i16> {
    if frame.len() == 0 {
        last
    } else if command == kiss::CMD_DATA {
        None
    } else if command == CMD_STAT_RSSI {
        Some(rssi_dbm(frame[0]) as i16)
    } else {
        last
    }
}

/// The signal-to-noise ratio remembered after one frame.
pub open spec fn snr_after(command: u8, frame: Seq<u8>, last: Option<i16>) -> Option<i16> {
    if frame.len() == 0 {
        last
    } else if command == kiss::CMD_DATA {
        None
    } else if command == CMD_STAT_SNR {
        Some(signed_byte(frame[0]) as i16)
    } else {
        last
    }
}

/// Interprets one frame of an active session.
pub fn process_rnode_response(
    command: u8,
    frame: &[u8],
    interface_id: InterfaceId,
    last_rssi: &mut Option<i16>,
    last_snr: &mut Option<i16>,
) -> (response: RNodeResponse)
    ensures
        *final(last_rssi) == rssi_after(command, frame@, *old(last_rssi)),
        *final(last_snr) == snr_after(command, frame@, *old(last_snr)),
        match response {
            RNodeResponse::Packet(packet) => {
                &&& command == kiss::CMD_DATA
                &&& frame@.len() > 0
                &&& packet.raw@ == frame@
                &&& packet.interface_id == interface_id
                &&& packet.rssi == *old(last_rssi)
                &&& packet.snr == *old(last_snr)
            },
            RNodeResponse::Ready(permitted) => flow_permission(command, frame@) == Some(permitted),
            RNodeResponse::Ignored => {
                &&& !(command == kiss::CMD_DATA && frame@.len() > 0)
                &&& flow_permission(command, frame@) is None
            },
        },
{
    if frame.len() == 0 {
        return RNodeResponse::Ignored;
    }
    if command == kiss::CMD_DATA {
        let packet = InboundPacket {
            raw: vstd::slice::slice_to_vec(frame),
            interface_id,
            rssi: *last_rssi,
            snr: *last_snr,
        };
        *last_rssi = None;
        *last_snr = None;
        return RNodeResponse::Packet(packet);
    }
    if command == CMD_STAT_RSSI {
        *last_rssi = Some(frame[0] as i16 - RSSI_OFFSET);
    } else if command == CMD_STAT_SNR {
        let report: u8 = frame[0];
        let quarters: i16 = if report < 128 {
            report as i16
        } else {
            report as i16 - 256
        };
        *last_snr = Some(quarters);
    } else if command == CMD_READY && frame.len() == 1 && frame[0] <= 1 {
        return RNodeResponse::Ready(frame[0] == 1);
    }
    RNodeResponse::Ignored
}

/// The probe that asks for detection, firmware, platform and controller.
pub open spec fn detect_sequence() -> Seq<u8> {
    framed(CMD_DETECT, seq![DETECT_REQ]) + framed(CMD_FW_VERSION, seq![0u8]) + framed(
        CMD_PLATFORM,
        seq![0u8],
    ) + framed(CMD_MCU, seq![0u8])
}

fn frame_byte_into(command: u8, value: u8, out: &mut Vec<u8>)
    ensures
        final(out)@ == old(out)@ + framed(command, seq![value]),
{
    let mut payload: Vec<u8> = Vec::new();
    payload.push(value);
    assert(payload@ =~= seq![value]);
    kiss::frame_with_command_into(command, payload.as_slice(), out);
}

/// Builds the detect probe.
pub fn build_detect_sequence() -> (sequence: Vec<u8>)
    ensures
        sequence@ == detect_sequence(),
{
    let mut sequence: Vec<u8> = Vec::new();
    frame_byte_into(CMD_DETECT, DETECT_REQ, &mut sequence);
    frame_byte_into(CMD_FW_VERSION, 0, &mut sequence);
    frame_byte_into(CMD_PLATFORM, 0, &mut sequence);
    frame_byte_into(CMD_MCU, 0, &mut sequence);
    assert(sequence@ =~= detect_sequence());
    sequence
}

/// What a host sends before it leaves: the radio goes off, and the device is told.
pub open spec fn detach_sequence() -> Seq<u8> {
    framed(CMD_RADIO_STATE, seq![RADIO_STATE_OFF]) + framed(CMD_LEAVE, seq![LEAVE_REQ])
}

/// Builds what a host sends before it leaves.
pub fn build_detach_sequence() -> (sequence: Vec<u8>)
    ensures
        sequence@ == detach_sequence(),
{
    let mut sequence: Vec<u8> = Vec::new();
    frame_byte_into(CMD_RADIO_STATE, RADIO_STATE_OFF, &mut sequence);
    frame_byte_into(CMD_LEAVE, LEAVE_REQ, &mut sequence);
    assert(sequence@ =~= detach_sequence());
    sequence
}

/// The detect probe reaches the device as exactly four requests.
pub proof fn detect_sequence_holds_four_requests()
    ensures
        kiss::frames_in(kiss::fresh_assembly(), detect_sequence()) == seq![
            (CMD_DETECT, seq![DETECT_REQ]),
            (CMD_FW_VERSION, seq![0u8]),
            (CMD_PLATFORM, seq![0u8]),
            (CMD_MCU, seq![0u8]),
        ],
{
    let start = kiss::fresh_assembly();
    let open = kiss::opened_assembly();
    let first = framed(CMD_DETECT, seq![DETECT_REQ]);
    let second = framed(CMD_FW_VERSION, seq![0u8]);
    let third = framed(CMD_PLATFORM, seq![0u8]);
    let fourth = framed(CMD_MCU, seq![0u8]);
    kiss::deframing_undoes_framing(start, CMD_DETECT, seq![DETECT_REQ]);
    kiss::deframing_undoes_framing(open, CMD_FW_VERSION, seq![0u8]);
    kiss::deframing_undoes_framing(open, CMD_PLATFORM, seq![0u8]);
    kiss::deframing_undoes_framing(open, CMD_MCU, seq![0u8]);
    kiss::fragmentation_is_invisible(start, first, second);
    kiss::fragmentation_is_invisible(start, first + second, third);
    kiss::fragmentation_is_invisible(start, first + second + third, fourth);
    assert(kiss::frames_in(start, detect_sequence()) =~= seq![
        (CMD_DETECT, seq![DETECT_REQ]),
        (CMD_FW_VERSION, seq![0u8]),
        (CMD_PLATFORM, seq![0u8]),
        (CMD_MCU, seq![0u8]),
    ]);
}

/// The radio settings that a driver asserts, with airtime limits in hundredths of
/// a percent.
#[derive(Clone, Copy, Debug, PartialEq, Eq, Structural)]
pub struct RNodeRadioSettings {
    pub frequency: u32,
    pub bandwidth: u32,
    pub spreading_factor: u8,
    pub coding_rate: u8,
    pub tx_power: u8,
    pub st_alock: Option<u16>,
    pub lt_alock: Option<u16>,
}

/// A number in network byte order.
pub open spec fn be_bytes_u32(value: u32) -> Seq<u8> {
    seq![
        (value / 16_777_216) as u8,
        ((value / 65_536) % 256) as u8,
        ((value / 256) % 256) as u8,
        (value % 256) as u8,
    ]
}

/// A number in network byte order.
pub open spec fn be_bytes_u16(value: u16) -> Seq<u8> {
    seq![(value / 256) as u8, (value % 256) as u8]
}

/// The requests that bring the radio to `settings`; the last of them switches it
/// on, and none switches it off.
pub open spec fn radio_requests(settings: RNodeRadioSettings) -> Seq<Frame> {
    seq![
        (CMD_FREQUENCY, be_bytes_u32(settings.frequency)),
        (CMD_BANDWIDTH, be_bytes_u32(settings.bandwidth)),
        (CMD_TXPOWER, seq![settings.tx_power]),
        (CMD_SF, seq![settings.spreading_factor]),
        (CMD_CR, seq![settings.coding_rate]),
    ] + airtime_request(CMD_ST_ALOCK, settings.st_alock) + airtime_request(
        CMD_LT_ALOCK,
        settings.lt_alock,
    ) + seq![(CMD_RADIO_STATE, seq![RADIO_STATE_ON])]
}

/// The request that sets an airtime limit, where one is configured.
pub open spec fn airtime_request(command: u8, limit: Option<u16>) -> Seq<Frame> {
    match limit {
        Some(hundredths) => seq![(command, be_bytes_u16(hundredths))],
        None => Seq::empty(),
    }
}

/// Each request framed on its own.
pub open spec fn framed_each(requests: Seq<Frame>) -> Seq<Seq<u8>> {
    requests.map_values(|request: Frame| framed(request.0, request.1))
}

/// The writes that bring the radio to `settings`, one request each.
pub open spec fn radio_reassertion_stages(settings: RNodeRadioSettings) -> Seq<Seq<u8>> {
    framed_each(radio_requests(settings))
}

/// A run of frames, written one behind the other, reaches the other side as
/// exactly that run.
pub proof fn framed_run_is_received(state: kiss::Assembly, requests: Seq<Frame>)
    requires
        !state.in_frame || state.command is None,
        forall|i: int| 0 <= i < requests.len() ==> (#[trigger] requests[i]).0 != kiss::FEND,
    ensures
        kiss::frames_in(state, concatenated(framed_each(requests))) == requests,
        requests.len() > 0 ==> kiss::assemble_all(state, concatenated(framed_each(requests)))
            == kiss::opened_assembly(),
    decreases requests.len(),
{
    let wire = concatenated(framed_each(requests));
    if requests.len() == 0 {
        assert(framed_each(requests) =~= Seq::<Seq<u8>>::empty());
        assert(requests =~= Seq::<Frame>::empty());
    } else {
        let head = requests.drop_last();
        let last = requests.last();
        assert forall|i: int| 0 <= i < head.len() implies (#[trigger] head[i]).0 != kiss::FEND by {
            assert(head[i] == requests[i]);
        }
        framed_run_is_received(state, head);
        assert(framed_each(requests).drop_last() =~= framed_each(head));
        assert(framed_each(requests).last() == framed(last.0, last.1));
        let before = concatenated(framed_each(head));
        if head.len() == 0 {
            assert(framed_each(head) =~= Seq::<Seq<u8>>::empty());
            assert(kiss::assemble_all(state, before) == state);
        }
        kiss::fragmentation_is_invisible(state, before, framed(last.0, last.1));
        kiss::deframing_undoes_framing(kiss::assemble_all(state, before), last.0, last.1);
        assert(head + seq![last] =~= requests);
        assert(kiss::frames_in(state, wire) =~= requests);
    }
}

/// The radio is configured in full and then switched on, and at no point switched
/// off; no write exceeds the smallest characteristic value.
pub proof fn reassertion_never_turns_radio_off(settings: RNodeRadioSettings)
    ensures
        kiss::frames_in(
            kiss::fresh_assembly(),
            concatenated(radio_reassertion_stages(settings)),
        ) == radio_requests(settings),
        radio_requests(settings).first() == (CMD_FREQUENCY, be_bytes_u32(settings.frequency)),
        radio_requests(settings).last() == (CMD_RADIO_STATE, seq![RADIO_STATE_ON]),
        forall|i: int|
            0 <= i < radio_requests(settings).len() && (#[trigger] radio_requests(settings)[i]).0
                == CMD_RADIO_STATE ==> radio_requests(settings)[i].1 == seq![RADIO_STATE_ON],
        forall|i: int|
            0 <= i < radio_requests(settings).len() ==> (#[trigger] radio_reassertion_stages(
                settings,
            )[i]).len() <= 20,
{
    let requests = radio_requests(settings);
    assert forall|i: int| 0 <= i < requests.len() implies (#[trigger] requests[i]).0 != kiss::FEND
        && requests[i].1.len() <= 4 by {
    }
    framed_run_is_received(kiss::fresh_assembly(), requests);
    assert forall|i: int| 0 <= i < requests.len() implies (#[trigger] radio_reassertion_stages(
        settings,
    )[i]).len() <= 20 by {
        assert(requests[i].1.len() <= 4);
        kiss::frame_length(requests[i].0, requests[i].1);
    }
}

/// The bytes behind a vector of executable stages.
pub open spec fn stages_view(stages: Seq<Vec<u8>>) -> Seq<Seq<u8>> {
    stages.map_values(|stage: Vec<u8>| stage@)
}

fn u32_stage(command: u8, value: u32) -> (stage: Vec<u8>)
    ensures
        stage@ == framed(command, be_bytes_u32(value)),
{
    let mut payload: Vec<u8> = Vec::new();
    payload.push((value / 16_777_216) as u8);
    payload.push(((value / 65_536) % 256) as u8);
    payload.push(((value / 256) % 256) as u8);
    payload.push((value % 256) as u8);
    assert(payload@ =~= be_bytes_u32(value));
    kiss::frame_with_command(command, payload.as_slice())
}

fn u16_stage(command: u8, value: u16) -> (stage: Vec<u8>)
    ensures
        stage@ == framed(command, be_bytes_u16(value)),
{
    let mut payload: Vec<u8> = Vec::new();
    payload.push((value / 256) as u8);
    payload.push((value % 256) as u8);
    assert(payload@ =~= be_bytes_u16(value));
    kiss::frame_with_command(command, payload.as_slice())
}

fn byte_stage(command: u8, value: u8) -> (stage: Vec<u8>)
    ensures
        stage@ == framed(command, seq![value]),
{
    let mut stage: Vec<u8> = Vec::new();
    frame_byte_into(command, value, &mut stage);
    assert(stage@ =~= framed(command, seq![value]));
    stage
}

/// Builds the control frames that bring the radio to `settings`.
pub fn build_ble_radio_reassertion_stages(settings: RNodeRadioSettings) -> (stages: Vec<Vec<u8>>)
    ensures
        stages_view(stages@) == radio_reassertion_stages(settings),
{
    let mut stages: Vec<Vec<u8>> = Vec::new();
    stages.push(u32_stage(CMD_FREQUENCY, settings.frequency));
    stages.push(u32_stage(CMD_BANDWIDTH, settings.bandwidth));
    stages.push(byte_stage(CMD_TXPOWER, settings.tx_power));
    stages.push(byte_stage(CMD_SF, settings.spreading_factor));
    stages.push(byte_stage(CMD_CR, settings.coding_rate));
    if let Some(hundredths) = settings.st_alock {
        stages.push(u16_stage(CMD_ST_ALOCK, hundredths));
    }
    if let Some(hundredths) = settings.lt_alock {
        stages.push(u16_stage(CMD_LT_ALOCK, hundredths));
    }
    stages.push(byte_stage(CMD_RADIO_STATE, RADIO_STATE_ON));
    assert(stages_view(stages@) =~= radio_reassertion_stages(settings));
    stages
}

/// All stages, one behind the other.
pub open spec fn concatenated(stages: Seq<Seq<u8>>) -> Seq<u8>
    decreases stages.len(),
{
    if stages.len() == 0 {
        Seq::empty()
    } else {
        concatenated(stages.drop_last()) + stages.last()
    }
}

/// Joins all stages into one write.
pub fn concat_stages(stages: &Vec<Vec<u8>>) -> (bytes: Vec<u8>)
    ensures
        bytes@ == concatenated(stages_view(stages@)),
{
    let mut bytes: Vec<u8> = Vec::new();
    let mut index: usize = 0;
    assert(stages_view(stages@).subrange(0, 0) =~= Seq::<Seq<u8>>::empty());
    while index < stages.len()
        invariant
            index <= stages@.len(),
            bytes@ == concatenated(stages_view(stages@).subrange(0, index as int)),
        decreases stages@.len() - index,
    {
        bytes.extend_from_slice(stages[index].as_slice());
        proof {
            let grown = stages_view(stages@).subrange(0, index + 1);
            assert(grown.drop_last() =~= stages_view(stages@).subrange(0, index as int));
            assert(bytes@ =~= concatenated(grown));
        }
        index = index + 1;
    }
    assert(stages_view(stages@).subrange(0, index as int) =~= stages_view(stages@));
    bytes
}

/// Builds the write that configures the radio.
pub fn build_init_sequence(settings: RNodeRadioSettings) -> (sequence: Vec<u8>)
    ensures
        sequence@ == concatenated(radio_reassertion_stages(settings)),
{
    let stages = build_ble_radio_reassertion_stages(settings);
    concat_stages(&stages)
}

/// The detect probe reaches a device that is between frames as its four requests, and the
/// detach as two, with the command bytes that the firmware knows.
pub proof fn probe_and_detach_are_understood(state: kiss::Assembly)
    requires
        !state.in_frame || state.command is None,
    ensures
        kiss::frames_in(state, detect_sequence()) == seq![
            (0x08u8, seq![0x73u8]),
            (0x50u8, seq![0x00u8]),
            (0x48u8, seq![0x00u8]),
            (0x49u8, seq![0x00u8]),
        ],
        kiss::frames_in(state, detach_sequence()) == seq![
            (0x06u8, seq![0x00u8]),
            (0x0Au8, seq![0xFFu8]),
        ],
        kiss::assemble_all(state, detect_sequence()) == kiss::opened_assembly(),
{
    let open = kiss::opened_assembly();
    let first = framed(CMD_DETECT, seq![DETECT_REQ]);
    let second = framed(CMD_FW_VERSION, seq![0u8]);
    let third = framed(CMD_PLATFORM, seq![0u8]);
    let fourth = framed(CMD_MCU, seq![0u8]);
    kiss::deframing_undoes_framing(state, CMD_DETECT, seq![DETECT_REQ]);
    kiss::deframing_undoes_framing(open, CMD_FW_VERSION, seq![0u8]);
    kiss::deframing_undoes_framing(open, CMD_PLATFORM, seq![0u8]);
    kiss::deframing_undoes_framing(open, CMD_MCU, seq![0u8]);
    kiss::fragmentation_is_invisible(state, first, second);
    kiss::fragmentation_is_invisible(state, first + second, third);
    kiss::fragmentation_is_invisible(state, first + second + third, fourth);
    assert(kiss::frames_in(state, detect_sequence()) =~= seq![
        (0x08u8, seq![0x73u8]),
        (0x50u8, seq![0x00u8]),
        (0x48u8, seq![0x00u8]),
        (0x49u8, seq![0x00u8]),
    ]);
    let off = framed(CMD_RADIO_STATE, seq![RADIO_STATE_OFF]);
    let leave = framed(CMD_LEAVE, seq![LEAVE_REQ]);
    kiss::deframing_undoes_framing(state, CMD_RADIO_STATE, seq![RADIO_STATE_OFF]);
    kiss::deframing_undoes_framing(open, CMD_LEAVE, seq![LEAVE_REQ]);
    kiss::fragmentation_is_invisible(state, off, leave);
    assert(kiss::frames_in(state, detach_sequence()) =~= seq![
        (0x06u8, seq![0x00u8]),
        (0x0Au8, seq![0xFFu8]),
    ]);
}

/// Numbers travel with their highest byte first.
pub proof fn highest_byte_comes_first(value: u32, short: u16)
    ensures
        be_bytes_u32(value).len() == 4,
        be_bytes_u32(value)[0] * 16_777_216 + be_bytes_u32(value)[1] * 65_536 + be_bytes_u32(
            value,
        )[2] * 256 + be_bytes_u32(value)[3] == value,
        be_bytes_u16(short).len() == 2,
        be_bytes_u16(short)[0] * 256 + be_bytes_u16(short)[1] == short,
{
}

/// The radio is asked for each setting under that setting's own command: frequency and
/// bandwidth in hertz, power, spreading factor and coding rate as one byte, each airtime
/// limit exactly where one is configured. The radio is switched on at the end, and nothing
/// else is asked for.
pub proof fn each_setting_has_its_own_request(settings: RNodeRadioSettings)
    ensures
        ({
            let requests = radio_requests(settings);
            let limits = (if settings.st_alock is Some {
                1int
            } else {
                0
            }) + (if settings.lt_alock is Some {
                1int
            } else {
                0
            });
            &&& requests.len() == 6 + limits
            &&& requests[0] == (0x01u8, be_bytes_u32(settings.frequency))
            &&& requests[1] == (0x02u8, be_bytes_u32(settings.bandwidth))
            &&& requests[2] == (0x03u8, seq![settings.tx_power])
            &&& requests[3] == (0x04u8, seq![settings.spreading_factor])
            &&& requests[4] == (0x05u8, seq![settings.coding_rate])
            &&& settings.st_alock is Some ==> requests[5] == (
                0x0Bu8,
                be_bytes_u16(settings.st_alock->0),
            )
            &&& settings.lt_alock is Some ==> requests[4 + limits] == (
                0x0Cu8,
                be_bytes_u16(settings.lt_alock->0),
            )
            &&& requests[5 + limits] == (0x06u8, seq![0x01u8])
        }),
{
}

/// Each request is one write, in the order of the requests, and all of them one behind the
/// other are received as those requests.
pub proof fn each_request_is_one_write(settings: RNodeRadioSettings, state: kiss::Assembly)
    requires
        !state.in_frame || state.command is None,
    ensures
        radio_reassertion_stages(settings).len() == radio_requests(settings).len(),
        forall|i: int|
            0 <= i < radio_requests(settings).len() ==> kiss::frames_in(
                state,
                #[trigger] radio_reassertion_stages(settings)[i],
            ) == seq![radio_requests(settings)[i]],
        kiss::frames_in(state, concatenated(radio_reassertion_stages(settings)))
            == radio_requests(settings),
        kiss::assemble_all(state, concatenated(radio_reassertion_stages(settings)))
            == kiss::opened_assembly(),
{
    let requests = radio_requests(settings);
    assert forall|i: int| 0 <= i < requests.len() implies (#[trigger] requests[i]).0
        != kiss::FEND by {
    }
    framed_run_is_received(state, requests);
    assert forall|i: int| 0 <= i < requests.len() implies kiss::frames_in(
        state,
        #[trigger] radio_reassertion_stages(settings)[i],
    ) == seq![requests[i]] by {
        kiss::deframing_undoes_framing(state, requests[i].0, requests[i].1);
    }
}

/// The writes of two runs of stages, one behind the other.
pub proof fn stages_are_written_in_order(one: Seq<Seq<u8>>, other: Seq<Seq<u8>>)
    ensures
        concatenated(one + other) == concatenated(one) + concatenated(other),
        one.len() == 1 ==> concatenated(one) == one[0],
        concatenated(Seq::<Seq<u8>>::empty()).len() == 0,
    decreases other.len(),
{
    if one.len() == 1 {
        assert(one.drop_last() =~= Seq::<Seq<u8>>::empty());
        assert(concatenated(one.drop_last()) =~= Seq::<u8>::empty());
        assert(concatenated(one) =~= one[0]);
    }
    let all = one + other;
    if other.len() == 0 {
        assert(all =~= one);
        assert(concatenated(one) + concatenated(other) =~= concatenated(one));
    } else {
        stages_are_written_in_order(one, other.drop_last());
        assert(all.drop_last() =~= one + other.drop_last());
        assert(all.last() == other.last());
        assert(concatenated(all) =~= concatenated(one) + concatenated(other));
    }
}

/// The device permits a packet by a single byte of one under its own command and forbids it
/// by a zero; nothing else says anything of that.
pub proof fn permission_is_one_byte(command: u8, frame: Seq<u8>)
    ensures
        flow_permission(command, frame) == Some(true) <==> command == 0x0F && frame == seq![1u8],
        flow_permission(command, frame) == Some(false) <==> command == 0x0F && frame == seq![0u8],
{
    if command == 0x0F && frame.len() == 1 {
        assert(frame =~= seq![frame[0]]);
    }
}

/// The signal strength that was reported last goes with the next packet and is then
/// forgotten. A report of zero stands for 157 dBm below zero, and each step for one dBm more.
pub proof fn strength_goes_with_the_next_packet(
    command: u8,
    frame: Seq<u8>,
    last: Option<i16>,
)
    requires
        frame.len() > 0,
    ensures
        rssi_after(0x23, frame, last) is Some,
        rssi_after(0x23, frame, last)->0 == frame[0] - 157,
        rssi_after(0x00, frame, last) is None,
        command != 0x23 && command != 0x00 ==> rssi_after(command, frame, last) == last,
        rssi_after(command, Seq::empty(), last) == last,
{
}

/// The signal-to-noise ratio that was reported last goes with the next packet and is then
/// forgotten. A report is a signed byte, so that the upper half of its values is negative.
pub proof fn noise_ratio_goes_with_the_next_packet(
    command: u8,
    frame: Seq<u8>,
    last: Option<i16>,
)
    requires
        frame.len() > 0,
    ensures
        snr_after(0x24, frame, last) is Some,
        frame[0] < 128 ==> snr_after(0x24, frame, last)->0 == frame[0],
        frame[0] >= 128 ==> snr_after(0x24, frame, last)->0 == frame[0] - 256,
        snr_after(0x00, frame, last) is None,
        command != 0x24 && command != 0x00 ==> snr_after(command, frame, last) == last,
        snr_after(command, Seq::empty(), last) == last,
{
}

} // verus!
