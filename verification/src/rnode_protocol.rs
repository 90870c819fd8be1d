//! Typed evidence about one connection generation of an RNode: what the device
//! has reported, and whether that proves the configured radio target.
use vstd::prelude::*;
use crate::kiss::{Frame, CMD_DATA};
use crate::rnode::{
    be_bytes_u32, highest_byte_comes_first, radio_requests, RNodeRadioSettings,
    RNodeRuntimeReason, CMD_BANDWIDTH, CMD_CR, CMD_DETECT, CMD_ERROR, CMD_FREQUENCY,
    CMD_FW_VERSION, CMD_RADIO_STATE, CMD_READY, CMD_RESET, CMD_SF, CMD_TXPOWER, DETECT_RESP,
    ERROR_INITRADIO, RADIO_STATE_ON, REQUIRED_FW_VER_MAJ, REQUIRED_FW_VER_MIN,
    RESET_ANNOUNCEMENT,
};

verus! {

/// The reported frequency may differ from the configured one by this many hertz.
pub const FREQUENCY_TOLERANCE: u32 = 100;

/// The firmware version that a device reports.
#[derive(Clone, Copy, Debug, PartialEq, Eq, Structural)]
pub struct RNodeFirmwareVersion {
    pub major: u8,
    pub minor: u8,
}

impl RNodeFirmwareVersion {
    /// A firmware version.
    pub fn new(major: u8, minor: u8) -> (version: Self)
        ensures
            version == (RNodeFirmwareVersion { major, minor }),
    {
        RNodeFirmwareVersion { major, minor }
    }

    /// No older than the oldest firmware that a driver accepts.
    pub open spec fn supported(self) -> bool {
        self.major > REQUIRED_FW_VER_MAJ || (self.major == REQUIRED_FW_VER_MAJ && self.minor
            >= REQUIRED_FW_VER_MIN)
    }

    /// Tells whether a driver accepts this firmware.
    pub fn is_supported(self) -> (supported: bool)
        ensures
            supported == self.supported(),
    {
        self.major > REQUIRED_FW_VER_MAJ || (self.major == REQUIRED_FW_VER_MAJ && self.minor
            >= REQUIRED_FW_VER_MIN)
    }
}

/// The radio configuration that a generation has to prove.
#[derive(Clone, Copy, Debug, PartialEq, Eq, Structural)]
pub struct RNodeProtocolTarget {
    pub frequency: u32,
    pub bandwidth: u32,
    pub spreading_factor: u8,
    pub coding_rate: u8,
    pub tx_power: u8,
}

impl RNodeProtocolTarget {
    /// A radio configuration.
    pub fn new(
        frequency: u32,
        bandwidth: u32,
        spreading_factor: u8,
        coding_rate: u8,
        tx_power: u8,
    ) -> (target: Self)
        ensures
            target == (RNodeProtocolTarget {
                frequency,
                bandwidth,
                spreading_factor,
                coding_rate,
                tx_power,
            }),
    {
        RNodeProtocolTarget { frequency, bandwidth, spreading_factor, coding_rate, tx_power }
    }
}

/// A well-formed control frame.
#[derive(Clone, Copy, Debug, PartialEq, Eq, Structural)]
pub enum RNodeProtocolFrame {
    Detected,
    Firmware(RNodeFirmwareVersion),
    Frequency(u32),
    Bandwidth(u32),
    SpreadingFactor(u8),
    CodingRate(u8),
    TxPower(u8),
    RadioState(bool),
    FlowPermission(bool),
    RadioInitialisationFault,
    Reset,
}

/// Four bytes in network order, read as a number.
pub open spec fn be_number(bytes: Seq<u8>) -> int {
    bytes[0] * 16_777_216 + bytes[1] * 65_536 + bytes[2] * 256 + bytes[3]
}

impl RNodeProtocolFrame {
    /// What a frame says, if it is a control frame of exactly the right shape.
    pub open spec fn meaning(command: u8, frame: Seq<u8>) -> Option<RNodeProtocolFrame> {
        if frame.len() == 1 {
            let value = frame[0];
            if command == CMD_DETECT && value == DETECT_RESP {
                Some(RNodeProtocolFrame::Detected)
            } else if command == CMD_SF {
                Some(RNodeProtocolFrame::SpreadingFactor(value))
            } else if command == CMD_CR {
                Some(RNodeProtocolFrame::CodingRate(value))
            } else if command == CMD_TXPOWER {
                Some(RNodeProtocolFrame::TxPower(value))
            } else if command == CMD_RADIO_STATE && value <= 1 {
                Some(RNodeProtocolFrame::RadioState(value == RADIO_STATE_ON))
            } else if command == CMD_READY && value <= 1 {
                Some(RNodeProtocolFrame::FlowPermission(value == 1))
            } else if command == CMD_ERROR && value == ERROR_INITRADIO {
                Some(RNodeProtocolFrame::RadioInitialisationFault)
            } else if command == CMD_RESET && value == RESET_ANNOUNCEMENT {
                Some(RNodeProtocolFrame::Reset)
            } else {
                None
            }
        } else if frame.len() == 2 && command == CMD_FW_VERSION {
            Some(
                RNodeProtocolFrame::Firmware(
                    RNodeFirmwareVersion { major: frame[0], minor: frame[1] },
                ),
            )
        } else if frame.len() == 4 && command == CMD_FREQUENCY {
            Some(RNodeProtocolFrame::Frequency(be_number(frame) as u32))
        } else if frame.len() == 4 && command == CMD_BANDWIDTH {
            Some(RNodeProtocolFrame::Bandwidth(be_number(frame) as u32))
        } else {
            None
        }
    }

    /// Decodes a control frame; a frame of the wrong width or with an unknown
    /// value says nothing.
    pub fn decode(command: u8, frame: &[u8]) -> (decoded: Option<RNodeProtocolFrame>)
        ensures
            decoded == Self::meaning(command, frame@),
    {
        if frame.len() == 1 {
            let value: u8 = frame[0];
            if command == CMD_DETECT && value == DETECT_RESP {
                Some(RNodeProtocolFrame::Detected)
            } else if command == CMD_SF {
                Some(RNodeProtocolFrame::SpreadingFactor(value))
            } else if command == CMD_CR {
                Some(RNodeProtocolFrame::CodingRate(value))
            } else if command == CMD_TXPOWER {
                Some(RNodeProtocolFrame::TxPower(value))
            } else if command == CMD_RADIO_STATE && value <= 1 {
                Some(RNodeProtocolFrame::RadioState(value == RADIO_STATE_ON))
            } else if command == CMD_READY && value <= 1 {
                Some(RNodeProtocolFrame::FlowPermission(value == 1))
            } else if command == CMD_ERROR && value == ERROR_INITRADIO {
                Some(RNodeProtocolFrame::RadioInitialisationFault)
            } else if command == CMD_RESET && value == RESET_ANNOUNCEMENT {
                Some(RNodeProtocolFrame::Reset)
            } else {
                None
            }
        } else if frame.len() == 2 && command == CMD_FW_VERSION {
            Some(
                RNodeProtocolFrame::Firmware(
                    RNodeFirmwareVersion { major: frame[0], minor: frame[1] },
                ),
            )
        } else if frame.len() == 4 && command == CMD_FREQUENCY {
            Some(RNodeProtocolFrame::Frequency(read_be_number(frame)))
        } else if frame.len() == 4 && command == CMD_BANDWIDTH {
            Some(RNodeProtocolFrame::Bandwidth(read_be_number(frame)))
        } else {
            None
        }
    }
}

fn read_be_number(frame: &[u8]) -> (value: u32)
    requires
        frame@.len() == 4,
    ensures
        value == be_number(frame@),
{
    frame[0] as u32 * 16_777_216 + frame[1] as u32 * 65_536 + frame[2] as u32 * 256
        + frame[3] as u32
}

/// Everything a generation has reported so far.
#[derive(Clone, Copy, Debug, PartialEq, Eq, Structural)]
pub struct RNodeProtocolEvidence {
    pub detected: bool,
    pub firmware: Option<RNodeFirmwareVersion>,
    pub frequency: Option<u32>,
    pub bandwidth: Option<u32>,
    pub spreading_factor: Option<u8>,
    pub coding_rate: Option<u8>,
    pub tx_power: Option<u8>,
    pub radio_state: Option<bool>,
    pub flow_permitted: Option<bool>,
    pub radio_initialisation_fault: bool,
}

/// A generation that has reported nothing.
pub open spec fn no_evidence() -> RNodeProtocolEvidence {
    RNodeProtocolEvidence {
        detected: false,
        firmware: None,
        frequency: None,
        bandwidth: None,
        spreading_factor: None,
        coding_rate: None,
        tx_power: None,
        radio_state: None,
        flow_permitted: None,
        radio_initialisation_fault: false,
    }
}

/// The evidence after one control frame.
pub open spec fn evidence_after(
    evidence: RNodeProtocolEvidence,
    frame: RNodeProtocolFrame,
) -> RNodeProtocolEvidence {
    match frame {
        RNodeProtocolFrame::Detected => RNodeProtocolEvidence { detected: true, ..evidence },
        RNodeProtocolFrame::Firmware(version) => RNodeProtocolEvidence {
            firmware: Some(version),
            ..evidence
        },
        RNodeProtocolFrame::Frequency(value) => RNodeProtocolEvidence {
            frequency: Some(value),
            ..evidence
        },
        RNodeProtocolFrame::Bandwidth(value) => RNodeProtocolEvidence {
            bandwidth: Some(value),
            ..evidence
        },
        RNodeProtocolFrame::SpreadingFactor(value) => RNodeProtocolEvidence {
            spreading_factor: Some(value),
            ..evidence
        },
        RNodeProtocolFrame::CodingRate(value) => RNodeProtocolEvidence {
            coding_rate: Some(value),
            ..evidence
        },
        RNodeProtocolFrame::TxPower(value) => RNodeProtocolEvidence {
            tx_power: Some(value),
            ..evidence
        },
        RNodeProtocolFrame::RadioState(on) => RNodeProtocolEvidence {
            radio_state: Some(on),
            ..evidence
        },
        RNodeProtocolFrame::FlowPermission(permitted) => RNodeProtocolEvidence {
            flow_permitted: Some(permitted),
            ..evidence
        },
        RNodeProtocolFrame::RadioInitialisationFault => RNodeProtocolEvidence {
            radio_initialisation_fault: true,
            ..evidence
        },
        RNodeProtocolFrame::Reset => no_evidence(),
    }
}

/// The evidence after any frame; one that says nothing changes nothing.
pub open spec fn evidence_after_frame(
    evidence: RNodeProtocolEvidence,
    command: u8,
    frame: Seq<u8>,
) -> RNodeProtocolEvidence {
    match RNodeProtocolFrame::meaning(command, frame) {
        Some(decoded) => evidence_after(evidence, decoded),
        None => evidence,
    }
}

/// One item of the configuration that readiness rests on.
#[derive(Clone, Copy, Debug, PartialEq, Eq, Structural)]
pub enum RNodeReadinessEvidence {
    Detection,
    Firmware,
    Frequency,
    Bandwidth,
    SpreadingFactor,
    CodingRate,
    TxPower,
    RadioState,
}

/// Why a generation is not ready.
#[derive(Clone, Copy, Debug, PartialEq, Eq, Structural)]
pub enum RNodeReadinessBlocker {
    RadioInitialisationFault,
    Missing(RNodeReadinessEvidence),
    Mismatched(RNodeReadinessEvidence),
}

/// Whether a generation has proved its target.
#[derive(Clone, Copy, Debug, PartialEq, Eq, Structural)]
pub enum RNodeReadiness {
    Ready,
    Blocked(RNodeReadinessBlocker),
}

/// The reported frequency is the configured one, within the tolerance.
pub open spec fn frequency_matches(reported: u32, target: u32) -> bool {
    -FREQUENCY_TOLERANCE <= reported - target <= FREQUENCY_TOLERANCE
}

/// The evidence proves the target.
pub open spec fn proves(evidence: RNodeProtocolEvidence, target: RNodeProtocolTarget) -> bool {
    &&& !evidence.radio_initialisation_fault
    &&& evidence.detected
    &&& evidence.firmware is Some && evidence.firmware->0.supported()
    &&& evidence.frequency is Some && frequency_matches(evidence.frequency->0, target.frequency)
    &&& evidence.bandwidth == Some(target.bandwidth)
    &&& evidence.spreading_factor == Some(target.spreading_factor)
    &&& evidence.coding_rate == Some(target.coding_rate)
    &&& evidence.tx_power == Some(target.tx_power)
    &&& evidence.radio_state == Some(true)
}

/// What is reported of one item: nothing, the right value, or another one.
pub open spec fn item_readiness(
    item: RNodeReadinessEvidence,
    reported: bool,
    matched: bool,
) -> Option<RNodeReadinessBlocker> {
    if !reported {
        Some(RNodeReadinessBlocker::Missing(item))
    } else if !matched {
        Some(RNodeReadinessBlocker::Mismatched(item))
    } else {
        None
    }
}

/// The first thing that stands between the evidence and the target.
pub open spec fn first_blocker(
    evidence: RNodeProtocolEvidence,
    target: RNodeProtocolTarget,
) -> Option<RNodeReadinessBlocker> {
    let items = seq![
        item_readiness(RNodeReadinessEvidence::Detection, evidence.detected, true),
        item_readiness(
            RNodeReadinessEvidence::Firmware,
            evidence.firmware is Some,
            evidence.firmware->0.supported(),
        ),
        item_readiness(
            RNodeReadinessEvidence::Frequency,
            evidence.frequency is Some,
            frequency_matches(evidence.frequency->0, target.frequency),
        ),
        item_readiness(
            RNodeReadinessEvidence::Bandwidth,
            evidence.bandwidth is Some,
            evidence.bandwidth == Some(target.bandwidth),
        ),
        item_readiness(
            RNodeReadinessEvidence::SpreadingFactor,
            evidence.spreading_factor is Some,
            evidence.spreading_factor == Some(target.spreading_factor),
        ),
        item_readiness(
            RNodeReadinessEvidence::CodingRate,
            evidence.coding_rate is Some,
            evidence.coding_rate == Some(target.coding_rate),
        ),
        item_readiness(
            RNodeReadinessEvidence::TxPower,
            evidence.tx_power is Some,
            evidence.tx_power == Some(target.tx_power),
        ),
        item_readiness(
            RNodeReadinessEvidence::RadioState,
            evidence.radio_state is Some,
            evidence.radio_state == Some(true),
        ),
    ];
    if evidence.radio_initialisation_fault {
        Some(RNodeReadinessBlocker::RadioInitialisationFault)
    } else if items[0] is Some {
        items[0]
    } else if items[1] is Some {
        items[1]
    } else if items[2] is Some {
        items[2]
    } else if items[3] is Some {
        items[3]
    } else if items[4] is Some {
        items[4]
    } else if items[5] is Some {
        items[5]
    } else if items[6] is Some {
        items[6]
    } else {
        items[7]
    }
}

/// Nothing stands in the way exactly when the evidence proves the target.
pub proof fn ready_is_proof_of_target(
    evidence: RNodeProtocolEvidence,
    target: RNodeProtocolTarget,
)
    ensures
        first_blocker(evidence, target) is None <==> proves(evidence, target),
{
}

/// What one frame did to the evidence.
#[derive(Clone, Copy, Debug, PartialEq, Eq, Structural)]
pub enum RNodeProtocolEffect {
    NoChange,
    Changed,
    DeviceReset,
}

/// The evidence of one connection generation, measured against its target.
#[derive(Clone, Copy, Debug, PartialEq, Eq, Structural)]
pub struct RNodeProtocolState {
    target: RNodeProtocolTarget,
    evidence: RNodeProtocolEvidence,
}

impl RNodeProtocolState {
    /// The configuration that the generation has to prove.
    pub closed spec fn spec_target(self) -> RNodeProtocolTarget {
        self.target
    }

    /// What the generation has reported.
    pub closed spec fn spec_evidence(self) -> RNodeProtocolEvidence {
        self.evidence
    }

    /// The evidence proves the target.
    pub open spec fn is_ready(self) -> bool {
        proves(self.spec_evidence(), self.spec_target())
    }

    /// The state after one frame.
    pub closed spec fn after(self, command: u8, frame: Seq<u8>) -> RNodeProtocolState {
        RNodeProtocolState {
            target: self.target,
            evidence: evidence_after_frame(self.evidence, command, frame),
        }
    }

    /// A generation that has reported nothing.
    pub fn new(target: RNodeProtocolTarget) -> (state: Self)
        ensures
            state.spec_target() == target,
            state.spec_evidence() == no_evidence(),
    {
        RNodeProtocolState {
            target,
            evidence: RNodeProtocolEvidence {
                detected: false,
                firmware: None,
                frequency: None,
                bandwidth: None,
                spreading_factor: None,
                coding_rate: None,
                tx_power: None,
                radio_state: None,
                flow_permitted: None,
                radio_initialisation_fault: false,
            },
        }
    }

    /// What the generation has reported.
    pub fn evidence(&self) -> (evidence: RNodeProtocolEvidence)
        ensures
            evidence == self.spec_evidence(),
    {
        self.evidence
    }

    /// Takes one frame into account.
    pub fn apply_frame(&mut self, command: u8, frame: &[u8]) -> (effect: RNodeProtocolEffect)
        ensures
            *final(self) == old(self).after(command, frame@),
            final(self).spec_target() == old(self).spec_target(),
            final(self).spec_evidence() == evidence_after_frame(
                old(self).spec_evidence(),
                command,
                frame@,
            ),
            effect == effect_of(*old(self), command, frame@),
    {
        let before = self.evidence;
        match RNodeProtocolFrame::decode(command, frame) {
            Some(RNodeProtocolFrame::Detected) => {
                self.evidence.detected = true;
            },
            Some(RNodeProtocolFrame::Firmware(version)) => {
                self.evidence.firmware = Some(version);
            },
            Some(RNodeProtocolFrame::Frequency(value)) => {
                self.evidence.frequency = Some(value);
            },
            Some(RNodeProtocolFrame::Bandwidth(value)) => {
                self.evidence.bandwidth = Some(value);
            },
            Some(RNodeProtocolFrame::SpreadingFactor(value)) => {
                self.evidence.spreading_factor = Some(value);
            },
            Some(RNodeProtocolFrame::CodingRate(value)) => {
                self.evidence.coding_rate = Some(value);
            },
            Some(RNodeProtocolFrame::TxPower(value)) => {
                self.evidence.tx_power = Some(value);
            },
            Some(RNodeProtocolFrame::RadioState(on)) => {
                self.evidence.radio_state = Some(on);
            },
            Some(RNodeProtocolFrame::FlowPermission(permitted)) => {
                self.evidence.flow_permitted = Some(permitted);
            },
            Some(RNodeProtocolFrame::RadioInitialisationFault) => {
                self.evidence.radio_initialisation_fault = true;
            },
            Some(RNodeProtocolFrame::Reset) => {
                *self = RNodeProtocolState::new(self.target);
                return RNodeProtocolEffect::DeviceReset;
            },
            None => {},
        }
        if self.evidence == before {
            RNodeProtocolEffect::NoChange
        } else {
            RNodeProtocolEffect::Changed
        }
    }

    /// Tells whether the generation has proved its target, and if not, what it
    /// lacks first.
    pub fn readiness(&self) -> (readiness: RNodeReadiness)
        ensures
            readiness is Ready <==> self.is_ready(),
            match first_blocker(self.spec_evidence(), self.spec_target()) {
                Some(blocker) => readiness == RNodeReadiness::Blocked(blocker),
                None => readiness is Ready,
            },
    {
        let evidence = self.evidence;
        let target = self.target;
        if evidence.radio_initialisation_fault {
            return RNodeReadiness::Blocked(RNodeReadinessBlocker::RadioInitialisationFault);
        }
        if !evidence.detected {
            return RNodeReadiness::Blocked(
                RNodeReadinessBlocker::Missing(RNodeReadinessEvidence::Detection),
            );
        }
        match evidence.firmware {
            None => return RNodeReadiness::Blocked(
                RNodeReadinessBlocker::Missing(RNodeReadinessEvidence::Firmware),
            ),
            Some(version) => if !version.is_supported() {
                return RNodeReadiness::Blocked(
                    RNodeReadinessBlocker::Mismatched(RNodeReadinessEvidence::Firmware),
                );
            },
        }
        match evidence.frequency {
            None => return RNodeReadiness::Blocked(
                RNodeReadinessBlocker::Missing(RNodeReadinessEvidence::Frequency),
            ),
            Some(value) => {
                let distance: u32 = if value >= target.frequency {
                    value - target.frequency
                } else {
                    target.frequency - value
                };
                if distance > FREQUENCY_TOLERANCE {
                    return RNodeReadiness::Blocked(
                        RNodeReadinessBlocker::Mismatched(RNodeReadinessEvidence::Frequency),
                    );
                }
            },
        }
        match evidence.bandwidth {
            None => return RNodeReadiness::Blocked(
                RNodeReadinessBlocker::Missing(RNodeReadinessEvidence::Bandwidth),
            ),
            Some(value) => if value != target.bandwidth {
                return RNodeReadiness::Blocked(
                    RNodeReadinessBlocker::Mismatched(RNodeReadinessEvidence::Bandwidth),
                );
            },
        }
        if let Some(blocker) = byte_blocker(
            RNodeReadinessEvidence::SpreadingFactor,
            evidence.spreading_factor,
            target.spreading_factor,
        ) {
            return RNodeReadiness::Blocked(blocker);
        }
        if let Some(blocker) = byte_blocker(
            RNodeReadinessEvidence::CodingRate,
            evidence.coding_rate,
            target.coding_rate,
        ) {
            return RNodeReadiness::Blocked(blocker);
        }
        if let Some(blocker) = byte_blocker(
            RNodeReadinessEvidence::TxPower,
            evidence.tx_power,
            target.tx_power,
        ) {
            return RNodeReadiness::Blocked(blocker);
        }
        match evidence.radio_state {
            None => RNodeReadiness::Blocked(
                RNodeReadinessBlocker::Missing(RNodeReadinessEvidence::RadioState),
            ),
            Some(on) => if on {
                RNodeReadiness::Ready
            } else {
                RNodeReadiness::Blocked(
                    RNodeReadinessBlocker::Mismatched(RNodeReadinessEvidence::RadioState),
                )
            },
        }
    }
}

/// What one frame does to the evidence: a reset announcement is one whatever was reported
/// before, and any other frame changes something or nothing.
pub open spec fn effect_of(
    state: RNodeProtocolState,
    command: u8,
    frame: Seq<u8>,
) -> RNodeProtocolEffect {
    if RNodeProtocolFrame::meaning(command, frame) == Some(RNodeProtocolFrame::Reset) {
        RNodeProtocolEffect::DeviceReset
    } else if evidence_after_frame(state.spec_evidence(), command, frame)
        == state.spec_evidence() {
        RNodeProtocolEffect::NoChange
    } else {
        RNodeProtocolEffect::Changed
    }
}

/// What whoever follows a device is told of one frame: what it did, and what it left the
/// evidence at.
#[derive(Clone, Copy, Debug, PartialEq, Eq, Structural)]
pub struct RNodeObservation {
    pub state: RNodeProtocolState,
    pub effect: RNodeProtocolEffect,
}

/// What one frame tells whoever follows the device.
pub open spec fn observation_of(
    state: RNodeProtocolState,
    command: u8,
    frame: Seq<u8>,
) -> RNodeObservation {
    RNodeObservation {
        state: state.after(command, frame),
        effect: effect_of(state, command, frame),
    }
}

/// The reason to give for what a frame did, where there is one.
pub open spec fn reason_for(effect: RNodeProtocolEffect) -> Option<RNodeRuntimeReason> {
    if effect is DeviceReset {
        Some(RNodeRuntimeReason::DeviceReset)
    } else {
        None
    }
}

impl RNodeObservation {
    /// The reason to give for what was observed, where there is one.
    pub fn reason(&self) -> (reason: Option<RNodeRuntimeReason>)
        ensures
            reason == reason_for(self.effect),
    {
        match self.effect {
            RNodeProtocolEffect::DeviceReset => Some(RNodeRuntimeReason::DeviceReset),
            _ => None,
        }
    }
}

fn byte_blocker(item: RNodeReadinessEvidence, reported: Option<u8>, target: u8) -> (blocker: Option<
    RNodeReadinessBlocker,
>)
    ensures
        blocker == item_readiness(item, reported is Some, reported == Some(target)),
{
    match reported {
        None => Some(RNodeReadinessBlocker::Missing(item)),
        Some(value) => if value != target {
            Some(RNodeReadinessBlocker::Mismatched(item))
        } else {
            None
        },
    }
}

impl RNodeProtocolState {
    /// What `after` makes of the evidence; the target never changes.
    pub proof fn frame_updates_evidence(self, command: u8, frame: Seq<u8>)
        ensures
            self.after(command, frame).spec_target() == self.spec_target(),
            self.after(command, frame).spec_evidence() == evidence_after_frame(
                self.spec_evidence(),
                command,
                frame,
            ),
    {
    }

    /// A reset announcement clears everything that was reported before it.
    pub proof fn reset_clears_evidence(self)
        ensures
            self.after(CMD_RESET, seq![RESET_ANNOUNCEMENT]).spec_evidence() == no_evidence(),
            !self.after(CMD_RESET, seq![RESET_ANNOUNCEMENT]).is_ready(),
    {
    }

    /// A packet is no evidence.
    pub proof fn data_is_no_evidence(self, frame: Seq<u8>)
        ensures
            self.after(CMD_DATA, frame) == self,
            effect_of(self, CMD_DATA, frame) is NoChange,
    {
    }

    /// A reset is observed at once, also by whoever had nothing to forget.
    pub proof fn reset_is_observed(self)
        ensures
            observation_of(self, CMD_RESET, seq![RESET_ANNOUNCEMENT]).effect is DeviceReset,
            observation_of(self, CMD_RESET, seq![RESET_ANNOUNCEMENT]).state.spec_evidence()
                == no_evidence(),
    {
    }

    /// A frame that is malformed or unknown is observed as no change.
    pub proof fn meaningless_frame_is_no_change(self, command: u8, frame: Seq<u8>)
        requires
            RNodeProtocolFrame::meaning(command, frame) is None,
        ensures
            observation_of(self, command, frame) == (RNodeObservation {
                state: self,
                effect: RNodeProtocolEffect::NoChange,
            }),
    {
    }

    /// A device does not become ready, or cease to be, without its being observed.
    pub proof fn readiness_changes_are_observed(self, command: u8, frame: Seq<u8>)
        requires
            self.after(command, frame).is_ready() != self.is_ready(),
        ensures
            !(effect_of(self, command, frame) is NoChange),
    {
    }
}

/// The evidence after a run of frames.
pub open spec fn evidence_after_frames(
    evidence: RNodeProtocolEvidence,
    frames: Seq<Frame>,
) -> RNodeProtocolEvidence
    decreases frames.len(),
{
    if frames.len() == 0 {
        evidence
    } else {
        evidence_after_frame(
            evidence_after_frames(evidence, frames.drop_last()),
            frames.last().0,
            frames.last().1,
        )
    }
}

/// A device that was detected, with a firmware that is new enough, and that reports back
/// every setting as it was asked to set it, has proved exactly what was asked for: frequency,
/// bandwidth, spreading factor, coding rate and power, with the radio switched on.
pub proof fn reported_settings_prove_the_target(
    evidence: RNodeProtocolEvidence,
    settings: RNodeRadioSettings,
    target: RNodeProtocolTarget,
)
    requires
        evidence.detected,
        evidence.firmware is Some,
        evidence.firmware->0.major > 1 || (evidence.firmware->0.major == 1
            && evidence.firmware->0.minor >= 52),
        !evidence.radio_initialisation_fault,
    ensures
        ({
            let after = evidence_after_frames(evidence, radio_requests(settings));
            &&& after.frequency == Some(settings.frequency)
            &&& after.bandwidth == Some(settings.bandwidth)
            &&& after.spreading_factor == Some(settings.spreading_factor)
            &&& after.coding_rate == Some(settings.coding_rate)
            &&& after.tx_power == Some(settings.tx_power)
            &&& after.radio_state == Some(true)
            &&& proves(after, target) <==> {
                &&& -100 <= settings.frequency - target.frequency <= 100
                &&& target.bandwidth == settings.bandwidth
                &&& target.spreading_factor == settings.spreading_factor
                &&& target.coding_rate == settings.coding_rate
                &&& target.tx_power == settings.tx_power
            }
        }),
{
    let requests = radio_requests(settings);
    highest_byte_comes_first(settings.frequency, 0);
    highest_byte_comes_first(settings.bandwidth, 0);
    lemma_evidence_of_run(evidence, requests, 0);
    lemma_evidence_of_run(evidence, requests, 1);
    lemma_evidence_of_run(evidence, requests, 2);
    lemma_evidence_of_run(evidence, requests, 3);
    lemma_evidence_of_run(evidence, requests, 4);
    lemma_evidence_of_run(evidence, requests, 5);
    if requests.len() > 6 {
        lemma_evidence_of_run(evidence, requests, 6);
    }
    if requests.len() > 7 {
        lemma_evidence_of_run(evidence, requests, 7);
    }
    assert(requests.subrange(0, 0) =~= Seq::<Frame>::empty());
    assert(requests.subrange(0, requests.len() as int) =~= requests);
}

/// What one frame more of a run adds.
proof fn lemma_evidence_of_run(evidence: RNodeProtocolEvidence, frames: Seq<Frame>, index: int)
    requires
        0 <= index < frames.len(),
    ensures
        evidence_after_frames(evidence, frames.subrange(0, index + 1)) == evidence_after_frame(
            evidence_after_frames(evidence, frames.subrange(0, index)),
            frames[index].0,
            frames[index].1,
        ),
{
    assert(frames.subrange(0, index + 1).drop_last() =~= frames.subrange(0, index));
}

/// Firmware is accepted from version 1.52 on: a later major version whatever its minor one.
pub proof fn firmware_is_accepted_from_its_oldest_on(version: RNodeFirmwareVersion)
    ensures
        version.supported() <==> version.major * 256 + version.minor >= 256 + 52,
{
}

/// Every report of one byte under its own command is read as that item and changes that item
/// alone; so are the reports of frequency, bandwidth and firmware in their own widths.
pub proof fn report_changes_its_own_item(
    evidence: RNodeProtocolEvidence,
    value: u8,
    other: u8,
    number: u32,
)
    ensures
        evidence_after_frame(evidence, 0x04, seq![value]) == (RNodeProtocolEvidence {
            spreading_factor: Some(value),
            ..evidence
        }),
        evidence_after_frame(evidence, 0x05, seq![value]) == (RNodeProtocolEvidence {
            coding_rate: Some(value),
            ..evidence
        }),
        evidence_after_frame(evidence, 0x03, seq![value]) == (RNodeProtocolEvidence {
            tx_power: Some(value),
            ..evidence
        }),
        evidence_after_frame(evidence, 0x50, seq![value, other]) == (RNodeProtocolEvidence {
            firmware: Some(RNodeFirmwareVersion { major: value, minor: other }),
            ..evidence
        }),
        evidence_after_frame(evidence, 0x01, be_bytes_u32(number)) == (RNodeProtocolEvidence {
            frequency: Some(number),
            ..evidence
        }),
        evidence_after_frame(evidence, 0x02, be_bytes_u32(number)) == (RNodeProtocolEvidence {
            bandwidth: Some(number),
            ..evidence
        }),
        evidence_after_frame(evidence, 0x06, seq![1u8]) == (RNodeProtocolEvidence {
            radio_state: Some(true),
            ..evidence
        }),
        evidence_after_frame(evidence, 0x06, seq![0u8]) == (RNodeProtocolEvidence {
            radio_state: Some(false),
            ..evidence
        }),
        evidence_after_frame(evidence, 0x0F, seq![1u8]) == (RNodeProtocolEvidence {
            flow_permitted: Some(true),
            ..evidence
        }),
        evidence_after_frame(evidence, 0x0F, seq![0u8]) == (RNodeProtocolEvidence {
            flow_permitted: Some(false),
            ..evidence
        }),
        evidence_after_frame(evidence, 0x08, seq![0x46u8]) == (RNodeProtocolEvidence {
            detected: true,
            ..evidence
        }),
        evidence_after_frame(evidence, 0x90, seq![0x01u8]) == (RNodeProtocolEvidence {
            radio_initialisation_fault: true,
            ..evidence
        }),
        evidence_after_frame(evidence, 0x55, seq![0xF8u8]) == no_evidence(),
{
    highest_byte_comes_first(number, 0);
}

/// A frame whose width or value does not fit its command is no report and changes nothing,
/// and neither does one under a command that no report has.
pub proof fn misfit_is_no_report(evidence: RNodeProtocolEvidence, command: u8, frame: Seq<u8>)
    requires
        ({
            ||| frame.len() == 0
            ||| frame.len() == 3
            ||| frame.len() > 4
            ||| frame.len() == 2 && command != 0x50
            ||| frame.len() == 4 && command != 0x01 && command != 0x02
            ||| frame.len() == 1 && !(command == 0x03 || command == 0x04 || command == 0x05)
                && !((command == 0x06 || command == 0x0F) && frame[0] <= 1) && !(command == 0x08
                && frame[0] == 0x46) && !(command == 0x90 && frame[0] == 0x01) && !(command == 0x55
                && frame[0] == 0xF8)
        }),
    ensures
        RNodeProtocolFrame::meaning(command, frame) is None,
        evidence_after_frame(evidence, command, frame) == evidence,
{
}

/// A generation that has reported nothing has reported none of the items.
pub proof fn nothing_is_reported_at_first(target: RNodeProtocolTarget)
    ensures
        !no_evidence().detected,
        no_evidence().firmware is None && no_evidence().frequency is None,
        no_evidence().bandwidth is None && no_evidence().spreading_factor is None,
        no_evidence().coding_rate is None && no_evidence().tx_power is None,
        no_evidence().radio_state is None && no_evidence().flow_permitted is None,
        !no_evidence().radio_initialisation_fault,
        first_blocker(no_evidence(), target) == Some(
            RNodeReadinessBlocker::Missing(RNodeReadinessEvidence::Detection),
        ),
{
}

/// The blocker that is named stands in the way: what is missing was not reported, what is
/// mismatched was reported otherwise than the target wants it.
pub proof fn blocker_is_what_stands_in_the_way(
    evidence: RNodeProtocolEvidence,
    target: RNodeProtocolTarget,
)
    ensures
        evidence.radio_initialisation_fault <==> first_blocker(evidence, target) == Some(
            RNodeReadinessBlocker::RadioInitialisationFault,
        ),
        match first_blocker(evidence, target) {
            Some(RNodeReadinessBlocker::Missing(item)) => match item {
                RNodeReadinessEvidence::Detection => !evidence.detected,
                RNodeReadinessEvidence::Firmware => evidence.firmware is None,
                RNodeReadinessEvidence::Frequency => evidence.frequency is None,
                RNodeReadinessEvidence::Bandwidth => evidence.bandwidth is None,
                RNodeReadinessEvidence::SpreadingFactor => evidence.spreading_factor is None,
                RNodeReadinessEvidence::CodingRate => evidence.coding_rate is None,
                RNodeReadinessEvidence::TxPower => evidence.tx_power is None,
                RNodeReadinessEvidence::RadioState => evidence.radio_state is None,
            },
            Some(RNodeReadinessBlocker::Mismatched(item)) => match item {
                RNodeReadinessEvidence::Detection => false,
                RNodeReadinessEvidence::Firmware => evidence.firmware is Some && (
                evidence.firmware->0.major < 1 || (evidence.firmware->0.major == 1
                    && evidence.firmware->0.minor < 52)),
                RNodeReadinessEvidence::Frequency => evidence.frequency is Some && !(-100
                    <= evidence.frequency->0 - target.frequency <= 100),
                RNodeReadinessEvidence::Bandwidth => evidence.bandwidth is Some
                    && evidence.bandwidth->0 != target.bandwidth,
                RNodeReadinessEvidence::SpreadingFactor => evidence.spreading_factor is Some
                    && evidence.spreading_factor->0 != target.spreading_factor,
                RNodeReadinessEvidence::CodingRate => evidence.coding_rate is Some
                    && evidence.coding_rate->0 != target.coding_rate,
                RNodeReadinessEvidence::TxPower => evidence.tx_power is Some
                    && evidence.tx_power->0 != target.tx_power,
                RNodeReadinessEvidence::RadioState => evidence.radio_state == Some(false),
            },
            _ => true,
        },
{
}

/// The place of an item in the order in which items are looked at.
pub open spec fn item_order(item: RNodeReadinessEvidence) -> int {
    match item {
        RNodeReadinessEvidence::Detection => 0,
        RNodeReadinessEvidence::Firmware => 1,
        RNodeReadinessEvidence::Frequency => 2,
        RNodeReadinessEvidence::Bandwidth => 3,
        RNodeReadinessEvidence::SpreadingFactor => 4,
        RNodeReadinessEvidence::CodingRate => 5,
        RNodeReadinessEvidence::TxPower => 6,
        RNodeReadinessEvidence::RadioState => 7,
    }
}

/// Of several items that stand in the way the first is named: detection, firmware, frequency,
/// bandwidth, spreading factor, coding rate, power, radio state.
pub proof fn first_blocker_is_named(
    evidence: RNodeProtocolEvidence,
    target: RNodeProtocolTarget,
    item: RNodeReadinessEvidence,
)
    requires
        first_blocker(evidence, target) == Some(RNodeReadinessBlocker::Missing(item))
            || first_blocker(evidence, target) == Some(RNodeReadinessBlocker::Mismatched(item)),
    ensures
        !evidence.radio_initialisation_fault,
        item_order(item) > 0 ==> evidence.detected,
        item_order(item) > 1 ==> evidence.firmware is Some && (evidence.firmware->0.major > 1 || (
        evidence.firmware->0.major == 1 && evidence.firmware->0.minor >= 52)),
        item_order(item) > 2 ==> evidence.frequency is Some && -100 <= evidence.frequency->0
            - target.frequency <= 100,
        item_order(item) > 3 ==> evidence.bandwidth == Some(target.bandwidth),
        item_order(item) > 4 ==> evidence.spreading_factor == Some(target.spreading_factor),
        item_order(item) > 5 ==> evidence.coding_rate == Some(target.coding_rate),
        item_order(item) > 6 ==> evidence.tx_power == Some(target.tx_power),
{
}

/// A device is ready exactly if it was detected, its firmware is new enough, every setting
/// was reported as the target wants it, the frequency to within a hundred hertz, the radio
/// was reported to be on, and it reported no fault.
pub proof fn ready_device_has_reported_everything(state: RNodeProtocolState)
    ensures
        ({
            let evidence = state.spec_evidence();
            let target = state.spec_target();
            state.is_ready() <==> {
                &&& !evidence.radio_initialisation_fault
                &&& evidence.detected
                &&& evidence.firmware is Some
                &&& evidence.firmware->0.major > 1 || (evidence.firmware->0.major == 1
                    && evidence.firmware->0.minor >= 52)
                &&& evidence.frequency is Some
                &&& -100 <= evidence.frequency->0 - target.frequency <= 100
                &&& evidence.bandwidth == Some(target.bandwidth)
                &&& evidence.spreading_factor == Some(target.spreading_factor)
                &&& evidence.coding_rate == Some(target.coding_rate)
                &&& evidence.tx_power == Some(target.tx_power)
                &&& evidence.radio_state == Some(true)
            }
        }),
{
}

/// What is told of a frame is what it did: a reset for the reset announcement alone, a change
/// where something is known that was not, and no change otherwise.
pub proof fn effect_is_what_a_frame_did(state: RNodeProtocolState, command: u8, frame: Seq<u8>)
    ensures
        effect_of(state, command, frame) is DeviceReset <==> command == 0x55 && frame == seq![
            0xF8u8,
        ],
        effect_of(state, command, frame) is NoChange ==> state.after(command, frame) == state,
        effect_of(state, command, frame) is Changed ==> state.after(command, frame) != state,
        observation_of(state, command, frame).state == state.after(command, frame),
        observation_of(state, command, frame).effect == effect_of(state, command, frame),
        reason_for(effect_of(state, command, frame)) is Some <==> command == 0x55 && frame == seq![
            0xF8u8,
        ],
        reason_for(RNodeProtocolEffect::DeviceReset) == Some(RNodeRuntimeReason::DeviceReset),
{
    if frame.len() == 1 {
        assert(frame =~= seq![frame[0]]);
    }
}

} // verus!
