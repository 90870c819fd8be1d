//! An admitted connection generation: which packets reach the transport, which
//! reach the radio, and what ends the generation.
use vstd::prelude::*;
use bytes::Bytes;
use crate::ble_rnode::config::StationBeacon;
use crate::ble_rnode::generation::PendingOutbound;
use crate::ble_rnode::startup::{
    acknowledged_count, native_bridge_acknowledged_data_frames, RNODE_NATIVE_BRIDGE_ACK_COMMAND,
    RNODE_NATIVE_BRIDGE_ACK_TIMEOUT,
};
use crate::interface::InterfaceId;
use crate::kiss::{
    self, assemble_all, framed, frames_in, frames_view, Assembly, Frame, RawKissDeframer, CMD_DATA,
};
use crate::payload::{buffer_clone, contents};
use crate::rnode::{
    flow_permission, process_rnode_response, rssi_after, snr_after, InboundPacket, RNodeResponse,
};
use crate::rnode_protocol::{
    observation_of, RNodeObservation, RNodeProtocolState, RNodeReadiness,
};

verus! {

/// A claim to send one packet succeeds.
pub open spec fn claim_succeeds(flow_control: bool, permit: bool) -> bool {
    !flow_control || permit
}

/// The permission that a claim leaves.
pub open spec fn permit_left(flow_control: bool, permit: bool) -> bool {
    if flow_control {
        false
    } else {
        permit
    }
}

/// Claims the permission to send one packet. With flow control a positive report
/// of the device permits one packet and the claim uses it up; without it every
/// claim succeeds.
pub fn claim_ble_packet_permit(flow_control: bool, ready: &mut bool) -> (claimed: bool)
    ensures
        claimed == claim_succeeds(flow_control, *old(ready)),
        *final(ready) == permit_left(flow_control, *old(ready)),
{
    if flow_control {
        let permitted = *ready;
        *ready = false;
        permitted
    } else {
        true
    }
}

/// Whether packets of a generation are let through. Once they are, later evidence
/// cannot turn the active session back into startup; a new generation starts anew.
#[derive(Clone, Copy, Debug, PartialEq, Eq, Structural)]
pub struct ActiveBlePacketAdmission {
    admitted: bool,
}

impl ActiveBlePacketAdmission {
    /// Packets are let through.
    pub closed spec fn is_admitted(self) -> bool {
        self.admitted
    }

    /// The admission of a new generation: a strict one waits for readiness.
    pub fn for_startup_policy(strict: bool) -> (admission: Self)
        ensures
            admission.is_admitted() == !strict,
    {
        ActiveBlePacketAdmission { admitted: !strict }
    }

    /// Readiness admits packets, and nothing takes that back.
    pub fn observe_readiness(&mut self, readiness: RNodeReadiness)
        ensures
            final(self).is_admitted() == (old(self).is_admitted() || readiness is Ready),
    {
        match readiness {
            RNodeReadiness::Ready => {
                self.admitted = true;
            },
            _ => {},
        }
    }

    /// Tells whether packets are let through.
    pub fn allows_packet(self) -> (allowed: bool)
        ensures
            allowed == self.is_admitted(),
    {
        self.admitted
    }
}

/// What one frame of an active session comes to.
#[derive(Clone, Copy, Debug, PartialEq, Eq, Structural)]
pub struct ActiveFrame {
    /// A packet in it is let through.
    pub allowed: bool,
    pub observation: RNodeObservation,
}

/// Takes one frame of an active session into account. Says whether a packet in it
/// is let through, and what is to be told of it.
pub fn observe_active_ble_rnode_frame(
    protocol_state: &mut RNodeProtocolState,
    packet_admission: &mut ActiveBlePacketAdmission,
    command: u8,
    frame: &[u8],
) -> (active: ActiveFrame)
    ensures
        *final(protocol_state) == old(protocol_state).after(command, frame@),
        final(packet_admission).is_admitted() == (old(packet_admission).is_admitted() || final(
            protocol_state).is_ready()),
        active.allowed == final(packet_admission).is_admitted(),
        active.observation == observation_of(*old(protocol_state), command, frame@),
{
    let observation = project_ble_rnode_frame(protocol_state, command, frame);
    packet_admission.observe_readiness(protocol_state.readiness());
    ActiveFrame { allowed: packet_admission.allows_packet(), observation }
}

/// Takes one frame of an active session into account. Says whether a packet in it
/// is let through.
pub fn project_active_ble_rnode_frame(
    protocol_state: &mut RNodeProtocolState,
    packet_admission: &mut ActiveBlePacketAdmission,
    command: u8,
    frame: &[u8],
) -> (allowed: bool)
    ensures
        *final(protocol_state) == old(protocol_state).after(command, frame@),
        final(packet_admission).is_admitted() == (old(packet_admission).is_admitted() || final(
            protocol_state).is_ready()),
        allowed == final(packet_admission).is_admitted(),
{
    observe_active_ble_rnode_frame(protocol_state, packet_admission, command, frame).allowed
}

/// Takes one frame into account as evidence. Says what is to be told of it.
pub fn project_ble_rnode_frame(
    protocol_state: &mut RNodeProtocolState,
    command: u8,
    frame: &[u8],
) -> (observation: RNodeObservation)
    ensures
        *final(protocol_state) == old(protocol_state).after(command, frame@),
        observation == observation_of(*old(protocol_state), command, frame@),
{
    let effect = protocol_state.apply_frame(command, frame);
    RNodeObservation { state: *protocol_state, effect }
}

/// What the receiving side of a generation remembers.
pub ghost struct Reception {
    pub assembly: Assembly,
    pub protocol: RNodeProtocolState,
    pub admitted: bool,
    pub rssi: Option<i16>,
    pub snr: Option<i16>,
    /// The device permits a packet.
    pub permit: bool,
}

/// A packet as it is handed to the transport.
pub ghost struct Delivery {
    pub raw: Seq<u8>,
    pub interface_id: InterfaceId,
    pub rssi: Option<i16>,
    pub snr: Option<i16>,
}

/// What the receiving side remembers after one frame.
pub open spec fn reception_after(reception: Reception, frame: Frame) -> Reception {
    let protocol = reception.protocol.after(frame.0, frame.1);
    Reception {
        protocol,
        admitted: reception.admitted || protocol.is_ready(),
        rssi: rssi_after(frame.0, frame.1, reception.rssi),
        snr: snr_after(frame.0, frame.1, reception.snr),
        permit: match flow_permission(frame.0, frame.1) {
            Some(permitted) => permitted,
            None => reception.permit,
        },
        ..reception
    }
}

/// The packet that one frame delivers, if any: it is not empty, and packets are let
/// through.
pub open spec fn delivery_of(
    reception: Reception,
    interface_id: InterfaceId,
    frame: Frame,
) -> Option<Delivery> {
    if frame.0 == CMD_DATA && frame.1.len() > 0 && reception_after(reception, frame).admitted {
        Some(
            Delivery {
                raw: frame.1,
                interface_id,
                rssi: reception.rssi,
                snr: reception.snr,
            },
        )
    } else {
        None
    }
}

/// What the receiving side remembers after a run of frames.
pub open spec fn reception_after_all(reception: Reception, frames: Seq<Frame>) -> Reception
    decreases frames.len(),
{
    if frames.len() == 0 {
        reception
    } else {
        reception_after(reception_after_all(reception, frames.drop_last()), frames.last())
    }
}

/// The packet behind an executable one.
pub open spec fn packet_view(packet: InboundPacket) -> Delivery {
    Delivery {
        raw: packet.raw@,
        interface_id: packet.interface_id,
        rssi: packet.rssi,
        snr: packet.snr,
    }
}

/// What one frame of a generation comes to: the packet that it delivers, if any, and what
/// is to be told of it before that.
#[derive(Clone, Debug, PartialEq, Eq)]
pub struct ReceivedFrame {
    pub packet: Option<InboundPacket>,
    pub observation: RNodeObservation,
}

/// `received` is what a frame comes to on a receiving side.
pub open spec fn receives(
    received: ReceivedFrame,
    reception: Reception,
    interface_id: InterfaceId,
    frame: Frame,
) -> bool {
    &&& received.observation == observation_of(reception.protocol, frame.0, frame.1)
    &&& match received.packet {
        Some(packet) => delivery_of(reception, interface_id, frame) == Some(packet_view(packet)),
        None => delivery_of(reception, interface_id, frame) is None,
    }
}

/// `received` is what a run of frames comes to, frame by frame.
pub open spec fn receives_all(
    received: Seq<ReceivedFrame>,
    reception: Reception,
    interface_id: InterfaceId,
    frames: Seq<Frame>,
) -> bool {
    &&& received.len() == frames.len()
    &&& forall|i: int|
        0 <= i < frames.len() ==> receives(
            #[trigger] received[i],
            reception_after_all(reception, frames.subrange(0, i)),
            interface_id,
            frames[i],
        )
}

/// The receiving side of an active generation.
#[derive(Debug)]
pub struct ActiveReceiver {
    interface_id: InterfaceId,
    deframer: RawKissDeframer,
    protocol: RNodeProtocolState,
    admission: ActiveBlePacketAdmission,
    last_rssi: Option<i16>,
    last_snr: Option<i16>,
    permit: bool,
}

impl View for ActiveReceiver {
    type V = Reception;

    closed spec fn view(&self) -> Reception {
        Reception {
            assembly: self.deframer@,
            protocol: self.protocol,
            admitted: self.admission.is_admitted(),
            rssi: self.last_rssi,
            snr: self.last_snr,
            permit: self.permit,
        }
    }
}

impl ActiveReceiver {
    /// The interface that packets are delivered for.
    pub closed spec fn interface(self) -> InterfaceId {
        self.interface_id
    }

    /// The receiving side of a generation that has just become ready. The device
    /// permits one packet from the start.
    pub fn new(
        interface_id: InterfaceId,
        deframer: RawKissDeframer,
        protocol: RNodeProtocolState,
        strict: bool,
    ) -> (receiver: Self)
        ensures
            receiver.interface() == interface_id,
            receiver@ == (Reception {
                assembly: deframer@,
                protocol,
                admitted: !strict || protocol.is_ready(),
                rssi: None,
                snr: None,
                permit: true,
            }),
    {
        let mut admission = ActiveBlePacketAdmission::for_startup_policy(strict);
        admission.observe_readiness(protocol.readiness());
        ActiveReceiver {
            interface_id,
            deframer,
            protocol,
            admission,
            last_rssi: None,
            last_snr: None,
            permit: true,
        }
    }

    /// What the generation has reported.
    pub fn protocol(&self) -> (protocol: &RNodeProtocolState)
        ensures
            *protocol == self@.protocol,
    {
        &self.protocol
    }

    /// Takes one frame into account.
    pub fn frame(&mut self, command: u8, frame: &[u8]) -> (received: ReceivedFrame)
        ensures
            final(self).interface() == old(self).interface(),
            final(self)@ == reception_after(old(self)@, (command, frame@)),
            receives(received, old(self)@, old(self).interface(), (command, frame@)),
    {
        let active = observe_active_ble_rnode_frame(
            &mut self.protocol,
            &mut self.admission,
            command,
            frame,
        );
        let packet = match process_rnode_response(
            command,
            frame,
            self.interface_id,
            &mut self.last_rssi,
            &mut self.last_snr,
        ) {
            RNodeResponse::Packet(packet) => if active.allowed {
                Some(packet)
            } else {
                None
            },
            RNodeResponse::Ready(permitted) => {
                self.permit = permitted;
                None
            },
            RNodeResponse::Ignored => None,
        };
        ReceivedFrame { packet, observation: active.observation }
    }

    /// Takes a run of frames into account, one by one.
    pub fn frames(&mut self, frames: &Vec<(u8, Vec<u8>)>) -> (received: Vec<ReceivedFrame>)
        ensures
            final(self).interface() == old(self).interface(),
            final(self)@ == reception_after_all(old(self)@, frames_view(frames@)),
            receives_all(received@, old(self)@, old(self).interface(), frames_view(frames@)),
    {
        let ghost all = frames_view(frames@);
        let mut received: Vec<ReceivedFrame> = Vec::new();
        let mut index: usize = 0;
        assert(all.subrange(0, 0) =~= Seq::<Frame>::empty());
        while index < frames.len()
            invariant
                index <= frames@.len(),
                all == frames_view(frames@),
                self.interface() == old(self).interface(),
                self@ == reception_after_all(old(self)@, all.subrange(0, index as int)),
                received@.len() == index,
                forall|i: int|
                    0 <= i < index ==> receives(
                        #[trigger] received@[i],
                        reception_after_all(old(self)@, all.subrange(0, i)),
                        old(self).interface(),
                        all[i],
                    ),
            decreases frames@.len() - index,
        {
            let ghost grown = all.subrange(0, index + 1);
            assert(grown.drop_last() =~= all.subrange(0, index as int));
            assert(grown.last() == (frames@[index as int].0, frames@[index as int].1@));
            received.push(self.frame(frames[index].0, frames[index].1.as_slice()));
            index = index + 1;
        }
        assert(all.subrange(0, index as int) =~= all);
        received
    }

    /// Takes one notification into account, frame by frame.
    pub fn notification(&mut self, bytes: &[u8]) -> (received: Vec<ReceivedFrame>)
        ensures
            final(self).interface() == old(self).interface(),
            ({
                let frames = frames_in(old(self)@.assembly, bytes@);
                let assembled = Reception {
                    assembly: assemble_all(old(self)@.assembly, bytes@),
                    ..old(self)@
                };
                &&& final(self)@ == reception_after_all(assembled, frames)
                &&& receives_all(received@, assembled, old(self).interface(), frames)
            }),
    {
        let frames = self.deframer.feed(bytes);
        self.frames(&frames)
    }

    /// Completes the frames that one read ends, without interpreting them.
    pub fn deframe(&mut self, bytes: &[u8]) -> (frames: Vec<(u8, Vec<u8>)>)
        ensures
            final(self).interface() == old(self).interface(),
            final(self)@ == (Reception {
                assembly: assemble_all(old(self)@.assembly, bytes@),
                ..old(self)@
            }),
            frames_view(frames@) == frames_in(old(self)@.assembly, bytes@),
    {
        self.deframer.feed(bytes)
    }

    /// Claims the permission to send one packet.
    pub fn claim_permit(&mut self, flow_control: bool) -> (claimed: bool)
        ensures
            final(self).interface() == old(self).interface(),
            claimed == claim_succeeds(flow_control, old(self)@.permit),
            final(self)@ == (Reception {
                permit: permit_left(flow_control, old(self)@.permit),
                ..old(self)@
            }),
    {
        claim_ble_packet_permit(flow_control, &mut self.permit)
    }
}

/// Packets that come before a strict generation is ready are not delivered, and
/// those that come after it was ready once are, whatever evidence came in between.
pub proof fn admission_latches(
    reception: Reception,
    id: InterfaceId,
    frames: Seq<Frame>,
    packet: Frame,
)
    requires
        packet.0 == CMD_DATA,
        packet.1.len() > 0,
    ensures
        ({
            let after = reception_after_all(reception, frames);
            &&& reception.admitted ==> after.admitted
            &&& delivery_of(after, id, packet) is Some <==> after.admitted
                || after.protocol.is_ready()
            &&& delivery_of(after, id, packet) is Some ==> reception_after(after, packet).admitted
        }),
    decreases frames.len(),
{
    let after = reception_after_all(reception, frames);
    after.protocol.data_is_no_evidence(packet.1);
    if frames.len() > 0 {
        admission_latches(reception, id, frames.drop_last(), packet);
    }
}

/// A packet that waits for its acknowledgement by a native bridge.
#[derive(Debug)]
pub struct NativePendingOutbound {
    pub outbound: PendingOutbound,
    /// The count that will acknowledge it, once it is written.
    pub expected_ack: Option<u64>,
    /// When it was written.
    pub sent_at: Option<u128>,
}

impl NativePendingOutbound {
    /// A packet that has not been written.
    pub fn new(outbound: PendingOutbound) -> (pending: Self)
        ensures
            pending.outbound == outbound,
            pending.expected_ack is None,
            pending.sent_at is None,
    {
        NativePendingOutbound { outbound, expected_ack: None, sent_at: None }
    }

    /// Forgets what an ended generation did with the packet; the packet stays.
    pub fn reset_for_generation(&mut self)
        ensures
            final(self).outbound == old(self).outbound,
            final(self).expected_ack is None,
            final(self).sent_at is None,
    {
        self.expected_ack = None;
        self.sent_at = None;
    }

    /// The acknowledgement is overdue.
    pub open spec fn overdue(self, now: u128) -> bool {
        self.sent_at is Some && now - self.sent_at->0 >= RNODE_NATIVE_BRIDGE_ACK_TIMEOUT
    }

    /// Tells whether the acknowledgement is overdue.
    pub fn acknowledgement_timed_out(&self, now: u128) -> (overdue: bool)
        ensures
            overdue == self.overdue(now),
    {
        match self.sent_at {
            Some(sent_at) => now >= sent_at && now - sent_at >= RNODE_NATIVE_BRIDGE_ACK_TIMEOUT,
            None => false,
        }
    }
}

/// The packet that waits on the sending side.
pub ghost struct Waiting {
    pub bytes: Seq<u8>,
    pub beacon: bool,
    pub expected_ack: Option<u64>,
    pub sent_at: Option<u128>,
}

/// What the sending side remembers.
pub ghost struct Transmission {
    pub waiting: Option<Waiting>,
    /// When the first packet since the last identification was sent.
    pub first_tx: Option<u128>,
    /// How many packets of this connection the bridge has acknowledged.
    pub acknowledged: u64,
}

/// The sending side of a driver. A packet that waits outlives the generation in
/// which its transmission failed.
#[derive(Debug)]
pub struct BleOutbound {
    pending: Option<NativePendingOutbound>,
    first_tx: Option<u128>,
    acknowledged: u64,
    flow_control: bool,
    beacon: Option<StationBeacon>,
}

/// What an acknowledgement means.
#[derive(Clone, Copy, Debug, PartialEq, Eq, Structural)]
pub enum AckOutcome {
    /// Counted before; nothing changes.
    Duplicate,
    /// The waiting packet of this many bytes is through.
    Completed { bytes: u64 },
    /// The bridge and the driver disagree; the generation ends.
    OutOfSequence,
}

/// The time of the first packet since the last identification, after one more
/// packet was sent at `now`.
pub open spec fn first_tx_after(first_tx: Option<u128>, beacon: bool, now: u128) -> Option<u128> {
    if beacon {
        None
    } else if first_tx is None {
        Some(now)
    } else {
        first_tx
    }
}

/// The sending side after the waiting packet went through at `now`.
pub open spec fn transmission_completed(before: Transmission, now: u128) -> Transmission {
    Transmission {
        waiting: None,
        first_tx: first_tx_after(before.first_tx, before.waiting->0.beacon, now),
        ..before
    }
}

/// What an acknowledgement of `count` packets means: a count that was seen before is
/// a repetition, and anything but the next count, expected, is out of sequence.
pub open spec fn ack_meaning(before: Transmission, count: u64) -> AckOutcome {
    if count <= before.acknowledged {
        AckOutcome::Duplicate
    } else if before.waiting is Some && before.waiting->0.expected_ack == Some(count) && count
        == before.acknowledged + 1 {
        AckOutcome::Completed { bytes: before.waiting->0.bytes.len() as u64 }
    } else {
        AckOutcome::OutOfSequence
    }
}

/// The sending side after an acknowledgement at `now`.
pub open spec fn transmission_after_ack(before: Transmission, count: u64, now: u128) -> Transmission {
    if ack_meaning(before, count) is Completed {
        Transmission { acknowledged: count, ..transmission_completed(before, now) }
    } else {
        before
    }
}

/// The waiting packet may be written: it has not been written in this generation.
pub open spec fn may_write(before: Transmission) -> bool {
    before.waiting is Some && before.waiting->0.expected_ack is None
}

/// The waiting packet is written now.
pub open spec fn writes_now(before: Transmission, flow_control: bool, permit: bool) -> bool {
    may_write(before) && claim_succeeds(flow_control, permit)
}

/// What is written of the waiting packet.
pub open spec fn packet_on_the_wire(before: Transmission) -> Seq<u8> {
    framed(CMD_DATA, before.waiting->0.bytes)
}

/// The sending side after it took a packet that is `beacon` or not.
pub open spec fn transmission_with(before: Transmission, bytes: Seq<u8>, beacon: bool) -> Transmission {
    Transmission {
        waiting: Some(Waiting { bytes, beacon, expected_ack: None, sent_at: None }),
        ..before
    }
}

/// Another packet can be taken.
pub open spec fn takes_packet(before: Transmission) -> bool {
    before.waiting is None
}

/// The sending side after a packet was offered to it.
pub open spec fn transmission_after_offer(before: Transmission, bytes: Seq<u8>) -> Transmission {
    if takes_packet(before) {
        transmission_with(before, bytes, false)
    } else {
        before
    }
}

/// How many bytes wait.
pub open spec fn waiting_bytes(before: Transmission) -> nat {
    match before.waiting {
        Some(waiting) => waiting.bytes.len(),
        None => 0,
    }
}

/// The sending side after the waiting packet was written to a bridge at `now`.
pub open spec fn transmission_after_write(before: Transmission, now: u128) -> Transmission {
    Transmission {
        waiting: Some(
            Waiting {
                expected_ack: Some(
                    if before.acknowledged < u64::MAX {
                        (before.acknowledged + 1) as u64
                    } else {
                        u64::MAX
                    },
                ),
                sent_at: Some(now),
                ..before.waiting->0
            },
        ),
        ..before
    }
}

/// The sending side at the start of a generation.
pub open spec fn transmission_of_new_generation(before: Transmission) -> Transmission {
    Transmission {
        waiting: match before.waiting {
            Some(waiting) => Some(Waiting { expected_ack: None, sent_at: None, ..waiting }),
            None => None,
        },
        acknowledged: 0,
        ..before
    }
}

/// The station's identification is due: a packet was sent at least its interval ago, and
/// nothing waits.
pub open spec fn identification_is_due(
    before: Transmission,
    station: Option<StationBeacon>,
    now: u128,
) -> bool {
    &&& before.waiting is None
    &&& station is Some
    &&& before.first_tx is Some
    &&& now >= before.first_tx->0
    &&& now - before.first_tx->0 >= station->0.interval
}

/// The bridge has left the waiting packet unacknowledged for too long.
pub open spec fn acknowledgement_overdue(before: Transmission, now: u128) -> bool {
    before.waiting is Some && before.waiting->0.sent_at is Some && now
        - before.waiting->0.sent_at->0 >= RNODE_NATIVE_BRIDGE_ACK_TIMEOUT
}

/// The exit of a native generation that a regular look finds.
pub open spec fn poll_exit(before: Transmission, now: u128) -> Option<ActiveExit> {
    if acknowledgement_overdue(before, now) {
        Some(ActiveExit::BridgeAckTimedOut)
    } else {
        None
    }
}

/// The sending side after a regular look.
pub open spec fn transmission_after_poll(
    before: Transmission,
    station: Option<StationBeacon>,
    now: u128,
) -> Transmission {
    if !acknowledgement_overdue(before, now) && identification_is_due(before, station, now) {
        transmission_with(before, contents(station->0.callsign), true)
    } else {
        before
    }
}

impl View for BleOutbound {
    type V = Transmission;

    closed spec fn view(&self) -> Transmission {
        Transmission {
            waiting: match self.pending {
                Some(pending) => Some(
                    Waiting {
                        bytes: pending.outbound.bytes(),
                        beacon: pending.outbound.is_beacon(),
                        expected_ack: pending.expected_ack,
                        sent_at: pending.sent_at,
                    },
                ),
                None => None,
            },
            first_tx: self.first_tx,
            acknowledged: self.acknowledged,
        }
    }
}

impl BleOutbound {
    /// The device grants each packet.
    pub closed spec fn controls_flow(self) -> bool {
        self.flow_control
    }

    /// The station's identification.
    pub closed spec fn station(self) -> Option<StationBeacon> {
        self.beacon
    }

    /// The station's identification is due: a packet was sent at least its interval
    /// ago, and nothing waits.
    pub open spec fn beacon_due(self, now: u128) -> bool {
        identification_is_due(self@, self.station(), now)
    }

    /// A sending side with nothing to send.
    pub fn new(flow_control: bool, beacon: Option<StationBeacon>) -> (outbound: Self)
        ensures
            outbound@ == (Transmission { waiting: None, first_tx: None, acknowledged: 0 }),
            outbound.controls_flow() == flow_control,
            outbound.station() == beacon,
    {
        BleOutbound { pending: None, first_tx: None, acknowledged: 0, flow_control, beacon }
    }

    /// Tells whether another packet can be taken from the transport.
    pub fn wants_packet(&self) -> (wants: bool)
        ensures
            wants == takes_packet(self@),
    {
        self.pending.is_none()
    }

    /// Takes a packet from the transport. While another one waits it is handed back.
    pub fn accept(&mut self, data: Bytes) -> (refused: Option<Bytes>)
        ensures
            final(self).controls_flow() == old(self).controls_flow(),
            final(self).station() == old(self).station(),
            refused == (if takes_packet(old(self)@) {
                None
            } else {
                Some(data)
            }),
            final(self)@ == transmission_after_offer(old(self)@, contents(data)),
    {
        if self.pending.is_some() {
            return Some(data);
        }
        self.pending = Some(NativePendingOutbound::new(PendingOutbound::new(data, false)));
        None
    }

    /// Tells whether the bridge has left the waiting packet unacknowledged for too
    /// long.
    pub fn acknowledgement_timed_out(&self, now: u128) -> (overdue: bool)
        ensures
            overdue == acknowledgement_overdue(self@, now),
    {
        match &self.pending {
            Some(pending) => pending.acknowledgement_timed_out(now),
            None => false,
        }
    }

    /// Lets the station's identification wait, if it is due.
    pub fn poll_beacon(&mut self, now: u128) -> (scheduled: bool)
        ensures
            final(self).controls_flow() == old(self).controls_flow(),
            final(self).station() == old(self).station(),
            scheduled == old(self).beacon_due(now),
            !scheduled ==> final(self)@ == old(self)@,
            scheduled ==> final(self)@ == transmission_with(
                old(self)@,
                contents(old(self).station()->0.callsign),
                true,
            ),
    {
        if self.pending.is_some() {
            return false;
        }
        match &self.beacon {
            Some(beacon) => match self.first_tx {
                Some(first) => if now >= first && now - first >= beacon.interval {
                    let callsign = buffer_clone(&beacon.callsign);
                    self.pending = Some(
                        NativePendingOutbound::new(PendingOutbound::new(callsign, true)),
                    );
                    true
                } else {
                    false
                },
                None => false,
            },
            None => false,
        }
    }

    /// The frame to write now, if a packet waits that has not been written in this
    /// generation and the device permits it. The permission is used up.
    pub fn next_write(&mut self, receiver: &mut ActiveReceiver) -> (wire: Option<Vec<u8>>)
        ensures
            final(self)@ == old(self)@,
            final(self).controls_flow() == old(self).controls_flow(),
            final(self).station() == old(self).station(),
            final(receiver).interface() == old(receiver).interface(),
            wire is Some <==> writes_now(
                old(self)@,
                old(self).controls_flow(),
                old(receiver)@.permit,
            ),
            wire is Some ==> wire->0@ == packet_on_the_wire(old(self)@),
            !may_write(old(self)@) ==> final(receiver)@ == old(receiver)@,
            may_write(old(self)@) ==> final(receiver)@ == (Reception {
                permit: permit_left(old(self).controls_flow(), old(receiver)@.permit),
                ..old(receiver)@
            }),
    {
        match &self.pending {
            Some(pending) => {
                if pending.expected_ack.is_some() {
                    return None;
                }
                if receiver.claim_permit(self.flow_control) {
                    Some(kiss::frame(pending.outbound.as_slice()))
                } else {
                    None
                }
            },
            None => None,
        }
    }

    /// Records that the waiting packet went through at `now`. Returns its bytes, to be
    /// counted as sent.
    pub fn completed(&mut self, now: u128) -> (bytes: u64)
        ensures
            final(self).controls_flow() == old(self).controls_flow(),
            final(self).station() == old(self).station(),
            bytes == waiting_bytes(old(self)@),
            old(self)@.waiting is Some ==> final(self)@ == transmission_completed(old(self)@, now),
            old(self)@.waiting is None ==> final(self)@ == old(self)@,
    {
        match self.pending.take() {
            Some(pending) => {
                let bytes: u64 = pending.outbound.as_slice().len() as u64;
                if pending.outbound.is_station_id() {
                    self.first_tx = None;
                } else if self.first_tx.is_none() {
                    self.first_tx = Some(now);
                }
                bytes
            },
            None => 0,
        }
    }

    /// Records that the waiting packet was written to a bridge, which has yet to
    /// acknowledge it.
    pub fn written(&mut self, now: u128)
        ensures
            final(self).controls_flow() == old(self).controls_flow(),
            final(self).station() == old(self).station(),
            old(self)@.waiting is Some ==> final(self)@ == transmission_after_write(
                old(self)@,
                now,
            ),
            old(self)@.waiting is None ==> final(self)@ == old(self)@,
    {
        let expected: u64 = self.acknowledged.saturating_add(1);
        match self.pending.take() {
            Some(pending) => {
                self.pending = Some(
                    NativePendingOutbound {
                        outbound: pending.outbound,
                        expected_ack: Some(expected),
                        sent_at: Some(now),
                    },
                );
            },
            None => {},
        }
    }

    /// Takes an acknowledgement by the bridge into account.
    pub fn acknowledge(&mut self, count: u64, now: u128) -> (outcome: AckOutcome)
        ensures
            final(self).controls_flow() == old(self).controls_flow(),
            final(self).station() == old(self).station(),
            outcome == ack_meaning(old(self)@, count),
            final(self)@ == transmission_after_ack(old(self)@, count, now),
    {
        if count <= self.acknowledged {
            return AckOutcome::Duplicate;
        }
        let expected = match &self.pending {
            Some(pending) => pending.expected_ack,
            None => None,
        };
        let matches_expected = match expected {
            Some(expected) => expected == count,
            None => false,
        };
        if !matches_expected || count != self.acknowledged.saturating_add(1) {
            return AckOutcome::OutOfSequence;
        }
        let bytes: u64 = self.completed(now);
        self.acknowledged = count;
        AckOutcome::Completed { bytes }
    }

    /// Begins a generation: what an earlier one wrote without acknowledgement is to be
    /// written again, and counts start anew.
    pub fn begin_generation(&mut self)
        ensures
            final(self).controls_flow() == old(self).controls_flow(),
            final(self).station() == old(self).station(),
            final(self)@ == transmission_of_new_generation(old(self)@),
    {
        self.acknowledged = 0;
        match self.pending.take() {
            Some(pending) => {
                self.pending = Some(NativePendingOutbound::new(pending.outbound));
            },
            None => {},
        }
    }
}

/// A packet that was written but not acknowledged is kept, uncounted, and written
/// again in full by the next generation; within its own generation it is not
/// written twice.
pub proof fn unacknowledged_packet_is_retried(before: Transmission, now: u128)
    requires
        may_write(before),
    ensures
        !may_write(transmission_after_write(before, now)),
        may_write(transmission_of_new_generation(transmission_after_write(before, now))),
        transmission_of_new_generation(
            transmission_after_write(before, now),
        ).waiting->0.bytes == before.waiting->0.bytes,
{
}

/// An acknowledgement that completes a packet is a repetition the next time, so that
/// no packet is counted twice and a later one is not released by it.
pub proof fn acknowledgement_counts_once(
    before: Transmission,
    count: u64,
    now: u128,
    later: u64,
)
    requires
        ack_meaning(before, count) is Completed,
        later <= count,
    ensures
        ack_meaning(transmission_after_ack(before, count, now), later) is Duplicate,
        transmission_after_ack(transmission_after_ack(before, count, now), later, now)
            == transmission_after_ack(before, count, now),
{
}

/// A packet that nothing was written of in this generation cannot be acknowledged:
/// counts of an earlier connection release nothing.
pub proof fn acknowledgement_is_generation_local(before: Transmission, count: u64)
    requires
        before.waiting is None || before.waiting->0.expected_ack is None,
    ensures
        !(ack_meaning(before, count) is Completed),
{
}

/// The acknowledgement that a written packet waits for is the one that completes it.
pub proof fn written_packet_is_completed_by_next_count(before: Transmission, now: u128)
    requires
        may_write(before),
        before.acknowledged < u64::MAX,
    ensures
        ack_meaning(
            transmission_after_write(before, now),
            (before.acknowledged + 1) as u64,
        ) == (AckOutcome::Completed { bytes: before.waiting->0.bytes.len() as u64 }),
{
}

/// What ends an active generation.
#[derive(Clone, Copy, Debug, PartialEq, Eq, Structural)]
pub enum ActiveExit {
    OnlineCleared,
    StopRequested,
    TransportConsumerClosed,
    NotificationStreamEnded,
    TargetDisconnected,
    AdapterPoweredOff,
    EventStreamEnded,
    OutboundChannelClosed,
    WriteFailed,
    BridgeClosed,
    BridgeReadFailed,
    BridgeAckMalformed,
    BridgeAckOutOfSequence,
    BridgeAckTimedOut,
}

impl ActiveExit {
    /// The transport is gone, so that there is nothing left to reconnect for.
    pub open spec fn is_transport_closed(self) -> bool {
        self is TransportConsumerClosed || self is OutboundChannelClosed
    }

    /// Tells whether the transport is gone.
    pub fn transport_closed(self) -> (closed: bool)
        ensures
            closed == self.is_transport_closed(),
    {
        match self {
            ActiveExit::TransportConsumerClosed => true,
            ActiveExit::OutboundChannelClosed => true,
            _ => false,
        }
    }

    /// A fixed word for the exit in lifecycle diagnostics.
    pub fn result_class(self) -> (class: &'static str)
        ensures
            class@ == (match self {
                ActiveExit::OnlineCleared => "online_cleared"@,
                ActiveExit::StopRequested => "stop_requested"@,
                ActiveExit::TransportConsumerClosed => "transport_consumer_closed"@,
                ActiveExit::NotificationStreamEnded => "notification_stream_ended"@,
                ActiveExit::TargetDisconnected => "target_disconnected"@,
                ActiveExit::AdapterPoweredOff => "adapter_powered_off"@,
                ActiveExit::EventStreamEnded => "event_stream_ended"@,
                ActiveExit::OutboundChannelClosed => "outbound_channel_closed"@,
                ActiveExit::WriteFailed => "write_failed"@,
                ActiveExit::BridgeClosed => "bridge_closed"@,
                ActiveExit::BridgeReadFailed => "bridge_read_failed"@,
                ActiveExit::BridgeAckMalformed => "bridge_ack_malformed"@,
                ActiveExit::BridgeAckOutOfSequence => "bridge_ack_out_of_sequence"@,
                ActiveExit::BridgeAckTimedOut => "bridge_ack_timed_out"@,
            }),
    {
        match self {
            ActiveExit::OnlineCleared => "online_cleared",
            ActiveExit::StopRequested => "stop_requested",
            ActiveExit::TransportConsumerClosed => "transport_consumer_closed",
            ActiveExit::NotificationStreamEnded => "notification_stream_ended",
            ActiveExit::TargetDisconnected => "target_disconnected",
            ActiveExit::AdapterPoweredOff => "adapter_powered_off",
            ActiveExit::EventStreamEnded => "event_stream_ended",
            ActiveExit::OutboundChannelClosed => "outbound_channel_closed",
            ActiveExit::WriteFailed => "write_failed",
            ActiveExit::BridgeClosed => "bridge_closed",
            ActiveExit::BridgeReadFailed => "bridge_read_failed",
            ActiveExit::BridgeAckMalformed => "bridge_ack_malformed",
            ActiveExit::BridgeAckOutOfSequence => "bridge_ack_out_of_sequence",
            ActiveExit::BridgeAckTimedOut => "bridge_ack_timed_out",
        }
    }
}

/// The exit that the two switches of an active generation call for.
pub open spec fn switched_off(online: bool, running: bool) -> Option<ActiveExit> {
    if !online {
        Some(ActiveExit::OnlineCleared)
    } else if !running {
        Some(ActiveExit::StopRequested)
    } else {
        None
    }
}

/// Looks at the two switches of an active generation before each wait; the online
/// switch comes first.
pub fn active_head(online: bool, running: bool) -> (exit: Option<ActiveExit>)
    ensures
        exit == switched_off(online, running),
{
    if !online {
        Some(ActiveExit::OnlineCleared)
    } else if !running {
        Some(ActiveExit::StopRequested)
    } else {
        None
    }
}

/// What an adapter event means to an active desktop generation.
#[derive(Clone, Copy, Debug, PartialEq, Eq, Structural)]
pub enum ActiveAdapterEvent {
    TargetDisconnected,
    PoweredOff,
    Unrelated,
    Ended,
}

/// The exit that an adapter event calls for.
pub open spec fn adapter_exit(event: ActiveAdapterEvent) -> Option<ActiveExit> {
    match event {
        ActiveAdapterEvent::TargetDisconnected => Some(ActiveExit::TargetDisconnected),
        ActiveAdapterEvent::PoweredOff => Some(ActiveExit::AdapterPoweredOff),
        ActiveAdapterEvent::Unrelated => None,
        ActiveAdapterEvent::Ended => Some(ActiveExit::EventStreamEnded),
    }
}

/// Decides whether an adapter event ends an active generation.
pub fn active_adapter_event(event: ActiveAdapterEvent) -> (exit: Option<ActiveExit>)
    ensures
        exit == adapter_exit(event),
{
    match event {
        ActiveAdapterEvent::TargetDisconnected => Some(ActiveExit::TargetDisconnected),
        ActiveAdapterEvent::PoweredOff => Some(ActiveExit::AdapterPoweredOff),
        ActiveAdapterEvent::Unrelated => None,
        ActiveAdapterEvent::Ended => Some(ActiveExit::EventStreamEnded),
    }
}

/// What one frame from a native bridge means.
#[derive(Debug)]
pub enum NativeFrameOutcome {
    /// An acknowledgement that was counted before: nothing to do.
    Consumed,
    /// A frame of the device: tell what was observed, and hand its packet, if there is
    /// one, to the transport.
    Received(ReceivedFrame),
    /// Count this many bytes as sent.
    Sent { bytes: u64 },
    Exit(ActiveExit),
}

/// The receiving side after a frame from a native bridge.
pub open spec fn native_reception_after(reception: Reception, frame: Frame) -> Reception {
    if frame.0 == RNODE_NATIVE_BRIDGE_ACK_COMMAND {
        reception
    } else {
        reception_after(reception, frame)
    }
}

/// The sending side after a frame from a native bridge at `now`.
pub open spec fn native_transmission_after(
    before: Transmission,
    frame: Frame,
    now: u128,
) -> Transmission {
    match acknowledged_count(frame.0, frame.1) {
        Some(count) => transmission_after_ack(before, count, now),
        None => before,
    }
}

/// `outcome` is what a frame from a native bridge means.
pub open spec fn native_frame_means(
    outcome: NativeFrameOutcome,
    reception: Reception,
    interface_id: InterfaceId,
    before: Transmission,
    frame: Frame,
) -> bool {
    if frame.0 != RNODE_NATIVE_BRIDGE_ACK_COMMAND {
        &&& outcome is Received
        &&& receives(outcome->Received_0, reception, interface_id, frame)
    } else {
        match acknowledged_count(frame.0, frame.1) {
            None => outcome == NativeFrameOutcome::Exit(ActiveExit::BridgeAckMalformed),
            Some(count) => match ack_meaning(before, count) {
                AckOutcome::Duplicate => outcome is Consumed,
                AckOutcome::Completed { bytes } => outcome == (NativeFrameOutcome::Sent { bytes }),
                AckOutcome::OutOfSequence => outcome == NativeFrameOutcome::Exit(
                    ActiveExit::BridgeAckOutOfSequence,
                ),
            },
        }
    }
}

/// Takes one frame from a native bridge into account: an acknowledgement concerns the
/// sending side alone, any other frame the receiving side alone.
pub fn native_active_frame(
    receiver: &mut ActiveReceiver,
    outbound: &mut BleOutbound,
    command: u8,
    frame: &[u8],
    now: u128,
) -> (outcome: NativeFrameOutcome)
    ensures
        final(receiver).interface() == old(receiver).interface(),
        final(outbound).controls_flow() == old(outbound).controls_flow(),
        final(outbound).station() == old(outbound).station(),
        final(receiver)@ == native_reception_after(old(receiver)@, (command, frame@)),
        final(outbound)@ == native_transmission_after(old(outbound)@, (command, frame@), now),
        native_frame_means(
            outcome,
            old(receiver)@,
            old(receiver).interface(),
            old(outbound)@,
            (command, frame@),
        ),
{
    if command == RNODE_NATIVE_BRIDGE_ACK_COMMAND {
        return match native_bridge_acknowledged_data_frames(command, frame) {
            None => NativeFrameOutcome::Exit(ActiveExit::BridgeAckMalformed),
            Some(count) => match outbound.acknowledge(count, now) {
                AckOutcome::Duplicate => NativeFrameOutcome::Consumed,
                AckOutcome::Completed { bytes } => NativeFrameOutcome::Sent { bytes },
                AckOutcome::OutOfSequence => NativeFrameOutcome::Exit(
                    ActiveExit::BridgeAckOutOfSequence,
                ),
            },
        };
    }
    NativeFrameOutcome::Received(receiver.frame(command, frame))
}

/// The regular look of a native generation at its sending side: an overdue
/// acknowledgement ends it, otherwise the station's identification may be due.
pub fn native_active_poll(outbound: &mut BleOutbound, now: u128) -> (exit: Option<ActiveExit>)
    ensures
        final(outbound).controls_flow() == old(outbound).controls_flow(),
        final(outbound).station() == old(outbound).station(),
        exit == poll_exit(old(outbound)@, now),
        final(outbound)@ == transmission_after_poll(
            old(outbound)@,
            old(outbound).station(),
            now,
        ),
{
    if outbound.acknowledgement_timed_out(now) {
        return Some(ActiveExit::BridgeAckTimedOut);
    }
    outbound.poll_beacon(now);
    None
}

/// The frames that a native generation takes into account before anything else.
pub open spec fn frames_of_startup(held: Seq<Vec<u8>>, active: Seq<(u8, Vec<u8>)>) -> Seq<Frame> {
    held.map_values(|packet: Vec<u8>| (CMD_DATA, packet@)) + frames_view(active)
}

/// The frames that a native generation takes into account before anything else: the
/// packets that were held, and then what followed the frame that made it ready.
pub fn native_startup_frames(
    held: Vec<Vec<u8>>,
    active: Vec<(u8, Vec<u8>)>,
) -> (frames: Vec<(u8, Vec<u8>)>)
    ensures
        frames_view(frames@) == frames_of_startup(held@, active@),
{
    let ghost packets = held@;
    let mut held = held;
    let mut active = active;
    let mut frames: Vec<(u8, Vec<u8>)> = Vec::new();
    let ghost mut done: int = 0;
    let ghost wanted = packets.map_values(|packet: Vec<u8>| (CMD_DATA, packet@));
    while held.len() > 0
        invariant
            0 <= done <= packets.len(),
            held@ == packets.subrange(done, packets.len() as int),
            wanted == packets.map_values(|packet: Vec<u8>| (CMD_DATA, packet@)),
            frames_view(frames@) == wanted.subrange(0, done),
        decreases held@.len(),
    {
        let packet = held.remove(0);
        assert(packet == packets[done]);
        let ghost before = frames@;
        frames.push((CMD_DATA, packet));
        proof {
            assert(held@ =~= packets.subrange(done + 1, packets.len() as int));
            assert(frames_view(frames@) =~= frames_view(before).push((CMD_DATA, packet@)));
            assert(wanted.subrange(0, done + 1) =~= wanted.subrange(0, done).push(wanted[done]));
            done = done + 1;
        }
    }
    assert(wanted.subrange(0, done) =~= wanted);
    let ghost before = frames@;
    let ghost tail = active@;
    frames.append(&mut active);
    assert(frames_view(frames@) =~= frames_view(before) + frames_view(tail));
    frames
}

/// Under flow control each report of the device permits one packet: a claim succeeds exactly
/// if there is a permission, and the next one does not. Without flow control every claim
/// succeeds.
pub proof fn permission_is_used_up_by_one_claim(permit: bool)
    ensures
        claim_succeeds(true, permit) == permit,
        !claim_succeeds(true, permit_left(true, permit)),
        claim_succeeds(false, permit),
        permit_left(false, permit) == permit,
{
}

/// A packet that waits is written as one data frame, if it was not written in this
/// generation and the device permits it where it controls the flow; nothing else is.
pub proof fn waiting_packet_is_written_once(
    before: Transmission,
    flow_control: bool,
    permit: bool,
    now: u128,
)
    ensures
        writes_now(before, flow_control, permit) <==> before.waiting is Some
            && before.waiting->0.expected_ack is None && (flow_control ==> permit),
        before.waiting is Some ==> packet_on_the_wire(before) == framed(
            0x00,
            before.waiting->0.bytes,
        ),
        before.waiting is Some ==> !writes_now(
            transmission_after_write(before, now),
            flow_control,
            permit,
        ),
{
}

/// The time of the first packet since the last identification stays, whatever packets go
/// through behind it: a busy station does not put its identification off. Where no packet
/// went through yet, the first one starts the time, and an identification ends it.
pub proof fn later_packets_do_not_postpone_the_identification(before: Transmission, now: u128)
    requires
        before.waiting is Some,
    ensures
        !before.waiting->0.beacon && before.first_tx is Some ==> transmission_completed(
            before,
            now,
        ).first_tx == before.first_tx,
        !before.waiting->0.beacon && before.first_tx is None ==> transmission_completed(
            before,
            now,
        ).first_tx == Some(now),
        before.waiting->0.beacon ==> transmission_completed(before, now).first_tx is None,
        transmission_completed(before, now).waiting is None,
        transmission_completed(before, now).acknowledged == before.acknowledged,
{
}

/// An identification that is due stays due, whatever packets go through before it, and is
/// sent with the station's callsign as soon as nothing waits.
pub proof fn due_identification_is_sent(
    before: Transmission,
    station: StationBeacon,
    first: u128,
    sent: u128,
    now: u128,
)
    requires
        before.first_tx == Some(first),
        first <= now,
        before.waiting is Some ==> !before.waiting->0.beacon,
        before.waiting is Some,
    ensures
        ({
            let idle = transmission_completed(before, sent);
            let after = transmission_after_poll(idle, Some(station), now);
            &&& identification_is_due(idle, Some(station), now) <==> now - first
                >= station.interval
            &&& after.waiting is Some <==> now - first >= station.interval
            &&& after.waiting is Some ==> after.waiting->0.beacon && after.waiting->0.bytes
                == contents(station.callsign)
            &&& after.first_tx == Some(first)
        }),
{
}

/// A station without identification, without a packet sent, or with a packet that waits, does
/// not identify itself.
pub proof fn identification_needs_a_packet_before_it(
    before: Transmission,
    station: Option<StationBeacon>,
    now: u128,
)
    requires
        station is None || before.first_tx is None || before.waiting is Some,
    ensures
        !identification_is_due(before, station, now),
        transmission_after_poll(before, station, now) == before,
{
}

/// A packet that is taken waits as it is, unwritten, and moves neither the time of the
/// identification nor the count.
pub proof fn taken_packet_waits_unwritten(before: Transmission, bytes: Seq<u8>, beacon: bool)
    ensures
        ({
            let after = transmission_with(before, bytes, beacon);
            &&& after.waiting is Some
            &&& after.waiting->0.bytes == bytes
            &&& after.waiting->0.beacon == beacon
            &&& after.waiting->0.expected_ack is None
            &&& after.waiting->0.sent_at is None
            &&& after.first_tx == before.first_tx
            &&& after.acknowledged == before.acknowledged
        }),
{
}

/// A count that was seen says nothing new; the next count completes the packet that waits for
/// it and no other; a count behind a gap, or that nothing waits for, ends the generation.
pub proof fn acknowledgements_come_one_by_one(before: Transmission, count: u64, now: u128)
    ensures
        ack_meaning(before, count) is Duplicate <==> count <= before.acknowledged,
        count > before.acknowledged + 1 ==> ack_meaning(before, count) is OutOfSequence,
        count == before.acknowledged + 1 && before.waiting is Some
            && before.waiting->0.expected_ack == Some(count) ==> ack_meaning(before, count)
            is Completed && transmission_after_ack(before, count, now).acknowledged == count
            && transmission_after_ack(before, count, now).waiting is None,
        count > before.acknowledged && (before.waiting is None
            || before.waiting->0.expected_ack != Some(count)) ==> ack_meaning(before, count)
            is OutOfSequence,
        !(ack_meaning(before, count) is Completed) ==> transmission_after_ack(before, count, now)
            == before,
        ack_meaning(before, count) is Completed && before.waiting->0.bytes.len() <= u64::MAX
            ==> ack_meaning(before, count)->bytes == before.waiting->0.bytes.len(),
{
}

/// A written packet waits for the next count, from the time of its writing, and is not
/// changed by it.
pub proof fn written_packet_waits_for_its_count(before: Transmission, now: u128)
    requires
        before.waiting is Some,
        before.acknowledged < u64::MAX,
    ensures
        ({
            let after = transmission_after_write(before, now);
            &&& after.waiting is Some
            &&& after.waiting->0.expected_ack == Some((before.acknowledged + 1) as u64)
            &&& after.waiting->0.sent_at == Some(now)
            &&& after.waiting->0.bytes == before.waiting->0.bytes
            &&& after.waiting->0.beacon == before.waiting->0.beacon
            &&& after.first_tx == before.first_tx
            &&& after.acknowledged == before.acknowledged
        }),
{
}

/// A new generation counts from zero and writes the waiting packet again, as it was.
pub proof fn generation_counts_from_zero(before: Transmission)
    ensures
        ({
            let after = transmission_of_new_generation(before);
            &&& after.acknowledged == 0
            &&& after.first_tx == before.first_tx
            &&& after.waiting is Some <==> before.waiting is Some
            &&& before.waiting is Some ==> {
                &&& after.waiting->0.bytes == before.waiting->0.bytes
                &&& after.waiting->0.beacon == before.waiting->0.beacon
                &&& after.waiting->0.expected_ack is None
                &&& after.waiting->0.sent_at is None
            }
        }),
{
}

/// A written packet that stays without its acknowledgement for 318.8 seconds ends the
/// generation; until then, or where nothing was written, the generation goes on.
pub proof fn missing_acknowledgement_ends_the_generation(
    before: Transmission,
    sent: u128,
    now: u128,
)
    requires
        before.waiting is Some,
    ensures
        before.waiting->0.sent_at == Some(sent) ==> (poll_exit(before, now) == Some(
            ActiveExit::BridgeAckTimedOut,
        ) <==> now - sent >= 318_800_000_000),
        before.waiting->0.sent_at is None ==> poll_exit(before, now) is None,
        poll_exit(Transmission { waiting: None, ..before }, now) is None,
{
}

/// A packet is delivered exactly if it holds something and packets are let through: because
/// the generation let them through before, or because it is ready. It carries the signal
/// quality that was reported last.
pub proof fn packet_is_delivered_with_its_quality(
    reception: Reception,
    id: InterfaceId,
    payload: Seq<u8>,
)
    ensures
        delivery_of(reception, id, (0x00, payload)) is Some <==> payload.len() > 0 && (
        reception.admitted || reception.protocol.is_ready()),
        delivery_of(reception, id, (0x00, payload)) is Some ==> {
            let delivery = delivery_of(reception, id, (0x00, payload))->0;
            &&& delivery.raw == payload
            &&& delivery.interface_id == id
            &&& delivery.rssi == reception.rssi
            &&& delivery.snr == reception.snr
        },
        payload.len() > 0 ==> reception_after(reception, (0x00, payload)).rssi is None
            && reception_after(reception, (0x00, payload)).snr is None,
{
    reception.protocol.data_is_no_evidence(payload);
}

/// No frame but a packet delivers anything.
pub proof fn only_packets_are_delivered(reception: Reception, id: InterfaceId, frame: Frame)
    requires
        frame.0 != 0x00,
    ensures
        delivery_of(reception, id, frame) is None,
{
}

/// Each frame leaves behind what the device said in it: the evidence, the admission that
/// readiness brings and nothing takes back, and the permission where it gives or takes one.
pub proof fn frame_leaves_what_it_said(reception: Reception, command: u8, frame: Seq<u8>)
    ensures
        ({
            let after = reception_after(reception, (command, frame));
            &&& after.protocol == reception.protocol.after(command, frame)
            &&& after.admitted <==> reception.admitted || after.protocol.is_ready()
            &&& command == 0x0F && frame == seq![1u8] ==> after.permit
            &&& command == 0x0F && frame == seq![0u8] ==> !after.permit
            &&& command != 0x0F || frame.len() != 1 ==> after.permit == reception.permit
            &&& after.assembly == reception.assembly
        }),
{
}

/// Frames are taken into account one after the other, in their order.
pub proof fn frames_are_taken_in_order(reception: Reception, one: Seq<Frame>, other: Seq<Frame>)
    ensures
        reception_after_all(reception, one + other) == reception_after_all(
            reception_after_all(reception, one),
            other,
        ),
        one.len() == 1 ==> reception_after_all(reception, one) == reception_after(
            reception,
            one[0],
        ),
    decreases other.len(),
{
    if one.len() == 1 {
        assert(one.drop_last() =~= Seq::<Frame>::empty());
        assert(reception_after_all(reception, one.drop_last()) == reception);
    }
    if other.len() == 0 {
        assert(one + other =~= one);
    } else {
        frames_are_taken_in_order(reception, one, other.drop_last());
        assert((one + other).drop_last() =~= one + other.drop_last());
    }
}

/// A generation goes on while it is online and not stopped. A disconnect of its device, an
/// adapter without power and the end of the adapter's events end it; what concerns other
/// devices does not.
pub proof fn generation_ends_for_a_reason(online: bool, running: bool, event: ActiveAdapterEvent)
    ensures
        switched_off(online, running) is None <==> online && running,
        !online ==> switched_off(online, running) == Some(ActiveExit::OnlineCleared),
        online && !running ==> switched_off(online, running) == Some(ActiveExit::StopRequested),
        adapter_exit(event) is None <==> event is Unrelated,
        event is TargetDisconnected ==> adapter_exit(event) == Some(
            ActiveExit::TargetDisconnected,
        ),
        event is PoweredOff ==> adapter_exit(event) == Some(ActiveExit::AdapterPoweredOff),
        event is Ended ==> adapter_exit(event) == Some(ActiveExit::EventStreamEnded),
{
}

/// There is nothing to reconnect for exactly when the transport takes no packets any more, or
/// hands none over.
pub proof fn only_a_closed_transport_ends_the_driver(exit: ActiveExit)
    ensures
        exit.is_transport_closed() <==> exit is TransportConsumerClosed || exit
            is OutboundChannelClosed,
{
}

/// The packets that were held come first, each as a data frame and in their order, and behind
/// them the frames that followed readiness, in theirs; none is lost.
pub proof fn held_packets_come_first(
    held: Seq<Vec<u8>>,
    active: Seq<(u8, Vec<u8>)>,
    index: int,
)
    ensures
        frames_of_startup(held, active).len() == held.len() + active.len(),
        0 <= index < held.len() ==> frames_of_startup(held, active)[index] == (
            0x00u8,
            held[index]@,
        ),
        0 <= index < active.len() ==> frames_of_startup(held, active)[held.len() + index] == (
            active[index].0,
            active[index].1@,
        ),
{
}

/// A packet is taken while none waits, and is then what waits; while one does, an offered one
/// leaves it alone.
pub proof fn one_packet_waits_at_a_time(before: Transmission, bytes: Seq<u8>)
    ensures
        takes_packet(before) <==> before.waiting is None,
        before.waiting is Some ==> transmission_after_offer(before, bytes) == before,
        before.waiting is None ==> {
            let after = transmission_after_offer(before, bytes);
            &&& after.waiting is Some && after.waiting->0.bytes == bytes
            &&& !after.waiting->0.beacon
            &&& waiting_bytes(after) == bytes.len()
            &&& !takes_packet(after)
        },
        before.waiting is None ==> waiting_bytes(before) == 0,
{
}

/// What a frame comes to is what was observed of it, and the packet in it exactly if that is
/// delivered: as it came, for its interface, with the signal quality that was reported last.
pub proof fn received_frame_is_observed_and_delivered(
    received: ReceivedFrame,
    reception: Reception,
    id: InterfaceId,
    frame: Frame,
)
    requires
        receives(received, reception, id, frame),
    ensures
        received.observation == observation_of(reception.protocol, frame.0, frame.1),
        received.packet is Some <==> frame.0 == 0x00 && frame.1.len() > 0 && (reception.admitted
            || reception.protocol.is_ready()),
        received.packet is Some ==> {
            let packet = received.packet->0;
            &&& packet.raw@ == frame.1
            &&& packet.interface_id == id
            &&& packet.rssi == reception.rssi
            &&& packet.snr == reception.snr
        },
{
    if frame.0 == 0x00 {
        reception.protocol.data_is_no_evidence(frame.1);
    }
}

/// Of a run of frames each comes to what it does behind those before it, in their order.
pub proof fn received_frames_keep_their_order(
    received: Seq<ReceivedFrame>,
    reception: Reception,
    id: InterfaceId,
    frames: Seq<Frame>,
    index: int,
)
    requires
        receives_all(received, reception, id, frames),
        0 <= index < frames.len(),
    ensures
        received.len() == frames.len(),
        receives(
            received[index],
            reception_after_all(reception, frames.subrange(0, index)),
            id,
            frames[index],
        ),
{
}

/// An acknowledgement concerns the sending side alone, and every other frame the receiving side
/// alone. A malformed or out-of-sequence acknowledgement ends the generation, a repeated one
/// does nothing, and the awaited one counts the packet's bytes as sent.
pub proof fn acknowledgements_stay_apart_from_frames(
    outcome: NativeFrameOutcome,
    reception: Reception,
    id: InterfaceId,
    before: Transmission,
    frame: Frame,
    now: u128,
)
    requires
        native_frame_means(outcome, reception, id, before, frame),
    ensures
        frame.0 == 0xA0 ==> native_reception_after(reception, frame) == reception,
        frame.0 != 0xA0 ==> native_transmission_after(before, frame, now) == before
            && native_reception_after(reception, frame) == reception_after(reception, frame)
            && outcome is Received && receives(outcome->Received_0, reception, id, frame),
        frame.0 == 0xA0 && acknowledged_count(frame.0, frame.1) is None ==> outcome
            == NativeFrameOutcome::Exit(ActiveExit::BridgeAckMalformed)
            && native_transmission_after(before, frame, now) == before,
        acknowledged_count(frame.0, frame.1) is Some ==> {
            let count = acknowledged_count(frame.0, frame.1)->0;
            &&& count <= before.acknowledged ==> outcome is Consumed
            &&& count > before.acknowledged + 1 ==> outcome == NativeFrameOutcome::Exit(
                ActiveExit::BridgeAckOutOfSequence,
            )
            &&& count == before.acknowledged + 1 && before.waiting is Some
                && before.waiting->0.expected_ack == Some(count)
                && before.waiting->0.bytes.len() <= u64::MAX ==> outcome is Sent && outcome->bytes
                == before.waiting->0.bytes.len() && native_transmission_after(
                before,
                frame,
                now,
            ).acknowledged == count
        },
{
}

/// A packet that was written is overdue from 318.8 seconds after its writing on, and one that
/// was not written never is.
pub proof fn written_packet_becomes_overdue(pending: NativePendingOutbound, now: u128)
    ensures
        pending.overdue(now) <==> pending.sent_at is Some && now - pending.sent_at->0
            >= 318_800_000_000,
{
}

} // verus!
