//! What arrives over USB: frames are taken as evidence and permission, and packets are
//! counted and handed to the transport.
use vstd::prelude::*;
use crate::android_usb_lifecycle::gate::{observed, GateState, UsbTxGate};
use crate::android_usb_lifecycle::reader::UsbReaderExit;
use crate::android_usb_lifecycle::writer::UsbWriterExit;
use crate::interface::InterfaceId;
use crate::kiss::{
    assemble_all, frames_in, frames_view, fresh_assembly, Assembly, Frame, RawKissDeframer,
    CMD_DATA,
};
use crate::rnode::{process_rnode_response, rssi_after, snr_after, InboundPacket, RNodeResponse};
use crate::rnode_protocol::{observation_of, RNodeObservation, RNodeProtocolState};

verus! {

/// What the workers of a USB session report, in order.
#[derive(Clone, Debug, PartialEq, Eq)]
pub enum UsbIoEvent {
    Read(Vec<u8>),
    Writer(UsbWriterExit),
    Reader(UsbReaderExit),
}

/// What the receiving side of a session remembers.
pub ghost struct UsbReception {
    pub assembly: Assembly,
    /// The evidence, where the session keeps any.
    pub protocol: Option<RNodeProtocolState>,
    pub rssi: Option<i16>,
    pub snr: Option<i16>,
    /// The bytes of all packets so far, counted in 64 bits.
    pub received: u64,
}

/// The frame holds a packet.
pub open spec fn is_packet(frame: Frame) -> bool {
    frame.0 == CMD_DATA && frame.1.len() > 0
}

/// What the receiving side remembers after one frame. A packet counts as soon as it is
/// recognised.
pub open spec fn usb_reception_after(reception: UsbReception, frame: Frame) -> UsbReception {
    UsbReception {
        protocol: match reception.protocol {
            Some(protocol) => Some(protocol.after(frame.0, frame.1)),
            None => None,
        },
        rssi: rssi_after(frame.0, frame.1, reception.rssi),
        snr: snr_after(frame.0, frame.1, reception.snr),
        received: if is_packet(frame) {
            reception.received.wrapping_add(frame.1.len() as u64)
        } else {
            reception.received
        },
        ..reception
    }
}

/// What the receiving side remembers after a run of frames.
pub open spec fn usb_reception_after_all(
    reception: UsbReception,
    frames: Seq<Frame>,
) -> UsbReception
    decreases frames.len(),
{
    if frames.len() == 0 {
        reception
    } else {
        usb_reception_after(usb_reception_after_all(reception, frames.drop_last()), frames.last())
    }
}

/// What one frame tells whoever follows the device, where the session keeps evidence.
pub open spec fn usb_observation_of(reception: UsbReception, frame: Frame) -> Option<
    RNodeObservation,
> {
    match reception.protocol {
        Some(protocol) => Some(observation_of(protocol, frame.0, frame.1)),
        None => None,
    }
}

/// What a run of frames tells whoever follows the device, in order.
pub open spec fn usb_observations_of(reception: UsbReception, frames: Seq<Frame>) -> Seq<
    RNodeObservation,
>
    decreases frames.len(),
{
    if frames.len() == 0 {
        Seq::empty()
    } else {
        let before = usb_observations_of(reception, frames.drop_last());
        match usb_observation_of(
            usb_reception_after_all(reception, frames.drop_last()),
            frames.last(),
        ) {
            Some(observation) => before.push(observation),
            None => before,
        }
    }
}

/// What one frame of a session comes to: the packet in it, if any, and what is to be told
/// of it before that.
#[derive(Clone, Debug, PartialEq, Eq)]
pub struct UsbReceivedFrame {
    pub packet: Option<InboundPacket>,
    pub observation: Option<RNodeObservation>,
}

/// `packet` is the packet in a frame, with the signal quality that was reported before it.
pub open spec fn packet_in(
    packet: InboundPacket,
    reception: UsbReception,
    interface_id: InterfaceId,
    frame: Frame,
) -> bool {
    &&& packet.raw@ == frame.1
    &&& packet.interface_id == interface_id
    &&& packet.rssi == reception.rssi
    &&& packet.snr == reception.snr
}

/// The transmit gate behind an executable one, where one is attached.
pub open spec fn gate_view(gate: Option<UsbTxGate>) -> Option<GateState> {
    match gate {
        Some(gate) => Some(gate@),
        None => None,
    }
}

/// The transmit gate after one frame: it sees what the frame left the evidence at.
pub open spec fn gate_after(
    gate: Option<GateState>,
    reception: UsbReception,
    frame: Frame,
    now: u128,
) -> Option<GateState> {
    match (gate, reception.protocol) {
        (Some(gate), Some(protocol)) => Some(
            observed(gate, protocol.after(frame.0, frame.1).is_ready(), frame.0, frame.1, now),
        ),
        _ => gate,
    }
}

/// The transmit gate after a run of frames.
pub open spec fn gate_after_all(
    gate: Option<GateState>,
    reception: UsbReception,
    frames: Seq<Frame>,
    now: u128,
) -> Option<GateState>
    decreases frames.len(),
{
    if frames.len() == 0 {
        gate
    } else {
        gate_after(
            gate_after_all(gate, reception, frames.drop_last(), now),
            usb_reception_after_all(reception, frames.drop_last()),
            frames.last(),
            now,
        )
    }
}

/// The receiving side of a USB session.
#[derive(Debug)]
pub struct UsbInboundState {
    interface_id: InterfaceId,
    deframer: RawKissDeframer,
    protocol: Option<RNodeProtocolState>,
    last_rssi: Option<i16>,
    last_snr: Option<i16>,
    received_bytes: u64,
}

impl View for UsbInboundState {
    type V = UsbReception;

    closed spec fn view(&self) -> UsbReception {
        UsbReception {
            assembly: self.deframer@,
            protocol: self.protocol,
            rssi: self.last_rssi,
            snr: self.last_snr,
            received: self.received_bytes,
        }
    }
}

impl UsbInboundState {
    /// The interface that packets are delivered for.
    pub closed spec fn interface(self) -> InterfaceId {
        self.interface_id
    }

    /// The receiving side of a session that keeps no evidence.
    pub fn new(interface_id: InterfaceId) -> (state: Self)
        ensures
            state.interface() == interface_id,
            state@ == (UsbReception {
                assembly: fresh_assembly(),
                protocol: None,
                rssi: None,
                snr: None,
                received: 0,
            }),
    {
        UsbInboundState {
            interface_id,
            deframer: RawKissDeframer::new(),
            protocol: None,
            last_rssi: None,
            last_snr: None,
            received_bytes: 0,
        }
    }

    /// The receiving side of a session that starts from the given evidence and a fresh
    /// deframer. `received_bytes` continues the interface's count.
    pub fn projected_with_protocol_state(
        interface_id: InterfaceId,
        protocol: RNodeProtocolState,
        received_bytes: u64,
    ) -> (state: Self)
        ensures
            state.interface() == interface_id,
            state@ == (UsbReception {
                assembly: fresh_assembly(),
                protocol: Some(protocol),
                rssi: None,
                snr: None,
                received: received_bytes,
            }),
    {
        UsbInboundState {
            interface_id,
            deframer: RawKissDeframer::new(),
            protocol: Some(protocol),
            last_rssi: None,
            last_snr: None,
            received_bytes,
        }
    }

    /// The bytes of all packets so far.
    pub fn received_bytes(&self) -> (received: u64)
        ensures
            received == self@.received,
    {
        self.received_bytes
    }

    /// What the device has reported, where the session keeps evidence.
    pub fn protocol(&self) -> (protocol: Option<RNodeProtocolState>)
        ensures
            protocol == self@.protocol,
    {
        self.protocol
    }

    /// Splits one read into the frames that it completes.
    pub fn deframe(&mut self, bytes: &[u8]) -> (frames: Vec<(u8, Vec<u8>)>)
        ensures
            final(self).interface() == old(self).interface(),
            final(self)@ == (UsbReception {
                assembly: assemble_all(old(self)@.assembly, bytes@),
                ..old(self)@
            }),
            frames_view(frames@) == frames_in(old(self)@.assembly, bytes@),
    {
        self.deframer.feed(bytes)
    }

    /// Takes one frame into account.
    pub fn frame(
        &mut self,
        gate: &mut Option<UsbTxGate>,
        command: u8,
        frame: &[u8],
        now: u128,
    ) -> (received: UsbReceivedFrame)
        ensures
            final(self).interface() == old(self).interface(),
            final(self)@ == usb_reception_after(old(self)@, (command, frame@)),
            gate_view(*final(gate)) == gate_after(
                gate_view(*old(gate)),
                old(self)@,
                (command, frame@),
                now,
            ),
            received.observation == usb_observation_of(old(self)@, (command, frame@)),
            received.packet is Some <==> is_packet((command, frame@)),
            received.packet is Some ==> packet_in(
                received.packet->0,
                old(self)@,
                old(self).interface(),
                (command, frame@),
            ),
    {
        let mut observation: Option<RNodeObservation> = None;
        let projected = match self.protocol.take() {
            Some(mut protocol) => {
                let effect = protocol.apply_frame(command, frame);
                observation = Some(RNodeObservation { state: protocol, effect });
                let observing = match gate.take() {
                    Some(mut open) => {
                        open.observe(&protocol, command, frame, now);
                        Some(open)
                    },
                    None => None,
                };
                *gate = observing;
                Some(protocol)
            },
            None => None,
        };
        self.protocol = projected;
        let response = process_rnode_response(
            command,
            frame,
            self.interface_id,
            &mut self.last_rssi,
            &mut self.last_snr,
        );
        let packet = match response {
            RNodeResponse::Packet(packet) => {
                self.received_bytes = self.received_bytes.wrapping_add(frame.len() as u64);
                Some(packet)
            },
            _ => None,
        };
        UsbReceivedFrame { packet, observation }
    }

    /// Takes frames into account up to the first packet, which it returns; the frames
    /// behind it stay for later. What is to be told of the frames before the packet is
    /// handed on is added to `observations`.
    pub fn next_packet(
        &mut self,
        gate: &mut Option<UsbTxGate>,
        frames: &mut Vec<(u8, Vec<u8>)>,
        observations: &mut Vec<RNodeObservation>,
        now: u128,
    ) -> (packet: Option<InboundPacket>)
        ensures
            final(self).interface() == old(self).interface(),
            ({
                let all = frames_view(old(frames)@);
                let rest = frames_view(final(frames)@);
                let count = all.len() - rest.len();
                let seen = all.subrange(0, count);
                &&& 0 <= count <= all.len()
                &&& rest == all.subrange(count, all.len() as int)
                &&& final(self)@ == usb_reception_after_all(old(self)@, seen)
                &&& final(observations)@ == old(observations)@ + usb_observations_of(
                    old(self)@,
                    seen,
                )
                &&& gate_view(*final(gate)) == gate_after_all(
                    gate_view(*old(gate)),
                    old(self)@,
                    seen,
                    now,
                )
                &&& match packet {
                    Some(packet) => {
                        let before = usb_reception_after_all(old(self)@, seen.drop_last());
                        &&& count > 0
                        &&& is_packet(all[count - 1])
                        &&& forall|i: int| 0 <= i < count - 1 ==> !is_packet(#[trigger] all[i])
                        &&& packet_in(packet, before, old(self).interface(), all[count - 1])
                    },
                    None => {
                        &&& count == all.len()
                        &&& forall|i: int| 0 <= i < all.len() ==> !is_packet(#[trigger] all[i])
                    },
                }
            }),
    {
        let ghost raw = frames@;
        let ghost all = frames_view(raw);
        let ghost entry = self@;
        let ghost entry_gate = gate_view(*gate);
        let ghost mut count: int = 0;
        assert(observations@ =~= old(observations)@ + Seq::<RNodeObservation>::empty());
        assert(all.subrange(0, 0) =~= Seq::<Frame>::empty());
        while frames.len() > 0
            invariant
                0 <= count <= all.len(),
                frames@ == raw.subrange(count, raw.len() as int),
                self@ == usb_reception_after_all(entry, all.subrange(0, count)),
                gate_view(*gate) == gate_after_all(entry_gate, entry, all.subrange(0, count), now),
                self.interface() == old(self).interface(),
                observations@ == old(observations)@ + usb_observations_of(
                    entry,
                    all.subrange(0, count),
                ),
                forall|i: int| 0 <= i < count ==> !is_packet(#[trigger] all[i]),
                raw == old(frames)@,
                all == frames_view(raw),
                entry == old(self)@,
                entry_gate == gate_view(*old(gate)),
            decreases frames@.len(),
        {
            let item = frames.remove(0);
            let ghost seen = all.subrange(0, count + 1);
            proof {
                assert(item == raw[count]);
                assert((item.0, item.1@) == all[count]);
                assert(frames@ =~= raw.subrange(count + 1, raw.len() as int));
                assert(frames_view(frames@) =~= all.subrange(count + 1, all.len() as int));
                assert(seen.drop_last() =~= all.subrange(0, count));
                assert(seen.last() == all[count]);
            }
            let received = self.frame(gate, item.0, item.1.as_slice(), now);
            match received.observation {
                Some(observation) => {
                    observations.push(observation);
                },
                None => {},
            }
            proof {
                count = count + 1;
                assert(observations@ =~= old(observations)@ + usb_observations_of(entry, seen));
            }
            if received.packet.is_some() {
                return received.packet;
            }
        }
        assert(frames_view(frames@) =~= all.subrange(count, all.len() as int));
        None
    }
}

/// How the handling of one read ended.
#[derive(Clone, Copy, Debug, PartialEq, Eq, Structural)]
pub enum UsbInboundOutcome {
    Complete,
    StopRequested,
    TransportClosed,
    DeadlineElapsed,
}

/// What came of handing one packet to the transport.
#[derive(Clone, Copy, Debug, PartialEq, Eq, Structural)]
pub enum UsbForward {
    Stop,
    Deadline,
    Sent,
    Closed,
}

/// How a forwarding ends the handling of a read, if it does.
pub open spec fn end_of_forward(forward: UsbForward) -> Option<UsbInboundOutcome> {
    match forward {
        UsbForward::Stop => Some(UsbInboundOutcome::StopRequested),
        UsbForward::Deadline => Some(UsbInboundOutcome::DeadlineElapsed),
        UsbForward::Closed => Some(UsbInboundOutcome::TransportClosed),
        UsbForward::Sent => None,
    }
}

/// How a forwarding ends the handling of a read, if it does.
pub fn forward_outcome(forward: UsbForward) -> (outcome: Option<UsbInboundOutcome>)
    ensures
        outcome == end_of_forward(forward),
{
    match forward {
        UsbForward::Stop => Some(UsbInboundOutcome::StopRequested),
        UsbForward::Deadline => Some(UsbInboundOutcome::DeadlineElapsed),
        UsbForward::Closed => Some(UsbInboundOutcome::TransportClosed),
        UsbForward::Sent => None,
    }
}

/// How the draining of the reader's tail ended.
#[derive(Clone, Copy, Debug, PartialEq, Eq, Structural)]
pub enum UsbReadDrainOutcome {
    Drained,
    StopRequested,
    TransportClosed,
    DeadlineElapsed,
}

/// What comes up while the reader's tail is drained.
#[derive(Clone, Copy, Debug, PartialEq, Eq, Structural)]
pub enum UsbDrainEvent {
    Stop,
    Deadline,
    /// A read was handled.
    Read(UsbInboundOutcome),
    WriterEnded,
    ReaderEnded,
    StreamClosed,
}

/// How a draining ends before its next event, if it does.
pub open spec fn end_before_turn(stopped: bool, now: u128, deadline: u128) -> Option<
    UsbReadDrainOutcome,
> {
    if stopped {
        Some(UsbReadDrainOutcome::StopRequested)
    } else if now >= deadline {
        Some(UsbReadDrainOutcome::DeadlineElapsed)
    } else {
        None
    }
}

/// Decides before each event is taken whether the draining ends without it. A stop comes
/// first and the deadline second, whatever is buffered.
pub fn drain_turn(stopped: bool, now: u128, deadline: u128) -> (outcome: Option<
    UsbReadDrainOutcome,
>)
    ensures
        outcome == end_before_turn(stopped, now, deadline),
{
    if stopped {
        Some(UsbReadDrainOutcome::StopRequested)
    } else if now >= deadline {
        Some(UsbReadDrainOutcome::DeadlineElapsed)
    } else {
        None
    }
}

/// How an event ends the draining, if it does.
pub open spec fn end_of_drain(event: UsbDrainEvent) -> Option<UsbReadDrainOutcome> {
    match event {
        UsbDrainEvent::Stop => Some(UsbReadDrainOutcome::StopRequested),
        UsbDrainEvent::Deadline => Some(UsbReadDrainOutcome::DeadlineElapsed),
        UsbDrainEvent::Read(UsbInboundOutcome::Complete) => None,
        UsbDrainEvent::Read(UsbInboundOutcome::StopRequested) => Some(
            UsbReadDrainOutcome::StopRequested,
        ),
        UsbDrainEvent::Read(UsbInboundOutcome::TransportClosed) => Some(
            UsbReadDrainOutcome::TransportClosed,
        ),
        UsbDrainEvent::Read(UsbInboundOutcome::DeadlineElapsed) => Some(
            UsbReadDrainOutcome::DeadlineElapsed,
        ),
        UsbDrainEvent::WriterEnded => None,
        UsbDrainEvent::ReaderEnded => Some(UsbReadDrainOutcome::Drained),
        UsbDrainEvent::StreamClosed => Some(UsbReadDrainOutcome::Drained),
    }
}

/// How an event ends the draining, if it does: it goes on through every read up to the
/// reader's end.
pub fn drain_outcome(event: UsbDrainEvent) -> (outcome: Option<UsbReadDrainOutcome>)
    ensures
        outcome == end_of_drain(event),
{
    match event {
        UsbDrainEvent::Stop => Some(UsbReadDrainOutcome::StopRequested),
        UsbDrainEvent::Deadline => Some(UsbReadDrainOutcome::DeadlineElapsed),
        UsbDrainEvent::Read(outcome) => match outcome {
            UsbInboundOutcome::Complete => None,
            UsbInboundOutcome::StopRequested => Some(UsbReadDrainOutcome::StopRequested),
            UsbInboundOutcome::TransportClosed => Some(UsbReadDrainOutcome::TransportClosed),
            UsbInboundOutcome::DeadlineElapsed => Some(UsbReadDrainOutcome::DeadlineElapsed),
        },
        UsbDrainEvent::WriterEnded => None,
        UsbDrainEvent::ReaderEnded => Some(UsbReadDrainOutcome::Drained),
        UsbDrainEvent::StreamClosed => Some(UsbReadDrainOutcome::Drained),
    }
}

/// A packet is no evidence: it changes neither what a session knows of its device nor
/// whether the transmit gate lets packets pass.
pub proof fn packets_open_no_gate(
    gate: Option<GateState>,
    reception: UsbReception,
    frame: Frame,
    now: u128,
)
    requires
        is_packet(frame),
        gate is Some && reception.protocol is Some ==> gate->0.closed || gate->0.ready
            == reception.protocol->0.is_ready(),
    ensures
        usb_reception_after(reception, frame).protocol == reception.protocol,
        gate_after(gate, reception, frame, now) == gate,
{
    if reception.protocol is Some {
        reception.protocol->0.data_is_no_evidence(frame.1);
    }
}

/// A frame holds a packet exactly if it is a data frame with something in it. The packet is
/// handed on as it came, for its interface, with the signal quality that was reported last.
pub proof fn packet_is_handed_on_as_it_came(
    packet: InboundPacket,
    reception: UsbReception,
    interface_id: InterfaceId,
    payload: Seq<u8>,
    command: u8,
)
    ensures
        is_packet((command, payload)) <==> command == 0x00 && payload.len() > 0,
        packet_in(packet, reception, interface_id, (command, payload)) <==> packet.raw@ == payload
            && packet.interface_id == interface_id && packet.rssi == reception.rssi && packet.snr
            == reception.snr,
{
}

/// A packet adds its bytes to the count and uses the signal quality up; any other frame adds
/// nothing. Evidence follows every frame where the session keeps it.
pub proof fn packets_are_counted_once(reception: UsbReception, command: u8, payload: Seq<u8>)
    requires
        reception.received + payload.len() <= u64::MAX,
    ensures
        ({
            let after = usb_reception_after(reception, (command, payload));
            &&& command == 0x00 && payload.len() > 0 ==> after.received == reception.received
                + payload.len() && after.rssi is None && after.snr is None
            &&& command != 0x00 || payload.len() == 0 ==> after.received == reception.received
            &&& reception.protocol is None ==> after.protocol is None
            &&& reception.protocol is Some ==> after.protocol == Some(
                reception.protocol->0.after(command, payload),
            )
            &&& after.assembly == reception.assembly
        }),
{
}

/// Frames are taken into account one after the other, in their order, and each is told of once
/// where the session keeps evidence.
pub proof fn frames_are_taken_and_told_in_order(
    gate: Option<GateState>,
    reception: UsbReception,
    frames: Seq<Frame>,
    frame: Frame,
    now: u128,
)
    ensures
        usb_reception_after_all(reception, frames.push(frame)) == usb_reception_after(
            usb_reception_after_all(reception, frames),
            frame,
        ),
        gate_after_all(gate, reception, frames.push(frame), now) == gate_after(
            gate_after_all(gate, reception, frames, now),
            usb_reception_after_all(reception, frames),
            frame,
            now,
        ),
        usb_reception_after_all(reception, frames).protocol is Some ==> usb_observations_of(
            reception,
            frames.push(frame),
        ) == usb_observations_of(reception, frames).push(
            observation_of(
                usb_reception_after_all(reception, frames).protocol->0,
                frame.0,
                frame.1,
            ),
        ),
        usb_reception_after_all(reception, frames).protocol is None ==> usb_observations_of(
            reception,
            frames.push(frame),
        ) == usb_observations_of(reception, frames),
        usb_reception_after_all(reception, Seq::empty()) == reception,
        gate_after_all(gate, reception, Seq::empty(), now) == gate,
        usb_observations_of(reception, Seq::empty()).len() == 0,
{
    assert(frames.push(frame).drop_last() =~= frames);
}

/// The transmit gate sees what each frame left the evidence at; without evidence it sees
/// nothing.
pub proof fn gate_sees_the_evidence(
    gate: GateState,
    reception: UsbReception,
    frame: Frame,
    now: u128,
)
    ensures
        reception.protocol is None ==> gate_after(Some(gate), reception, frame, now) == Some(gate),
        reception.protocol is Some && !gate.closed ==> gate_after(
            Some(gate),
            reception,
            frame,
            now,
        ) is Some && gate_after(Some(gate), reception, frame, now)->0.ready
            == reception.protocol->0.after(frame.0, frame.1).is_ready(),
        gate_after(None, reception, frame, now) is None,
{
}

/// The handling of a read goes on while its packets are taken. The tail of the reader is drained
/// up to the reader's end, whatever became of the writer; a stop ends it before the deadline,
/// and a transport that is gone ends it too.
pub proof fn tail_is_drained_to_its_end(
    forward: UsbForward,
    event: UsbDrainEvent,
    stopped: bool,
    now: u128,
    deadline: u128,
)
    ensures
        end_of_forward(forward) is None <==> forward is Sent,
        forward is Stop ==> end_of_forward(forward) == Some(UsbInboundOutcome::StopRequested),
        forward is Deadline ==> end_of_forward(forward) == Some(
            UsbInboundOutcome::DeadlineElapsed,
        ),
        forward is Closed ==> end_of_forward(forward) == Some(UsbInboundOutcome::TransportClosed),
        end_of_drain(event) == Some(UsbReadDrainOutcome::Drained) <==> event is ReaderEnded || event
            is StreamClosed,
        end_of_drain(event) == Some(UsbReadDrainOutcome::StopRequested) <==> event is Stop || event
            == UsbDrainEvent::Read(UsbInboundOutcome::StopRequested),
        end_of_drain(event) == Some(UsbReadDrainOutcome::DeadlineElapsed) <==> event is Deadline
            || event == UsbDrainEvent::Read(UsbInboundOutcome::DeadlineElapsed),
        end_of_drain(event) == Some(UsbReadDrainOutcome::TransportClosed) <==> event
            == UsbDrainEvent::Read(UsbInboundOutcome::TransportClosed),
        end_of_drain(event) is None <==> event is WriterEnded || event == UsbDrainEvent::Read(
            UsbInboundOutcome::Complete,
        ),
        end_before_turn(stopped, now, deadline) == Some(UsbReadDrainOutcome::StopRequested)
            <==> stopped,
        end_before_turn(stopped, now, deadline) == Some(UsbReadDrainOutcome::DeadlineElapsed)
            <==> !stopped && now >= deadline,
        end_before_turn(stopped, now, deadline) is None <==> !stopped && now < deadline,
{
}

} // verus!
