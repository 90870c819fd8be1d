//! Moves packets of the application to the USB writer, one at a time, as the transmit gate
//! admits them. The packet under way belongs to the logical interface: it outlives the
//! physical session until its write is known to be complete.
use vstd::prelude::*;
use bytes::Bytes;
use crate::android_usb_lifecycle::gate::{awaited_readiness, open_for_packet, GateState, UsbTxGate};
use crate::android_usb_lifecycle::write::{UsbWriteFailure, USB_PACKET_WRITE_DEADLINE};
use crate::ble_rnode::active::first_tx_after;
use crate::ble_rnode::config::StationBeacon;
use crate::ble_rnode::generation::PendingOutbound;
use crate::interface::{deadline_after, instant_after, time_until, SECOND};
use crate::kiss::{self, framed, CMD_DATA};
use crate::payload::{buffer_clone, contents};

verus! {

/// Why a pump ended.
#[derive(Clone, Debug, PartialEq, Eq)]
pub enum UsbTxPumpExit {
    StopRequested,
    ApplicationClosed,
    ReadinessTimedOut,
    WriterRejected(UsbWriteFailure),
}

/// What a pump does next.
#[derive(Debug)]
pub enum UsbPumpAction {
    Exit(UsbTxPumpExit),
    /// Wait for a change of the transmit gate, at most until the readiness deadline, where there
    /// is one.
    AwaitGate { until: Option<u128> },
    /// Wait for a packet of the application or a change of the transmit gate, at most until then,
    /// where there is a bound.
    AwaitPacket { until: Option<u128> },
    /// Hand the framed packet to the writer.
    Write { bytes: Vec<u8>, payload_len: u64, deadline: u128 },
}

/// What a pump's wait brought.
#[derive(Debug)]
pub enum UsbPumpEvent {
    Stop,
    /// The transmit gate has changed while the pump waited for it.
    Changed,
    /// The wait for the transmit gate is over.
    Elapsed,
    /// The transmit gate has changed, or the time is over, while the pump waited for a
    /// packet: it looks again.
    PacketWaitOver,
    /// The application handed a packet over.
    Packet(Bytes),
    /// The application will hand nothing more over.
    Closed,
    /// The writer answered.
    Written(Result<(), UsbWriteFailure>),
}

/// A packet under way.
pub ghost struct PacketUnderWay {
    pub bytes: Seq<u8>,
    /// It is the station's identification.
    pub beacon: bool,
}

/// What a pump remembers.
pub ghost struct PumpState {
    pub pending: Option<PacketUnderWay>,
    /// When the first packet since the last identification was written.
    pub first_tx: Option<u128>,
}

/// The pump after a packet that is known to be written was retired.
pub open spec fn retired(state: PumpState, completed: bool, now: u128) -> PumpState {
    if completed && state.pending is Some {
        PumpState {
            pending: None,
            first_tx: first_tx_after(state.first_tx, state.pending->0.beacon, now),
        }
    } else {
        state
    }
}

/// The pump at the start of a new physical session.
pub open spec fn taken_over(state: PumpState) -> PumpState {
    PumpState { first_tx: None, ..state }
}

/// The station has to identify itself.
pub open spec fn identification_due(
    state: PumpState,
    beacon: Option<StationBeacon>,
    now: u128,
) -> bool {
    &&& beacon is Some
    &&& state.first_tx is Some
    &&& time_until(state.first_tx->0, now) >= beacon->0.interval
}

/// The pump at the point where the transmit gate is open: an identification that is due takes
/// the free place.
pub open spec fn offered(
    state: PumpState,
    beacon: Option<StationBeacon>,
    now: u128,
) -> PumpState {
    if state.pending is None && identification_due(state, beacon, now) {
        PumpState {
            pending: Some(
                PacketUnderWay { bytes: contents(beacon->0.callsign), beacon: true },
            ),
            ..state
        }
    } else {
        state
    }
}

/// The pump's state at its next action.
pub open spec fn pumped(
    state: PumpState,
    beacon: Option<StationBeacon>,
    gate: GateState,
    exhausted: bool,
    completed: bool,
    now: u128,
) -> PumpState {
    let after = retired(state, completed, now);
    if (after.pending is None && exhausted) || !open_for_packet(gate) {
        after
    } else {
        offered(after, beacon, now)
    }
}

/// `action` is what a pump in that state does next.
pub open spec fn acts_on(
    action: UsbPumpAction,
    after: PumpState,
    gate: GateState,
    exhausted: bool,
    now: u128,
) -> bool {
    if after.pending is None && exhausted {
        action == UsbPumpAction::Exit(UsbTxPumpExit::ApplicationClosed)
    } else if !open_for_packet(gate) {
        action == (UsbPumpAction::AwaitGate { until: awaited_readiness(gate) })
    } else if after.pending is None {
        action == (UsbPumpAction::AwaitPacket {
            until: if after.first_tx is Some {
                Some(instant_after(now, SECOND))
            } else {
                None
            },
        })
    } else {
        &&& action is Write
        &&& action->bytes@ == framed(CMD_DATA, after.pending->0.bytes)
        &&& action->payload_len == after.pending->0.bytes.len()
        &&& action->deadline == instant_after(now, USB_PACKET_WRITE_DEADLINE)
    }
}

/// How an event ends a pump, if it does.
pub open spec fn pump_exit(event: UsbPumpEvent, gate: GateState, now: u128) -> Option<
    UsbTxPumpExit,
> {
    match event {
        UsbPumpEvent::Stop => Some(UsbTxPumpExit::StopRequested),
        UsbPumpEvent::Closed => Some(UsbTxPumpExit::ApplicationClosed),
        UsbPumpEvent::Written(Err(failure)) => Some(UsbTxPumpExit::WriterRejected(failure)),
        UsbPumpEvent::Changed | UsbPumpEvent::Elapsed => if awaited_readiness(gate) is Some && now
            >= awaited_readiness(gate)->0 {
            Some(UsbTxPumpExit::ReadinessTimedOut)
        } else {
            None
        },
        _ => None,
    }
}

/// What an event leaves under way.
pub open spec fn pump_after_event(state: PumpState, event: UsbPumpEvent) -> PumpState {
    match event {
        UsbPumpEvent::Packet(payload) => PumpState {
            pending: if state.pending is None {
                Some(PacketUnderWay { bytes: contents(payload), beacon: false })
            } else {
                state.pending
            },
            ..state
        },
        _ => state,
    }
}

/// The packets of the application and the one under way.
#[derive(Debug)]
pub struct UsbTxPump {
    pending: Option<PendingOutbound>,
    first_tx: Option<u128>,
    beacon: Option<StationBeacon>,
}

impl View for UsbTxPump {
    type V = PumpState;

    closed spec fn view(&self) -> PumpState {
        PumpState {
            pending: match self.pending {
                Some(pending) => Some(
                    PacketUnderWay { bytes: pending.bytes(), beacon: pending.is_beacon() },
                ),
                None => None,
            },
            first_tx: self.first_tx,
        }
    }
}

impl UsbTxPump {
    /// How the station identifies itself.
    pub closed spec fn station(self) -> Option<StationBeacon> {
        self.beacon
    }

    /// A pump with nothing under way.
    pub fn new(beacon: Option<StationBeacon>) -> (pump: Self)
        ensures
            pump@ == (PumpState { pending: None, first_tx: None }),
            pump.station() == beacon,
    {
        UsbTxPump { pending: None, first_tx: None, beacon }
    }

    /// A new physical session takes over. The packet under way stays.
    pub fn begin_generation(&mut self)
        ensures
            final(self)@ == taken_over(old(self)@),
            final(self).station() == old(self).station(),
    {
        self.first_tx = None;
    }

    /// Decides what to do next. `exhausted` says that the application has closed its
    /// queue and nothing is left in it; `completed` that the packet under way is known
    /// to be written.
    pub fn poll(&mut self, gate: &UsbTxGate, exhausted: bool, completed: bool, now: u128) -> (action:
        UsbPumpAction)
        ensures
            final(self).station() == old(self).station(),
            final(self)@ == pumped(
                old(self)@,
                old(self).station(),
                gate@,
                exhausted,
                completed,
                now,
            ),
            acts_on(action, final(self)@, gate@, exhausted, now),
    {
        if completed {
            match self.pending.take() {
                Some(packet) => {
                    if packet.is_station_id() {
                        self.first_tx = None;
                    } else if self.first_tx.is_none() {
                        self.first_tx = Some(now);
                    }
                },
                None => {},
            }
        }
        if self.pending.is_none() && exhausted {
            return UsbPumpAction::Exit(UsbTxPumpExit::ApplicationClosed);
        }
        if !gate.can_send() {
            return UsbPumpAction::AwaitGate { until: gate.readiness_deadline() };
        }
        if self.pending.is_none() {
            match &self.beacon {
                Some(beacon) => match self.first_tx {
                    Some(first) => if now.saturating_sub(first) >= beacon.interval {
                        let callsign = buffer_clone(&beacon.callsign);
                        self.pending = Some(PendingOutbound::new(callsign, true));
                    },
                    None => {},
                },
                None => {},
            }
        }
        match &self.pending {
            Some(packet) => {
                let payload = packet.as_slice();
                UsbPumpAction::Write {
                    bytes: kiss::frame(payload),
                    payload_len: payload.len() as u64,
                    deadline: deadline_after(now, USB_PACKET_WRITE_DEADLINE),
                }
            },
            None => UsbPumpAction::AwaitPacket {
                until: if self.first_tx.is_some() {
                    Some(deadline_after(now, SECOND))
                } else {
                    None
                },
            },
        }
    }

    /// Takes what a wait brought into account. Says how the pump ends, if it does. However
    /// often the transmit gate changes while the pump waits for it, a wait for readiness
    /// that is over ends the pump; while it waits for a packet it looks at its application
    /// first. A packet that was not written, or of which that is unknown, stays under way.
    pub fn event(&mut self, event: UsbPumpEvent, gate: &UsbTxGate, now: u128) -> (exit: Option<
        UsbTxPumpExit,
    >)
        ensures
            final(self).station() == old(self).station(),
            exit == pump_exit(event, gate@, now),
            final(self)@ == pump_after_event(old(self)@, event),
    {
        match event {
            UsbPumpEvent::Stop => Some(UsbTxPumpExit::StopRequested),
            UsbPumpEvent::Changed | UsbPumpEvent::Elapsed => if gate.readiness_expired(now) {
                Some(UsbTxPumpExit::ReadinessTimedOut)
            } else {
                None
            },
            UsbPumpEvent::PacketWaitOver => None,
            UsbPumpEvent::Packet(payload) => {
                if self.pending.is_none() {
                    self.pending = Some(PendingOutbound::new(payload, false));
                }
                None
            },
            UsbPumpEvent::Closed => Some(UsbTxPumpExit::ApplicationClosed),
            UsbPumpEvent::Written(result) => match result {
                Ok(_) => None,
                Err(failure) => Some(UsbTxPumpExit::WriterRejected(failure)),
            },
        }
    }
}

/// A packet under way is replaced by nothing: unless its write is known to be complete
/// it is still the one that the pump writes, in this session or the next.
pub proof fn packet_under_way_is_kept(
    state: PumpState,
    beacon: Option<StationBeacon>,
    gate: GateState,
    exhausted: bool,
    now: u128,
)
    requires
        state.pending is Some,
    ensures
        pumped(state, beacon, gate, exhausted, false, now) == state,
{
}

/// A packet that is known to be written is never written again.
pub proof fn written_packet_is_not_repeated(
    state: PumpState,
    beacon: Option<StationBeacon>,
    gate: GateState,
    exhausted: bool,
    now: u128,
)
    requires
        state.pending is Some,
    ensures
        ({
            let after = pumped(state, beacon, gate, exhausted, true, now);
            after.pending is None || after.pending == Some(
                PacketUnderWay { bytes: contents(beacon->0.callsign), beacon: true },
            )
        }),
        retired(state, true, now).pending is None,
{
}

/// The station identifies itself once for a run of packets: a written identification
/// ends the run.
pub proof fn identification_ends_the_run(
    state: PumpState,
    beacon: Option<StationBeacon>,
    gate: GateState,
    exhausted: bool,
    now: u128,
)
    requires
        state.pending is Some,
        state.pending->0.beacon,
    ensures
        pumped(state, beacon, gate, exhausted, true, now) == (PumpState {
            pending: None,
            first_tx: None,
        }),
{
}

/// The time of the first packet since the last identification stays, whatever packets are
/// written behind it: a busy station does not put its identification off. Where no packet was
/// written yet, the first one starts the time.
pub proof fn later_packets_do_not_postpone_the_identification(state: PumpState, now: u128)
    requires
        state.pending is Some,
        !state.pending->0.beacon,
    ensures
        state.first_tx is Some ==> retired(state, true, now).first_tx == state.first_tx,
        state.first_tx is None ==> retired(state, true, now).first_tx == Some(now),
        retired(state, true, now).pending is None,
        retired(state, false, now) == state,
{
}

/// An identification is due from its interval after the first packet on, and stays due
/// whatever packets are written before it is.
pub proof fn identification_stays_due(
    state: PumpState,
    station: StationBeacon,
    first: u128,
    written: u128,
    now: u128,
)
    requires
        state.first_tx == Some(first),
        first <= now,
        state.pending is Some ==> !state.pending->0.beacon,
    ensures
        identification_due(state, Some(station), now) <==> now - first >= station.interval,
        now - first >= station.interval ==> identification_due(
            retired(state, true, written),
            Some(station),
            now,
        ),
        !identification_due(state, None, now),
        !identification_due(PumpState { first_tx: None, ..state }, Some(station), now),
{
}

/// An identification that is due takes the free place as soon as a packet may pass, with the
/// station's callsign as its bytes; while a packet is under way, or none may pass, it waits.
pub proof fn due_identification_takes_the_free_place(
    state: PumpState,
    station: StationBeacon,
    gate: GateState,
    first: u128,
    now: u128,
)
    requires
        state.pending is None,
        state.first_tx == Some(first),
        first <= now,
    ensures
        ({
            let after = pumped(state, Some(station), gate, false, false, now);
            &&& after.first_tx == state.first_tx
            &&& after.pending is Some <==> now - first >= station.interval && gate.ready
                && !gate.closed && (!gate.flow_control || gate.permit)
            &&& after.pending is Some ==> after.pending->0.beacon && after.pending->0.bytes
                == contents(station.callsign)
        }),
{
}

/// A pump writes only what is under way, as one data frame, and only while the device is
/// ready and, under flow control, permits it; it waits two seconds for the writer at most.
pub proof fn packet_is_written_through_an_open_gate(
    action: UsbPumpAction,
    after: PumpState,
    gate: GateState,
    exhausted: bool,
    now: u128,
)
    requires
        acts_on(action, after, gate, exhausted, now),
        now + 2_000_000_000 <= u128::MAX,
    ensures
        action is Write <==> after.pending is Some && gate.ready && !gate.closed && (
        !gate.flow_control || gate.permit),
        action is Write ==> action->bytes@ == framed(0x00, after.pending->0.bytes)
            && action->payload_len == after.pending->0.bytes.len() && action->deadline == now
            + 2_000_000_000,
{
}

/// A pump ends by itself only when its application has closed and nothing is under way. While
/// the device is not ready it waits for that, until the readiness deadline; otherwise it
/// waits for a packet, and looks again every second while an identification may come due.
pub proof fn idle_pump_waits(
    action: UsbPumpAction,
    after: PumpState,
    gate: GateState,
    exhausted: bool,
    now: u128,
)
    requires
        acts_on(action, after, gate, exhausted, now),
        now + 1_000_000_000 <= u128::MAX,
        !gate.closed,
    ensures
        action is Exit <==> after.pending is None && exhausted,
        action is Exit ==> action->Exit_0 is ApplicationClosed,
        !(action is Exit) && !gate.ready ==> action == (UsbPumpAction::AwaitGate {
            until: Some(gate.readiness_deadline),
        }),
        action is AwaitPacket ==> after.pending is None && !exhausted && gate.ready,
        action is AwaitPacket && after.first_tx is Some ==> action == (
        UsbPumpAction::AwaitPacket { until: Some((now + 1_000_000_000) as u128) }),
        action is AwaitPacket && after.first_tx is None ==> action == (
        UsbPumpAction::AwaitPacket { until: None }),
{
}

/// A pump is ended by a stop, by its application, by the writer's refusal, and, while it waits
/// for the device to be ready, by the end of that wait; by nothing else.
pub proof fn pump_ends_for_a_reason(event: UsbPumpEvent, gate: GateState, now: u128)
    ensures
        event is Stop ==> pump_exit(event, gate, now) == Some(UsbTxPumpExit::StopRequested),
        event is Closed ==> pump_exit(event, gate, now) == Some(UsbTxPumpExit::ApplicationClosed),
        event is Changed || event is Elapsed ==> pump_exit(event, gate, now) == (if !gate.closed
            && !gate.ready && now >= gate.readiness_deadline {
            Some(UsbTxPumpExit::ReadinessTimedOut)
        } else {
            None
        }),
        event is PacketWaitOver || event is Packet ==> pump_exit(event, gate, now) is None,
        event matches UsbPumpEvent::Written(Ok(_)) ==> pump_exit(event, gate, now) is None,
        event matches UsbPumpEvent::Written(Err(failure)) ==> pump_exit(event, gate, now) == Some(
            UsbTxPumpExit::WriterRejected(failure),
        ),
{
}

/// A packet of the application is taken under way as it is where nothing else is, and is no
/// identification; no other event touches what is under way, not even a failed write.
pub proof fn only_a_packet_comes_under_way(state: PumpState, event: UsbPumpEvent)
    ensures
        !(event is Packet) ==> pump_after_event(state, event) == state,
        event is Packet && state.pending is Some ==> pump_after_event(state, event) == state,
        event is Packet && state.pending is None ==> {
            let after = pump_after_event(state, event);
            &&& after.pending is Some
            &&& after.pending->0.bytes == contents(event->Packet_0)
            &&& !after.pending->0.beacon
            &&& after.first_tx == state.first_tx
        },
{
}

/// A new physical session keeps the packet under way and counts the time to the next
/// identification from its own first packet.
pub proof fn session_takes_the_packet_over(state: PumpState)
    ensures
        taken_over(state).pending == state.pending,
        taken_over(state).first_tx is None,
{
}

} // verus!
