//! What admits a packet to the USB writer: typed protocol readiness, and with flow
//! control one permission of the device for each packet. The state belongs to one
//! physical generation.
use vstd::prelude::*;
use crate::interface::{deadline_after, instant_after};
use crate::rnode_protocol::{RNodeProtocolFrame, RNodeProtocolState, RNodeReadiness};

verus! {

/// How long a generation may stay unready.
pub const USB_PROTOCOL_READINESS_DEADLINE: u128 = 10_000_000_000;

/// The transmit gate in front of the writer.
#[derive(Clone, Copy, Debug, PartialEq, Eq, Structural)]
pub struct UsbTxGate {
    flow_control: bool,
    ready: bool,
    permit: bool,
    closed: bool,
    readiness_deadline: u128,
}

/// What the transmit gate remembers.
pub ghost struct GateState {
    pub flow_control: bool,
    /// The device has proved its target.
    pub ready: bool,
    /// The device permits one packet.
    pub permit: bool,
    pub closed: bool,
    /// Until when readiness has to be proved.
    pub readiness_deadline: u128,
}

/// A new gate: not ready, with one packet permitted.
pub open spec fn new_gate(flow_control: bool, now: u128) -> GateState {
    GateState {
        flow_control,
        ready: false,
        permit: true,
        closed: false,
        readiness_deadline: instant_after(now, USB_PROTOCOL_READINESS_DEADLINE),
    }
}

/// The transmit gate after a frame that left the device ready or not. Losing readiness takes the
/// permission back and starts a new bounded wait; staying unready does not prolong it.
pub open spec fn observed(
    gate: GateState,
    ready: bool,
    command: u8,
    frame: Seq<u8>,
    now: u128,
) -> GateState {
    if gate.closed {
        gate
    } else {
        let lost = gate.ready && !ready;
        GateState {
            ready,
            permit: match RNodeProtocolFrame::meaning(command, frame) {
                Some(RNodeProtocolFrame::FlowPermission(permitted)) => permitted,
                Some(RNodeProtocolFrame::Reset) => false,
                _ => gate.permit && !lost,
            },
            readiness_deadline: if lost {
                instant_after(now, USB_PROTOCOL_READINESS_DEADLINE)
            } else {
                gate.readiness_deadline
            },
            ..gate
        }
    }
}

/// A packet may pass.
pub open spec fn open_for_packet(gate: GateState) -> bool {
    !gate.closed && gate.ready && (!gate.flow_control || gate.permit)
}

/// The transmit gate after a packet asked to pass. With flow control a packet that passes uses
/// the permission up.
pub open spec fn passed(gate: GateState) -> GateState {
    GateState {
        permit: gate.permit && !(gate.flow_control && open_for_packet(gate)),
        ..gate
    }
}

/// Until when readiness has to be proved, where it is not.
pub open spec fn awaited_readiness(gate: GateState) -> Option<u128> {
    if !gate.closed && !gate.ready {
        Some(gate.readiness_deadline)
    } else {
        None
    }
}

/// The device has proved its target; the interface is online then.
pub open spec fn device_is_ready(gate: GateState) -> bool {
    !gate.closed && gate.ready
}

/// The wait for readiness is over without it.
pub open spec fn readiness_is_late(gate: GateState, now: u128) -> bool {
    awaited_readiness(gate) is Some && now >= awaited_readiness(gate)->0
}

/// The transmit gate after it was closed.
pub open spec fn shut(gate: GateState) -> GateState {
    GateState { closed: true, ready: false, permit: false, ..gate }
}

impl View for UsbTxGate {
    type V = GateState;

    closed spec fn view(&self) -> GateState {
        GateState {
            flow_control: self.flow_control,
            ready: self.ready,
            permit: self.permit,
            closed: self.closed,
            readiness_deadline: self.readiness_deadline,
        }
    }
}

impl UsbTxGate {
    /// The transmit gate of a new generation.
    pub fn new(flow_control: bool, now: u128) -> (gate: Self)
        ensures
            gate@ == new_gate(flow_control, now),
    {
        UsbTxGate {
            flow_control,
            ready: false,
            permit: true,
            closed: false,
            readiness_deadline: deadline_after(now, USB_PROTOCOL_READINESS_DEADLINE),
        }
    }

    /// Takes one frame into account, and what it left the protocol at. Every valid
    /// permission counts, also one that repeats the last; a malformed one neither
    /// grants nor revokes.
    pub fn observe(
        &mut self,
        protocol: &RNodeProtocolState,
        command: u8,
        frame: &[u8],
        now: u128,
    )
        ensures
            final(self)@ == observed(old(self)@, protocol.is_ready(), command, frame@, now),
    {
        if self.closed {
            return ;
        }
        let ready = matches!(protocol.readiness(), RNodeReadiness::Ready);
        if self.ready && !ready {
            self.readiness_deadline = deadline_after(now, USB_PROTOCOL_READINESS_DEADLINE);
            self.permit = false;
        }
        self.ready = ready;
        match RNodeProtocolFrame::decode(command, frame) {
            Some(RNodeProtocolFrame::FlowPermission(permitted)) => {
                self.permit = permitted;
            },
            Some(RNodeProtocolFrame::Reset) => {
                self.permit = false;
            },
            _ => {},
        }
    }

    /// Tells whether a packet may pass.
    pub fn can_send(&self) -> (can: bool)
        ensures
            can == open_for_packet(self@),
    {
        !self.closed && self.ready && (!self.flow_control || self.permit)
    }

    /// Tells whether the device has proved its target; the interface is online then.
    pub fn is_ready(&self) -> (ready: bool)
        ensures
            ready == device_is_ready(self@),
    {
        !self.closed && self.ready
    }

    /// Until when readiness has to be proved, where it is not.
    pub fn readiness_deadline(&self) -> (deadline: Option<u128>)
        ensures
            deadline == awaited_readiness(self@),
    {
        if !self.closed && !self.ready {
            Some(self.readiness_deadline)
        } else {
            None
        }
    }

    /// Tells whether the wait for readiness is over.
    pub fn readiness_expired(&self, now: u128) -> (expired: bool)
        ensures
            expired == readiness_is_late(self@, now),
    {
        match self.readiness_deadline() {
            Some(deadline) => now >= deadline,
            None => false,
        }
    }

    /// Lets a packet pass, if it may.
    pub fn take_permit(&mut self) -> (taken: bool)
        ensures
            taken == open_for_packet(old(self)@),
            final(self)@ == passed(old(self)@),
    {
        if self.closed || !self.ready || (self.flow_control && !self.permit) {
            return false;
        }
        if self.flow_control {
            self.permit = false;
        }
        true
    }

    /// Closes the transmit gate for good.
    pub fn close(&mut self)
        ensures
            final(self)@ == shut(old(self)@),
    {
        self.closed = true;
        self.ready = false;
        self.permit = false;
    }
}

/// With flow control one permission lets exactly one packet pass; the next one waits
/// for another.
pub proof fn permit_admits_one_packet(gate: GateState)
    ensures
        gate.flow_control ==> !open_for_packet(passed(gate)),
        !gate.flow_control ==> passed(gate) == gate,
{
}

/// Permissions do not add up: however often the device repeats one, it is worth one
/// packet.
pub proof fn permits_do_not_add_up(gate: GateState, command: u8, frame: Seq<u8>, now: u128)
    requires
        RNodeProtocolFrame::meaning(command, frame) == Some(
            RNodeProtocolFrame::FlowPermission(true),
        ),
    ensures
        ({
            let once = observed(gate, true, command, frame, now);
            observed(once, true, command, frame, now) == once
        }),
{
}

/// Frames that leave the device unready never push the end of the wait for readiness
/// out.
pub proof fn unready_frames_do_not_extend_the_wait(
    gate: GateState,
    command: u8,
    frame: Seq<u8>,
    now: u128,
)
    requires
        awaited_readiness(gate) is Some,
    ensures
        awaited_readiness(observed(gate, false, command, frame, now)) == awaited_readiness(gate),
{
}

/// Losing readiness revokes a permission that was not used, and starts a new wait.
pub proof fn lost_readiness_revokes_the_permit(
    gate: GateState,
    command: u8,
    frame: Seq<u8>,
    now: u128,
)
    requires
        !gate.closed,
        gate.ready,
        !(RNodeProtocolFrame::meaning(command, frame) matches Some(
            RNodeProtocolFrame::FlowPermission(permitted),
        )),
    ensures
        ({
            let lost = observed(gate, false, command, frame, now);
            &&& !lost.permit
            &&& awaited_readiness(lost) == Some(
                instant_after(now, USB_PROTOCOL_READINESS_DEADLINE),
            )
        }),
{
}

/// A closed gate stays closed: no frame opens it again and no packet passes.
pub proof fn closed_gate_stays_closed(
    gate: GateState,
    ready: bool,
    command: u8,
    frame: Seq<u8>,
    now: u128,
)
    ensures
        observed(shut(gate), ready, command, frame, now) == shut(gate),
        passed(shut(gate)) == shut(gate),
        !open_for_packet(shut(gate)),
        awaited_readiness(shut(gate)) is None,
        shut(gate).closed && !shut(gate).ready && !shut(gate).permit,
{
}

/// A packet passes exactly while the device is ready and, under flow control, permits one.
/// Where it may not pass nothing is used up.
pub proof fn packet_passes_a_ready_device(gate: GateState)
    ensures
        open_for_packet(gate) <==> gate.ready && !gate.closed && (gate.flow_control ==> gate.permit),
        !open_for_packet(gate) ==> passed(gate) == gate,
        passed(gate).ready == gate.ready,
        passed(gate).closed == gate.closed,
        passed(gate).readiness_deadline == gate.readiness_deadline,
{
}

/// A new generation is not ready, has one packet permitted, and has ten seconds to prove its
/// target.
pub proof fn new_generation_has_ten_seconds(flow_control: bool, now: u128)
    requires
        now + 10_000_000_000 <= u128::MAX,
    ensures
        ({
            let gate = new_gate(flow_control, now);
            &&& gate.flow_control == flow_control
            &&& !gate.ready && !gate.closed && gate.permit
            &&& awaited_readiness(gate) == Some((now + 10_000_000_000) as u128)
            &&& !open_for_packet(gate)
        }),
{
}

/// The device's readiness is taken over from every frame. A permission counts as the device
/// gives it or takes it, a reset takes it, and any other frame leaves it as it is as long as
/// the device stays ready.
pub proof fn permission_follows_the_device(
    gate: GateState,
    ready: bool,
    command: u8,
    frame: Seq<u8>,
    now: u128,
)
    requires
        !gate.closed,
    ensures
        observed(gate, ready, command, frame, now).ready == ready,
        !observed(gate, ready, command, frame, now).closed,
        observed(gate, ready, command, frame, now).flow_control == gate.flow_control,
        observed(gate, ready, 0x0F, seq![1u8], now).permit,
        !observed(gate, ready, 0x0F, seq![0u8], now).permit,
        !observed(gate, ready, 0x55, seq![0xF8u8], now).permit,
        command != 0x0F && command != 0x55 && (ready || !gate.ready) ==> observed(
            gate,
            ready,
            command,
            frame,
            now,
        ).permit == gate.permit,
        frame.len() != 1 && (ready || !gate.ready) ==> observed(
            gate,
            ready,
            command,
            frame,
            now,
        ).permit == gate.permit,
{
}

/// A device that loses its readiness has ten seconds from then to prove its target again; one
/// that keeps it, or had none, keeps the deadline that it has.
pub proof fn lost_readiness_starts_ten_seconds(
    gate: GateState,
    ready: bool,
    command: u8,
    frame: Seq<u8>,
    now: u128,
)
    requires
        !gate.closed,
        now + 10_000_000_000 <= u128::MAX,
    ensures
        gate.ready && !ready ==> observed(gate, ready, command, frame, now).readiness_deadline
            == now + 10_000_000_000,
        !gate.ready || ready ==> observed(gate, ready, command, frame, now).readiness_deadline
            == gate.readiness_deadline,
{
}

/// An interface is online exactly while its device is ready; while it is not, and the transmit
/// gate is not closed for good, the wait for readiness is over from the deadline on.
pub proof fn readiness_is_awaited_until_its_deadline(gate: GateState, now: u128)
    ensures
        device_is_ready(gate) <==> gate.ready && !gate.closed,
        open_for_packet(gate) ==> device_is_ready(gate),
        readiness_is_late(gate, now) <==> !gate.ready && !gate.closed && now
            >= gate.readiness_deadline,
{
}

} // verus!
