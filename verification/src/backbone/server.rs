//! A Backbone server: which peers become links, and what each link is called.
use vstd::prelude::*;
use vstd::string::*;
use crate::backbone::config::{
    child_mtu, link_direction, link_mtu, BackboneServerConfig, ACCEPT_RETRY_WAIT,
    CHILD_BITRATE_GUESS, CHILD_OPTIMISED_MTU,
};
use crate::backbone::flap::{
    after_admission, rejects, FastFlapAdmission, FastFlapConnection, FastFlapTable, PeerAddress,
    TrackedPeers,
};
use crate::interface::{InterfaceDirection, InterfaceId, InterfaceProfile};
use crate::rnode::InboundPacket;
use crate::text::{
    decimal, decimal_text, join3, numeral_stands_for_its_number, numeral_value,
};

verus! {

/// How many clients are connected, counted in 64 bits.
#[derive(Clone, Copy, Debug, PartialEq, Eq, Structural)]
pub struct ActiveClients {
    pub count: u64,
}

/// The count after one client more connected, or went.
pub open spec fn count_after(count: u64, connected: bool) -> u64 {
    if connected {
        count.wrapping_add(1)
    } else {
        count.wrapping_sub(1)
    }
}

impl ActiveClients {
    /// A client has connected.
    pub fn connected(&mut self)
        ensures
            final(self).count == count_after(old(self).count, true),
    {
        self.count = self.count.wrapping_add(1);
    }

    /// A client has gone.
    pub fn disconnected(&mut self)
        ensures
            final(self).count == count_after(old(self).count, false),
    {
        self.count = self.count.wrapping_sub(1);
    }
}

/// The count after a run of clients that connected (true) or went (false).
pub open spec fn counted(run: Seq<bool>) -> u64
    decreases run.len(),
{
    if run.len() == 0 {
        0
    } else {
        count_after(counted(run.drop_last()), run.last())
    }
}

/// How many clients of a run are still there.
pub open spec fn present(run: Seq<bool>) -> int
    decreases run.len(),
{
    if run.len() == 0 {
        0
    } else if run.last() {
        present(run.drop_last()) + 1
    } else {
        present(run.drop_last()) - 1
    }
}

/// A client is counted from its connection until it has gone: in a run in which nobody
/// goes who was not there, the count is the number of clients that are there.
pub proof fn clients_are_counted_while_connected(run: Seq<bool>)
    requires
        forall|end: int|
            0 <= end <= run.len() ==> 0 <= #[trigger] present(run.subrange(0, end)) <= u64::MAX,
    ensures
        counted(run) == present(run),
    decreases run.len(),
{
    assert(run.subrange(0, run.len() as int) =~= run);
    if run.len() > 0 {
        let before = run.drop_last();
        assert forall|end: int| 0 <= end <= before.len() implies 0 <= #[trigger] present(
            before.subrange(0, end),
        ) <= u64::MAX by {
            assert(before.subrange(0, end) =~= run.subrange(0, end));
        }
        clients_are_counted_while_connected(before);
    }
}

/// What becomes of a peer at the listener.
#[derive(Debug)]
pub enum AcceptedPeer {
    /// It is turned away.
    Rejected { flaps: u64 },
    /// It becomes a link.
    Link { profile: InterfaceProfile, connection: FastFlapConnection },
}

/// What a link is called.
pub open spec fn link_name(parent: Seq<char>, id: InterfaceId) -> Seq<char> {
    parent + "/client_"@ + decimal_text(id as nat)
}

/// What becomes of a peer, given the number that the next link takes before and after.
pub open spec fn accepted_as(
    config: BackboneServerConfig,
    parent_id: InterfaceId,
    next_id: InterfaceId,
    id_after: InterfaceId,
    known: TrackedPeers,
    address: PeerAddress,
    now: u128,
    accepted: AcceptedPeer,
) -> bool {
    match accepted {
        AcceptedPeer::Rejected { flaps } => {
            &&& rejects(known, address, config.policy(), now)
            &&& flaps == known[address].flaps
            &&& id_after == next_id
        },
        AcceptedPeer::Link { profile, connection } => {
            &&& !rejects(known, address, config.policy(), now)
            &&& id_after == next_id.wrapping_add(1)
            &&& connection == (FastFlapConnection {
                remote_ip: address,
                started_at: Some(now),
                policy: config.policy(),
            })
            &&& profile.id == next_id
            &&& profile.parent_id == Some(parent_id)
            &&& profile.name@ == link_name(config.name@, next_id)
            &&& profile.mode == config.mode
            &&& profile.direction == link_direction()
            &&& profile.bitrate == CHILD_BITRATE_GUESS
            &&& profile.mtu == link_mtu(Some(CHILD_OPTIMISED_MTU))
        },
    }
}

/// Decides what becomes of a peer. Only a link takes a number.
pub fn accept_peer(
    config: &BackboneServerConfig,
    parent_id: InterfaceId,
    next_id: &mut InterfaceId,
    table: &mut FastFlapTable,
    address: PeerAddress,
    now: u128,
) -> (accepted: AcceptedPeer)
    requires
        old(table).well_formed(),
    ensures
        final(table).well_formed(),
        final(table).places() == old(table).places(),
        final(table)@ == after_admission(
            old(table)@,
            old(table).places(),
            address,
            config.policy(),
            now,
        ),
        accepted_as(
            *config,
            parent_id,
            *old(next_id),
            *final(next_id),
            old(table)@,
            address,
            now,
            accepted,
        ),
{
    let connection = match table.admit_peer(address, config.fast_flap_policy(), now) {
        FastFlapAdmission::Rejected { flaps } => {
            return AcceptedPeer::Rejected { flaps };
        },
        FastFlapAdmission::Allowed(connection) => connection,
    };
    let id: InterfaceId = *next_id;
    *next_id = id.wrapping_add(1);
    let profile = InterfaceProfile {
        id,
        parent_id: Some(parent_id),
        name: join3(config.name.as_str(), "/client_", decimal(id).as_str()),
        mode: config.mode,
        direction: InterfaceDirection {
            inbound: true,
            outbound: true,
            forward: false,
            repeat: false,
        },
        bitrate: CHILD_BITRATE_GUESS,
        mtu: child_mtu(),
    };
    AcceptedPeer::Link { profile, connection }
}

/// What came of a listener's wait.
#[derive(Clone, Copy, Debug, PartialEq, Eq, Structural)]
pub enum ListenerEvent {
    /// A peer was turned away.
    Rejected,
    /// A link was handed over.
    HandedOver,
    /// Nobody takes links any more.
    RegistryClosed,
    AcceptFailed,
}

/// What a listener does next.
#[derive(Clone, Copy, Debug, PartialEq, Eq, Structural)]
pub enum ListenerAction {
    Accept,
    /// Accept again after so long.
    Wait { wait: u128 },
    /// Go offline and end.
    End,
}

/// What a listener does next.
pub open spec fn listener_next(event: ListenerEvent) -> ListenerAction {
    match event {
        ListenerEvent::Rejected => ListenerAction::Accept,
        ListenerEvent::HandedOver => ListenerAction::Accept,
        ListenerEvent::RegistryClosed => ListenerAction::End,
        ListenerEvent::AcceptFailed => ListenerAction::Wait { wait: ACCEPT_RETRY_WAIT },
    }
}

/// Decides what a listener does next.
pub fn listener_action(event: ListenerEvent) -> (action: ListenerAction)
    ensures
        action == listener_next(event),
{
    match event {
        ListenerEvent::Rejected => ListenerAction::Accept,
        ListenerEvent::HandedOver => ListenerAction::Accept,
        ListenerEvent::RegistryClosed => ListenerAction::End,
        ListenerEvent::AcceptFailed => ListenerAction::Wait { wait: ACCEPT_RETRY_WAIT },
    }
}

/// The frames that hold something, in order.
pub open spec fn nonempty(frames: Seq<Seq<u8>>) -> Seq<Seq<u8>>
    decreases frames.len(),
{
    if frames.len() == 0 {
        Seq::empty()
    } else if frames.last().len() == 0 {
        nonempty(frames.drop_last())
    } else {
        nonempty(frames.drop_last()).push(frames.last())
    }
}

/// The bytes behind a vector of frames.
pub open spec fn frame_bytes(frames: Seq<Vec<u8>>) -> Seq<Seq<u8>> {
    frames.map_values(|frame: Vec<u8>| frame@)
}

/// The bytes behind a vector of packets.
pub open spec fn packet_bytes(packets: Seq<InboundPacket>) -> Seq<Seq<u8>> {
    packets.map_values(|packet: InboundPacket| packet.raw@)
}

/// The packets that a read of a link delivers: every frame that holds something, in
/// order. A link knows nothing of signal quality.
pub fn link_packets(frames: Vec<Vec<u8>>, interface_id: InterfaceId) -> (packets: Vec<
    InboundPacket,
>)
    ensures
        packet_bytes(packets@) == nonempty(frame_bytes(frames@)),
        forall|i: int|
            0 <= i < packets@.len() ==> (#[trigger] packets@[i]).interface_id == interface_id
                && packets@[i].rssi is None && packets@[i].snr is None,
{
    let ghost raw = frames@;
    let ghost all = frame_bytes(raw);
    let mut rest = frames;
    let mut packets: Vec<InboundPacket> = Vec::new();
    let ghost mut done: int = 0;
    assert(packet_bytes(packets@) =~= nonempty(all.subrange(0, 0)));
    while rest.len() > 0
        invariant
            0 <= done <= raw.len(),
            all == frame_bytes(raw),
            rest@ == raw.subrange(done, raw.len() as int),
            packet_bytes(packets@) == nonempty(all.subrange(0, done)),
            forall|i: int|
                0 <= i < packets@.len() ==> (#[trigger] packets@[i]).interface_id == interface_id
                    && packets@[i].rssi is None && packets@[i].snr is None,
        decreases rest@.len(),
    {
        let frame = rest.remove(0);
        let ghost before = packets@;
        proof {
            let grown = all.subrange(0, done + 1);
            assert(frame == raw[done]);
            assert(grown.drop_last() =~= all.subrange(0, done));
            assert(grown.last() == frame@);
            assert(rest@ =~= raw.subrange(done + 1, raw.len() as int));
        }
        if frame.len() > 0 {
            let ghost bytes = frame@;
            packets.push(InboundPacket { raw: frame, interface_id, rssi: None, snr: None });
            assert(packet_bytes(packets@) =~= packet_bytes(before).push(bytes));
        }
        proof {
            done = done + 1;
        }
    }
    assert(all.subrange(0, done) =~= all);
    packets
}

/// A peer that has flapped more than is tolerated, not longer ago than the block time, is
/// told so and takes no number. Every other peer becomes a link with the next number, in the
/// server's mode, which carries packets both ways and counts its flaps from now.
pub proof fn peer_becomes_a_link_unless_it_flapped(
    config: BackboneServerConfig,
    parent_id: InterfaceId,
    next_id: InterfaceId,
    id_after: InterfaceId,
    known: TrackedPeers,
    address: PeerAddress,
    now: u128,
    accepted: AcceptedPeer,
)
    requires
        accepted_as(config, parent_id, next_id, id_after, known, address, now, accepted),
    ensures
        accepted is Rejected <==> config.block_fast_flapping && known.contains_key(address)
            && known[address].flaps > config.fast_flapping_grace && now
            - known[address].last_flap <= config.fast_flapping_block_time,
        accepted is Rejected ==> id_after == next_id && accepted->flaps == known[address].flaps,
        accepted is Link && next_id < u64::MAX ==> id_after == next_id + 1,
        accepted is Link ==> {
            let profile = accepted->profile;
            let connection = accepted->connection;
            &&& profile.id == next_id
            &&& profile.parent_id == Some(parent_id)
            &&& profile.mode == config.mode
            &&& profile.direction.inbound && profile.direction.outbound
            &&& !profile.direction.forward && !profile.direction.repeat
            &&& profile.bitrate == 100_000_000
            &&& profile.mtu == 65_536
            &&& connection.remote_ip == address
            &&& connection.started_at == Some(now)
            &&& connection.policy.threshold == config.fast_flapping_threshold
            &&& connection.policy.grace == config.fast_flapping_grace
            &&& connection.policy.block_time == config.fast_flapping_block_time
            &&& connection.policy.enabled == config.block_fast_flapping
        },
{
}

/// A link is called after its server, with its number behind; no two links of a server are
/// called the same.
pub proof fn link_is_named_by_its_number(parent: Seq<char>, id: InterfaceId, other: InterfaceId)
    ensures
        ({
            let name = link_name(parent, id);
            let mark = seq!['/', 'c', 'l', 'i', 'e', 'n', 't', '_'];
            &&& name.subrange(0, parent.len() as int) == parent
            &&& name.subrange(parent.len() as int, (parent.len() + 8) as int) == mark
            &&& numeral_value(name.subrange((parent.len() + 8) as int, name.len() as int)) == id
        }),
        link_name(parent, id) == link_name(parent, other) ==> id == other,
{
    reveal_strlit("/client_");
    let name = link_name(parent, id);
    assert("/client_"@ =~= seq!['/', 'c', 'l', 'i', 'e', 'n', 't', '_']);
    assert(name.subrange(0, parent.len() as int) =~= parent);
    assert(name.subrange(parent.len() as int, (parent.len() + 8) as int) =~= "/client_"@);
    assert(name.subrange((parent.len() + 8) as int, name.len() as int) =~= decimal_text(id as nat));
    let twin = link_name(parent, other);
    assert(twin.subrange((parent.len() + 8) as int, twin.len() as int) =~= decimal_text(other as nat));
    numeral_stands_for_its_number(id as nat);
    numeral_stands_for_its_number(other as nat);
}

/// A listener goes on accepting whatever becomes of a peer, waits a tenth of a second after
/// it failed to accept, and ends only when nobody takes its links.
pub proof fn listener_goes_on_accepting(event: ListenerEvent)
    ensures
        listener_next(event) is End <==> event is RegistryClosed,
        event is AcceptFailed ==> listener_next(event) == (ListenerAction::Wait {
            wait: 100_000_000,
        }),
        event is Rejected || event is HandedOver ==> listener_next(event) is Accept,
{
}

/// Empty frames are left out, and nothing else is; the rest stays in order.
pub proof fn only_empty_frames_are_left_out(one: Seq<Seq<u8>>, other: Seq<Seq<u8>>)
    ensures
        nonempty(one + other) == nonempty(one) + nonempty(other),
        one.len() == 1 && one[0].len() > 0 ==> nonempty(one) == one,
        one.len() == 1 && one[0].len() == 0 ==> nonempty(one).len() == 0,
        nonempty(Seq::<Seq<u8>>::empty()).len() == 0,
    decreases other.len(),
{
    if one.len() == 1 {
        assert(one.drop_last() =~= Seq::<Seq<u8>>::empty());
        assert(nonempty(one.drop_last()) =~= Seq::<Seq<u8>>::empty());
        assert(one =~= Seq::<Seq<u8>>::empty().push(one[0]));
    }
    let all = one + other;
    if other.len() == 0 {
        assert(all =~= one);
        assert(nonempty(one) + nonempty(other) =~= nonempty(one));
    } else {
        only_empty_frames_are_left_out(one, other.drop_last());
        assert(all.drop_last() =~= one + other.drop_last());
        assert(all.last() == other.last());
        assert(nonempty(all) =~= nonempty(one) + nonempty(other));
    }
}

} // verus!
