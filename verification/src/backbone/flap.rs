//! Peers that connect and disconnect in quick succession are turned away for a while.
//! The table of such peers is bounded, so that it cannot be made to grow without limit.
use vstd::prelude::*;
use crate::interface::time_until;

verus! {

/// How many peers a process keeps track of.
pub const MAX_TRACKED_FAST_FLAP_IPS: usize = 4096;

/// The address of a peer.
#[derive(Clone, Copy, Debug, PartialEq, Eq, Structural)]
pub enum PeerAddress {
    V4(u32),
    V6(u128),
}

/// When a peer is turned away. Durations are in nanoseconds.
#[derive(Clone, Copy, Debug, PartialEq, Eq, Structural)]
pub struct FastFlapPolicy {
    pub enabled: bool,
    /// A shorter connection is a flap.
    pub threshold: u128,
    /// How many flaps are tolerated.
    pub grace: u64,
    /// How long after its last flap a peer is remembered.
    pub block_time: u128,
}

/// What is known of a peer that has flapped.
#[derive(Clone, Copy, Debug, PartialEq, Eq, Structural)]
pub struct FastFlapEntry {
    pub last_flap: u128,
    pub flaps: u64,
}

#[derive(Clone, Copy, Debug, PartialEq, Eq, Structural)]
struct TrackedPeer {
    address: PeerAddress,
    entry: FastFlapEntry,
}

/// The peers that have flapped.
#[derive(Debug)]
pub struct FastFlapTable {
    peers: Vec<TrackedPeer>,
    capacity: usize,
}

/// The peers that are remembered.
pub type TrackedPeers = Map<PeerAddress, FastFlapEntry>;

/// What is known of a peer no longer counts.
pub open spec fn expired(entry: FastFlapEntry, policy: FastFlapPolicy, now: u128) -> bool {
    time_until(entry.last_flap, now) > policy.block_time
}

/// The peers without those of which nothing counts any more.
pub open spec fn pruned(known: TrackedPeers, policy: FastFlapPolicy, now: u128) -> TrackedPeers {
    Map::new(
        |address: PeerAddress|
            known.contains_key(address) && !expired(known[address], policy, now),
        |address: PeerAddress| known[address],
    )
}

/// A peer is turned away.
pub open spec fn rejects(
    known: TrackedPeers,
    address: PeerAddress,
    policy: FastFlapPolicy,
    now: u128,
) -> bool {
    policy.enabled && known.contains_key(address) && !expired(known[address], policy, now)
        && known[address].flaps > policy.grace
}

/// The peers after one has asked to connect.
pub open spec fn after_admission(
    known: TrackedPeers,
    capacity: nat,
    address: PeerAddress,
    policy: FastFlapPolicy,
    now: u128,
) -> TrackedPeers {
    if !policy.enabled {
        known
    } else if known.contains_key(address) {
        if expired(known[address], policy, now) {
            known.remove(address)
        } else {
            known
        }
    } else if known.dom().len() >= capacity {
        pruned(known, policy, now)
    } else {
        known
    }
}

/// The connection was a flap.
pub open spec fn is_flap(policy: FastFlapPolicy, started_at: u128, now: u128) -> bool {
    policy.enabled && time_until(started_at, now) < policy.threshold
}

/// One flap more.
pub open spec fn one_more(flaps: u64) -> u64 {
    if flaps < u64::MAX {
        (flaps + 1) as u64
    } else {
        u64::MAX
    }
}

/// The peers after one has disconnected. A peer that is not remembered yet takes a free
/// place, if there is one after those that no longer count are gone.
pub open spec fn after_disconnect(
    known: TrackedPeers,
    capacity: nat,
    address: PeerAddress,
    policy: FastFlapPolicy,
    started_at: u128,
    now: u128,
) -> TrackedPeers {
    if !is_flap(policy, started_at, now) {
        known
    } else if known.contains_key(address) {
        known.insert(
            address,
            FastFlapEntry { last_flap: now, flaps: one_more(known[address].flaps) },
        )
    } else {
        let room = if known.dom().len() >= capacity {
            pruned(known, policy, now)
        } else {
            known
        };
        if room.dom().len() >= capacity {
            room
        } else {
            room.insert(address, FastFlapEntry { last_flap: now, flaps: 1 })
        }
    }
}

/// The peers that are turned away.
pub open spec fn blocked(known: TrackedPeers, grace: u64) -> Set<PeerAddress> {
    known.dom().filter(|address: PeerAddress| known[address].flaps > grace)
}

/// The peers after a look at them.
pub open spec fn after_inspection(
    known: TrackedPeers,
    policy: FastFlapPolicy,
    now: u128,
) -> TrackedPeers {
    if policy.enabled {
        pruned(known, policy, now)
    } else {
        known
    }
}

/// The peers that a policy turns away at some time.
pub open spec fn turned_away(
    known: TrackedPeers,
    policy: FastFlapPolicy,
    now: u128,
) -> Set<PeerAddress> {
    if policy.enabled {
        blocked(pruned(known, policy, now), policy.grace)
    } else {
        Set::empty()
    }
}

/// What became of a peer that asked to connect.
#[derive(Debug, PartialEq, Eq, Structural)]
pub enum FastFlapAdmission {
    Allowed(FastFlapConnection),
    Rejected { flaps: u64 },
}

/// A connection that will be accounted for when it ends.
#[derive(Debug, PartialEq, Eq, Structural)]
pub struct FastFlapConnection {
    pub remote_ip: PeerAddress,
    /// When it began, until its end was accounted for.
    pub started_at: Option<u128>,
    pub policy: FastFlapPolicy,
}

/// What becomes of a peer that asks to connect.
pub open spec fn admission_of(
    known: TrackedPeers,
    remote_ip: PeerAddress,
    policy: FastFlapPolicy,
    now: u128,
) -> FastFlapAdmission {
    if rejects(known, remote_ip, policy, now) {
        FastFlapAdmission::Rejected { flaps: known[remote_ip].flaps }
    } else {
        FastFlapAdmission::Allowed(
            FastFlapConnection { remote_ip, started_at: Some(now), policy },
        )
    }
}

/// The peers after a connection has ended, unless its end was accounted for before.
pub open spec fn after_end(
    connection: FastFlapConnection,
    known: TrackedPeers,
    capacity: nat,
    now: u128,
) -> TrackedPeers {
    match connection.started_at {
        Some(started_at) => after_disconnect(
            known,
            capacity,
            connection.remote_ip,
            connection.policy,
            started_at,
            now,
        ),
        None => known,
    }
}

/// The connection after its end was accounted for.
pub open spec fn ended(connection: FastFlapConnection) -> FastFlapConnection {
    FastFlapConnection { started_at: None, ..connection }
}

/// What a server tells of itself.
#[derive(Clone, Copy, Debug, PartialEq, Eq, Structural)]
pub struct InterfaceInspectionSnapshot {
    pub active_clients: Option<u64>,
    pub blocked_ips: Option<u64>,
}

impl FastFlapTable {
    spec fn holds(self, index: int, address: PeerAddress) -> bool {
        0 <= index < self.peers@.len() && self.peers@[index].address == address
    }

    /// No peer is there twice, and there are no more than the table has places.
    pub closed spec fn well_formed(self) -> bool {
        &&& self.peers@.len() <= self.capacity
        &&& forall|i: int, j: int|
            0 <= i < j < self.peers@.len() ==> (#[trigger] self.peers@[i]).address != (
            #[trigger] self.peers@[j]).address
    }

    /// How many peers can be remembered.
    pub closed spec fn places(self) -> nat {
        self.capacity as nat
    }

    /// An empty table with that many places.
    pub fn new(capacity: usize) -> (table: Self)
        ensures
            table.well_formed(),
            table.places() == capacity,
            table@ == TrackedPeers::empty(),
    {
        let table = FastFlapTable { peers: Vec::new(), capacity };
        assert(table@ =~= TrackedPeers::empty());
        table
    }

    proof fn lemma_held(self, index: int)
        requires
            self.well_formed(),
            0 <= index < self.peers@.len(),
        ensures
            self@.contains_key(self.peers@[index].address),
            self@[self.peers@[index].address] == self.peers@[index].entry,
    {
        let address = self.peers@[index].address;
        assert(self.holds(index, address));
        let chosen = choose|i: int| self.holds(i, address);
        assert(chosen == index);
    }

    /// The table remembers as many peers as it has entries.
    proof fn lemma_size(self)
        requires
            self.well_formed(),
        ensures
            self@.dom().finite(),
            self@.dom().len() == self.peers@.len(),
    {
        let addresses = self.peers@.map_values(|peer: TrackedPeer| peer.address);
        assert(addresses.no_duplicates()) by {
            assert forall|i: int, j: int|
                0 <= i < addresses.len() && 0 <= j < addresses.len() && i != j implies addresses[i]
                != addresses[j] by {
                if i < j {
                    assert(self.peers@[i].address != self.peers@[j].address);
                } else {
                    assert(self.peers@[j].address != self.peers@[i].address);
                }
            }
        }
        addresses.unique_seq_to_set();
        assert(self@.dom() =~= addresses.to_set()) by {
            assert forall|address: PeerAddress| #[trigger]
                addresses.to_set().contains(address) implies self@.contains_key(address) by {
                let i = choose|i: int| 0 <= i < addresses.len() && addresses[i] == address;
                self.lemma_held(i);
            }
            assert forall|address: PeerAddress| #[trigger] self@.contains_key(address) implies
            addresses.to_set().contains(address) by {
                let i = choose|i: int| self.holds(i, address);
                assert(addresses[i] == address);
            }
        }
    }

    /// A table never remembers more peers than it has places.
    pub proof fn table_stays_within_its_places(self)
        requires
            self.well_formed(),
        ensures
            self@.dom().finite(),
            self@.dom().len() <= self.places(),
    {
        self.lemma_size();
    }

    fn find(&self, address: PeerAddress) -> (found: Option<usize>)
        requires
            self.well_formed(),
        ensures
            match found {
                Some(index) => self.holds(index as int, address) && self@.contains_key(address)
                    && self@[address] == self.peers@[index as int].entry,
                None => !self@.contains_key(address),
            },
    {
        let mut index: usize = 0;
        while index < self.peers.len()
            invariant
                self.well_formed(),
                index <= self.peers@.len(),
                forall|i: int| 0 <= i < index ==> !self.holds(i, address),
            decreases self.peers@.len() - index,
        {
            if self.peers[index].address == address {
                proof {
                    self.lemma_held(index as int);
                }
                return Some(index);
            }
            index = index + 1;
        }
        None
    }

    /// How often a peer has flapped, where it is remembered.
    pub fn tracked_flaps(&self, address: PeerAddress) -> (flaps: Option<u64>)
        requires
            self.well_formed(),
        ensures
            flaps == (if self@.contains_key(address) {
                Some(self@[address].flaps)
            } else {
                None
            }),
    {
        match self.find(address) {
            Some(index) => Some(self.peers[index].entry.flaps),
            None => None,
        }
    }

    fn prune_expired(&mut self, policy: FastFlapPolicy, now: u128)
        requires
            old(self).well_formed(),
        ensures
            final(self).well_formed(),
            final(self).places() == old(self).places(),
            final(self)@ == pruned(old(self)@, policy, now),
    {
        let mut kept: Vec<TrackedPeer> = Vec::new();
        let ghost mut origin: Seq<int> = Seq::empty();
        let mut index: usize = 0;
        while index < self.peers.len()
            invariant
                *self == *old(self),
                self.well_formed(),
                index <= self.peers@.len(),
                kept@.len() <= index,
                origin.len() == kept@.len(),
                forall|k: int|
                    0 <= k < kept@.len() ==> 0 <= #[trigger] origin[k] < index && kept@[k]
                        == self.peers@[origin[k]] && !expired(kept@[k].entry, policy, now),
                forall|k: int, l: int|
                    0 <= k < l < origin.len() ==> #[trigger] origin[k] < #[trigger] origin[l],
                forall|i: int|
                    0 <= i < index && !expired((#[trigger] self.peers@[i]).entry, policy, now)
                        ==> origin.contains(i),
            decreases self.peers@.len() - index,
        {
            let peer = self.peers[index];
            let age: u128 = now.saturating_sub(peer.entry.last_flap);
            let ghost before = origin;
            if age <= policy.block_time {
                kept.push(peer);
                proof {
                    origin = origin.push(index as int);
                    assert(origin[before.len() as int] == index);
                }
            }
            proof {
                assert forall|i: int|
                    0 <= i < index + 1 && !expired(
                        (#[trigger] self.peers@[i]).entry,
                        policy,
                        now,
                    ) implies origin.contains(i) by {
                    if i < index {
                        let k = choose|k: int| 0 <= k < before.len() && before[k] == i;
                        assert(origin[k] == i);
                    } else {
                        assert(origin[before.len() as int] == i);
                    }
                }
            }
            index = index + 1;
        }
        let ghost was = *self;
        self.peers = kept;
        proof {
            assert forall|i: int, j: int| 0 <= i < j < self.peers@.len() implies (
            #[trigger] self.peers@[i]).address != (#[trigger] self.peers@[j]).address by {
                assert(origin[i] < origin[j]);
                assert(was.peers@[origin[i]].address != was.peers@[origin[j]].address);
            }
            let wanted = pruned(was@, policy, now);
            assert forall|address: PeerAddress| #[trigger]
                self@.contains_key(address) implies wanted.contains_key(address) && self@[address]
                == wanted[address] by {
                let k = choose|k: int| self.holds(k, address);
                self.lemma_held(k);
                was.lemma_held(origin[k]);
            }
            assert forall|address: PeerAddress| #[trigger]
                wanted.contains_key(address) implies self@.contains_key(address) by {
                let i = choose|i: int| was.holds(i, address);
                was.lemma_held(i);
                assert(origin.contains(i));
                let k = choose|k: int| 0 <= k < origin.len() && origin[k] == i;
                assert(self.holds(k, address));
            }
            assert(self@ =~= wanted);
        }
    }

    fn remove_at(&mut self, index: usize)
        requires
            old(self).well_formed(),
            index < old(self).peers@.len(),
        ensures
            final(self).well_formed(),
            final(self).places() == old(self).places(),
            final(self)@ == old(self)@.remove(old(self).peers@[index as int].address),
    {
        let ghost was = *self;
        let ghost address = self.peers@[index as int].address;
        self.peers.remove(index);
        proof {
            let shifted = |k: int| if k < index { k } else { k + 1 };
            assert(forall|k: int|
                0 <= k < self.peers@.len() ==> #[trigger] self.peers@[k] == was.peers@[shifted(k)]);
            assert forall|i: int, j: int| 0 <= i < j < self.peers@.len() implies (
            #[trigger] self.peers@[i]).address != (#[trigger] self.peers@[j]).address by {
                assert(was.peers@[shifted(i)].address != was.peers@[shifted(j)].address);
            }
            let wanted = was@.remove(address);
            assert forall|other: PeerAddress| #[trigger]
                self@.contains_key(other) implies wanted.contains_key(other) && self@[other]
                == wanted[other] by {
                let k = choose|k: int| self.holds(k, other);
                self.lemma_held(k);
                was.lemma_held(shifted(k));
                if k < index {
                    assert(was.peers@[k].address != was.peers@[index as int].address);
                } else {
                    assert(was.peers@[index as int].address != was.peers@[k + 1].address);
                }
            }
            assert forall|other: PeerAddress| #[trigger]
                wanted.contains_key(other) implies self@.contains_key(other) by {
                let i = choose|i: int| was.holds(i, other);
                let k = if i < index { i } else { i - 1 };
                assert(shifted(k) == i);
                assert(self.holds(k, other));
            }
            assert(self@ =~= wanted);
        }
    }

    fn replace_at(&mut self, index: usize, entry: FastFlapEntry)
        requires
            old(self).well_formed(),
            index < old(self).peers@.len(),
        ensures
            final(self).well_formed(),
            final(self).places() == old(self).places(),
            final(self)@ == old(self)@.insert(old(self).peers@[index as int].address, entry),
    {
        let ghost was = *self;
        let address = self.peers[index].address;
        self.peers.set(index, TrackedPeer { address, entry });
        proof {
            assert forall|i: int, j: int| 0 <= i < j < self.peers@.len() implies (
            #[trigger] self.peers@[i]).address != (#[trigger] self.peers@[j]).address by {
                assert(was.peers@[i].address != was.peers@[j].address);
            }
            let wanted = was@.insert(address, entry);
            assert forall|other: PeerAddress| #[trigger]
                self@.contains_key(other) implies wanted.contains_key(other) && self@[other]
                == wanted[other] by {
                let k = choose|k: int| self.holds(k, other);
                self.lemma_held(k);
                was.lemma_held(k);
            }
            assert forall|other: PeerAddress| #[trigger]
                wanted.contains_key(other) implies self@.contains_key(other) by {
                if other == address {
                    assert(self.holds(index as int, other));
                } else {
                    let i = choose|i: int| was.holds(i, other);
                    assert(self.holds(i, other));
                }
            }
            assert(self@ =~= wanted);
        }
    }

    fn append(&mut self, address: PeerAddress, entry: FastFlapEntry)
        requires
            old(self).well_formed(),
            !old(self)@.contains_key(address),
            old(self).peers@.len() < old(self).capacity,
        ensures
            final(self).well_formed(),
            final(self).places() == old(self).places(),
            final(self)@ == old(self)@.insert(address, entry),
    {
        let ghost was = *self;
        self.peers.push(TrackedPeer { address, entry });
        proof {
            let last = was.peers@.len() as int;
            assert forall|i: int, j: int| 0 <= i < j < self.peers@.len() implies (
            #[trigger] self.peers@[i]).address != (#[trigger] self.peers@[j]).address by {
                if j == last {
                    was.lemma_held(i);
                } else {
                    assert(was.peers@[i].address != was.peers@[j].address);
                }
            }
            let wanted = was@.insert(address, entry);
            assert forall|other: PeerAddress| #[trigger]
                self@.contains_key(other) implies wanted.contains_key(other) && self@[other]
                == wanted[other] by {
                let k = choose|k: int| self.holds(k, other);
                self.lemma_held(k);
                if k < last {
                    was.lemma_held(k);
                }
            }
            assert forall|other: PeerAddress| #[trigger]
                wanted.contains_key(other) implies self@.contains_key(other) by {
                if other == address {
                    assert(self.holds(last, other));
                } else {
                    let i = choose|i: int| was.holds(i, other);
                    assert(self.holds(i, other));
                }
            }
            assert(self@ =~= wanted);
        }
    }

    /// Admits a peer or turns it away. One that is turned away changes nothing: it does
    /// not make its block last longer.
    pub fn admit_peer(&mut self, remote_ip: PeerAddress, policy: FastFlapPolicy, now: u128) -> (
        admission: FastFlapAdmission)
        requires
            old(self).well_formed(),
        ensures
            final(self).well_formed(),
            final(self).places() == old(self).places(),
            final(self)@ == after_admission(
                old(self)@,
                old(self).places(),
                remote_ip,
                policy,
                now,
            ),
            admission == admission_of(old(self)@, remote_ip, policy, now),
    {
        let connection = FastFlapConnection { remote_ip, started_at: Some(now), policy };
        if !policy.enabled {
            return FastFlapAdmission::Allowed(connection);
        }
        proof {
            self.lemma_size();
        }
        match self.find(remote_ip) {
            Some(index) => {
                let entry = self.peers[index].entry;
                if now.saturating_sub(entry.last_flap) > policy.block_time {
                    self.remove_at(index);
                } else if entry.flaps > policy.grace {
                    return FastFlapAdmission::Rejected { flaps: entry.flaps };
                }
            },
            None => {
                if self.peers.len() >= self.capacity {
                    self.prune_expired(policy, now);
                }
            },
        }
        FastFlapAdmission::Allowed(connection)
    }

    /// Accounts for the end of a connection.
    pub fn record_disconnect(
        &mut self,
        remote_ip: PeerAddress,
        started_at: u128,
        policy: FastFlapPolicy,
        now: u128,
    )
        requires
            old(self).well_formed(),
        ensures
            final(self).well_formed(),
            final(self).places() == old(self).places(),
            final(self)@ == after_disconnect(
                old(self)@,
                old(self).places(),
                remote_ip,
                policy,
                started_at,
                now,
            ),
    {
        if !policy.enabled {
            return ;
        }
        if now.saturating_sub(started_at) >= policy.threshold {
            return ;
        }
        proof {
            self.lemma_size();
        }
        match self.find(remote_ip) {
            Some(index) => {
                let flaps: u64 = self.peers[index].entry.flaps.saturating_add(1);
                self.replace_at(index, FastFlapEntry { last_flap: now, flaps });
                return ;
            },
            None => {},
        }
        if self.peers.len() >= self.capacity {
            self.prune_expired(policy, now);
            proof {
                self.lemma_size();
            }
        }
        if self.peers.len() >= self.capacity {
            return ;
        }
        self.append(remote_ip, FastFlapEntry { last_flap: now, flaps: 1 });
    }

    /// Tells how many clients are connected and how many peers are turned away.
    pub fn inspection_snapshot(
        &mut self,
        policy: FastFlapPolicy,
        active_clients: u64,
        now: u128,
    ) -> (snapshot: InterfaceInspectionSnapshot)
        requires
            old(self).well_formed(),
        ensures
            final(self).well_formed(),
            final(self).places() == old(self).places(),
            final(self)@ == after_inspection(old(self)@, policy, now),
            snapshot.active_clients == Some(active_clients),
            snapshot.blocked_ips is Some,
            snapshot.blocked_ips->0 == turned_away(old(self)@, policy, now).len(),
    {
        if !policy.enabled {
            return InterfaceInspectionSnapshot {
                active_clients: Some(active_clients),
                blocked_ips: Some(0),
            };
        }
        self.prune_expired(policy, now);
        let mut count: u64 = 0;
        let mut index: usize = 0;
        let ghost mut seen: Set<PeerAddress> = Set::empty();
        while index < self.peers.len()
            invariant
                self.well_formed(),
                self.capacity <= u64::MAX,
                index <= self.peers@.len(),
                count <= index,
                seen.finite(),
                seen.len() == count,
                forall|address: PeerAddress| #[trigger]
                    seen.contains(address) <==> exists|i: int|
                        0 <= i < index && self.holds(i, address) && self.peers@[i].entry.flaps
                            > policy.grace,
            decreases self.peers@.len() - index,
        {
            let peer = self.peers[index];
            let ghost before = seen;
            if peer.entry.flaps > policy.grace {
                proof {
                    assert(!seen.contains(peer.address)) by {
                        if seen.contains(peer.address) {
                            let i = choose|i: int|
                                0 <= i < index && self.holds(i, peer.address)
                                    && self.peers@[i].entry.flaps > policy.grace;
                            assert(self.peers@[i].address != self.peers@[index as int].address);
                        }
                    }
                    seen = seen.insert(peer.address);
                }
                count = count + 1;
            }
            proof {
                assert forall|address: PeerAddress| #[trigger]
                    seen.contains(address) <==> exists|i: int|
                        0 <= i < index + 1 && self.holds(i, address) && self.peers@[i].entry.flaps
                            > policy.grace by {
                    if before.contains(address) {
                        let i = choose|i: int|
                            0 <= i < index && self.holds(i, address) && self.peers@[i].entry.flaps
                                > policy.grace;
                        assert(0 <= i < index + 1 && self.holds(i, address));
                    } else if peer.address == address && peer.entry.flaps > policy.grace {
                        assert(self.holds(index as int, address));
                    }
                }
            }
            index = index + 1;
        }
        proof {
            assert forall|address: PeerAddress| seen.contains(address) <==> blocked(
                self@,
                policy.grace,
            ).contains(address) by {
                if seen.contains(address) {
                    let i = choose|i: int|
                        0 <= i < index && self.holds(i, address) && self.peers@[i].entry.flaps
                            > policy.grace;
                    self.lemma_held(i);
                }
                if blocked(self@, policy.grace).contains(address) {
                    let i = choose|i: int| self.holds(i, address);
                    self.lemma_held(i);
                }
            }
            assert(seen =~= blocked(self@, policy.grace));
        }
        InterfaceInspectionSnapshot {
            active_clients: Some(active_clients),
            blocked_ips: Some(count),
        }
    }
}

impl View for FastFlapTable {
    type V = TrackedPeers;

    closed spec fn view(&self) -> TrackedPeers {
        Map::new(
            |address: PeerAddress| exists|index: int| self.holds(index, address),
            |address: PeerAddress|
                self.peers@[choose|index: int| self.holds(index, address)].entry,
        )
    }
}

impl FastFlapConnection {
    /// Accounts for the end of the connection, once.
    pub fn disconnected(&mut self, table: &mut FastFlapTable, now: u128)
        requires
            old(table).well_formed(),
        ensures
            final(table).well_formed(),
            final(table).places() == old(table).places(),
            *final(self) == ended(*old(self)),
            final(table)@ == after_end(*old(self), old(table)@, old(table).places(), now),
    {
        match self.started_at {
            Some(started_at) => {
                self.started_at = None;
                table.record_disconnect(self.remote_ip, started_at, self.policy, now);
            },
            None => {},
        }
    }
}

/// The peers after `count` flaps of one peer, all at the same time.
pub open spec fn after_flaps(
    known: TrackedPeers,
    capacity: nat,
    address: PeerAddress,
    policy: FastFlapPolicy,
    now: u128,
    count: nat,
) -> TrackedPeers
    decreases count,
{
    if count == 0 {
        known
    } else {
        after_disconnect(
            after_flaps(known, capacity, address, policy, now, (count - 1) as nat),
            capacity,
            address,
            policy,
            now,
            now,
        )
    }
}

/// A peer is turned away after more flaps than are tolerated, and not before: with a
/// grace of five the sixth flap is the one that blocks.
pub proof fn peer_is_blocked_after_its_grace(
    known: TrackedPeers,
    capacity: nat,
    address: PeerAddress,
    policy: FastFlapPolicy,
    now: u128,
    count: nat,
)
    requires
        policy.enabled,
        policy.threshold > 0,
        known.dom().len() < capacity,
        !known.contains_key(address),
        0 < count <= u64::MAX,
    ensures
        ({
            let after = after_flaps(known, capacity, address, policy, now, count);
            &&& after == known.insert(
                address,
                FastFlapEntry { last_flap: now, flaps: count as u64 },
            )
            &&& rejects(after, address, policy, now) <==> count > policy.grace
        }),
    decreases count,
{
    let fewer = (count - 1) as nat;
    let before = after_flaps(known, capacity, address, policy, now, fewer);
    if fewer > 0 {
        peer_is_blocked_after_its_grace(known, capacity, address, policy, now, fewer);
    }
    let after = after_flaps(known, capacity, address, policy, now, count);
    assert(after =~= known.insert(
        address,
        FastFlapEntry { last_flap: now, flaps: count as u64 },
    ));
}

/// A peer that is turned away stays so until its block time is over, and being turned
/// away does not prolong it.
pub proof fn block_ends_with_its_time(
    known: TrackedPeers,
    capacity: nat,
    address: PeerAddress,
    policy: FastFlapPolicy,
    now: u128,
    later: u128,
)
    requires
        rejects(known, address, policy, now),
    ensures
        after_admission(known, capacity, address, policy, now) == known,
        rejects(
            after_admission(known, capacity, address, policy, now),
            address,
            policy,
            later,
        ) <==> time_until(known[address].last_flap, later) <= policy.block_time,
{
}

/// What one peer does never turns another away: it neither blocks one that was admitted
/// nor adds to its flaps.
pub proof fn blocking_concerns_one_peer(
    known: TrackedPeers,
    capacity: nat,
    flapping: PeerAddress,
    other: PeerAddress,
    policy: FastFlapPolicy,
    started_at: u128,
    now: u128,
)
    requires
        flapping != other,
    ensures
        ({
            let after = after_disconnect(known, capacity, flapping, policy, started_at, now);
            &&& rejects(after, other, policy, now) == rejects(known, other, policy, now)
            &&& after.contains_key(other) ==> known.contains_key(other) && after[other]
                == known[other]
        }),
        ({
            let after = after_admission(known, capacity, flapping, policy, now);
            &&& rejects(after, other, policy, now) == rejects(known, other, policy, now)
            &&& after.contains_key(other) ==> known.contains_key(other) && after[other]
                == known[other]
        }),
{
}

/// A connection that lasted counts for nothing: it adds no flap and forgives none.
pub proof fn stable_connection_changes_nothing(
    known: TrackedPeers,
    capacity: nat,
    address: PeerAddress,
    policy: FastFlapPolicy,
    started_at: u128,
    now: u128,
)
    requires
        time_until(started_at, now) >= policy.threshold,
    ensures
        after_disconnect(known, capacity, address, policy, started_at, now) == known,
{
}

/// With blocking switched off no peer is remembered and none is turned away.
pub proof fn disabled_policy_changes_nothing(
    known: TrackedPeers,
    capacity: nat,
    address: PeerAddress,
    policy: FastFlapPolicy,
    started_at: u128,
    now: u128,
)
    requires
        !policy.enabled,
    ensures
        after_disconnect(known, capacity, address, policy, started_at, now) == known,
        after_admission(known, capacity, address, policy, now) == known,
        !rejects(known, address, policy, now),
{
}

/// A full table keeps every peer that still counts, and its size stays within bounds
/// whoever connects and disconnects.
pub proof fn full_table_keeps_what_counts(
    known: TrackedPeers,
    capacity: nat,
    address: PeerAddress,
    other: PeerAddress,
    policy: FastFlapPolicy,
    started_at: u128,
    now: u128,
)
    requires
        known.dom().finite(),
        known.dom().len() <= capacity,
        known.contains_key(other),
        !expired(known[other], policy, now),
    ensures
        ({
            let after = after_disconnect(known, capacity, address, policy, started_at, now);
            &&& after.contains_key(other)
            &&& other != address ==> after[other] == known[other]
            &&& after.dom().len() <= capacity
        }),
        after_admission(known, capacity, address, policy, now).contains_key(other),
{
    let room = pruned(known, policy, now);
    assert(room.dom() =~= known.dom().filter(
        |peer: PeerAddress| !expired(known[peer], policy, now),
    ));
    vstd::set_lib::lemma_len_subset(room.dom(), known.dom());
    if is_flap(policy, started_at, now) {
        if known.contains_key(address) {
            assert(known.dom().insert(address) =~= known.dom());
        }
    }
}

/// With blocking switched on, every connection that ends sooner than the threshold after it
/// began is a flap. It raises the flaps of a remembered peer by one, whenever the last one
/// was, and a new peer is remembered with one flap as long as there is a place.
pub proof fn short_connection_is_a_flap(
    known: TrackedPeers,
    capacity: nat,
    address: PeerAddress,
    policy: FastFlapPolicy,
    started_at: u128,
    now: u128,
)
    requires
        policy.enabled,
        started_at <= now,
        now - started_at < policy.threshold,
    ensures
        ({
            let after = after_disconnect(known, capacity, address, policy, started_at, now);
            &&& known.contains_key(address) ==> {
                &&& after.dom() == known.dom()
                &&& after[address].last_flap == now
                &&& known[address].flaps < u64::MAX ==> after[address].flaps
                    == known[address].flaps + 1
                &&& known[address].flaps == u64::MAX ==> after[address].flaps == u64::MAX
            }
            &&& !known.contains_key(address) && known.dom().len() < capacity ==> {
                &&& after.dom() == known.dom().insert(address)
                &&& after[address].last_flap == now
                &&& after[address].flaps == 1
            }
            &&& forall|other: PeerAddress|
                other != address && known.contains_key(other) && known.dom().len() < capacity
                    ==> after.contains_key(other) && #[trigger] after[other] == known[other]
        }),
{
    let after = after_disconnect(known, capacity, address, policy, started_at, now);
    if known.contains_key(address) {
        assert(after.dom() =~= known.dom());
    } else if known.dom().len() < capacity {
        assert(after.dom() =~= known.dom().insert(address));
    }
}

/// A connection that lasted as long as the threshold, or longer, is no flap.
pub proof fn long_connection_is_no_flap(
    known: TrackedPeers,
    capacity: nat,
    address: PeerAddress,
    policy: FastFlapPolicy,
    started_at: u128,
    now: u128,
)
    requires
        now - started_at >= policy.threshold,
    ensures
        after_disconnect(known, capacity, address, policy, started_at, now) == known,
{
}

/// A full table makes room for a new peer where one is remembered whose block time is over;
/// that one is forgotten, and the new one is remembered with one flap.
pub proof fn full_table_makes_room(
    known: TrackedPeers,
    capacity: nat,
    address: PeerAddress,
    stale: PeerAddress,
    policy: FastFlapPolicy,
    started_at: u128,
    now: u128,
)
    requires
        policy.enabled,
        started_at <= now,
        now - started_at < policy.threshold,
        known.dom().finite(),
        known.dom().len() == capacity,
        !known.contains_key(address),
        known.contains_key(stale),
        now - known[stale].last_flap > policy.block_time,
    ensures
        ({
            let after = after_disconnect(known, capacity, address, policy, started_at, now);
            &&& after.contains_key(address)
            &&& after[address].flaps == 1
            &&& after[address].last_flap == now
            &&& !after.contains_key(stale)
        }),
{
    let room = pruned(known, policy, now);
    assert(room.dom().subset_of(known.dom().remove(stale)));
    vstd::set_lib::lemma_len_subset(room.dom(), known.dom().remove(stale));
}

/// A full table of peers that all still count turns no new peer away, and remembers none.
pub proof fn full_table_forgets_the_newcomer(
    known: TrackedPeers,
    capacity: nat,
    address: PeerAddress,
    policy: FastFlapPolicy,
    started_at: u128,
    now: u128,
)
    requires
        known.dom().finite(),
        known.dom().len() == capacity,
        !known.contains_key(address),
        forall|other: PeerAddress| #[trigger]
            known.contains_key(other) ==> now - known[other].last_flap <= policy.block_time,
    ensures
        after_disconnect(known, capacity, address, policy, started_at, now) == known,
        after_admission(known, capacity, address, policy, now) == known,
        !rejects(known, address, policy, now),
{
    assert(pruned(known, policy, now) =~= known);
}

/// A peer is turned away exactly while blocking is switched on, it has flapped more often than
/// is tolerated, and no more than the block time has passed since its last flap. It is told
/// how often it has flapped; any other peer may connect, and its connection begins now.
pub proof fn peer_is_turned_away_for_its_flaps(
    known: TrackedPeers,
    address: PeerAddress,
    policy: FastFlapPolicy,
    now: u128,
)
    ensures
        admission_of(known, address, policy, now) is Rejected <==> policy.enabled
            && known.contains_key(address) && known[address].flaps > policy.grace && now
            - known[address].last_flap <= policy.block_time,
        admission_of(known, address, policy, now) is Rejected ==> admission_of(
            known,
            address,
            policy,
            now,
        )->flaps == known[address].flaps,
        admission_of(known, address, policy, now) is Allowed ==> {
            let connection = admission_of(known, address, policy, now)->Allowed_0;
            &&& connection.remote_ip == address
            &&& connection.started_at == Some(now)
            &&& connection.policy == policy
        },
{
}

/// A peer that comes back after its block time is forgotten: its next flap is its first.
pub proof fn late_return_starts_over(
    known: TrackedPeers,
    capacity: nat,
    address: PeerAddress,
    policy: FastFlapPolicy,
    now: u128,
    later: u128,
)
    requires
        policy.enabled,
        known.dom().finite(),
        known.dom().len() <= capacity,
        known.contains_key(address),
        now - known[address].last_flap > policy.block_time,
        now <= later,
        later - now < policy.threshold,
    ensures
        ({
            let back = after_admission(known, capacity, address, policy, now);
            let after = after_disconnect(back, capacity, address, policy, now, later);
            &&& admission_of(known, address, policy, now) is Allowed
            &&& back == known.remove(address)
            &&& after.contains_key(address)
            &&& after[address].flaps == 1
            &&& after[address].last_flap == later
        }),
{
}

/// A peer that returns within its block time keeps its flaps.
pub proof fn early_return_forgives_nothing(
    known: TrackedPeers,
    capacity: nat,
    address: PeerAddress,
    policy: FastFlapPolicy,
    now: u128,
)
    requires
        known.contains_key(address),
        now - known[address].last_flap <= policy.block_time,
    ensures
        after_admission(known, capacity, address, policy, now) == known,
{
}

/// The end of a connection is accounted for once, however often it is announced.
pub proof fn end_is_accounted_for_once(
    connection: FastFlapConnection,
    known: TrackedPeers,
    capacity: nat,
    now: u128,
    later: u128,
)
    requires
        connection.started_at is Some,
        connection.policy.enabled,
        connection.started_at->0 <= now,
        now - connection.started_at->0 < connection.policy.threshold,
        known.contains_key(connection.remote_ip),
        known[connection.remote_ip].flaps < u64::MAX,
    ensures
        ({
            let after = after_end(connection, known, capacity, now);
            &&& after[connection.remote_ip].flaps == known[connection.remote_ip].flaps + 1
            &&& after[connection.remote_ip].last_flap == now
            &&& after_end(ended(connection), after, capacity, later) == after
        }),
        ended(connection).started_at is None,
        ended(connection).remote_ip == connection.remote_ip,
{
}

/// The peers that a server counts as blocked are exactly those that it would turn away.
pub proof fn blocked_peers_are_those_turned_away(
    known: TrackedPeers,
    address: PeerAddress,
    policy: FastFlapPolicy,
    now: u128,
)
    ensures
        turned_away(known, policy, now).contains(address) <==> admission_of(
            known,
            address,
            policy,
            now,
        ) is Rejected,
        turned_away(known, policy, now).contains(address) <==> policy.enabled
            && known.contains_key(address) && known[address].flaps > policy.grace && now
            - known[address].last_flap <= policy.block_time,
{
}

/// A process remembers four thousand and ninety-six peers at most.
pub proof fn process_remembers_a_bounded_number()
    ensures
        MAX_TRACKED_FAST_FLAP_IPS == 4096,
{
}

/// A look at the peers forgets those whose block time is over and no others, and turns nobody
/// away or in by it.
pub proof fn inspection_forgets_what_is_over(
    known: TrackedPeers,
    address: PeerAddress,
    policy: FastFlapPolicy,
    now: u128,
)
    ensures
        ({
            let after = after_inspection(known, policy, now);
            &&& after.contains_key(address) <==> known.contains_key(address) && (!policy.enabled
                || now - known[address].last_flap <= policy.block_time)
            &&& after.contains_key(address) ==> after[address] == known[address]
            &&& admission_of(after, address, policy, now) is Rejected <==> admission_of(
                known,
                address,
                policy,
                now,
            ) is Rejected
        }),
{
}

/// A new peer that finds the table full makes it forget those whose block time is over, and no
/// others; while there is a place, nobody is forgotten for a newcomer.
pub proof fn newcomer_clears_a_full_table(
    known: TrackedPeers,
    capacity: nat,
    address: PeerAddress,
    other: PeerAddress,
    policy: FastFlapPolicy,
    now: u128,
)
    requires
        policy.enabled,
        !known.contains_key(address),
    ensures
        ({
            let after = after_admission(known, capacity, address, policy, now);
            &&& known.dom().len() < capacity ==> after == known
            &&& known.dom().len() >= capacity ==> (after.contains_key(other)
                <==> known.contains_key(other) && now - known[other].last_flap
                <= policy.block_time)
            &&& after.contains_key(other) ==> after[other] == known[other]
            &&& !after.contains_key(address)
        }),
{
}

} // verus!
