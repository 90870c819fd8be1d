//! Who may open a USB device: one session at a time, and none once a session could
//! not be proved closed.
use vstd::prelude::*;
use vstd::string::*;
use crate::text::same_text;

verus! {

/// The kind of a lease.
#[derive(Clone, Copy, Debug, PartialEq, Eq, Structural)]
pub enum UsbLeaseKind {
    Opening,
    Active,
    Quarantined,
}

/// The state of a lease. A quarantined device keeps every session that was not proved
/// closed.
#[derive(Debug)]
pub enum UsbLeaseState<R> {
    Opening,
    Active,
    Quarantined(Vec<R>),
}

#[derive(Debug)]
struct UsbLease<R> {
    device_name: String,
    state: UsbLeaseState<R>,
}

/// What is known of a device.
pub ghost enum Lease<R> {
    Opening,
    Active,
    Quarantined(Seq<R>),
}

/// What a state says.
pub open spec fn lease_view<R>(state: UsbLeaseState<R>) -> Lease<R> {
    match state {
        UsbLeaseState::Opening => Lease::Opening,
        UsbLeaseState::Active => Lease::Active,
        UsbLeaseState::Quarantined(retained) => Lease::Quarantined(retained@),
    }
}

/// What may be asked of the authority over a device.
pub ghost enum LeaseRequest<R> {
    ReserveOpening,
    Activate,
    ReleaseOpening,
    ReleaseActive,
    Quarantine(R),
}

/// The request is granted.
pub open spec fn lease_granted<R>(lease: Option<Lease<R>>, request: LeaseRequest<R>) -> bool {
    match request {
        LeaseRequest::ReserveOpening => lease is None,
        LeaseRequest::Activate => lease == Some(Lease::<R>::Opening),
        LeaseRequest::ReleaseOpening => lease == Some(Lease::<R>::Opening),
        LeaseRequest::ReleaseActive => lease == Some(Lease::<R>::Active),
        LeaseRequest::Quarantine(_) => true,
    }
}

/// What is known of a device after a request; one that is not granted changes nothing.
pub open spec fn lease_after<R>(lease: Option<Lease<R>>, request: LeaseRequest<R>) -> Option<
    Lease<R>,
> {
    if !lease_granted(lease, request) {
        lease
    } else {
        match request {
            LeaseRequest::ReserveOpening => Some(Lease::Opening),
            LeaseRequest::Activate => Some(Lease::Active),
            LeaseRequest::ReleaseOpening => None,
            LeaseRequest::ReleaseActive => None,
            LeaseRequest::Quarantine(retained) => match lease {
                Some(Lease::Quarantined(sessions)) => Some(
                    Lease::Quarantined(sessions.push(retained)),
                ),
                _ => Some(Lease::Quarantined(seq![retained])),
            },
        }
    }
}

/// The kind of a lease, and how many sessions it retains.
pub open spec fn summary_of<R>(lease: Option<Lease<R>>) -> Option<(UsbLeaseKind, usize)> {
    match lease {
        Some(Lease::Opening) => Some((UsbLeaseKind::Opening, 0usize)),
        Some(Lease::Active) => Some((UsbLeaseKind::Active, 0usize)),
        Some(Lease::Quarantined(sessions)) => Some(
            (UsbLeaseKind::Quarantined, sessions.len() as usize),
        ),
        None => None,
    }
}

/// Why a request is refused, in words.
pub open spec fn lease_refusal<R>(lease: Option<Lease<R>>, request: LeaseRequest<R>) -> Seq<char> {
    match (lease, request) {
        (Some(Lease::Quarantined(_)), _) => "Android USB device is permanently quarantined"@,
        (Some(Lease::Opening), LeaseRequest::ReserveOpening) =>
            "Android USB device is already opening"@,
        (Some(Lease::Opening), _) => "Android USB device never became active"@,
        (Some(Lease::Active), LeaseRequest::ReleaseOpening) =>
            "Android USB device became active before opening release"@,
        (Some(Lease::Active), _) => "Android USB device is already active"@,
        (None, LeaseRequest::ReleaseActive) => "Android USB device has no active lease"@,
        (None, _) => "Android USB device has no opening reservation"@,
    }
}

/// No request takes a device out of quarantine, and every session that it retained
/// stays retained.
pub proof fn quarantine_is_permanent<R>(sessions: Seq<R>, request: LeaseRequest<R>)
    ensures
        lease_after(Some(Lease::Quarantined(sessions)), request) is Some,
        lease_after(Some(Lease::Quarantined(sessions)), request)->0 is Quarantined,
        sessions.is_prefix_of(
            lease_after(Some(Lease::Quarantined(sessions)), request)->0->Quarantined_0,
        ),
{
}

/// A device that anyone holds is not given to another: a second reservation is refused
/// whatever the first has come to, until it is given back.
pub proof fn device_has_one_holder<R>(lease: Option<Lease<R>>, request: LeaseRequest<R>)
    requires
        lease is Some,
    ensures
        !lease_granted(lease, LeaseRequest::<R>::ReserveOpening),
        lease_after(lease, request) is None ==> lease_granted(lease, request) && (
        request is ReleaseOpening || request is ReleaseActive),
{
}

/// The single authority over USB devices.
#[derive(Debug)]
pub struct UsbLeaseTable<R> {
    leases: Vec<UsbLease<R>>,
}

impl<R> UsbLeaseTable<R> {
    spec fn at(self, index: int, name: Seq<char>) -> bool {
        0 <= index < self.leases@.len() && self.leases@[index].device_name@ == name
    }

    /// No device is listed twice.
    pub closed spec fn well_formed(self) -> bool {
        forall|i: int, j: int|
            0 <= i < j < self.leases@.len() ==> (#[trigger] self.leases@[i]).device_name@ != (
            #[trigger] self.leases@[j]).device_name@
    }

    /// What is known of the device of that name.
    pub closed spec fn lease(self, name: Seq<char>) -> Option<Lease<R>> {
        if exists|index: int| self.at(index, name) {
            let index = choose|index: int| self.at(index, name);
            Some(lease_view(self.leases@[index].state))
        } else {
            None
        }
    }

    proof fn lemma_lease_at(self, index: int)
        requires
            self.well_formed(),
            0 <= index < self.leases@.len(),
        ensures
            self.lease(self.leases@[index].device_name@) == Some(
                lease_view(self.leases@[index].state),
            ),
    {
        let name = self.leases@[index].device_name@;
        assert(self.at(index, name));
        let chosen = choose|i: int| self.at(i, name);
        assert(self.at(chosen, name));
        if chosen < index {
            assert(self.leases@[chosen].device_name@ != self.leases@[index].device_name@);
        } else if index < chosen {
            assert(self.leases@[index].device_name@ != self.leases@[chosen].device_name@);
        }
    }

    proof fn lemma_no_lease(self, name: Seq<char>)
        requires
            forall|i: int|
                0 <= i < self.leases@.len() ==> (#[trigger] self.leases@[i]).device_name@ != name,
        ensures
            self.lease(name) is None,
    {
        if exists|index: int| self.at(index, name) {
            let index = choose|index: int| self.at(index, name);
            assert(self.leases@[index].device_name@ != name);
        }
    }

    /// No device is known.
    pub fn new() -> (table: Self)
        ensures
            table.well_formed(),
            forall|name: Seq<char>| #[trigger] table.lease(name) is None,
    {
        let table = UsbLeaseTable { leases: Vec::new() };
        proof {
            assert forall|name: Seq<char>| #[trigger] table.lease(name) is None by {
                table.lemma_no_lease(name);
            }
        }
        table
    }

    fn find(&self, device_name: &str) -> (found: Option<usize>)
        requires
            self.well_formed(),
        ensures
            match found {
                Some(index) => index < self.leases@.len()
                    && self.leases@[index as int].device_name@ == device_name@
                    && self.lease(device_name@) == Some(
                    lease_view(self.leases@[index as int].state),
                ),
                None => self.lease(device_name@) is None && forall|i: int|
                    0 <= i < self.leases@.len() ==> (#[trigger] self.leases@[i]).device_name@
                        != device_name@,
            },
    {
        let mut index: usize = 0;
        while index < self.leases.len()
            invariant
                self.well_formed(),
                index <= self.leases@.len(),
                forall|i: int|
                    0 <= i < index ==> (#[trigger] self.leases@[i]).device_name@ != device_name@,
            decreases self.leases@.len() - index,
        {
            if same_text(self.leases[index].device_name.as_str(), device_name) {
                proof {
                    self.lemma_lease_at(index as int);
                }
                return Some(index);
            }
            index = index + 1;
        }
        proof {
            self.lemma_no_lease(device_name@);
        }
        None
    }

    fn insert_new(&mut self, device_name: &str, state: UsbLeaseState<R>)
        requires
            old(self).well_formed(),
            forall|i: int|
                0 <= i < old(self).leases@.len() ==> (#[trigger] old(
                    self).leases@[i]).device_name@ != device_name@,
        ensures
            final(self).well_formed(),
            final(self).lease(device_name@) == Some(lease_view(state)),
            forall|name: Seq<char>|
                name != device_name@ ==> #[trigger] final(self).lease(name) == old(self).lease(
                    name,
                ),
    {
        let ghost before = *self;
        self.leases.push(UsbLease { device_name: device_name.to_owned(), state });
        proof {
            let last = before.leases@.len() as int;
            assert(self.leases@[last].device_name@ == device_name@);
            assert forall|i: int, j: int| 0 <= i < j < self.leases@.len() implies (
            #[trigger] self.leases@[i]).device_name@ != (
            #[trigger] self.leases@[j]).device_name@ by {
                assert(self.leases@[i] == before.leases@[i]);
                if j < last {
                    assert(self.leases@[j] == before.leases@[j]);
                }
            }
            self.lemma_lease_at(last);
            assert forall|name: Seq<char>| name != device_name@ implies #[trigger] self.lease(name)
                == before.lease(name) by {
                if exists|index: int| before.at(index, name) {
                    let index = choose|index: int| before.at(index, name);
                    assert(before.at(index, name));
                    assert(self.leases@[index] == before.leases@[index]);
                    before.lemma_lease_at(index);
                    self.lemma_lease_at(index);
                } else {
                    assert forall|i: int| 0 <= i < self.leases@.len() implies (
                    #[trigger] self.leases@[i]).device_name@ != name by {
                        if i < last {
                            assert(self.leases@[i] == before.leases@[i]);
                            assert(!before.at(i, name));
                        }
                    }
                    self.lemma_no_lease(name);
                    before.lemma_absent(name);
                }
            }
        }
    }

    proof fn lemma_absent(self, name: Seq<char>)
        requires
            !(exists|index: int| self.at(index, name)),
        ensures
            self.lease(name) is None,
    {
    }

    fn remove_at(&mut self, index: usize)
        requires
            old(self).well_formed(),
            index < old(self).leases@.len(),
        ensures
            final(self).well_formed(),
            final(self).lease(old(self).leases@[index as int].device_name@) is None,
            forall|name: Seq<char>|
                name != old(self).leases@[index as int].device_name@ ==> #[trigger] final(
                    self).lease(name) == old(self).lease(name),
    {
        let ghost before = *self;
        self.leases.remove(index);
        proof {
            let gone = before.leases@[index as int].device_name@;
            assert forall|i: int| 0 <= i < self.leases@.len() implies #[trigger] self.leases@[i]
                == before.leases@[if i < index {
                i
            } else {
                i + 1
            }] by {
            }
            assert(self.well_formed());
            assert forall|i: int| 0 <= i < self.leases@.len() implies (
            #[trigger] self.leases@[i]).device_name@ != gone by {
                let k: int = if i < index {
                    i
                } else {
                    i + 1
                };
                assert(self.leases@[i] == before.leases@[k]);
                if k < index {
                    assert(before.leases@[k].device_name@
                        != before.leases@[index as int].device_name@);
                } else {
                    assert(before.leases@[index as int].device_name@
                        != before.leases@[k].device_name@);
                }
            }
            self.lemma_no_lease(gone);
            assert forall|name: Seq<char>| name != gone implies #[trigger] self.lease(name)
                == before.lease(name) by {
                if exists|i: int| before.at(i, name) {
                    let i = choose|i: int| before.at(i, name);
                    assert(before.at(i, name));
                    let k: int = if i < index {
                        i
                    } else {
                        i - 1
                    };
                    assert(self.leases@[k] == before.leases@[i]);
                    before.lemma_lease_at(i);
                    self.lemma_lease_at(k);
                } else {
                    assert forall|i: int| 0 <= i < self.leases@.len() implies (
                    #[trigger] self.leases@[i]).device_name@ != name by {
                        let k: int = if i < index {
                            i
                        } else {
                            i + 1
                        };
                        assert(self.leases@[i] == before.leases@[k]);
                        assert(!before.at(k, name));
                    }
                    self.lemma_no_lease(name);
                    before.lemma_absent(name);
                }
            }
        }
    }

    fn replace_state(&mut self, index: usize, state: UsbLeaseState<R>) -> (replaced: UsbLeaseState<
        R,
    >)
        requires
            old(self).well_formed(),
            index < old(self).leases@.len(),
        ensures
            final(self).well_formed(),
            replaced == old(self).leases@[index as int].state,
            final(self).leases@.len() == old(self).leases@.len(),
            final(self).leases@[index as int].device_name == old(
                self).leases@[index as int].device_name,
            final(self).lease(old(self).leases@[index as int].device_name@) == Some(
                lease_view(state),
            ),
            forall|name: Seq<char>|
                name != old(self).leases@[index as int].device_name@ ==> #[trigger] final(
                    self).lease(name) == old(self).lease(name),
    {
        let ghost before = *self;
        let mut replaced = state;
        std::mem::swap(&mut self.leases[index].state, &mut replaced);
        proof {
            let target = before.leases@[index as int].device_name@;
            assert forall|i: int| 0 <= i < self.leases@.len() implies (
            #[trigger] self.leases@[i]).device_name == before.leases@[i].device_name by {
            }
            assert(self.well_formed());
            self.lemma_lease_at(index as int);
            assert forall|name: Seq<char>| name != target implies #[trigger] self.lease(name)
                == before.lease(name) by {
                if exists|i: int| before.at(i, name) {
                    let i = choose|i: int| before.at(i, name);
                    assert(before.at(i, name));
                    assert(self.leases@[i] == before.leases@[i]);
                    before.lemma_lease_at(i);
                    self.lemma_lease_at(i);
                } else {
                    assert forall|i: int| 0 <= i < self.leases@.len() implies (
                    #[trigger] self.leases@[i]).device_name@ != name by {
                        assert(self.leases@[i].device_name == before.leases@[i].device_name);
                        assert(!before.at(i, name));
                    }
                    self.lemma_no_lease(name);
                    before.lemma_absent(name);
                }
            }
        }
        replaced
    }

    /// The leases of all other devices are as they were.
    pub open spec fn others_unchanged(self, before: Self, device_name: Seq<char>) -> bool {
        forall|name: Seq<char>|
            name != device_name ==> #[trigger] self.lease(name) == before.lease(name)
    }

    /// Reserves a device that nobody holds, so that it can be opened.
    pub fn reserve_opening(&mut self, device_name: &str) -> (reserved: Result<(), String>)
        requires
            old(self).well_formed(),
        ensures
            final(self).well_formed(),
            reserved is Ok <==> lease_granted(
                old(self).lease(device_name@),
                LeaseRequest::ReserveOpening,
            ),
            reserved is Ok ==> final(self).others_unchanged(*old(self), device_name@),
            reserved is Err ==> *final(self) == *old(self) && reserved->Err_0@ == lease_refusal(
                old(self).lease(device_name@),
                LeaseRequest::ReserveOpening,
            ),
            final(self).lease(device_name@) == lease_after(
                old(self).lease(device_name@),
                LeaseRequest::ReserveOpening,
            ),
    {
        match self.find(device_name) {
            Some(index) => Err(
                match &self.leases[index].state {
                    UsbLeaseState::Opening => "Android USB device is already opening".to_owned(),
                    UsbLeaseState::Active => "Android USB device is already active".to_owned(),
                    UsbLeaseState::Quarantined(_) =>
                        "Android USB device is permanently quarantined".to_owned(),
                },
            ),
            None => {
                self.insert_new(device_name, UsbLeaseState::Opening);
                Ok(())
            },
        }
    }

    /// Turns a reservation into a session.
    pub fn activate(&mut self, device_name: &str) -> (activated: Result<(), String>)
        requires
            old(self).well_formed(),
        ensures
            final(self).well_formed(),
            activated is Ok <==> lease_granted(
                old(self).lease(device_name@),
                LeaseRequest::Activate,
            ),
            activated is Ok ==> final(self).others_unchanged(*old(self), device_name@),
            activated is Err ==> *final(self) == *old(self) && activated->Err_0@ == lease_refusal(
                old(self).lease(device_name@),
                LeaseRequest::Activate,
            ),
            final(self).lease(device_name@) == lease_after(
                old(self).lease(device_name@),
                LeaseRequest::Activate,
            ),
    {
        match self.find(device_name) {
            Some(index) => {
                match &self.leases[index].state {
                    UsbLeaseState::Opening => {},
                    UsbLeaseState::Active => {
                        return Err("Android USB device is already active".to_owned());
                    },
                    UsbLeaseState::Quarantined(_) => {
                        return Err("Android USB device is permanently quarantined".to_owned());
                    },
                }
                let _ = self.replace_state(index, UsbLeaseState::Active);
                Ok(())
            },
            None => Err("Android USB device has no opening reservation".to_owned()),
        }
    }

    /// Gives a reservation back.
    pub fn release_opening(&mut self, device_name: &str) -> (released: Result<(), String>)
        requires
            old(self).well_formed(),
        ensures
            final(self).well_formed(),
            released is Ok <==> lease_granted(
                old(self).lease(device_name@),
                LeaseRequest::ReleaseOpening,
            ),
            released is Ok ==> final(self).others_unchanged(*old(self), device_name@),
            released is Err ==> *final(self) == *old(self) && released->Err_0@ == lease_refusal(
                old(self).lease(device_name@),
                LeaseRequest::ReleaseOpening,
            ),
            final(self).lease(device_name@) == lease_after(
                old(self).lease(device_name@),
                LeaseRequest::ReleaseOpening,
            ),
    {
        match self.find(device_name) {
            Some(index) => {
                match &self.leases[index].state {
                    UsbLeaseState::Opening => {},
                    UsbLeaseState::Active => {
                        return Err(
                            "Android USB device became active before opening release".to_owned(),
                        );
                    },
                    UsbLeaseState::Quarantined(_) => {
                        return Err("Android USB device is permanently quarantined".to_owned());
                    },
                }
                self.remove_at(index);
                Ok(())
            },
            None => Err("Android USB device has no opening reservation".to_owned()),
        }
    }

    /// Ends a session that was proved closed.
    pub fn release_active(&mut self, device_name: &str) -> (released: Result<(), String>)
        requires
            old(self).well_formed(),
        ensures
            final(self).well_formed(),
            released is Ok <==> lease_granted(
                old(self).lease(device_name@),
                LeaseRequest::ReleaseActive,
            ),
            released is Ok ==> final(self).others_unchanged(*old(self), device_name@),
            released is Err ==> *final(self) == *old(self) && released->Err_0@ == lease_refusal(
                old(self).lease(device_name@),
                LeaseRequest::ReleaseActive,
            ),
            final(self).lease(device_name@) == lease_after(
                old(self).lease(device_name@),
                LeaseRequest::ReleaseActive,
            ),
    {
        match self.find(device_name) {
            Some(index) => {
                match &self.leases[index].state {
                    UsbLeaseState::Active => {},
                    UsbLeaseState::Opening => {
                        return Err("Android USB device never became active".to_owned());
                    },
                    UsbLeaseState::Quarantined(_) => {
                        return Err("Android USB device is permanently quarantined".to_owned());
                    },
                }
                self.remove_at(index);
                Ok(())
            },
            None => Err("Android USB device has no active lease".to_owned()),
        }
    }

    /// Retains a session that could not be proved closed. The device stays closed for
    /// good, and every such session is kept.
    pub fn quarantine(&mut self, device_name: &str, retained: R)
        requires
            old(self).well_formed(),
        ensures
            final(self).well_formed(),
            final(self).others_unchanged(*old(self), device_name@),
            final(self).lease(device_name@) == lease_after(
                old(self).lease(device_name@),
                LeaseRequest::Quarantine(retained),
            ),
    {
        match self.find(device_name) {
            Some(index) => {
                let state = self.replace_state(index, UsbLeaseState::Opening);
                let mut sessions = match state {
                    UsbLeaseState::Quarantined(sessions) => sessions,
                    _ => Vec::new(),
                };
                let ghost kept = sessions@;
                sessions.push(retained);
                assert(kept.len() == 0 ==> sessions@ =~= seq![retained]);
                let _ = self.replace_state(index, UsbLeaseState::Quarantined(sessions));
            },
            None => {
                let mut sessions: Vec<R> = Vec::new();
                sessions.push(retained);
                assert(sessions@ =~= seq![retained]);
                self.insert_new(device_name, UsbLeaseState::Quarantined(sessions));
            },
        }
    }

    /// The kind of a device's lease, and how many sessions it retains.
    pub fn state(&self, device_name: &str) -> (state: Option<(UsbLeaseKind, usize)>)
        requires
            self.well_formed(),
        ensures
            state == summary_of(self.lease(device_name@)),
    {
        match self.find(device_name) {
            Some(index) => Some(
                match &self.leases[index].state {
                    UsbLeaseState::Opening => (UsbLeaseKind::Opening, 0),
                    UsbLeaseState::Active => (UsbLeaseKind::Active, 0),
                    UsbLeaseState::Quarantined(sessions) => (
                        UsbLeaseKind::Quarantined,
                        sessions.len(),
                    ),
                },
            ),
            None => None,
        }
    }
}

impl<R> Default for UsbLeaseTable<R> {
    fn default() -> (table: Self)
        ensures
            table.well_formed(),
            forall|name: Seq<char>| #[trigger] table.lease(name) is None,
    {
        UsbLeaseTable::new()
    }
}

/// A device is opened by whoever reserved it, and by nobody else: a reservation needs a free
/// device, a session a reservation, and each is given back from what it is.
pub proof fn lease_goes_through_its_life<R>(lease: Option<Lease<R>>)
    ensures
        lease_granted(lease, LeaseRequest::<R>::ReserveOpening) <==> lease is None,
        lease_granted(lease, LeaseRequest::<R>::Activate) <==> lease is Some && lease->0 is Opening,
        lease_granted(lease, LeaseRequest::<R>::ReleaseOpening) <==> lease is Some && lease->0
            is Opening,
        lease_granted(lease, LeaseRequest::<R>::ReleaseActive) <==> lease is Some && lease->0
            is Active,
        ({
            let reserved = lease_after(None, LeaseRequest::<R>::ReserveOpening);
            let active = lease_after(reserved, LeaseRequest::<R>::Activate);
            &&& reserved == Some(Lease::<R>::Opening)
            &&& active == Some(Lease::<R>::Active)
            &&& lease_after(reserved, LeaseRequest::<R>::ReleaseOpening) is None
            &&& lease_after(active, LeaseRequest::<R>::ReleaseActive) is None
        }),
{
}

/// A request that is refused changes nothing.
pub proof fn refused_request_changes_nothing<R>(lease: Option<Lease<R>>, request: LeaseRequest<R>)
    requires
        !lease_granted(lease, request),
    ensures
        lease_after(lease, request) == lease,
        !(request is Quarantine),
{
}

/// A session that was not proved closed puts its device in quarantine, whatever it was in
/// before, behind those that are there already.
pub proof fn unclosed_session_is_retained<R>(lease: Option<Lease<R>>, retained: R)
    ensures
        ({
            let after = lease_after(lease, LeaseRequest::Quarantine(retained));
            &&& after is Some && after->0 is Quarantined
            &&& lease is Some && lease->0 is Quarantined ==> after->0->Quarantined_0
                == lease->0->Quarantined_0.push(retained)
            &&& !(lease is Some && lease->0 is Quarantined) ==> after->0->Quarantined_0 == seq![
                retained,
            ]
        }),
        lease_granted(lease, LeaseRequest::Quarantine(retained)),
{
}

/// The state of a device tells who holds it, and how many sessions a quarantine retains.
pub proof fn state_tells_who_holds_a_device<R>(lease: Option<Lease<R>>)
    ensures
        summary_of(lease) is None <==> lease is None,
        lease is Some && lease->0 is Opening ==> summary_of(lease) == Some(
            (UsbLeaseKind::Opening, 0usize),
        ),
        lease is Some && lease->0 is Active ==> summary_of(lease) == Some(
            (UsbLeaseKind::Active, 0usize),
        ),
        lease is Some && lease->0 is Quarantined && lease->0->Quarantined_0.len() <= usize::MAX
            ==> summary_of(lease) == Some(
            (UsbLeaseKind::Quarantined, lease->0->Quarantined_0.len() as usize),
        ),
{
}

/// A device in quarantine is refused as such whatever is asked; a held one says whether it is
/// being opened or is active, and a free one that there is nothing to give back.
pub proof fn refusal_says_who_holds_the_device<R>(
    sessions: Seq<R>,
    request: LeaseRequest<R>,
)
    ensures
        lease_refusal(Some(Lease::Quarantined(sessions)), request)
            == "Android USB device is permanently quarantined"@,
        lease_refusal(Some(Lease::<R>::Opening), LeaseRequest::ReserveOpening)
            == "Android USB device is already opening"@,
        lease_refusal(Some(Lease::<R>::Active), LeaseRequest::ReserveOpening)
            == "Android USB device is already active"@,
        lease_refusal(Some(Lease::<R>::Active), LeaseRequest::Activate)
            == "Android USB device is already active"@,
        lease_refusal(Some(Lease::<R>::Opening), LeaseRequest::ReleaseActive)
            == "Android USB device never became active"@,
        lease_refusal(Some(Lease::<R>::Active), LeaseRequest::ReleaseOpening)
            == "Android USB device became active before opening release"@,
        lease_refusal(None, LeaseRequest::<R>::ReleaseActive)
            == "Android USB device has no active lease"@,
        lease_refusal(None, LeaseRequest::<R>::ReleaseOpening)
            == "Android USB device has no opening reservation"@,
        lease_refusal(None, LeaseRequest::<R>::Activate)
            == "Android USB device has no opening reservation"@,
{
}

} // verus!
