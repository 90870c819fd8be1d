//! Which USB drivers can be told to stop, and what became of those that were.
use std::collections::HashMap;
use vstd::prelude::*;
use vstd::string::*;
use crate::android_usb_lifecycle::shutdown::UsbShutdownReport;
use crate::interface::InterfaceId;
use crate::text::joined;

verus! {

broadcast use vstd::std_specs::hash::group_hash_axioms;

/// What is known of one driver.
#[derive(Debug)]
pub enum UsbStopStatus {
    /// It runs, and may have been told to stop.
    Running { told: bool },
    /// It has ended.
    Complete { quarantined: bool, failure: Option<String> },
}

/// Names one registration of a driver, never used twice.
#[derive(Clone, Copy, Debug, PartialEq, Eq, Structural)]
pub struct UsbStopToken {
    token: u64,
}

/// The registered drivers: under each interface the latest registration, and for each
/// registration what is known of it.
#[derive(Debug)]
pub struct UsbStopRegistry {
    current: HashMap<InterfaceId, u64>,
    drivers: HashMap<u64, UsbStopStatus>,
    next_token: u64,
}

/// The status has ended in quarantine.
pub open spec fn ended_in_quarantine(status: Option<UsbStopStatus>) -> bool {
    status matches Some(UsbStopStatus::Complete { quarantined: true, .. })
}

/// The drivers after one was told to stop; only a running one takes notice.
pub open spec fn with_usb_stop(drivers: Map<u64, UsbStopStatus>, number: u64) -> Map<
    u64,
    UsbStopStatus,
> {
    if drivers.contains_key(number) && drivers[number] is Running {
        drivers.insert(number, UsbStopStatus::Running { told: true })
    } else {
        drivers
    }
}

/// What is known of a registration.
pub open spec fn status_in(drivers: Map<u64, UsbStopStatus>, number: u64) -> Option<UsbStopStatus> {
    if drivers.contains_key(number) {
        Some(drivers[number])
    } else {
        None
    }
}

/// The registrations after one was withdrawn from under its interface. A later one there
/// stays, and so does one that ended in quarantine.
pub open spec fn withdrawn(
    registered: Map<InterfaceId, u64>,
    drivers: Map<u64, UsbStopStatus>,
    id: InterfaceId,
    number: u64,
) -> Map<InterfaceId, u64> {
    if !ended_in_quarantine(status_in(drivers, number)) && registered.contains_key(id)
        && registered[id] == number {
        registered.remove(id)
    } else {
        registered
    }
}

/// The driver runs and was told to stop.
pub open spec fn is_told_in(status: Option<UsbStopStatus>) -> bool {
    status == Some(UsbStopStatus::Running { told: true })
}

/// `status` is what is known of a driver that ended with that report.
pub open spec fn status_after(report: &UsbShutdownReport, status: UsbStopStatus) -> bool {
    status matches UsbStopStatus::Complete { quarantined, failure } && quarantined == (
    report.disposition is Quarantined) && match failure {
        Some(words) => report.failures().len() > 0 && words@ == joined(report.failures(), "; "@),
        None => report.failures().len() == 0,
    }
}

/// `outcome` is what waiting for a driver's end brings.
pub open spec fn outcome_of(
    status: Option<UsbStopStatus>,
    outcome: Option<Result<(), String>>,
) -> bool {
    match status {
        Some(UsbStopStatus::Running { .. }) => outcome is None,
        Some(UsbStopStatus::Complete { failure: None, .. }) => outcome == Some(Ok::<(), String>(())),
        Some(UsbStopStatus::Complete { failure: Some(words), .. }) => outcome matches Some(Err(said))
            && said@ == words@,
        None => outcome matches Some(Err(said)) && said@
            == "Android USB owner ended without a shutdown outcome"@,
    }
}

impl UsbStopToken {
    /// The registration's number.
    pub closed spec fn number(self) -> u64 {
        self.token
    }
}

impl UsbStopRegistry {
    /// The registration under each interface.
    pub closed spec fn registered(self) -> Map<InterfaceId, u64> {
        self.current@
    }

    /// What is known of each registration.
    pub closed spec fn known(self) -> Map<u64, UsbStopStatus> {
        self.drivers@
    }

    /// How many registrations there have been.
    pub closed spec fn registrations(self) -> u64 {
        self.next_token
    }

    /// Every number that is known was handed out before.
    pub open spec fn well_formed(self) -> bool {
        forall|number: u64| #[trigger]
            self.known().contains_key(number) ==> number < self.registrations()
    }

    /// What is known of a registration.
    pub open spec fn status_of(self, number: u64) -> Option<UsbStopStatus> {
        status_in(self.known(), number)
    }

    /// Nothing is registered.
    pub fn new() -> (registry: Self)
        ensures
            registry.well_formed(),
            registry.registered() == Map::<InterfaceId, u64>::empty(),
            registry.known() == Map::<u64, UsbStopStatus>::empty(),
            registry.registrations() == 0,
    {
        UsbStopRegistry { current: HashMap::new(), drivers: HashMap::new(), next_token: 0 }
    }

    /// Tells whether another driver can be registered.
    pub fn has_room(&self) -> (room: bool)
        ensures
            room == (self.registrations() < u64::MAX),
    {
        self.next_token < u64::MAX
    }

    /// Tells whether a driver is registered under an interface.
    pub fn contains(&self, id: InterfaceId) -> (registered: bool)
        ensures
            registered == self.registered().contains_key(id),
    {
        self.current.contains_key(&id)
    }

    /// Tells one registration to stop, whatever stands under its interface now.
    pub fn request_shutdown(&mut self, token: UsbStopToken)
        requires
            old(self).well_formed(),
        ensures
            final(self).well_formed(),
            final(self).registered() == old(self).registered(),
            final(self).registrations() == old(self).registrations(),
            final(self).known() == with_usb_stop(old(self).known(), token.number()),
    {
        let running = match self.drivers.get(&token.token) {
            Some(status) => matches!(status, UsbStopStatus::Running { .. }),
            None => false,
        };
        if running {
            self.drivers.insert(token.token, UsbStopStatus::Running { told: true });
        }
        proof {
            assert forall|number: u64| #[trigger] self.known().contains_key(number) implies number
                < self.registrations() by {
                assert(old(self).known().contains_key(number));
            }
        }
    }

    /// Tells whether a driver was told to stop.
    pub fn is_told(&self, token: UsbStopToken) -> (told: bool)
        ensures
            told == is_told_in(self.status_of(token.number())),
    {
        match self.drivers.get(&token.token) {
            Some(status) => match status {
                UsbStopStatus::Running { told } => *told,
                _ => false,
            },
            None => false,
        }
    }

    /// Records how a driver has ended.
    pub fn complete(&mut self, token: UsbStopToken, report: &UsbShutdownReport)
        requires
            old(self).well_formed(),
        ensures
            final(self).well_formed(),
            final(self).registered() == old(self).registered(),
            final(self).registrations() == old(self).registrations(),
            !old(self).known().contains_key(token.number()) ==> final(self).known() == old(
                self).known(),
            old(self).known().contains_key(token.number()) ==> {
                let status = final(self).known()[token.number()];
                &&& final(self).known() == old(self).known().insert(token.number(), status)
                &&& status_after(report, status)
            },
    {
        let failure = match report.as_result() {
            Ok(_) => None,
            Err(words) => Some(words),
        };
        if self.drivers.contains_key(&token.token) {
            self.drivers.insert(
                token.token,
                UsbStopStatus::Complete { quarantined: report.is_quarantined(), failure },
            );
        }
        proof {
            assert forall|number: u64| #[trigger] self.known().contains_key(number) implies number
                < self.registrations() by {
                assert(old(self).known().contains_key(number));
            }
        }
    }

    /// Withdraws a registration from under its interface, unless a later one has taken
    /// its place there. One that ended in quarantine stays: its outcome is kept for
    /// whoever asks for that interface.
    pub fn withdraw(&mut self, id: InterfaceId, token: UsbStopToken)
        requires
            old(self).well_formed(),
        ensures
            final(self).well_formed(),
            final(self).known() == old(self).known(),
            final(self).registrations() == old(self).registrations(),
            final(self).registered() == withdrawn(
                old(self).registered(),
                old(self).known(),
                id,
                token.number(),
            ),
    {
        let quarantined = match self.drivers.get(&token.token) {
            Some(status) => match status {
                UsbStopStatus::Complete { quarantined, .. } => *quarantined,
                _ => false,
            },
            None => false,
        };
        let owns_entry = match self.current.get(&id) {
            Some(number) => *number == token.token,
            None => false,
        };
        if !quarantined && owns_entry {
            self.current.remove(&id);
        }
        proof {
            assert forall|number: u64| #[trigger] self.known().contains_key(number) implies number
                < self.registrations() by {
                assert(old(self).known().contains_key(number));
            }
        }
    }

    /// What waiting for a driver's end brings: nothing yet, or its outcome. A driver of
    /// which nothing is known has left no outcome.
    pub fn outcome(&self, token: UsbStopToken) -> (outcome: Option<Result<(), String>>)
        ensures
            outcome_of(self.status_of(token.number()), outcome),
    {
        match self.drivers.get(&token.token) {
            Some(status) => match status {
                UsbStopStatus::Running { .. } => None,
                UsbStopStatus::Complete { failure, .. } => match failure {
                    Some(words) => Some(Err(words.as_str().to_owned())),
                    None => Some(Ok(())),
                },
            },
            None => Some(Err("Android USB owner ended without a shutdown outcome".to_owned())),
        }
    }

    /// Forgets a registration that nobody will ask for any more.
    pub fn forget(&mut self, token: UsbStopToken)
        requires
            old(self).well_formed(),
        ensures
            final(self).well_formed(),
            final(self).registered() == old(self).registered(),
            final(self).registrations() == old(self).registrations(),
            final(self).known() == old(self).known().remove(token.number()),
    {
        self.drivers.remove(&token.token);
        proof {
            assert forall|number: u64| #[trigger] self.known().contains_key(number) implies number
                < self.registrations() by {
                assert(old(self).known().contains_key(number));
            }
        }
    }
}

/// Registers a driver under its interface. An earlier registration under the same
/// interface is replaced there, but goes on until it is told to stop itself.
pub fn register_android_usb_rnode_stop(registry: &mut UsbStopRegistry, id: InterfaceId) -> (token:
    UsbStopToken)
    requires
        old(registry).well_formed(),
        old(registry).registrations() < u64::MAX,
    ensures
        final(registry).well_formed(),
        token.number() == old(registry).registrations(),
        !old(registry).known().contains_key(token.number()),
        final(registry).registrations() == old(registry).registrations() + 1,
        final(registry).registered() == old(registry).registered().insert(id, token.number()),
        final(registry).known() == old(registry).known().insert(
            token.number(),
            UsbStopStatus::Running { told: false },
        ),
{
    let token: u64 = registry.next_token;
    registry.next_token = token + 1;
    registry.current.insert(id, token);
    registry.drivers.insert(token, UsbStopStatus::Running { told: false });
    proof {
        assert forall|number: u64| #[trigger] registry.known().contains_key(number) implies number
            < registry.registrations() by {
            assert(old(registry).known().contains_key(number) || number == token);
        }
    }
    UsbStopToken { token }
}

/// Tells the driver that is registered under an interface to stop; without one, nothing
/// happens. Says which registration that is.
pub fn stop_android_usb_rnode_interface(registry: &mut UsbStopRegistry, id: InterfaceId) -> (told:
    Option<UsbStopToken>)
    requires
        old(registry).well_formed(),
    ensures
        final(registry).well_formed(),
        final(registry).registered() == old(registry).registered(),
        final(registry).registrations() == old(registry).registrations(),
        match told {
            Some(token) => old(registry).registered().contains_key(id) && token.number() == old(
                registry).registered()[id] && final(registry).known() == with_usb_stop(
                old(registry).known(),
                token.number(),
            ),
            None => !old(registry).registered().contains_key(id) && final(registry).known() == old(
                registry).known(),
        },
{
    let number: u64 = match registry.current.get(&id) {
        Some(number) => *number,
        None => {
            return None;
        },
    };
    let token = UsbStopToken { token: number };
    registry.request_shutdown(token);
    Some(token)
}

/// A retired registration and a later one under the same interface do not touch each
/// other: stopping the retired one leaves the later one as it was, and withdrawing it
/// leaves the later one registered.
pub proof fn same_interface_reuse_keeps_drivers_apart(
    registered: Map<InterfaceId, u64>,
    drivers: Map<u64, UsbStopStatus>,
    id: InterfaceId,
    retired: u64,
    later: u64,
)
    requires
        retired != later,
    ensures
        status_in(with_usb_stop(drivers, retired), later) == status_in(drivers, later),
        withdrawn(registered.insert(id, later), drivers, id, retired) == registered.insert(
            id,
            later,
        ),
{
}

/// A driver that ended in quarantine can still be asked for under its interface.
pub proof fn quarantined_outcome_stays_registered(
    registered: Map<InterfaceId, u64>,
    drivers: Map<u64, UsbStopStatus>,
    id: InterfaceId,
    number: u64,
)
    requires
        registered.contains_key(id),
        registered[id] == number,
    ensures
        withdrawn(registered, drivers, id, number).contains_key(id) <==> ended_in_quarantine(
            status_in(drivers, number),
        ),
{
}

/// Stopping a driver again changes nothing.
pub proof fn stopping_twice_is_stopping_once(drivers: Map<u64, UsbStopStatus>, number: u64)
    ensures
        with_usb_stop(with_usb_stop(drivers, number), number) == with_usb_stop(drivers, number),
{
    assert(with_usb_stop(with_usb_stop(drivers, number), number) =~= with_usb_stop(
        drivers,
        number,
    ));
}

/// A stop reaches a running driver and no other; one that has ended, or is not known, takes no
/// notice.
pub proof fn stop_reaches_one_running_driver(
    drivers: Map<u64, UsbStopStatus>,
    number: u64,
    other: u64,
)
    ensures
        with_usb_stop(drivers, number).dom() == drivers.dom(),
        drivers.contains_key(number) && drivers[number] is Running ==> with_usb_stop(
            drivers,
            number,
        )[number] == (UsbStopStatus::Running { told: true }),
        drivers.contains_key(number) && drivers[number] is Complete ==> with_usb_stop(
            drivers,
            number,
        )[number] == drivers[number],
        other != number && drivers.contains_key(other) ==> with_usb_stop(drivers, number)[other]
            == drivers[other],
{
    assert(with_usb_stop(drivers, number).dom() =~= drivers.dom());
}

/// A driver that ended without quarantine gives its place under its interface up; no other
/// registration loses its own.
pub proof fn ended_driver_gives_up_its_own_place(
    registered: Map<InterfaceId, u64>,
    drivers: Map<u64, UsbStopStatus>,
    id: InterfaceId,
    number: u64,
    other: InterfaceId,
)
    ensures
        registered.contains_key(id) && registered[id] == number && !(drivers.contains_key(number)
            && drivers[number] is Complete && drivers[number]->quarantined) ==> !withdrawn(
            registered,
            drivers,
            id,
            number,
        ).contains_key(id),
        drivers.contains_key(number) && drivers[number] is Complete && drivers[number]->quarantined
            ==> withdrawn(registered, drivers, id, number) == registered,
        registered.contains_key(other) && (other != id || registered[other] != number) ==> withdrawn(
            registered,
            drivers,
            id,
            number,
        ).contains_key(other) && withdrawn(registered, drivers, id, number)[other]
            == registered[other],
        !registered.contains_key(other) ==> !withdrawn(registered, drivers, id, number).contains_key(
            other,
        ),
{
}

/// Whoever waits for a driver learns of its end exactly when it has ended: a success where its
/// shutdown had no failure, and otherwise every failure of it. A driver that is not known has
/// failed.
pub proof fn outcome_is_that_of_the_shutdown(
    report: &UsbShutdownReport,
    status: UsbStopStatus,
    outcome: Option<Result<(), String>>,
)
    requires
        status_after(report, status),
        outcome_of(Some(status), outcome),
    ensures
        outcome is Some,
        outcome->0 is Ok <==> report.failures().len() == 0,
        outcome->0 is Err ==> outcome->0->Err_0@ == joined(report.failures(), "; "@),
        ended_in_quarantine(Some(status)) <==> report.disposition is Quarantined,
        !is_told_in(Some(status)),
{
}

/// A driver that runs has no outcome yet, and one of which nothing is known has failed.
pub proof fn running_driver_has_no_outcome(told: bool, outcome: Option<Result<(), String>>)
    ensures
        outcome_of(Some(UsbStopStatus::Running { told }), outcome) <==> outcome is None,
        outcome_of(None, outcome) ==> outcome is Some && outcome->0 is Err && outcome->0->Err_0@
            == "Android USB owner ended without a shutdown outcome"@,
        is_told_in(Some(UsbStopStatus::Running { told })) <==> told,
        !is_told_in(None),
{
}

} // verus!
