//! Which BLE drivers run, and how they wait before they try again.
use std::collections::HashMap;
use vstd::prelude::*;
use rand::RngCore;
use crate::ble_rnode::preflight::RUNNING_POLL;
use crate::interface::{
    deadline_after, earlier, instant_after, min_time, InterfaceError, InterfaceId, MILLISECOND,
    SECOND,
};
use crate::rnode::RNodeConfigFault;

verus! {

broadcast use vstd::std_specs::hash::group_hash_axioms;

/// The first wait before a new try, in seconds.
pub const RECONNECT_WAIT: u64 = 1;

/// The longest wait before a new try, in seconds.
pub const RECONNECT_WAIT_MAX: u64 = 30;

/// How many tries may fail in a row; without a number, any.
pub const MAX_RECONNECT_TRIES: Option<usize> = None;

/// How long a scan for a target lasts, in seconds.
pub const SCAN_TIMEOUT: u64 = 3;

/// Names one registration of a driver, never used twice.
#[derive(Clone, Copy, Debug, PartialEq, Eq, Structural)]
pub struct RunningFlag {
    token: u64,
}

/// The drivers that run: under each interface the latest registration, and for
/// each registration whether it may go on.
#[derive(Debug)]
pub struct RunningMap {
    current: HashMap<InterfaceId, u64>,
    running: HashMap<u64, bool>,
    next_token: u64,
}

/// The registrations after `number` gave up its place under `id`, if it held it.
pub open spec fn without_registration(
    registered: Map<InterfaceId, u64>,
    id: InterfaceId,
    number: u64,
) -> Map<InterfaceId, u64> {
    if registered.contains_key(id) && registered[id] == number {
        registered.remove(id)
    } else {
        registered
    }
}

/// The flags after the registration `number` was told to stop.
pub open spec fn with_stop(flags: Map<u64, bool>, number: u64) -> Map<u64, bool> {
    if flags.contains_key(number) {
        flags.insert(number, false)
    } else {
        flags
    }
}

impl RunningFlag {
    /// The registration's number.
    pub closed spec fn number(self) -> u64 {
        self.token
    }
}

impl RunningMap {
    /// The registration under each interface.
    pub closed spec fn registered(self) -> Map<InterfaceId, u64> {
        self.current@
    }

    /// Whether each registration may go on.
    pub closed spec fn flags(self) -> Map<u64, bool> {
        self.running@
    }

    /// How many registrations there have been.
    pub closed spec fn registrations(self) -> u64 {
        self.next_token
    }

    /// Every number that is known was handed out before.
    pub open spec fn well_formed(self) -> bool {
        forall|token: u64| #[trigger]
            self.flags().contains_key(token) ==> token < self.registrations()
    }

    /// The registration `flag` has not been told to stop.
    pub open spec fn may_run(self, flag: RunningFlag) -> bool {
        self.flags().contains_key(flag.number()) && self.flags()[flag.number()]
    }

    /// No driver runs.
    pub fn new() -> (map: Self)
        ensures
            map.well_formed(),
            map.registered() == Map::<InterfaceId, u64>::empty(),
            map.flags() == Map::<u64, bool>::empty(),
            map.registrations() == 0,
    {
        RunningMap { current: HashMap::new(), running: HashMap::new(), next_token: 0 }
    }

    /// Tells whether another driver can be registered.
    pub fn has_room(&self) -> (room: bool)
        ensures
            room == (self.registrations() < u64::MAX),
    {
        self.next_token < u64::MAX
    }

    /// Tells whether a registration may go on.
    pub fn is_running(&self, flag: RunningFlag) -> (running: bool)
        ensures
            running == self.may_run(flag),
    {
        match self.running.get(&flag.token) {
            Some(running) => *running,
            None => false,
        }
    }

    /// Tells one registration to stop, whatever stands under its interface now.
    pub fn request_shutdown(&mut self, flag: RunningFlag)
        requires
            old(self).well_formed(),
        ensures
            final(self).well_formed(),
            final(self).registered() == old(self).registered(),
            final(self).registrations() == old(self).registrations(),
            final(self).flags() == with_stop(old(self).flags(), flag.number()),
    {
        if self.running.contains_key(&flag.token) {
            self.running.insert(flag.token, false);
        }
        proof {
            assert forall|number: u64| #[trigger] self.flags().contains_key(number) implies number
                < self.registrations() by {
                assert(old(self).flags().contains_key(number));
            }
        }
    }

    /// Forgets a registration that nobody will look at any more.
    pub fn release_flag(&mut self, flag: RunningFlag)
        requires
            old(self).well_formed(),
        ensures
            final(self).well_formed(),
            final(self).registered() == old(self).registered(),
            final(self).registrations() == old(self).registrations(),
            final(self).flags() == old(self).flags().remove(flag.number()),
    {
        self.running.remove(&flag.token);
        proof {
            assert forall|number: u64| #[trigger] self.flags().contains_key(number) implies number
                < self.registrations() by {
                assert(old(self).flags().contains_key(number));
            }
        }
    }
}

/// Registers a driver under its interface. An earlier registration under the same
/// interface is replaced there, but goes on until it is told to stop itself.
pub fn register_running(map: &mut RunningMap, id: InterfaceId) -> (flag: RunningFlag)
    requires
        old(map).well_formed(),
        old(map).registrations() < u64::MAX,
    ensures
        final(map).well_formed(),
        flag.number() == old(map).registrations(),
        final(map).registrations() == old(map).registrations() + 1,
        !old(map).flags().contains_key(flag.number()),
        final(map).registered() == old(map).registered().insert(id, flag.number()),
        final(map).flags() == old(map).flags().insert(flag.number(), true),
{
    let token: u64 = map.next_token;
    map.next_token = token + 1;
    map.current.insert(id, token);
    map.running.insert(token, true);
    proof {
        assert forall|number: u64| #[trigger] map.flags().contains_key(number) implies number
            < map.registrations() by {
            assert(old(map).flags().contains_key(number) || number == token);
        }
    }
    RunningFlag { token }
}

/// Registers a driver whose configuration was held against the rules for radio settings.
/// One with a fault is refused before anything is registered.
pub fn register_valid(
    map: &mut RunningMap,
    id: InterfaceId,
    fault: Option<&RNodeConfigFault>,
) -> (flag: Result<RunningFlag, InterfaceError>)
    requires
        old(map).well_formed(),
        old(map).registrations() < u64::MAX,
    ensures
        final(map).well_formed(),
        match fault {
            Some(fault) => {
                &&& flag is Err
                &&& flag->Err_0.detail() == fault.words()
                &&& *final(map) == *old(map)
            },
            None => {
                &&& flag is Ok
                &&& flag->Ok_0.number() == old(map).registrations()
                &&& final(map).registrations() == old(map).registrations() + 1
                &&& !old(map).flags().contains_key(flag->Ok_0.number())
                &&& final(map).registered() == old(map).registered().insert(
                    id,
                    flag->Ok_0.number(),
                )
                &&& final(map).flags() == old(map).flags().insert(flag->Ok_0.number(), true)
            },
        },
{
    match fault {
        Some(fault) => Err(fault.refusal()),
        None => Ok(register_running(map, id)),
    }
}

/// Removes a registration from under its interface, unless a later one has taken
/// its place there.
pub fn unregister_running(map: &mut RunningMap, id: InterfaceId, flag: RunningFlag)
    requires
        old(map).well_formed(),
    ensures
        final(map).well_formed(),
        final(map).flags() == old(map).flags(),
        final(map).registrations() == old(map).registrations(),
        final(map).registered() == without_registration(
            old(map).registered(),
            id,
            flag.number(),
        ),
{
    let owns_entry = match map.current.get(&id) {
        Some(token) => *token == flag.token,
        None => false,
    };
    if owns_entry {
        map.current.remove(&id);
    }
    proof {
        assert forall|number: u64| #[trigger] map.flags().contains_key(number) implies number
            < map.registrations() by {
            assert(old(map).flags().contains_key(number));
        }
    }
}

/// Tells the driver that is registered under an interface to stop; without one,
/// nothing happens. Says whether there was one.
pub fn stop_ble_rnode_interface(map: &mut RunningMap, id: InterfaceId) -> (told: bool)
    requires
        old(map).well_formed(),
    ensures
        final(map).well_formed(),
        told == old(map).registered().contains_key(id),
        final(map).registered() == old(map).registered(),
        final(map).registrations() == old(map).registrations(),
        final(map).flags() == (if old(map).registered().contains_key(id) {
            with_stop(old(map).flags(), old(map).registered()[id])
        } else {
            old(map).flags()
        }),
{
    let token: u64 = match map.current.get(&id) {
        Some(token) => *token,
        None => {
            return false;
        },
    };
    if map.running.contains_key(&token) {
        map.running.insert(token, false);
    }
    proof {
        assert forall|number: u64| #[trigger] map.flags().contains_key(number) implies number
            < map.registrations() by {
            assert(old(map).flags().contains_key(number));
        }
    }
    true
}

/// Tells whether a driver is registered under an interface.
pub fn is_registered(map: &RunningMap, id: InterfaceId) -> (registered: bool)
    ensures
        registered == map.registered().contains_key(id),
{
    map.current.contains_key(&id)
}

/// Counts a failed try. Says whether the driver has to give up.
pub fn reconnect_try_exhausted(tries: &mut usize) -> (exhausted: bool)
    ensures
        MAX_RECONNECT_TRIES is None ==> !exhausted && *final(tries) == *old(tries),
        MAX_RECONNECT_TRIES is Some ==> *final(tries) == *old(tries) + 1 && exhausted == (*final(
            tries) >= MAX_RECONNECT_TRIES->0),
{
    match MAX_RECONNECT_TRIES {
        Some(max_tries) => {
            *tries = *tries + 1;
            *tries >= max_tries
        },
        None => false,
    }
}

/// The wait behind a wait of `seconds`: twice as long, up to the longest.
pub open spec fn next_wait(seconds: u64) -> u64 {
    if seconds * 2 < RECONNECT_WAIT_MAX {
        (seconds * 2) as u64
    } else {
        RECONNECT_WAIT_MAX
    }
}

/// Doubles a wait, up to the longest.
pub fn next_backoff(seconds: u64) -> (next: u64)
    ensures
        next == next_wait(seconds),
{
    if seconds >= 15 {
        RECONNECT_WAIT_MAX
    } else {
        seconds * 2
    }
}

/// A wait in seconds counts as one at least.
pub open spec fn at_least_one(seconds: u64) -> u64 {
    if seconds == 0 {
        1
    } else {
        seconds
    }
}

/// The spread of a wait, in milliseconds: a fifth of it.
pub open spec fn jitter_cap_ms(seconds: u64) -> u64 {
    if at_least_one(seconds) * 200 > u64::MAX {
        u64::MAX
    } else {
        (at_least_one(seconds) * 200) as u64
    }
}

/// The wait of `seconds` seconds spread by `random`, in nanoseconds.
pub open spec fn jittered(seconds: u64, random: u64) -> int {
    let cap = jitter_cap_ms(seconds);
    let jitter_ms = if cap == u64::MAX {
        random % u64::MAX
    } else {
        random % ((cap + 1) as u64)
    };
    at_least_one(seconds) * 1_000_000_000 + jitter_ms * 1_000_000
}

/// Spreads a wait by up to a fifth of it, in nanoseconds, so that drivers that lost
/// the same device do not return together.
pub fn reconnect_delay_with_jitter(seconds: u64, random: u64) -> (delay: u128)
    ensures
        delay == jittered(seconds, random),
        at_least_one(seconds) * 1_000_000_000 <= delay <= at_least_one(seconds) * 1_200_000_000,
{
    let base: u64 = if seconds == 0 {
        1
    } else {
        seconds
    };
    let cap: u64 = match base.checked_mul(200) {
        Some(cap) => cap,
        None => u64::MAX,
    };
    let modulus: u64 = cap.saturating_add(1);
    let jitter_ms: u64 = random % modulus;
    base as u128 * SECOND + jitter_ms as u128 * MILLISECOND
}

/// `rand::rngs::OsRng::next_u64`: a number from the operating system's generator.
/// Nothing is known of it. The call panics where the operating system has no
/// randomness to give, which no argument controls.
#[verifier::external_body]
fn os_random() -> (random: u64)
{
    rand::rngs::OsRng.next_u64()
}

/// The wait before a lost connection is tried again, in nanoseconds: `seconds`,
/// spread by up to a fifth.
pub fn ble_reconnect_delay(seconds: u64) -> (delay: u128)
    ensures
        exists|random: u64| delay == #[trigger] jittered(seconds, random),
        at_least_one(seconds) * 1_000_000_000 <= delay <= at_least_one(seconds) * 1_200_000_000,
{
    let random: u64 = os_random();
    let delay: u128 = reconnect_delay_with_jitter(seconds, random);
    assert(delay == jittered(seconds, random));
    delay
}

/// What a wait does next.
#[derive(Clone, Copy, Debug, PartialEq, Eq, Structural)]
pub enum WaitPoll {
    /// The driver was told to stop.
    ShutDown,
    /// The wait is over.
    Elapsed,
    /// Sleep for this long and look again.
    Sleep { duration: u128 },
}

/// What a wait until `deadline` does next; a stop comes before the deadline.
pub open spec fn shutdown_wait(deadline: u128, running: bool, now: u128) -> WaitPoll {
    if !running {
        WaitPoll::ShutDown
    } else if now >= deadline {
        WaitPoll::Elapsed
    } else {
        WaitPoll::Sleep { duration: earlier((deadline - now) as u128, RUNNING_POLL) }
    }
}

/// Decides what a wait until `deadline` does next.
pub fn wait_or_shutdown(deadline: u128, running: bool, now: u128) -> (poll: WaitPoll)
    ensures
        poll == shutdown_wait(deadline, running, now),
{
    if !running {
        WaitPoll::ShutDown
    } else if now >= deadline {
        WaitPoll::Elapsed
    } else {
        WaitPoll::Sleep { duration: min_time(deadline - now, SECOND) }
    }
}

/// The power state of a Bluetooth adapter.
#[derive(Clone, Copy, Debug, PartialEq, Eq, Structural)]
pub enum CentralState {
    Unknown,
    PoweredOn,
    PoweredOff,
}

/// The adapter has been seen without power.
pub open spec fn power_was_off(saw_powered_off: bool, state: CentralState) -> bool {
    saw_powered_off || state is PoweredOff
}

/// The adapter has power again after it was seen without.
pub open spec fn power_returned(saw_powered_off: bool, state: CentralState) -> bool {
    saw_powered_off && state is PoweredOn
}

/// Notes an adapter state. Power that returns after it was seen to go ends a wait.
pub fn adapter_power_transition_wakes(saw_powered_off: &mut bool, state: CentralState) -> (wakes:
    bool)
    ensures
        *final(saw_powered_off) == power_was_off(*old(saw_powered_off), state),
        wakes == power_returned(*old(saw_powered_off), state),
{
    match state {
        CentralState::PoweredOff => {
            *saw_powered_off = true;
            false
        },
        CentralState::PoweredOn => *saw_powered_off,
        CentralState::Unknown => false,
    }
}

/// A wait on a platform that tells the adapter's power: an adapter that is off is
/// no failed try, so the wait lasts until it is on again.
#[derive(Clone, Copy, Debug, PartialEq, Eq, Structural)]
pub struct AdapterRetryWait {
    pub deadline: u128,
    pub saw_powered_off: bool,
}

/// What such a wait does next.
pub open spec fn adapter_wait(wait: AdapterRetryWait, running: bool, now: u128) -> WaitPoll {
    if wait.saw_powered_off {
        if !running {
            WaitPoll::ShutDown
        } else {
            WaitPoll::Sleep { duration: RUNNING_POLL }
        }
    } else {
        shutdown_wait(wait.deadline, running, now)
    }
}

/// A wait of `total`, given the adapter's state where it could be read.
pub open spec fn new_adapter_wait(
    now: u128,
    total: u128,
    state: Option<CentralState>,
) -> AdapterRetryWait {
    AdapterRetryWait {
        deadline: instant_after(now, total),
        saw_powered_off: state == Some(CentralState::PoweredOff),
    }
}

impl AdapterRetryWait {
    /// A wait of `total`, given the adapter's state where it could be read.
    pub fn new(now: u128, total: u128, state: Option<CentralState>) -> (wait: Self)
        ensures
            wait == new_adapter_wait(now, total, state),
    {
        let saw_powered_off = match state {
            Some(CentralState::PoweredOff) => true,
            _ => false,
        };
        AdapterRetryWait { deadline: deadline_after(now, total), saw_powered_off }
    }

    /// Decides what to do next.
    pub fn poll(&self, running: bool, now: u128) -> (poll: WaitPoll)
        ensures
            poll == adapter_wait(*self, running, now),
    {
        if !running {
            WaitPoll::ShutDown
        } else if self.saw_powered_off {
            WaitPoll::Sleep { duration: SECOND }
        } else {
            wait_or_shutdown(self.deadline, running, now)
        }
    }

    /// Takes an adapter state that was announced or read into account. Says whether
    /// the wait is over.
    pub fn observe(&mut self, state: CentralState) -> (over: bool)
        ensures
            over == power_returned(old(self).saw_powered_off, state),
            final(self).saw_powered_off == power_was_off(old(self).saw_powered_off, state),
            final(self).deadline == old(self).deadline,
    {
        adapter_power_transition_wakes(&mut self.saw_powered_off, state)
    }
}

/// A retired registration neither removes nor stops the one that took its place
/// under the same interface.
pub proof fn same_interface_reuse_is_safe(
    map: RunningMap,
    id: InterfaceId,
    older: RunningFlag,
    newer: RunningFlag,
)
    requires
        older.number() != newer.number(),
        map.registered().contains_key(id) && map.registered()[id] == newer.number(),
        map.may_run(newer),
    ensures
        without_registration(map.registered(), id, older.number()) == map.registered(),
        with_stop(map.flags(), older.number())[newer.number()],
{
}

/// However often a wait is doubled, it stays between the first and the longest.
pub proof fn backoff_stays_bounded(seconds: u64)
    requires
        RECONNECT_WAIT <= seconds <= RECONNECT_WAIT_MAX,
    ensures
        RECONNECT_WAIT <= next_wait(seconds) <= RECONNECT_WAIT_MAX,
        seconds <= next_wait(seconds),
{
}

/// A driver never gives up: no number of failed tries is too many.
pub proof fn tries_are_unbounded()
    ensures
        MAX_RECONNECT_TRIES is None,
{
}

/// Each wait is twice the one before, up to thirty seconds; the first is one second.
pub proof fn waits_double_up_to_half_a_minute(seconds: u64)
    ensures
        RECONNECT_WAIT == 1,
        seconds <= 15 ==> next_wait(seconds) == 2 * seconds,
        seconds >= 15 ==> next_wait(seconds) == 30,
{
}

/// A spread wait is never shorter than asked for and at most a fifth longer, and every
/// millisecond between can come up; no wait is shorter than a second.
pub proof fn spread_is_up_to_a_fifth(seconds: u64, random: u64, milliseconds: u64)
    requires
        0 < seconds <= 1_000_000,
    ensures
        seconds * 1_000_000_000 <= jittered(seconds, random) <= seconds * 1_200_000_000,
        milliseconds <= seconds * 200 ==> jittered(seconds, milliseconds) == seconds * 1_000_000_000
            + milliseconds * 1_000_000,
        jittered(0, random) == jittered(1, random),
{
    let modulus: u64 = (seconds * 200 + 1) as u64;
    vstd::arithmetic::div_mod::lemma_mod_bound(random as int, modulus as int);
    if milliseconds <= seconds * 200 {
        vstd::arithmetic::div_mod::lemma_small_mod(milliseconds as nat, modulus as nat);
    }
}

/// A stop reaches the registration that it is meant for and no other; a registration that is
/// not known is not made known by it.
pub proof fn stop_reaches_one_registration(flags: Map<u64, bool>, number: u64, other: u64)
    ensures
        with_stop(flags, number).dom() == flags.dom(),
        flags.contains_key(number) ==> !with_stop(flags, number)[number],
        other != number && flags.contains_key(other) ==> with_stop(flags, number)[other]
            == flags[other],
{
    assert(with_stop(flags, number).dom() =~= flags.dom());
}

/// A registration gives up its place under its interface, and no other loses its own.
pub proof fn registration_gives_up_its_own_place(
    registered: Map<InterfaceId, u64>,
    id: InterfaceId,
    number: u64,
    other: InterfaceId,
)
    ensures
        registered.contains_key(id) && registered[id] == number ==> !without_registration(
            registered,
            id,
            number,
        ).contains_key(id),
        registered.contains_key(other) && (other != id || registered[other] != number)
            ==> without_registration(registered, id, number).contains_key(other)
            && without_registration(registered, id, number)[other] == registered[other],
        !registered.contains_key(other) ==> !without_registration(
            registered,
            id,
            number,
        ).contains_key(other),
{
}

/// A wait ends at once when its driver is told to stop, and otherwise at its deadline. Until
/// then it looks again every second at least, and never sleeps past the deadline.
pub proof fn wait_ends_at_a_stop_or_its_deadline(deadline: u128, running: bool, now: u128)
    ensures
        shutdown_wait(deadline, running, now) is ShutDown <==> !running,
        shutdown_wait(deadline, running, now) is Elapsed <==> running && now >= deadline,
        running && now < deadline ==> {
            let duration = shutdown_wait(deadline, running, now)->duration;
            &&& shutdown_wait(deadline, running, now) is Sleep
            &&& 0 < duration <= 1_000_000_000
            &&& now + duration <= deadline
            &&& duration == 1_000_000_000 || now + duration == deadline
        },
{
}

/// While the adapter is without power a wait does not end by its deadline, but still by a
/// stop; with power it is a wait like any other. Power that returns ends it.
pub proof fn wait_lasts_while_the_adapter_is_off(
    wait: AdapterRetryWait,
    running: bool,
    now: u128,
    state: CentralState,
)
    ensures
        !(adapter_wait(wait, running, now) is ShutDown) <==> running,
        wait.saw_powered_off && running ==> adapter_wait(wait, running, now) == (WaitPoll::Sleep {
            duration: 1_000_000_000,
        }),
        !wait.saw_powered_off ==> adapter_wait(wait, running, now) == shutdown_wait(
            wait.deadline,
            running,
            now,
        ),
        power_returned(power_was_off(wait.saw_powered_off, CentralState::PoweredOff), state)
            <==> state is PoweredOn,
        !power_returned(false, state),
        power_was_off(false, state) <==> state is PoweredOff,
        power_was_off(true, state),
{
}

/// A wait takes as long as was asked for, and knows from the start whether the adapter is
/// without power.
pub proof fn adapter_wait_begins_as_found(now: u128, total: u128, state: Option<CentralState>)
    requires
        now + total <= u128::MAX,
    ensures
        new_adapter_wait(now, total, state).deadline == now + total,
        new_adapter_wait(now, total, state).saw_powered_off <==> state is Some && state->0
            is PoweredOff,
{
}

} // verus!
