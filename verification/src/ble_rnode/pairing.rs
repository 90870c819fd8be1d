//! How an RNode is bonded: which GATT operation triggers authentication, what
//! its outcome means to the reconnect loop, and the passkey prompt on Linux.
use vstd::prelude::*;
use vstd::string::*;
use crate::ble_rnode::generation::{BleGenerationExit, BleOperationStage, OperationPoll};
use crate::interface::{deadline_after, instant_after, InterfaceError, SECOND};
use crate::text::{has_prefix, join2, starts_with};

verus! {

/// How long a person has to enter the passkey.
pub const PASSKEY_TIMEOUT: u128 = 60_000_000_000;

/// What a characteristic advertises of itself, as far as pairing depends on it.
#[derive(Clone, Copy, Debug, PartialEq, Eq, Structural)]
pub struct CharacteristicProperties {
    pub read: bool,
    pub notify: bool,
}

/// The GATT operation that establishes authenticated access before normal
/// traffic begins.
#[derive(Clone, Copy, Debug, PartialEq, Eq, Structural)]
pub enum DesktopPairingTrigger {
    EncryptedRead,
    SecuredSubscribe,
}

impl DesktopPairingTrigger {
    /// The trigger's name in diagnostics.
    pub fn label(self) -> (label: &'static str)
        ensures
            label@ == (match self {
                DesktopPairingTrigger::EncryptedRead => "encrypted_read"@,
                DesktopPairingTrigger::SecuredSubscribe => "secured_subscribe"@,
            }),
    {
        match self {
            DesktopPairingTrigger::EncryptedRead => "encrypted_read",
            DesktopPairingTrigger::SecuredSubscribe => "secured_subscribe",
        }
    }
}

/// The trigger that the discovered TX characteristic calls for. CoreBluetooth must
/// not be asked to read a characteristic that offers notifications only; the
/// subscription to it authenticates instead.
pub open spec fn pairing_trigger(
    properties: CharacteristicProperties,
    apple_core_bluetooth: bool,
) -> DesktopPairingTrigger {
    if apple_core_bluetooth && properties.notify && !properties.read {
        DesktopPairingTrigger::SecuredSubscribe
    } else {
        DesktopPairingTrigger::EncryptedRead
    }
}

/// Selects the authentication trigger.
pub fn desktop_pairing_trigger_for_properties(
    properties: CharacteristicProperties,
    apple_core_bluetooth: bool,
) -> (trigger: DesktopPairingTrigger)
    ensures
        trigger == pairing_trigger(properties, apple_core_bluetooth),
{
    let notification_only = properties.notify && !properties.read;
    if apple_core_bluetooth && notification_only {
        DesktopPairingTrigger::SecuredSubscribe
    } else {
        DesktopPairingTrigger::EncryptedRead
    }
}

/// The stage under which the TX subscription runs.
pub open spec fn stage_of_subscription(
    trigger: Option<DesktopPairingTrigger>,
) -> BleOperationStage {
    if trigger == Some(DesktopPairingTrigger::SecuredSubscribe) {
        BleOperationStage::PairingSubscribe
    } else {
        BleOperationStage::Subscribe
    }
}

/// The stage under which the TX subscription runs: a subscription that triggers
/// pairing gets the time that a person needs.
pub fn subscribe_stage(trigger: Option<DesktopPairingTrigger>) -> (stage: BleOperationStage)
    ensures
        stage == stage_of_subscription(trigger),
{
    match trigger {
        Some(DesktopPairingTrigger::SecuredSubscribe) => BleOperationStage::PairingSubscribe,
        _ => BleOperationStage::Subscribe,
    }
}

/// The error says that a bond is being made, so that a quick retry is in order.
pub open spec fn is_pairing_transition(error: InterfaceError) -> bool {
    has_prefix(error.detail(), "BLE pairing in progress:"@)
}

/// Tells whether an error says that a bond is being made.
pub fn is_pairing_transition_error(error: &InterfaceError) -> (transition: bool)
    ensures
        transition == is_pairing_transition(*error),
{
    match error {
        InterfaceError::SendFailed(message) => starts_with(
            message.as_str(),
            "BLE pairing in progress:",
        ),
    }
}

/// What a failed TX subscription is reported as.
pub open spec fn subscribe_failure(exit: BleGenerationExit) -> Seq<char> {
    match exit {
        BleGenerationExit::TargetDisconnected { .. } => "BLE pairing in progress: "@ + exit.words(),
        BleGenerationExit::StageFailed { stage: BleOperationStage::PairingSubscribe, .. } =>
            "BLE pairing in progress: "@ + exit.words(),
        BleGenerationExit::DeadlineElapsed { stage: BleOperationStage::PairingSubscribe } =>
            "BLE pairing timed out while enabling secured notifications. Did you enter the 6-digit passkey shown on the RNode when the system prompted?"@,
        _ => exit.words(),
    }
}

/// Maps what ended the TX subscription to the error of the connection attempt.
pub fn map_subscribe_generation_error(error: &BleGenerationExit) -> (mapped: InterfaceError)
    ensures
        mapped.detail() == subscribe_failure(*error),
{
    let detail = match error {
        BleGenerationExit::TargetDisconnected { .. } => join2(
            "BLE pairing in progress: ",
            error.message().as_str(),
        ),
        BleGenerationExit::StageFailed { stage: BleOperationStage::PairingSubscribe, .. } => join2(
            "BLE pairing in progress: ",
            error.message().as_str(),
        ),
        BleGenerationExit::DeadlineElapsed { stage: BleOperationStage::PairingSubscribe } =>
            "BLE pairing timed out while enabling secured notifications. Did you enter the 6-digit passkey shown on the RNode when the system prompted?".to_owned(),
        _ => error.message(),
    };
    InterfaceError::SendFailed(detail)
}

/// What a failed encrypted read is reported as.
pub open spec fn pairing_read_failure(exit: BleGenerationExit) -> Seq<char> {
    match exit {
        BleGenerationExit::StageFailed { reason, .. } => "BLE pairing in progress: "@ + reason@,
        BleGenerationExit::TargetDisconnected { .. } =>
            "BLE pairing in progress: RNode completed fresh bond and disconnected; reconnecting"@,
        BleGenerationExit::DeadlineElapsed { .. } =>
            "BLE pairing timed out. Did you enter the 6-digit passkey shown on the RNode when the system prompted?"@,
        _ => exit.words(),
    }
}

/// Maps what ended the encrypted read to the error of the connection attempt.
pub fn map_pairing_read_error(error: &BleGenerationExit) -> (mapped: InterfaceError)
    ensures
        mapped.detail() == pairing_read_failure(*error),
{
    let detail = match error {
        BleGenerationExit::StageFailed { reason, .. } => join2(
            "BLE pairing in progress: ",
            reason.as_str(),
        ),
        BleGenerationExit::TargetDisconnected { .. } =>
            "BLE pairing in progress: RNode completed fresh bond and disconnected; reconnecting".to_owned(),
        BleGenerationExit::DeadlineElapsed { .. } =>
            "BLE pairing timed out. Did you enter the 6-digit passkey shown on the RNode when the system prompted?".to_owned(),
        _ => error.message(),
    };
    InterfaceError::SendFailed(detail)
}

/// The disconnect by which an RNode confirms a fresh bond is a pairing transition,
/// whichever operation triggered the bond.
pub proof fn fresh_bond_disconnect_is_a_transition(exit: BleGenerationExit)
    requires
        exit is TargetDisconnected,
    ensures
        has_prefix(subscribe_failure(exit), "BLE pairing in progress:"@),
        has_prefix(pairing_read_failure(exit), "BLE pairing in progress:"@),
{
    reveal_strlit("BLE pairing in progress:");
    reveal_strlit("BLE pairing in progress: ");
    reveal_strlit(
        "BLE pairing in progress: RNode completed fresh bond and disconnected; reconnecting",
    );
    let prefix = "BLE pairing in progress:"@;
    assert(subscribe_failure(exit).subrange(0, prefix.len() as int) =~= prefix);
    assert(pairing_read_failure(exit).subrange(0, prefix.len() as int) =~= prefix);
}

/// An authentication error while a bond is being made is a pairing transition too.
pub proof fn rejected_authentication_is_a_transition(exit: BleGenerationExit)
    requires
        exit is StageFailed,
    ensures
        has_prefix(pairing_read_failure(exit), "BLE pairing in progress:"@),
        exit.ended_stage() is PairingSubscribe ==> has_prefix(
            subscribe_failure(exit),
            "BLE pairing in progress:"@,
        ),
{
    reveal_strlit("BLE pairing in progress:");
    reveal_strlit("BLE pairing in progress: ");
    let prefix = "BLE pairing in progress:"@;
    assert(pairing_read_failure(exit).subrange(0, prefix.len() as int) =~= prefix);
    if exit.ended_stage() is PairingSubscribe {
        assert(subscribe_failure(exit).subrange(0, prefix.len() as int) =~= prefix);
    }
}

/// Asks the user interface for the passkey of one pairing attempt.
#[derive(Clone, Debug)]
pub struct LinuxPairingPrompt {
    pub device: String,
    /// Identifies the attempt, so that stale prompts can be dismissed.
    pub attempt_id: u64,
}

/// Tells the user interface that a pairing attempt has ended.
#[derive(Clone, Debug)]
pub struct LinuxPairingFinished {
    pub attempt_id: u64,
    /// "ok", "cancelled", "timed_out", or a short BlueZ error string.
    pub status: String,
}

/// What a bond that is there already makes of an attempt.
pub open spec fn bond_found(paired: bool) -> Option<bool> {
    if paired {
        Some(false)
    } else {
        None::<bool>
    }
}

/// What a bond that is there already makes of an attempt: there is nothing to do, and the
/// bond is not fresh.
pub fn existing_bond(paired: bool) -> (fresh: Option<bool>)
    ensures
        fresh == bond_found(paired),
{
    if paired {
        Some(false)
    } else {
        None
    }
}

/// The pairing attempt in flight.
#[derive(Clone, Debug, PartialEq, Eq)]
pub struct LinuxPairingState {
    /// Numbers the attempt.
    pub attempt_id: u64,
    /// The attempt was cancelled or replaced; no prompt may follow.
    pub aborted: bool,
    /// The passkey request that waits for an answer.
    pub waiting: Option<u64>,
    /// The answers that were given, each with the request that it is for.
    pub answers: Vec<(u64, u32)>,
    /// How many passkey requests the attempt has seen.
    pub requests: u64,
}

/// All that is known of pairing: how many attempts there were, up to which of them the
/// prompts were drained, and the one in flight.
#[derive(Clone, Debug, PartialEq, Eq)]
pub struct LinuxPairing {
    pub attempts: u64,
    pub drained: u64,
    pub current: Option<LinuxPairingState>,
}

/// What is known of an attempt.
pub ghost struct Attempt {
    pub attempt_id: u64,
    pub aborted: bool,
    pub waiting: Option<u64>,
    pub answers: Seq<(u64, u32)>,
    pub requests: u64,
}

/// What is known of pairing.
pub ghost struct Pairing {
    pub attempts: u64,
    pub drained: u64,
    pub current: Option<Attempt>,
}

impl View for LinuxPairing {
    type V = Pairing;

    open spec fn view(&self) -> Pairing {
        Pairing {
            attempts: self.attempts,
            drained: self.drained,
            current: match self.current {
                Some(state) => Some(
                    Attempt {
                        attempt_id: state.attempt_id,
                        aborted: state.aborted,
                        waiting: state.waiting,
                        answers: state.answers@,
                        requests: state.requests,
                    },
                ),
                None => None,
            },
        }
    }
}

/// Why a passkey request gets no prompt.
#[derive(Clone, Copy, Debug, PartialEq, Eq, Structural)]
pub enum PasskeyRefusal {
    NoActiveAttempt,
}

/// What a waiting passkey request is to do.
#[derive(Clone, Copy, Debug, PartialEq, Eq, Structural)]
pub enum PasskeyWait {
    Waiting,
    Entered(u32),
    Canceled,
}

/// The attempt in flight is the latest one, and no later prompt was drained.
pub open spec fn pairing_consistent(pairing: Pairing) -> bool {
    &&& pairing.drained <= pairing.attempts
    &&& pairing.current is Some ==> pairing.current->0.attempt_id == pairing.attempts
    &&& pairing.current is Some && !pairing.current->0.aborted ==> pairing.drained
        < pairing.attempts
}

/// The attempt is in flight and takes passkeys.
pub open spec fn attempt_is_live(pairing: Pairing, attempt_id: u64) -> bool {
    pairing.current is Some && !pairing.current->0.aborted && pairing.current->0.attempt_id
        == attempt_id
}

/// A prompt of the attempt may still be shown: it has not been drained.
pub open spec fn prompt_may_be_shown(pairing: Pairing, attempt_id: u64) -> bool {
    attempt_id > pairing.drained
}

/// The last answer that was given to a request.
pub open spec fn answer_to(answers: Seq<(u64, u32)>, number: u64) -> Option<u32>
    decreases answers.len(),
{
    if answers.len() == 0 {
        None
    } else if answers.last().0 == number {
        Some(answers.last().1)
    } else {
        answer_to(answers.drop_last(), number)
    }
}

/// What an open passkey request is to do. An answer counts only while its attempt
/// is in flight and has not been cancelled.
pub open spec fn passkey_wait(pairing: Pairing, attempt_id: u64, number: u64) -> PasskeyWait {
    if !attempt_is_live(pairing, attempt_id) {
        PasskeyWait::Canceled
    } else if pairing.current->0.waiting == Some(number) {
        PasskeyWait::Waiting
    } else {
        match answer_to(pairing.current->0.answers, number) {
            Some(passkey) => PasskeyWait::Entered(passkey),
            None => PasskeyWait::Canceled,
        }
    }
}

/// The state after a passkey request was opened.
pub open spec fn with_request(pairing: Pairing) -> Pairing {
    Pairing {
        current: Some(
            Attempt {
                waiting: Some(pairing.current->0.requests),
                requests: pairing.current->0.requests.wrapping_add(1),
                ..pairing.current->0
            },
        ),
        ..pairing
    }
}

/// A passkey request waits in an attempt that has not been cancelled.
pub open spec fn takes_passkey(pairing: Pairing) -> bool {
    pairing.current is Some && !pairing.current->0.aborted && pairing.current->0.waiting is Some
}

/// The state after a passkey was handed to the waiting request.
pub open spec fn with_passkey(pairing: Pairing, passkey: u32) -> Pairing {
    Pairing {
        current: Some(
            Attempt {
                waiting: None,
                answers: pairing.current->0.answers.push((pairing.current->0.waiting->0, passkey)),
                ..pairing.current->0
            },
        ),
        ..pairing
    }
}

/// The state after a passkey was submitted.
pub open spec fn submitted(pairing: Pairing, passkey: u32) -> Pairing {
    if takes_passkey(pairing) {
        with_passkey(pairing, passkey)
    } else {
        pairing
    }
}

/// The number of the attempt in flight.
pub open spec fn in_flight(pairing: Pairing) -> Option<u64> {
    match pairing.current {
        Some(state) => Some(state.attempt_id),
        None => None,
    }
}

/// `request` is what a passkey request gets, given the state before and after.
pub open spec fn request_opened(
    pairing: Pairing,
    after: Pairing,
    request: Result<(u64, u64), PasskeyRefusal>,
) -> bool {
    match request {
        Ok((attempt_id, number)) => {
            &&& attempt_is_live(pairing, attempt_id)
            &&& number == pairing.current->0.requests
            &&& after == with_request(pairing)
        },
        Err(_) => {
            &&& pairing.current is None || pairing.current->0.aborted
            &&& after == pairing
        },
    }
}

/// The state after the attempt in flight was cancelled: it takes no passkey, and every
/// prompt that is still queued is drained.
pub open spec fn cancelled(pairing: Pairing) -> Pairing {
    Pairing {
        drained: pairing.attempts,
        current: match pairing.current {
            Some(state) => Some(Attempt { aborted: true, waiting: None, ..state }),
            None => None,
        },
        ..pairing
    }
}

/// The state after a passkey request was given up.
pub open spec fn abandoned(pairing: Pairing, attempt_id: u64, number: u64) -> Pairing {
    if pairing.current is Some && pairing.current->0.attempt_id == attempt_id
        && pairing.current->0.waiting == Some(number) {
        Pairing { current: Some(Attempt { waiting: None, ..pairing.current->0 }), ..pairing }
    } else {
        pairing
    }
}

/// The state after an attempt has ended.
pub open spec fn cleared(pairing: Pairing, attempt_id: u64) -> Pairing {
    Pairing {
        current: if pairing.current is Some && pairing.current->0.attempt_id == attempt_id {
            None
        } else {
            pairing.current
        },
        ..pairing
    }
}

/// The state after a new attempt has begun.
pub open spec fn begun(pairing: Pairing) -> Pairing {
    let attempt_id = pairing.attempts.wrapping_add(1);
    Pairing {
        attempts: attempt_id,
        current: Some(
            Attempt {
                attempt_id,
                aborted: false,
                waiting: None,
                answers: Seq::empty(),
                requests: 0,
            },
        ),
        ..pairing
    }
}

/// Once an attempt is cancelled no passkey is accepted and none is handed out, not
/// even one that was entered before.
pub proof fn no_passkey_after_cancel(pairing: Pairing, attempt_id: u64, number: u64)
    ensures
        !takes_passkey(cancelled(pairing)),
        passkey_wait(cancelled(pairing), attempt_id, number) is Canceled,
{
}

/// Once an attempt is cancelled no prompt of it or of an earlier one is shown any more,
/// whatever follows; a later attempt's prompts are.
pub proof fn no_prompt_after_cancel(pairing: Pairing, attempt_id: u64)
    requires
        pairing_consistent(pairing),
    ensures
        pairing.current is Some ==> !prompt_may_be_shown(
            cancelled(pairing),
            pairing.current->0.attempt_id,
        ),
        attempt_id <= pairing.attempts ==> !prompt_may_be_shown(cancelled(pairing), attempt_id),
        !prompt_may_be_shown(pairing, attempt_id) ==> {
            &&& !prompt_may_be_shown(cancelled(pairing), attempt_id)
            &&& !prompt_may_be_shown(begun(pairing), attempt_id)
        },
        pairing.attempts < u64::MAX ==> prompt_may_be_shown(
            begun(cancelled(pairing)),
            begun(cancelled(pairing)).current->0.attempt_id,
        ),
{
}

/// The prompts of an attempt in flight are shown until it is cancelled.
pub proof fn prompt_of_live_attempt_is_shown(pairing: Pairing, attempt_id: u64)
    requires
        pairing_consistent(pairing),
        attempt_is_live(pairing, attempt_id),
    ensures
        prompt_may_be_shown(pairing, attempt_id),
{
}

/// A passkey reaches the request that was waiting for it. Every other request gets what
/// it would have got before.
pub proof fn passkey_reaches_its_request(pairing: Pairing, passkey: u32, number: u64)
    requires
        takes_passkey(pairing),
    ensures
        number == pairing.current->0.waiting->0 ==> passkey_wait(
            with_passkey(pairing, passkey),
            pairing.current->0.attempt_id,
            number,
        ) == PasskeyWait::Entered(passkey),
        number != pairing.current->0.waiting->0 ==> passkey_wait(
            with_passkey(pairing, passkey),
            pairing.current->0.attempt_id,
            number,
        ) == passkey_wait(pairing, pairing.current->0.attempt_id, number),
{
    let answers = pairing.current->0.answers;
    let pushed = answers.push((pairing.current->0.waiting->0, passkey));
    assert(pushed.drop_last() =~= answers);
}

/// An answer that was accepted still reaches its request if another request of the same
/// attempt is opened before it was looked at.
pub proof fn accepted_passkey_outlives_later_requests(
    pairing: Pairing,
    attempt_id: u64,
    number: u64,
)
    requires
        passkey_wait(pairing, attempt_id, number) is Entered,
        number != pairing.current->0.requests,
    ensures
        passkey_wait(with_request(pairing), attempt_id, number) == passkey_wait(
            pairing,
            attempt_id,
            number,
        ),
{
}

impl LinuxPairing {
    /// No attempt yet.
    pub fn new() -> (pairing: Self)
        ensures
            pairing_consistent(pairing@),
            pairing@ == (Pairing { attempts: 0, drained: 0, current: None }),
    {
        LinuxPairing { attempts: 0, drained: 0, current: None }
    }

    /// Begins a new attempt and hands out its number. An attempt that is still in
    /// flight is replaced; its number is returned so that its task can be told.
    pub fn begin_attempt(&mut self) -> (numbers: (u64, Option<u64>))
        ensures
            numbers.0 == old(self).attempts.wrapping_add(1),
            numbers.1 == in_flight(old(self)@),
            final(self)@ == begun(old(self)@),
            pairing_consistent(old(self)@) && old(self).attempts < u64::MAX ==> pairing_consistent(
                final(self)@,
            ),
    {
        let attempt_id: u64 = self.attempts.wrapping_add(1);
        let prior = match &self.current {
            Some(prior) => Some(prior.attempt_id),
            None => None,
        };
        self.attempts = attempt_id;
        self.current = Some(
            LinuxPairingState {
                attempt_id,
                aborted: false,
                waiting: None,
                answers: Vec::new(),
                requests: 0,
            },
        );
        assert(self@.current->0.answers =~= Seq::<(u64, u32)>::empty());
        (attempt_id, prior)
    }

    /// Tells whether an attempt is in flight and takes passkeys. One that does not was
    /// cancelled or replaced, and its task has to end.
    pub fn is_live(&self, attempt_id: u64) -> (live: bool)
        ensures
            live == attempt_is_live(self@, attempt_id),
    {
        match &self.current {
            Some(state) => !state.aborted && state.attempt_id == attempt_id,
            None => false,
        }
    }

    /// Tells whether a prompt of an attempt may still be shown. Whoever relays a queued
    /// prompt asks before showing it.
    pub fn prompt_is_current(&self, attempt_id: u64) -> (current: bool)
        ensures
            current == prompt_may_be_shown(self@, attempt_id),
    {
        attempt_id > self.drained
    }

    /// Opens a passkey request of the attempt in flight: returns the attempt and
    /// the request's number. A request that was still open is given up; an answer that
    /// was accepted before still reaches its own request.
    pub fn request_passkey(&mut self) -> (request: Result<(u64, u64), PasskeyRefusal>)
        ensures
            request_opened(old(self)@, final(self)@, request),
            pairing_consistent(old(self)@) ==> pairing_consistent(final(self)@),
    {
        let mut state = match self.current.take() {
            Some(state) => state,
            None => {
                return Err(PasskeyRefusal::NoActiveAttempt);
            },
        };
        if state.aborted {
            self.current = Some(state);
            return Err(PasskeyRefusal::NoActiveAttempt);
        }
        let attempt_id: u64 = state.attempt_id;
        let number: u64 = state.requests;
        state.waiting = Some(number);
        state.requests = number.wrapping_add(1);
        self.current = Some(state);
        Ok((attempt_id, number))
    }

    /// Looks at an open passkey request. An answer counts only while its attempt
    /// is in flight and has not been cancelled.
    pub fn poll_passkey(&self, attempt_id: u64, number: u64) -> (wait: PasskeyWait)
        ensures
            wait == passkey_wait(self@, attempt_id, number),
    {
        match &self.current {
            Some(state) => {
                if state.aborted || state.attempt_id != attempt_id {
                    return PasskeyWait::Canceled;
                }
                if state.waiting == Some(number) {
                    return PasskeyWait::Waiting;
                }
                match find_answer(&state.answers, number) {
                    Some(passkey) => PasskeyWait::Entered(passkey),
                    None => PasskeyWait::Canceled,
                }
            },
            None => PasskeyWait::Canceled,
        }
    }

    /// Gives up a passkey request that nobody answered in time.
    pub fn abandon_passkey(&mut self, attempt_id: u64, number: u64)
        ensures
            final(self)@ == abandoned(old(self)@, attempt_id, number),
            pairing_consistent(old(self)@) ==> pairing_consistent(final(self)@),
    {
        match self.current.take() {
            Some(mut state) => {
                if state.attempt_id == attempt_id && state.waiting == Some(number) {
                    state.waiting = None;
                }
                self.current = Some(state);
            },
            None => {},
        }
    }

    /// Records how an attempt ended, and clears it away unless a newer one has
    /// taken its place.
    pub fn finish_attempt(&mut self, attempt_id: u64, outcome: &LinuxPairOutcome) -> (finished:
        LinuxPairingFinished)
        ensures
            finished.attempt_id == attempt_id,
            finished.status@ == outcome.status_words(),
            final(self)@ == cleared(old(self)@, attempt_id),
            pairing_consistent(old(self)@) ==> pairing_consistent(final(self)@),
    {
        match self.current.take() {
            Some(state) => {
                if state.attempt_id != attempt_id {
                    self.current = Some(state);
                }
            },
            None => {},
        }
        LinuxPairingFinished { attempt_id, status: outcome.status() }
    }
}

fn find_answer(answers: &Vec<(u64, u32)>, number: u64) -> (answer: Option<u32>)
    ensures
        answer == answer_to(answers@, number),
{
    let mut remaining: usize = answers.len();
    assert(answers@.subrange(0, remaining as int) =~= answers@);
    while remaining > 0
        invariant
            remaining <= answers@.len(),
            answer_to(answers@, number) == answer_to(
                answers@.subrange(0, remaining as int),
                number,
            ),
        decreases remaining,
    {
        let index: usize = remaining - 1;
        proof {
            let prefix = answers@.subrange(0, remaining as int);
            assert(prefix.drop_last() =~= answers@.subrange(0, index as int));
            assert(prefix.last() == answers@[index as int]);
        }
        if answers[index].0 == number {
            return Some(answers[index].1);
        }
        remaining = index;
    }
    None
}

/// Hands a passkey that a person entered to the request that waits for it. Says
/// whether one was waiting in an attempt that has not been cancelled.
pub fn linux_submit_passkey(pairing: &mut LinuxPairing, passkey: u32) -> (accepted: bool)
    ensures
        accepted == takes_passkey(old(pairing)@),
        final(pairing)@ == submitted(old(pairing)@, passkey),
        pairing_consistent(old(pairing)@) ==> pairing_consistent(final(pairing)@),
{
    let mut state = match pairing.current.take() {
        Some(state) => state,
        None => {
            return false;
        },
    };
    let mut accepted = false;
    if !state.aborted {
        match state.waiting {
            Some(number) => {
                state.waiting = None;
                state.answers.push((number, passkey));
                accepted = true;
            },
            None => {},
        }
    }
    pairing.current = Some(state);
    accepted
}

/// Cancels the attempt in flight: no prompt and no passkey may follow, and the prompts
/// that are still queued are drained. Returns the number of the attempt whose task has
/// to be told.
pub fn linux_cancel_pairing(pairing: &mut LinuxPairing) -> (told: Option<u64>)
    ensures
        final(pairing)@ == cancelled(old(pairing)@),
        told == in_flight(old(pairing)@),
        pairing_consistent(old(pairing)@) ==> {
            &&& pairing_consistent(final(pairing)@)
            &&& told is Some ==> !prompt_may_be_shown(final(pairing)@, told->0)
        },
{
    pairing.drained = pairing.attempts;
    match pairing.current.take() {
        Some(mut state) => {
            let attempt_id: u64 = state.attempt_id;
            state.aborted = true;
            state.waiting = None;
            pairing.current = Some(state);
            Some(attempt_id)
        },
        None => None,
    }
}

/// How a pairing attempt ended.
#[derive(Clone, Debug, PartialEq, Eq)]
pub enum LinuxPairOutcome {
    Paired,
    Cancelled,
    TimedOut,
    Failed(String),
}

impl LinuxPairOutcome {
    /// The outcome as the user interface is told.
    pub open spec fn status_words(self) -> Seq<char> {
        match self {
            LinuxPairOutcome::Paired => "ok"@,
            LinuxPairOutcome::Cancelled => "cancelled"@,
            LinuxPairOutcome::TimedOut => "timed_out"@,
            LinuxPairOutcome::Failed(reason) => reason@,
        }
    }

    /// The outcome as the user interface is told.
    pub fn status(&self) -> (status: String)
        ensures
            status@ == self.status_words(),
    {
        match self {
            LinuxPairOutcome::Paired => "ok".to_owned(),
            LinuxPairOutcome::Cancelled => "cancelled".to_owned(),
            LinuxPairOutcome::TimedOut => "timed_out".to_owned(),
            LinuxPairOutcome::Failed(reason) => reason.clone(),
        }
    }

    /// `result` is the outcome as the connection attempt sees it.
    pub open spec fn results_in(self, result: Result<bool, InterfaceError>) -> bool {
        match self {
            LinuxPairOutcome::Paired => result == Ok::<bool, InterfaceError>(true),
            LinuxPairOutcome::Cancelled => result is Err && result->Err_0.detail()
                == "BLE pairing cancelled"@,
            LinuxPairOutcome::TimedOut => result is Err && result->Err_0.detail()
                == "BLE pairing timed out. Did you enter the 6-digit passkey shown on the RNode when the system prompted?"@,
            LinuxPairOutcome::Failed(reason) => result is Err && result->Err_0.detail()
                == "BLE pairing failed: "@ + reason@,
        }
    }

    /// The outcome as the connection attempt sees it: a fresh bond, or an error.
    pub fn into_result(self) -> (result: Result<bool, InterfaceError>)
        ensures
            self.results_in(result),
    {
        match self {
            LinuxPairOutcome::Paired => Ok(true),
            LinuxPairOutcome::Cancelled => Err(
                InterfaceError::SendFailed("BLE pairing cancelled".to_owned()),
            ),
            LinuxPairOutcome::TimedOut => Err(
                InterfaceError::SendFailed(
                    "BLE pairing timed out. Did you enter the 6-digit passkey shown on the RNode when the system prompted?".to_owned(),
                ),
            ),
            LinuxPairOutcome::Failed(reason) => Err(
                InterfaceError::SendFailed(join2("BLE pairing failed: ", reason.as_str())),
            ),
        }
    }
}

/// The instant at which a pairing attempt that begins at `now` is given up.
pub open spec fn deadline_of_pairing(now: u128) -> u128 {
    instant_after(now, PASSKEY_TIMEOUT)
}

/// The instant at which a pairing attempt that begins at `now` is given up.
pub fn pairing_deadline(now: u128) -> (deadline: u128)
    ensures
        deadline == deadline_of_pairing(now),
{
    deadline_after(now, 60 * SECOND)
}

/// What a wake means for a pairing attempt.
pub open spec fn pairing_outcome(
    cancelled: bool,
    operation: OperationPoll,
    now: u128,
    deadline: u128,
) -> Option<LinuxPairOutcome> {
    if cancelled {
        Some(LinuxPairOutcome::Cancelled)
    } else {
        match operation {
            OperationPoll::Succeeded => Some(LinuxPairOutcome::Paired),
            OperationPoll::Failed(reason) => Some(LinuxPairOutcome::Failed(reason)),
            OperationPoll::Pending => if now >= deadline {
                Some(LinuxPairOutcome::TimedOut)
            } else {
                None
            },
        }
    }
}

/// Decides what a wake means for a pairing attempt. A cancellation comes before
/// the operation's own result, and that before the deadline.
pub fn pairing_step(
    cancelled: bool,
    operation: OperationPoll,
    now: u128,
    deadline: u128,
) -> (outcome: Option<LinuxPairOutcome>)
    ensures
        outcome == pairing_outcome(cancelled, operation, now, deadline),
{
    if cancelled {
        return Some(LinuxPairOutcome::Cancelled);
    }
    match operation {
        OperationPoll::Succeeded => Some(LinuxPairOutcome::Paired),
        OperationPoll::Failed(reason) => Some(LinuxPairOutcome::Failed(reason)),
        OperationPoll::Pending => if now >= deadline {
            Some(LinuxPairOutcome::TimedOut)
        } else {
            None
        },
    }
}

/// CoreBluetooth is never asked to read a value that offers notifications alone: there the
/// subscription brings the bond about, with the minute that a person needs; everywhere else
/// the encrypted value is read.
pub proof fn bond_is_triggered_by_what_is_offered(
    properties: CharacteristicProperties,
    apple_core_bluetooth: bool,
)
    ensures
        ({
            let trigger = pairing_trigger(properties, apple_core_bluetooth);
            &&& trigger is SecuredSubscribe <==> apple_core_bluetooth && properties.notify
                && !properties.read
            &&& trigger is SecuredSubscribe ==> stage_of_subscription(Some(trigger)).limit()
                == 60_000_000_000
            &&& trigger is EncryptedRead ==> stage_of_subscription(Some(trigger)) is Subscribe
        }),
        stage_of_subscription(None) is Subscribe,
        bond_found(true) == Some(false),
        bond_found(false) is None,
{
}

/// A passkey that was not entered in time, a stop, and the end of the adapter's events are no
/// sign that a bond is being made; nor is an ordinary subscription that fails.
pub proof fn other_failures_are_no_transition(exit: BleGenerationExit)
    ensures
        exit is DeadlineElapsed || exit is StopRequested || exit is EventStreamEnded
            ==> !has_prefix(pairing_read_failure(exit), "BLE pairing in progress:"@),
        exit is StopRequested || exit is EventStreamEnded ==> !has_prefix(
            subscribe_failure(exit),
            "BLE pairing in progress:"@,
        ),
        exit is DeadlineElapsed && exit.ended_stage() is PairingSubscribe ==> !has_prefix(
            subscribe_failure(exit),
            "BLE pairing in progress:"@,
        ),
        exit is StageFailed && exit.ended_stage() is Subscribe ==> !has_prefix(
            subscribe_failure(exit),
            "BLE pairing in progress:"@,
        ),
{
    let prefix = "BLE pairing in progress:"@;
    reveal_strlit("BLE pairing in progress:");
    reveal_strlit("stop requested during ");
    reveal_strlit("adapter event stream ended during ");
    reveal_strlit("notification subscribe");
    reveal_strlit(
        "BLE pairing timed out. Did you enter the 6-digit passkey shown on the RNode when the system prompted?",
    );
    reveal_strlit(
        "BLE pairing timed out while enabling secured notifications. Did you enter the 6-digit passkey shown on the RNode when the system prompted?",
    );
    let read = pairing_read_failure(exit);
    let subscribed = subscribe_failure(exit);
    assert(prefix[0] == 'B' && prefix[12] == 'i');
    if has_prefix(read, prefix) {
        assert(read.subrange(0, prefix.len() as int)[0] == read[0]);
        assert(read.subrange(0, prefix.len() as int)[12] == read[12]);
    }
    if has_prefix(subscribed, prefix) {
        assert(subscribed.subrange(0, prefix.len() as int)[0] == subscribed[0]);
        assert(subscribed.subrange(0, prefix.len() as int)[12] == subscribed[12]);
    }
}

/// A new attempt has the next number, is in flight, has seen no request and no answer, and
/// takes the place of the one before, which is in flight no more.
pub proof fn new_attempt_replaces_the_one_before(pairing: Pairing, number: u64)
    requires
        pairing_consistent(pairing),
        pairing.attempts < u64::MAX,
    ensures
        ({
            let after = begun(pairing);
            let id = (pairing.attempts + 1) as u64;
            &&& after.attempts == id
            &&& attempt_is_live(after, id)
            &&& pairing.current is Some ==> !attempt_is_live(after, pairing.current->0.attempt_id)
            &&& !takes_passkey(after)
            &&& after.current->0.requests == 0
            &&& passkey_wait(after, id, number) is Canceled
            &&& prompt_may_be_shown(after, id)
            &&& after.drained == pairing.drained
            &&& pairing_consistent(after)
        }),
{
}

/// A request that was opened waits for its passkey, under the next number of its attempt, and
/// the one that was open before it waits no more.
pub proof fn opened_request_waits(pairing: Pairing)
    requires
        pairing.current is Some,
        !pairing.current->0.aborted,
    ensures
        ({
            let after = with_request(pairing);
            let id = pairing.current->0.attempt_id;
            let number = pairing.current->0.requests;
            &&& passkey_wait(after, id, number) is Waiting
            &&& takes_passkey(after)
            &&& attempt_is_live(after, id)
            &&& number < u64::MAX ==> after.current->0.requests == number + 1
            &&& after.current->0.answers == pairing.current->0.answers
            &&& forall|other: u64|
                other != number ==> !(#[trigger] passkey_wait(after, id, other) is Waiting)
        }),
{
}

/// A passkey is taken exactly while a request waits in an attempt that was not cancelled. It
/// is handed over once: the next one finds nothing waiting.
pub proof fn passkey_is_taken_once(pairing: Pairing, passkey: u32)
    ensures
        takes_passkey(pairing) <==> pairing.current is Some && !pairing.current->0.aborted
            && pairing.current->0.waiting is Some,
        takes_passkey(pairing) ==> !takes_passkey(with_passkey(pairing, passkey)),
        with_passkey(pairing, passkey).attempts == pairing.attempts,
        with_passkey(pairing, passkey).drained == pairing.drained,
{
}

/// Of several answers to a request the last one counts; answers to others do not.
pub proof fn last_answer_counts(answers: Seq<(u64, u32)>, number: u64, passkey: u32, other: u64)
    ensures
        answer_to(answers.push((number, passkey)), number) == Some(passkey),
        other != number ==> answer_to(answers.push((number, passkey)), other) == answer_to(
            answers,
            other,
        ),
        answer_to(Seq::<(u64, u32)>::empty(), number) is None,
{
    assert(answers.push((number, passkey)).drop_last() =~= answers);
}

/// A request that is given up waits no more and gets no answer that came to none; whoever gives
/// up a request that does not wait changes nothing.
pub proof fn abandoned_request_waits_no_more(pairing: Pairing, attempt_id: u64, number: u64)
    ensures
        ({
            let after = abandoned(pairing, attempt_id, number);
            &&& !(passkey_wait(after, attempt_id, number) is Waiting)
            &&& !(passkey_wait(pairing, attempt_id, number) is Waiting) && pairing.current is Some
                && !pairing.current->0.aborted ==> after == pairing
            &&& after.attempts == pairing.attempts
            &&& after.drained == pairing.drained
        }),
{
}

/// An attempt that has ended is cleared away, but never one that has taken its place.
pub proof fn ended_attempt_is_cleared_away(pairing: Pairing, attempt_id: u64, other: u64)
    ensures
        !attempt_is_live(cleared(pairing, attempt_id), attempt_id),
        other != attempt_id ==> attempt_is_live(cleared(pairing, attempt_id), other)
            == attempt_is_live(pairing, other),
        pairing.current is Some && pairing.current->0.attempt_id != attempt_id ==> cleared(
            pairing,
            attempt_id,
        ) == pairing,
        cleared(pairing, attempt_id).attempts == pairing.attempts,
        cleared(pairing, attempt_id).drained == pairing.drained,
{
}

/// A cancellation counts before anything else. Otherwise the attempt ends with its own result,
/// also when its minute is over, and times out only while it has none.
pub proof fn pairing_ends_for_the_first_reason(
    cancelled: bool,
    operation: OperationPoll,
    now: u128,
    deadline: u128,
)
    ensures
        ({
            let outcome = pairing_outcome(cancelled, operation, now, deadline);
            &&& outcome == Some(LinuxPairOutcome::Cancelled) <==> cancelled
            &&& outcome == Some(LinuxPairOutcome::Paired) <==> !cancelled && operation is Succeeded
            &&& !cancelled && operation is Failed ==> outcome == Some(
                LinuxPairOutcome::Failed(operation->Failed_0),
            )
            &&& outcome == Some(LinuxPairOutcome::TimedOut) <==> !cancelled && operation is Pending
                && now >= deadline
            &&& outcome is None <==> !cancelled && operation is Pending && now < deadline
        }),
        now + 60_000_000_000 <= u128::MAX ==> deadline_of_pairing(now) == now + 60_000_000_000,
{
}

/// A passkey that nobody waits for changes nothing; a request is opened exactly for an attempt
/// in flight that was not cancelled, and is that attempt's.
pub proof fn requests_belong_to_the_attempt_in_flight(
    pairing: Pairing,
    after: Pairing,
    request: Result<(u64, u64), PasskeyRefusal>,
    passkey: u32,
)
    requires
        request_opened(pairing, after, request),
    ensures
        request is Ok <==> pairing.current is Some && !pairing.current->0.aborted,
        request is Ok ==> {
            let (attempt_id, number) = request->Ok_0;
            &&& attempt_id == pairing.current->0.attempt_id
            &&& passkey_wait(after, attempt_id, number) is Waiting
            &&& passkey_wait(submitted(after, passkey), attempt_id, number)
                == PasskeyWait::Entered(passkey)
        },
        request is Err ==> after == pairing,
        !takes_passkey(pairing) ==> submitted(pairing, passkey) == pairing,
        in_flight(pairing) is Some <==> pairing.current is Some,
        pairing.current is Some ==> in_flight(pairing) == Some(pairing.current->0.attempt_id),
{
    if request is Ok {
        let number = request->Ok_0.1;
        let answers = after.current->0.answers;
        assert(answers.push((number, passkey)).drop_last() =~= answers);
    }
}

/// Only an attempt that paired goes on, with a fresh bond. An attempt that was cancelled, that
/// failed or that timed out is an error, and none of them says that a bond is being made.
pub proof fn only_a_fresh_bond_goes_on(
    outcome: LinuxPairOutcome,
    result: Result<bool, InterfaceError>,
)
    requires
        outcome.results_in(result),
    ensures
        result is Ok <==> outcome is Paired,
        outcome is Paired ==> result->Ok_0,
        result is Err ==> !is_pairing_transition(result->Err_0),
{
    let prefix = "BLE pairing in progress:"@;
    reveal_strlit("BLE pairing in progress:");
    reveal_strlit("BLE pairing cancelled");
    reveal_strlit("BLE pairing failed: ");
    reveal_strlit(
        "BLE pairing timed out. Did you enter the 6-digit passkey shown on the RNode when the system prompted?",
    );
    assert(prefix[12] == 'i');
    if result is Err && has_prefix(result->Err_0.detail(), prefix) {
        let words = result->Err_0.detail();
        assert(words.subrange(0, prefix.len() as int)[12] == words[12]);
    }
}

} // verus!
