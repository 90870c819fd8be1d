//! A Backbone client: it connects, and connects again after a while, until it has failed
//! too often in a row.
use vstd::prelude::*;
use crate::backbone::config::RECONNECT_WAIT;
use crate::interface::SECOND;

verus! {

/// What a client is doing.
#[derive(Clone, Copy, Debug, PartialEq, Eq, Structural)]
pub enum BackboneClientPhase {
    Resolving,
    Connecting,
    Connected,
    Waiting,
    Ended,
}

/// What came up.
#[derive(Clone, Copy, Debug, PartialEq, Eq, Structural)]
pub enum BackboneClientEvent {
    Resolved,
    Connected,
    /// What the client was doing failed, or took too long.
    Failed,
    /// The link is down.
    Disconnected,
    /// The wait is over.
    WaitOver,
}

/// What a client does next.
#[derive(Clone, Copy, Debug, PartialEq, Eq, Structural)]
pub enum BackboneClientAction {
    Resolve,
    Connect,
    /// Tune the socket, go online and carry packets.
    Carry,
    /// Wait so long.
    Wait { wait: u128 },
    /// Tell the transport that the interface is gone, and end.
    Deregister,
    /// Nothing changes.
    Continue,
}

/// A client and its failures.
#[derive(Clone, Copy, Debug, PartialEq, Eq, Structural)]
pub struct BackboneClient {
    phase: BackboneClientPhase,
    tries: usize,
    max_tries: Option<usize>,
}

/// What a client knows.
pub ghost struct ClientState {
    pub phase: BackboneClientPhase,
    /// How many tries have failed in a row.
    pub tries: int,
    /// How many may; without a number, any.
    pub max_tries: Option<usize>,
}

/// A client goes on only while it has failed less often than it may.
pub open spec fn client_consistent(state: ClientState) -> bool {
    &&& 0 <= state.tries
    &&& state.max_tries is None ==> state.tries == 0
    &&& !(state.phase is Ended) && state.max_tries is Some ==> state.tries == 0 || state.tries
        < state.max_tries->0
}

/// How often a client has failed after one failure more; it is not counted without a
/// bound.
pub open spec fn failures_after(state: ClientState) -> int {
    if state.max_tries is Some {
        state.tries + 1
    } else {
        state.tries
    }
}

/// The client after a failure: it waits, or it ends.
pub open spec fn client_failed(state: ClientState) -> (ClientState, BackboneClientAction) {
    let tries = failures_after(state);
    if state.max_tries is Some && tries >= state.max_tries->0 {
        (
            ClientState { phase: BackboneClientPhase::Ended, tries, ..state },
            BackboneClientAction::Deregister,
        )
    } else {
        (
            ClientState { phase: BackboneClientPhase::Waiting, tries, ..state },
            BackboneClientAction::Wait { wait: (RECONNECT_WAIT * 1_000_000_000) as u128 },
        )
    }
}

/// The client after an event, and what it does next. An event that its phase does not
/// wait for changes nothing.
pub open spec fn client_after(state: ClientState, event: BackboneClientEvent) -> (
    ClientState,
    BackboneClientAction,
) {
    match (state.phase, event) {
        (BackboneClientPhase::Resolving, BackboneClientEvent::Resolved) => (
            ClientState { phase: BackboneClientPhase::Connecting, ..state },
            BackboneClientAction::Connect,
        ),
        (BackboneClientPhase::Resolving, BackboneClientEvent::Failed) => client_failed(state),
        (BackboneClientPhase::Connecting, BackboneClientEvent::Connected) => (
            ClientState { phase: BackboneClientPhase::Connected, tries: 0, ..state },
            BackboneClientAction::Carry,
        ),
        (BackboneClientPhase::Connecting, BackboneClientEvent::Failed) => client_failed(state),
        (BackboneClientPhase::Connected, BackboneClientEvent::Disconnected) => client_failed(
            state,
        ),
        (BackboneClientPhase::Waiting, BackboneClientEvent::WaitOver) => (
            ClientState { phase: BackboneClientPhase::Resolving, ..state },
            BackboneClientAction::Resolve,
        ),
        _ => (state, BackboneClientAction::Continue),
    }
}

impl View for BackboneClient {
    type V = ClientState;

    closed spec fn view(&self) -> ClientState {
        ClientState {
            phase: self.phase,
            tries: self.tries as int,
            max_tries: self.max_tries,
        }
    }
}

impl BackboneClient {
    /// A client that begins by resolving its server.
    pub fn new(max_tries: Option<usize>) -> (client: Self)
        ensures
            client_consistent(client@),
            client@ == (ClientState {
                phase: BackboneClientPhase::Resolving,
                tries: 0,
                max_tries,
            }),
    {
        BackboneClient { phase: BackboneClientPhase::Resolving, tries: 0, max_tries }
    }

    fn fail(&mut self) -> (action: BackboneClientAction)
        requires
            client_consistent(old(self)@),
            !(old(self)@.phase is Ended),
        ensures
            client_consistent(final(self)@),
            (final(self)@, action) == client_failed(old(self)@),
    {
        match self.max_tries {
            Some(max) => {
                self.tries = self.tries + 1;
                if self.tries >= max {
                    self.phase = BackboneClientPhase::Ended;
                    return BackboneClientAction::Deregister;
                }
            },
            None => {},
        }
        self.phase = BackboneClientPhase::Waiting;
        BackboneClientAction::Wait { wait: RECONNECT_WAIT as u128 * SECOND }
    }

    /// Decides what to do after an event.
    pub fn advance(&mut self, event: BackboneClientEvent) -> (action: BackboneClientAction)
        requires
            client_consistent(old(self)@),
        ensures
            client_consistent(final(self)@),
            (final(self)@, action) == client_after(old(self)@, event),
    {
        match (self.phase, event) {
            (BackboneClientPhase::Resolving, BackboneClientEvent::Resolved) => {
                self.phase = BackboneClientPhase::Connecting;
                BackboneClientAction::Connect
            },
            (BackboneClientPhase::Resolving, BackboneClientEvent::Failed) => self.fail(),
            (BackboneClientPhase::Connecting, BackboneClientEvent::Connected) => {
                self.phase = BackboneClientPhase::Connected;
                self.tries = 0;
                BackboneClientAction::Carry
            },
            (BackboneClientPhase::Connecting, BackboneClientEvent::Failed) => self.fail(),
            (BackboneClientPhase::Connected, BackboneClientEvent::Disconnected) => self.fail(),
            (BackboneClientPhase::Waiting, BackboneClientEvent::WaitOver) => {
                self.phase = BackboneClientPhase::Resolving;
                BackboneClientAction::Resolve
            },
            _ => BackboneClientAction::Continue,
        }
    }
}

/// A client after `count` failures in a row to resolve its server.
pub open spec fn after_failures(state: ClientState, count: nat) -> ClientState
    decreases count,
{
    if count == 0 {
        state
    } else {
        let failed = client_after(
            after_failures(state, (count - 1) as nat),
            BackboneClientEvent::Failed,
        ).0;
        client_after(failed, BackboneClientEvent::WaitOver).0
    }
}

/// A client gives up after exactly as many failures in a row as it may have, counted
/// from its start or from its last link; without a bound it never does.
pub proof fn client_gives_up_after_its_tries(state: ClientState, count: nat)
    requires
        state.phase is Resolving,
        state.tries == 0,
    ensures
        state.max_tries is None ==> after_failures(state, count) == state,
        state.max_tries is Some && count < state.max_tries->0 ==> after_failures(state, count) == (
        ClientState { tries: count as int, ..state }),
        state.max_tries is Some && count == state.max_tries->0 && count > 0 ==> after_failures(
            state,
            count,
        ).phase is Ended,
    decreases count,
{
    if count > 0 {
        client_gives_up_after_its_tries(state, (count - 1) as nat);
    }
}

/// A link that comes up clears the failures before it.
pub proof fn link_clears_the_failures(state: ClientState)
    requires
        state.phase is Connecting,
    ensures
        client_after(state, BackboneClientEvent::Connected).0.tries == 0,
        client_after(state, BackboneClientEvent::Connected).1 is Carry,
{
}

/// A client that has given up stays so.
pub proof fn given_up_is_final(state: ClientState, event: BackboneClientEvent)
    requires
        state.phase is Ended,
    ensures
        client_after(state, event) == (state, BackboneClientAction::Continue),
{
}

/// Whatever fails, the resolving, the connecting or the link, a client either waits five
/// seconds before it tries again or, where this was the last failure that it may have,
/// tells the transport that it is gone.
pub proof fn failure_is_waited_out_or_final(state: ClientState, event: BackboneClientEvent)
    requires
        (state.phase is Resolving && event is Failed) || (state.phase is Connecting && event
            is Failed) || (state.phase is Connected && event is Disconnected),
    ensures
        ({
            let (after, action) = client_after(state, event);
            let last = state.max_tries is Some && state.tries + 1 >= state.max_tries->0;
            &&& last ==> action is Deregister && after.phase is Ended
            &&& !last ==> action == (BackboneClientAction::Wait { wait: 5_000_000_000 })
                && after.phase is Waiting
            &&& state.max_tries is Some ==> after.tries == state.tries + 1
            &&& after.max_tries == state.max_tries
        }),
{
}

/// From its start, or after a wait, a client resolves, connects and carries, in this order.
pub proof fn client_resolves_connects_and_carries(state: ClientState)
    requires
        state.phase is Waiting,
    ensures
        ({
            let (resolving, first) = client_after(state, BackboneClientEvent::WaitOver);
            let (connecting, second) = client_after(resolving, BackboneClientEvent::Resolved);
            let (connected, third) = client_after(connecting, BackboneClientEvent::Connected);
            &&& first is Resolve && second is Connect && third is Carry
            &&& resolving.tries == state.tries && connecting.tries == state.tries
            &&& connected.phase is Connected && connected.tries == 0
            &&& connected.max_tries == state.max_tries
        }),
{
}

/// What a client is not waiting for passes it by.
pub proof fn unexpected_event_changes_nothing(state: ClientState, event: BackboneClientEvent)
    requires
        event is WaitOver ==> !(state.phase is Waiting),
        event is Resolved ==> !(state.phase is Resolving),
        event is Connected ==> !(state.phase is Connecting),
        event is Disconnected ==> !(state.phase is Connected),
        event is Failed ==> !(state.phase is Resolving) && !(state.phase is Connecting),
    ensures
        client_after(state, event) == (state, BackboneClientAction::Continue),
{
}

} // verus!
