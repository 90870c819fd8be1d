//! The life of a BLE RNode driver: connection generations one after another, each
//! brought up stage by stage, until it is told to stop or has nothing left to do.
use vstd::prelude::*;
use crate::ble_rnode::active::ActiveExit;
use crate::ble_rnode::generation::BleGenerationId;
use crate::ble_rnode::retry::{
    next_backoff, next_wait, reconnect_try_exhausted, MAX_RECONNECT_TRIES, RECONNECT_WAIT,
    RECONNECT_WAIT_MAX,
};
use crate::rnode::RNodeRuntimeReason;

verus! {

/// The time that a bridge has to pass the detach of an active generation on.
pub const BRIDGE_DETACH_SETTLE: u128 = 100_000_000;

/// How the driver reaches its radio.
#[derive(Clone, Copy, Debug, PartialEq, Eq, Structural)]
pub enum BleTransport {
    /// Through the platform's Bluetooth stack.
    Desktop,
    /// Through a local bridge whose other end owns the Bluetooth link.
    Native,
}

/// What the driver has to do next.
#[derive(Clone, Copy, Debug, PartialEq, Eq, Structural)]
pub enum DriverPhase {
    /// Look at the stop request before a new generation.
    Begin,
    AcquireAdapter,
    Connect,
    AcquireNotifications,
    WriteDetect,
    /// Look at the stop request before the capability is asked for.
    CapabilityGate,
    RequestCapability,
    ObserveCapability,
    Handshake,
    /// Look at the stop request before the radio is touched.
    RadioGate,
    /// Look at the stop request once more before a bridge is handed the configuration.
    BridgeGate,
    Configure,
    /// Look at the stop request after the radio was configured.
    InitGate,
    AwaitReady,
    /// Look at the stop request before the generation is admitted.
    ReadyGate,
    Active,
    /// Wait before the next generation, whose wait will be `next_backoff`.
    Waiting { next_backoff: u64 },
    Stopped,
}

/// What became of the phase.
#[derive(Clone, Copy, Debug, PartialEq, Eq, Structural)]
pub enum DriverEvent {
    /// The stop request was looked at.
    Checked { running: bool },
    Succeeded,
    /// The phase failed; `pairing` where a bond is being made, `running` unless the
    /// driver has been told to stop meanwhile.
    Failed { pairing: bool, running: bool },
    /// The phase noticed the stop request.
    Stopped,
    /// The device was refused for good.
    Rejected,
    /// The active generation ended.
    Ended { exit: ActiveExit, running: bool },
    /// The wait ended, or was cut short by the stop request.
    Waited { stopped: bool },
}

/// What the driver does on the way to its next phase.
#[derive(Clone, Copy, Debug, PartialEq, Eq, Structural)]
pub enum DriverEffect {
    ReconnectStarted,
    ConnectionAttemptFailed,
    ConnectionLost,
    ConnectionEstablished,
    CapabilityConnectionEstablished,
    SyncProtocolState,
    ShuttingDown(RNodeRuntimeReason),
    Stopped(RNodeRuntimeReason),
    StoppedForAdmissionRejection,
    /// Ask the platform to disconnect, within a bound.
    Disconnect,
    /// Write the request that switches the radio off.
    RadioOff,
    SetOnline(bool),
    /// Wait this many seconds, spread where `jitter`; a wait that `adapter` marks
    /// lasts while the adapter is off.
    Wait { seconds: u64, jitter: bool, adapter: bool },
}

/// What a driver remembers.
pub ghost struct DriverState {
    pub transport: BleTransport,
    /// The device has to be admitted by its capabilities.
    pub strict: bool,
    pub tries: usize,
    pub backoff: u64,
    pub initial_attempt: bool,
    pub generation: u64,
    pub phase: DriverPhase,
}

/// The tries after one more failure.
pub open spec fn tries_after(tries: usize) -> int {
    if MAX_RECONNECT_TRIES is Some {
        tries + 1
    } else {
        tries as int
    }
}

/// One more failure is one too many.
pub open spec fn gives_up(tries: usize) -> bool {
    MAX_RECONNECT_TRIES is Some && tries + 1 >= MAX_RECONNECT_TRIES->0
}

/// The number of the generation behind `number`.
pub open spec fn generation_after(number: u64) -> u64 {
    if number < u64::MAX {
        (number + 1) as u64
    } else {
        1
    }
}

/// What a failed generation leads to: the failure is announced, the link is dropped
/// where there is one, and the driver waits or gives up.
pub open spec fn after_failure(
    state: DriverState,
    announced: Seq<DriverEffect>,
    wait: DriverEffect,
    next_backoff: u64,
) -> (DriverState, Seq<DriverEffect>) {
    let counted = DriverState { tries: tries_after(state.tries) as usize, ..state };
    if gives_up(state.tries) {
        (
            DriverState { phase: DriverPhase::Stopped, ..counted },
            announced.push(DriverEffect::Stopped(RNodeRuntimeReason::DriverTerminated)),
        )
    } else {
        (
            DriverState { phase: DriverPhase::Waiting { next_backoff }, ..counted },
            announced.push(wait),
        )
    }
}

/// The effects of dropping the link, where the driver owns one.
pub open spec fn disconnects(state: DriverState) -> Seq<DriverEffect> {
    if state.transport is Desktop {
        seq![DriverEffect::Disconnect]
    } else {
        Seq::empty()
    }
}

/// What the failure of a stage behind the connection leads to.
pub open spec fn after_stage_failure(state: DriverState) -> (DriverState, Seq<DriverEffect>) {
    after_failure(
        state,
        seq![DriverEffect::ConnectionAttemptFailed] + disconnects(state),
        DriverEffect::Wait {
            seconds: state.backoff,
            jitter: false,
            adapter: state.transport is Desktop,
        },
        next_wait(state.backoff),
    )
}

/// The announcement of a stop for `reason`.
pub open spec fn stop_announcement(reason: RNodeRuntimeReason) -> Seq<DriverEffect> {
    seq![DriverEffect::ShuttingDown(reason), DriverEffect::Stopped(reason)]
}

/// What a stop request leads to while the radio is as it was found.
pub open spec fn after_early_stop(state: DriverState) -> (DriverState, Seq<DriverEffect>) {
    (
        DriverState { phase: DriverPhase::Stopped, ..state },
        disconnects(state) + stop_announcement(RNodeRuntimeReason::StopRequested),
    )
}

/// What a stop request leads to once the radio was configured, or a bridge is about to:
/// it is switched off.
pub open spec fn after_late_stop(state: DriverState) -> (DriverState, Seq<DriverEffect>) {
    (
        DriverState { phase: DriverPhase::Stopped, ..state },
        seq![
            DriverEffect::ShuttingDown(RNodeRuntimeReason::StopRequested),
            DriverEffect::RadioOff,
        ] + disconnects(state) + seq![DriverEffect::Stopped(RNodeRuntimeReason::StopRequested)],
    )
}

/// The announcement of an admitted generation.
pub open spec fn established(state: DriverState) -> Seq<DriverEffect> {
    if state.strict {
        seq![DriverEffect::CapabilityConnectionEstablished]
    } else {
        seq![DriverEffect::ConnectionEstablished, DriverEffect::SyncProtocolState]
    }
}

/// What an admitted generation leads to: the interface goes online, and waits and
/// tries start anew. A bridge's interface is online before anyone is told.
pub open spec fn after_ready(state: DriverState) -> (DriverState, Seq<DriverEffect>) {
    (
        DriverState { phase: DriverPhase::Active, tries: 0, backoff: RECONNECT_WAIT, ..state },
        if state.transport is Desktop {
            established(state).push(DriverEffect::SetOnline(true))
        } else {
            seq![DriverEffect::SetOnline(true)] + established(state)
        },
    )
}

/// What the end of an active generation leads to: the interface goes offline, and
/// unless the transport is gone or the driver is told to stop it waits to reconnect.
pub open spec fn after_active(
    state: DriverState,
    exit: ActiveExit,
    running: bool,
) -> (DriverState, Seq<DriverEffect>) {
    let stopping = if exit is StopRequested {
        seq![
            DriverEffect::ShuttingDown(RNodeRuntimeReason::StopRequested),
            DriverEffect::RadioOff,
        ]
    } else {
        Seq::empty()
    };
    let down = stopping + seq![DriverEffect::SetOnline(false)] + disconnects(state);
    if exit.is_transport_closed() {
        (
            DriverState { phase: DriverPhase::Stopped, ..state },
            down + stop_announcement(RNodeRuntimeReason::TransportConsumerClosed),
        )
    } else if !running {
        (
            DriverState { phase: DriverPhase::Stopped, ..state },
            down + seq![DriverEffect::Stopped(RNodeRuntimeReason::StopRequested)],
        )
    } else {
        after_failure(
            state,
            down + seq![DriverEffect::ConnectionLost],
            DriverEffect::Wait {
                seconds: state.backoff,
                jitter: true,
                adapter: state.transport is Desktop,
            },
            next_wait(state.backoff),
        )
    }
}

/// The driver in another phase, with nothing done on the way.
pub open spec fn moved(state: DriverState, phase: DriverPhase) -> (DriverState, Seq<DriverEffect>) {
    (DriverState { phase, ..state }, Seq::empty())
}

/// The phase behind one that succeeded.
pub open spec fn phase_after_success(state: DriverState) -> DriverPhase {
    match state.phase {
        DriverPhase::AcquireAdapter => DriverPhase::Connect,
        DriverPhase::Connect => if state.transport is Desktop {
            DriverPhase::AcquireNotifications
        } else if state.strict {
            DriverPhase::ObserveCapability
        } else {
            DriverPhase::Handshake
        },
        DriverPhase::AcquireNotifications => DriverPhase::WriteDetect,
        DriverPhase::WriteDetect => if state.strict {
            DriverPhase::CapabilityGate
        } else {
            DriverPhase::Handshake
        },
        DriverPhase::RequestCapability => DriverPhase::ObserveCapability,
        DriverPhase::ObserveCapability => DriverPhase::RadioGate,
        DriverPhase::Handshake => DriverPhase::Configure,
        DriverPhase::Configure => if state.transport is Native && state.strict {
            DriverPhase::InitGate
        } else {
            DriverPhase::AwaitReady
        },
        _ => state.phase,
    }
}

/// The phase and the effects that an event leads to. An event that does not belong to
/// the phase changes nothing.
pub open spec fn driver_step(state: DriverState, event: DriverEvent) -> (
    DriverState,
    Seq<DriverEffect>,
) {
    let unchanged = (state, Seq::<DriverEffect>::empty());
    match event {
        DriverEvent::Checked { running } => match state.phase {
            DriverPhase::Begin => if !running {
                (
                    DriverState { phase: DriverPhase::Stopped, ..state },
                    stop_announcement(RNodeRuntimeReason::StopRequested),
                )
            } else {
                (
                    DriverState {
                        initial_attempt: false,
                        phase: if state.transport is Desktop {
                            DriverPhase::AcquireAdapter
                        } else {
                            DriverPhase::Connect
                        },
                        ..state
                    },
                    if state.initial_attempt {
                        Seq::empty()
                    } else {
                        seq![DriverEffect::ReconnectStarted]
                    },
                )
            },
            DriverPhase::CapabilityGate => if running {
                moved(state, DriverPhase::RequestCapability)
            } else {
                after_early_stop(state)
            },
            DriverPhase::RadioGate => if !running {
                after_early_stop(state)
            } else if state.transport is Native && state.strict {
                moved(state, DriverPhase::BridgeGate)
            } else {
                moved(state, DriverPhase::Configure)
            },
            DriverPhase::BridgeGate => if running {
                moved(state, DriverPhase::Configure)
            } else {
                after_late_stop(state)
            },
            DriverPhase::InitGate => if running {
                moved(state, DriverPhase::AwaitReady)
            } else {
                after_late_stop(state)
            },
            DriverPhase::ReadyGate => if running {
                after_ready(state)
            } else {
                after_late_stop(state)
            },
            _ => unchanged,
        },
        DriverEvent::Succeeded => match state.phase {
            DriverPhase::AcquireAdapter => moved(
                DriverState { generation: generation_after(state.generation), ..state },
                DriverPhase::Connect,
            ),
            DriverPhase::AwaitReady => if state.transport is Native {
                moved(state, DriverPhase::ReadyGate)
            } else {
                after_ready(state)
            },
            _ => moved(state, phase_after_success(state)),
        },
        DriverEvent::Failed { pairing, running } => match state.phase {
            DriverPhase::AcquireAdapter => after_failure(
                state,
                seq![DriverEffect::ConnectionAttemptFailed],
                DriverEffect::Wait { seconds: state.backoff, jitter: false, adapter: false },
                next_wait(state.backoff),
            ),
            DriverPhase::Connect => if state.transport is Desktop && pairing {
                after_failure(
                    state,
                    seq![DriverEffect::ConnectionAttemptFailed],
                    DriverEffect::Wait { seconds: 1, jitter: false, adapter: true },
                    RECONNECT_WAIT,
                )
            } else {
                after_failure(
                    state,
                    seq![DriverEffect::ConnectionAttemptFailed],
                    DriverEffect::Wait {
                        seconds: state.backoff,
                        jitter: false,
                        adapter: state.transport is Desktop,
                    },
                    next_wait(state.backoff),
                )
            },
            DriverPhase::Configure => if state.transport is Native && state.strict {
                if !running {
                    (
                        DriverState { phase: DriverPhase::Stopped, ..state },
                        seq![DriverEffect::RadioOff] + stop_announcement(
                            RNodeRuntimeReason::StopRequested,
                        ),
                    )
                } else {
                    let (after, effects) = after_stage_failure(state);
                    (after, seq![DriverEffect::RadioOff] + effects)
                }
            } else {
                after_stage_failure(state)
            },
            DriverPhase::AcquireNotifications
            | DriverPhase::WriteDetect
            | DriverPhase::RequestCapability
            | DriverPhase::ObserveCapability
            | DriverPhase::Handshake
            | DriverPhase::AwaitReady => after_stage_failure(state),
            _ => unchanged,
        },
        DriverEvent::Stopped => match state.phase {
            DriverPhase::ObserveCapability | DriverPhase::Handshake => after_early_stop(state),
            DriverPhase::AwaitReady => after_late_stop(state),
            _ => unchanged,
        },
        DriverEvent::Rejected => match state.phase {
            DriverPhase::ObserveCapability => (
                DriverState { phase: DriverPhase::Stopped, ..state },
                disconnects(state).push(DriverEffect::StoppedForAdmissionRejection),
            ),
            _ => unchanged,
        },
        DriverEvent::Ended { exit, running } => match state.phase {
            DriverPhase::Active => after_active(state, exit, running),
            _ => unchanged,
        },
        DriverEvent::Waited { stopped } => match state.phase {
            DriverPhase::Waiting { next_backoff } => if stopped {
                (
                    DriverState { phase: DriverPhase::Stopped, ..state },
                    stop_announcement(RNodeRuntimeReason::StopRequested),
                )
            } else {
                moved(
                    DriverState { backoff: next_backoff, ..state },
                    DriverPhase::Begin,
                )
            },
            _ => unchanged,
        },
    }
}

/// A driver.
#[derive(Debug)]
pub struct BleDriver {
    transport: BleTransport,
    strict: bool,
    tries: usize,
    backoff: u64,
    initial_attempt: bool,
    generation: BleGenerationId,
    phase: DriverPhase,
}

impl View for BleDriver {
    type V = DriverState;

    closed spec fn view(&self) -> DriverState {
        DriverState {
            transport: self.transport,
            strict: self.strict,
            tries: self.tries,
            backoff: self.backoff,
            initial_attempt: self.initial_attempt,
            generation: self.generation.number(),
            phase: self.phase,
        }
    }
}

impl BleDriver {
    /// A driver that has done nothing yet.
    pub fn new(transport: BleTransport, strict: bool) -> (driver: Self)
        ensures
            driver@ == (DriverState {
                transport,
                strict,
                tries: 0,
                backoff: RECONNECT_WAIT,
                initial_attempt: true,
                generation: 0,
                phase: DriverPhase::Begin,
            }),
    {
        BleDriver {
            transport,
            strict,
            tries: 0,
            backoff: RECONNECT_WAIT,
            initial_attempt: true,
            generation: BleGenerationId::default(),
            phase: DriverPhase::Begin,
        }
    }

    /// What the driver has to do next.
    pub fn phase(&self) -> (phase: DriverPhase)
        ensures
            phase == self@.phase,
    {
        self.phase
    }

    /// The generation under way.
    pub fn generation(&self) -> (generation: BleGenerationId)
        ensures
            generation.number() == self@.generation,
    {
        self.generation
    }

    fn push_disconnect(&self, effects: &mut Vec<DriverEffect>)
        ensures
            final(effects)@ == old(effects)@ + disconnects(self@),
    {
        match self.transport {
            BleTransport::Desktop => {
                effects.push(DriverEffect::Disconnect);
            },
            BleTransport::Native => {},
        }
        assert(effects@ =~= old(effects)@ + disconnects(self@));
    }

    fn adapter_waits(&self) -> (waits: bool)
        ensures
            waits == (self@.transport is Desktop),
    {
        match self.transport {
            BleTransport::Desktop => true,
            BleTransport::Native => false,
        }
    }

    fn fail(&mut self, effects: &mut Vec<DriverEffect>, wait: DriverEffect, next_backoff: u64)
        ensures
            (final(self)@, final(effects)@) == after_failure(
                old(self)@,
                old(effects)@,
                wait,
                next_backoff,
            ),
    {
        if reconnect_try_exhausted(&mut self.tries) {
            effects.push(DriverEffect::Stopped(RNodeRuntimeReason::DriverTerminated));
            self.phase = DriverPhase::Stopped;
        } else {
            effects.push(wait);
            self.phase = DriverPhase::Waiting { next_backoff };
        }
    }

    fn fail_stage(&mut self, effects: &mut Vec<DriverEffect>)
        ensures
            final(self)@ == after_stage_failure(old(self)@).0,
            final(effects)@ == old(effects)@ + after_stage_failure(old(self)@).1,
    {
        let ghost earlier = effects@;
        let mut announced: Vec<DriverEffect> = Vec::new();
        announced.push(DriverEffect::ConnectionAttemptFailed);
        self.push_disconnect(&mut announced);
        assert(announced@ =~= seq![DriverEffect::ConnectionAttemptFailed] + disconnects(self@));
        let wait = DriverEffect::Wait {
            seconds: self.backoff,
            jitter: false,
            adapter: self.adapter_waits(),
        };
        let next: u64 = next_backoff(self.backoff);
        self.fail(&mut announced, wait, next);
        effects.append(&mut announced);
    }

    fn stop_early(&mut self, effects: &mut Vec<DriverEffect>)
        ensures
            final(self)@ == after_early_stop(old(self)@).0,
            final(effects)@ == old(effects)@ + after_early_stop(old(self)@).1,
    {
        self.push_disconnect(effects);
        effects.push(DriverEffect::ShuttingDown(RNodeRuntimeReason::StopRequested));
        effects.push(DriverEffect::Stopped(RNodeRuntimeReason::StopRequested));
        self.phase = DriverPhase::Stopped;
        assert(effects@ =~= old(effects)@ + after_early_stop(old(self)@).1);
    }

    fn stop_late(&mut self, effects: &mut Vec<DriverEffect>)
        ensures
            final(self)@ == after_late_stop(old(self)@).0,
            final(effects)@ == old(effects)@ + after_late_stop(old(self)@).1,
    {
        effects.push(DriverEffect::ShuttingDown(RNodeRuntimeReason::StopRequested));
        effects.push(DriverEffect::RadioOff);
        self.push_disconnect(effects);
        effects.push(DriverEffect::Stopped(RNodeRuntimeReason::StopRequested));
        self.phase = DriverPhase::Stopped;
        assert(effects@ =~= old(effects)@ + after_late_stop(old(self)@).1);
    }

    fn push_established(&self, effects: &mut Vec<DriverEffect>)
        ensures
            final(effects)@ == old(effects)@ + established(self@),
    {
        if self.strict {
            effects.push(DriverEffect::CapabilityConnectionEstablished);
        } else {
            effects.push(DriverEffect::ConnectionEstablished);
            effects.push(DriverEffect::SyncProtocolState);
        }
        assert(effects@ =~= old(effects)@ + established(self@));
    }

    fn become_ready(&mut self, effects: &mut Vec<DriverEffect>)
        ensures
            final(self)@ == after_ready(old(self)@).0,
            final(effects)@ == old(effects)@ + after_ready(old(self)@).1,
    {
        match self.transport {
            BleTransport::Desktop => {
                self.push_established(effects);
                effects.push(DriverEffect::SetOnline(true));
            },
            BleTransport::Native => {
                effects.push(DriverEffect::SetOnline(true));
                self.push_established(effects);
            },
        }
        self.tries = 0;
        self.backoff = RECONNECT_WAIT;
        self.phase = DriverPhase::Active;
        assert(effects@ =~= old(effects)@ + after_ready(old(self)@).1);
    }

    fn end_active(&mut self, exit: ActiveExit, running: bool, effects: &mut Vec<DriverEffect>)
        requires
            old(effects)@.len() == 0,
        ensures
            (final(self)@, final(effects)@) == after_active(old(self)@, exit, running),
    {
        match exit {
            ActiveExit::StopRequested => {
                effects.push(DriverEffect::ShuttingDown(RNodeRuntimeReason::StopRequested));
                effects.push(DriverEffect::RadioOff);
            },
            _ => {},
        }
        effects.push(DriverEffect::SetOnline(false));
        self.push_disconnect(effects);
        if exit.transport_closed() {
            effects.push(DriverEffect::ShuttingDown(RNodeRuntimeReason::TransportConsumerClosed));
            effects.push(DriverEffect::Stopped(RNodeRuntimeReason::TransportConsumerClosed));
            self.phase = DriverPhase::Stopped;
            assert(effects@ =~= after_active(old(self)@, exit, running).1);
        } else if !running {
            effects.push(DriverEffect::Stopped(RNodeRuntimeReason::StopRequested));
            self.phase = DriverPhase::Stopped;
            assert(effects@ =~= after_active(old(self)@, exit, running).1);
        } else {
            effects.push(DriverEffect::ConnectionLost);
            let wait = DriverEffect::Wait {
                seconds: self.backoff,
                jitter: true,
                adapter: self.adapter_waits(),
            };
            let next: u64 = next_backoff(self.backoff);
            proof {
                let stopping = if exit is StopRequested {
                    seq![
                        DriverEffect::ShuttingDown(RNodeRuntimeReason::StopRequested),
                        DriverEffect::RadioOff,
                    ]
                } else {
                    Seq::empty()
                };
                let down = stopping + seq![DriverEffect::SetOnline(false)] + disconnects(self@);
                assert(effects@ =~= down + seq![DriverEffect::ConnectionLost]);
            }
            self.fail(effects, wait, next);
        }
    }

    fn check(&mut self, running: bool, effects: &mut Vec<DriverEffect>)
        requires
            old(effects)@.len() == 0,
        ensures
            (final(self)@, final(effects)@) == driver_step(
                old(self)@,
                DriverEvent::Checked { running },
            ),
    {
        match self.phase {
            DriverPhase::Begin => {
                if !running {
                    effects.push(DriverEffect::ShuttingDown(RNodeRuntimeReason::StopRequested));
                    effects.push(DriverEffect::Stopped(RNodeRuntimeReason::StopRequested));
                    self.phase = DriverPhase::Stopped;
                } else {
                    if !self.initial_attempt {
                        effects.push(DriverEffect::ReconnectStarted);
                    }
                    self.initial_attempt = false;
                    self.phase = match self.transport {
                        BleTransport::Desktop => DriverPhase::AcquireAdapter,
                        BleTransport::Native => DriverPhase::Connect,
                    };
                }
            },
            DriverPhase::CapabilityGate => {
                if running {
                    self.phase = DriverPhase::RequestCapability;
                } else {
                    self.stop_early(effects);
                }
            },
            DriverPhase::RadioGate => {
                if !running {
                    self.stop_early(effects);
                } else if !self.adapter_waits() && self.strict {
                    self.phase = DriverPhase::BridgeGate;
                } else {
                    self.phase = DriverPhase::Configure;
                }
            },
            DriverPhase::BridgeGate => {
                if running {
                    self.phase = DriverPhase::Configure;
                } else {
                    self.stop_late(effects);
                }
            },
            DriverPhase::InitGate => {
                if running {
                    self.phase = DriverPhase::AwaitReady;
                } else {
                    self.stop_late(effects);
                }
            },
            DriverPhase::ReadyGate => {
                if running {
                    self.become_ready(effects);
                } else {
                    self.stop_late(effects);
                }
            },
            _ => {},
        }
        assert(effects@ =~= driver_step(old(self)@, DriverEvent::Checked { running }).1);
    }

    fn succeed(&mut self, effects: &mut Vec<DriverEffect>)
        requires
            old(effects)@.len() == 0,
        ensures
            (final(self)@, final(effects)@) == driver_step(old(self)@, DriverEvent::Succeeded),
    {
        match self.phase {
            DriverPhase::AcquireAdapter => {
                self.generation.next();
                self.phase = DriverPhase::Connect;
            },
            DriverPhase::Connect => {
                self.phase = match self.transport {
                    BleTransport::Desktop => DriverPhase::AcquireNotifications,
                    BleTransport::Native => if self.strict {
                        DriverPhase::ObserveCapability
                    } else {
                        DriverPhase::Handshake
                    },
                };
            },
            DriverPhase::AcquireNotifications => {
                self.phase = DriverPhase::WriteDetect;
            },
            DriverPhase::WriteDetect => {
                self.phase = if self.strict {
                    DriverPhase::CapabilityGate
                } else {
                    DriverPhase::Handshake
                };
            },
            DriverPhase::RequestCapability => {
                self.phase = DriverPhase::ObserveCapability;
            },
            DriverPhase::ObserveCapability => {
                self.phase = DriverPhase::RadioGate;
            },
            DriverPhase::Handshake => {
                self.phase = DriverPhase::Configure;
            },
            DriverPhase::Configure => {
                self.phase = match self.transport {
                    BleTransport::Native => if self.strict {
                        DriverPhase::InitGate
                    } else {
                        DriverPhase::AwaitReady
                    },
                    BleTransport::Desktop => DriverPhase::AwaitReady,
                };
            },
            DriverPhase::AwaitReady => {
                match self.transport {
                    BleTransport::Native => {
                        self.phase = DriverPhase::ReadyGate;
                    },
                    BleTransport::Desktop => {
                        self.become_ready(effects);
                    },
                }
            },
            _ => {},
        }
        assert(effects@ =~= driver_step(old(self)@, DriverEvent::Succeeded).1);
    }

    fn fail_phase(&mut self, pairing: bool, running: bool, effects: &mut Vec<DriverEffect>)
        requires
            old(effects)@.len() == 0,
        ensures
            (final(self)@, final(effects)@) == driver_step(
                old(self)@,
                DriverEvent::Failed { pairing, running },
            ),
    {
        let next: u64 = next_backoff(self.backoff);
        match self.phase {
            DriverPhase::AcquireAdapter => {
                effects.push(DriverEffect::ConnectionAttemptFailed);
                assert(effects@ =~= seq![DriverEffect::ConnectionAttemptFailed]);
                let wait = DriverEffect::Wait {
                    seconds: self.backoff,
                    jitter: false,
                    adapter: false,
                };
                self.fail(effects, wait, next);
            },
            DriverPhase::Connect => {
                effects.push(DriverEffect::ConnectionAttemptFailed);
                assert(effects@ =~= seq![DriverEffect::ConnectionAttemptFailed]);
                let adapter = self.adapter_waits();
                if adapter && pairing {
                    let wait = DriverEffect::Wait { seconds: 1, jitter: false, adapter: true };
                    self.fail(effects, wait, RECONNECT_WAIT);
                } else {
                    let wait = DriverEffect::Wait { seconds: self.backoff, jitter: false, adapter };
                    self.fail(effects, wait, next);
                }
            },
            DriverPhase::Configure => {
                let native = !self.adapter_waits();
                if native && self.strict {
                    effects.push(DriverEffect::RadioOff);
                    if !running {
                        effects.push(DriverEffect::ShuttingDown(RNodeRuntimeReason::StopRequested));
                        effects.push(DriverEffect::Stopped(RNodeRuntimeReason::StopRequested));
                        self.phase = DriverPhase::Stopped;
                    } else {
                        self.fail_stage(effects);
                    }
                } else {
                    self.fail_stage(effects);
                }
            },
            DriverPhase::AcquireNotifications
            | DriverPhase::WriteDetect
            | DriverPhase::RequestCapability
            | DriverPhase::ObserveCapability
            | DriverPhase::Handshake
            | DriverPhase::AwaitReady => {
                self.fail_stage(effects);
            },
            _ => {},
        }
        assert(effects@ =~= driver_step(old(self)@, DriverEvent::Failed { pairing, running }).1);
    }

    /// Moves the driver on and returns what it has to do on the way, in order.
    pub fn advance(&mut self, event: DriverEvent) -> (effects: Vec<DriverEffect>)
        ensures
            (final(self)@, effects@) == driver_step(old(self)@, event),
    {
        let mut effects: Vec<DriverEffect> = Vec::new();
        match event {
            DriverEvent::Checked { running } => {
                self.check(running, &mut effects);
            },
            DriverEvent::Succeeded => {
                self.succeed(&mut effects);
            },
            DriverEvent::Failed { pairing, running } => {
                self.fail_phase(pairing, running, &mut effects);
            },
            DriverEvent::Stopped => {
                match self.phase {
                    DriverPhase::ObserveCapability | DriverPhase::Handshake => {
                        self.stop_early(&mut effects);
                    },
                    DriverPhase::AwaitReady => {
                        self.stop_late(&mut effects);
                    },
                    _ => {},
                }
                assert(effects@ =~= driver_step(old(self)@, event).1);
            },
            DriverEvent::Rejected => {
                match self.phase {
                    DriverPhase::ObserveCapability => {
                        self.push_disconnect(&mut effects);
                        effects.push(DriverEffect::StoppedForAdmissionRejection);
                        self.phase = DriverPhase::Stopped;
                    },
                    _ => {},
                }
                assert(effects@ =~= driver_step(old(self)@, event).1);
            },
            DriverEvent::Ended { exit, running } => {
                match self.phase {
                    DriverPhase::Active => {
                        self.end_active(exit, running, &mut effects);
                    },
                    _ => {},
                }
                assert(effects@ =~= driver_step(old(self)@, event).1);
            },
            DriverEvent::Waited { stopped } => {
                match self.phase {
                    DriverPhase::Waiting { next_backoff } => {
                        if stopped {
                            effects.push(
                                DriverEffect::ShuttingDown(RNodeRuntimeReason::StopRequested),
                            );
                            effects.push(DriverEffect::Stopped(RNodeRuntimeReason::StopRequested));
                            self.phase = DriverPhase::Stopped;
                        } else {
                            self.backoff = next_backoff;
                            self.phase = DriverPhase::Begin;
                        }
                    },
                    _ => {},
                }
                assert(effects@ =~= driver_step(old(self)@, event).1);
            },
        }
        effects
    }
}

/// The time to let pass behind a detach through a bridge.
pub open spec fn settle_behind(phase: DriverPhase) -> Option<u128> {
    if phase is Active {
        Some(BRIDGE_DETACH_SETTLE)
    } else {
        None::<u128>
    }
}

/// The time to let pass behind a detach through a bridge: only an active generation has
/// packets on the way before it.
pub fn bridge_detach_settle(phase: DriverPhase) -> (settle: Option<u128>)
    ensures
        settle == settle_behind(phase),
{
    match phase {
        DriverPhase::Active => Some(BRIDGE_DETACH_SETTLE),
        _ => None,
    }
}

/// The waits of a driver are within their bounds.
pub open spec fn waits_within_bounds(state: DriverState) -> bool {
    &&& RECONNECT_WAIT <= state.backoff <= RECONNECT_WAIT_MAX
    &&& state.phase is Waiting ==> RECONNECT_WAIT <= state.phase->next_backoff
        <= RECONNECT_WAIT_MAX
}

/// No event takes a driver's waits out of their bounds.
pub proof fn waits_stay_within_bounds(state: DriverState, event: DriverEvent)
    requires
        waits_within_bounds(state),
    ensures
        waits_within_bounds(driver_step(state, event).0),
{
}

/// A driver that has stopped does nothing more.
pub proof fn stopped_is_final(state: DriverState, event: DriverEvent)
    requires
        state.phase is Stopped,
    ensures
        driver_step(state, event) == (state, Seq::<DriverEffect>::empty()),
{
}

/// The effect announces that the driver has stopped.
pub open spec fn announces_stop(effect: DriverEffect) -> bool {
    effect is Stopped || effect is StoppedForAdmissionRejection
}

/// A driver announces that it has stopped exactly when it stops, as the last thing it
/// does, and once.
pub proof fn stop_is_announced_once(state: DriverState, event: DriverEvent)
    requires
        !(state.phase is Stopped),
    ensures
        ({
            let (after, effects) = driver_step(state, event);
            &&& after.phase is Stopped <==> effects.len() > 0 && announces_stop(effects.last())
            &&& forall|i: int|
                0 <= i < effects.len() - 1 ==> !announces_stop(#[trigger] effects[i])
        }),
{
    let (after, effects) = driver_step(state, event);
    assert forall|i: int| 0 <= i < effects.len() - 1 implies !announces_stop(
        #[trigger] effects[i],
    ) by {
    }
}

/// The interface goes online only when a generation is admitted, and offline whenever
/// an admitted generation ends.
pub proof fn online_means_active(state: DriverState, event: DriverEvent)
    ensures
        ({
            let (after, effects) = driver_step(state, event);
            &&& effects.contains(DriverEffect::SetOnline(true)) ==> after.phase is Active
                && !(state.phase is Active)
            &&& after.phase is Active && !(state.phase is Active) ==> effects.contains(
                DriverEffect::SetOnline(true),
            )
            &&& state.phase is Active && !(after.phase is Active) ==> effects.contains(
                DriverEffect::SetOnline(false),
            )
        }),
{
    let (after, effects) = driver_step(state, event);
    if after.phase is Active && !(state.phase is Active) {
        if state.transport is Desktop {
            assert(effects.last() == DriverEffect::SetOnline(true));
        } else {
            assert(effects[0] == DriverEffect::SetOnline(true));
        }
    }
    if state.phase is Active && !(after.phase is Active) {
        let index: int = if event->exit is StopRequested {
            2
        } else {
            0
        };
        assert(effects[index] == DriverEffect::SetOnline(false));
    }
}

/// A desktop generation that fails is abandoned with its radio left on: the radio is
/// switched off only when the driver was told to stop.
pub proof fn failed_generation_keeps_radio_on(state: DriverState, event: DriverEvent)
    requires
        state.transport is Desktop,
        driver_step(state, event).1.contains(DriverEffect::RadioOff),
    ensures
        state.phase is BridgeGate || state.phase is AwaitReady || state.phase is InitGate
            || state.phase is ReadyGate || state.phase is Active,
        driver_step(state, event).1.contains(
            DriverEffect::ShuttingDown(RNodeRuntimeReason::StopRequested),
        ),
{
    let effects = driver_step(state, event).1;
    assert(effects[0] == DriverEffect::ShuttingDown(RNodeRuntimeReason::StopRequested));
}

/// Before the radio is configured a stop request never touches it.
pub proof fn early_stop_leaves_radio_alone(state: DriverState, event: DriverEvent)
    requires
        state.phase is Begin || state.phase is AcquireAdapter || state.phase is Connect
            || state.phase is AcquireNotifications || state.phase is WriteDetect
            || state.phase is CapabilityGate || state.phase is RequestCapability
            || state.phase is ObserveCapability || state.phase is Handshake
            || state.phase is RadioGate,
    ensures
        !driver_step(state, event).1.contains(DriverEffect::RadioOff),
{
}

/// A stop request that is seen right before a strict bridge would be handed the
/// configuration detaches the radio, and nothing is configured.
pub proof fn bridge_stop_detaches_before_configuring(state: DriverState)
    requires
        state.transport is Native,
        state.strict,
        state.phase is RadioGate,
    ensures
        ({
            let (held, nothing) = driver_step(state, DriverEvent::Checked { running: true });
            let (stopped, effects) = driver_step(held, DriverEvent::Checked { running: false });
            &&& held.phase is BridgeGate
            &&& nothing.len() == 0
            &&& stopped.phase is Stopped
            &&& effects == seq![
                DriverEffect::ShuttingDown(RNodeRuntimeReason::StopRequested),
                DriverEffect::RadioOff,
                DriverEffect::Stopped(RNodeRuntimeReason::StopRequested),
            ]
        }),
{
    let held = driver_step(state, DriverEvent::Checked { running: true }).0;
    let effects = driver_step(held, DriverEvent::Checked { running: false }).1;
    assert(effects =~= seq![
        DriverEffect::ShuttingDown(RNodeRuntimeReason::StopRequested),
        DriverEffect::RadioOff,
        DriverEffect::Stopped(RNodeRuntimeReason::StopRequested),
    ]);
}

/// A bond that is being made is retried after a second, and the waits start anew.
pub proof fn pairing_is_retried_quickly(state: DriverState, running: bool)
    requires
        state.transport is Desktop,
        state.phase is Connect,
        !gives_up(state.tries),
    ensures
        ({
            let (after, effects) = driver_step(
                state,
                DriverEvent::Failed { pairing: true, running },
            );
            &&& effects.last() == (DriverEffect::Wait { seconds: 1, jitter: false, adapter: true })
            &&& after.phase == (DriverPhase::Waiting { next_backoff: RECONNECT_WAIT })
        }),
{
}

/// A driver through the platform's stack brings a generation up in this order: adapter,
/// connection, notifications, detect request, the capability where the device has to be
/// admitted by it or else the handshake, radio configuration, readiness.
pub proof fn desktop_generation_comes_up_in_order(state: DriverState)
    requires
        state.transport is Desktop,
        state.phase is Begin,
    ensures
        ({
            let go = DriverEvent::Checked { running: true };
            let done = DriverEvent::Succeeded;
            let adapter = driver_step(state, go).0;
            let connect = driver_step(adapter, done).0;
            let notify = driver_step(connect, done).0;
            let detect = driver_step(notify, done).0;
            let asked = driver_step(detect, done).0;
            &&& adapter.phase is AcquireAdapter
            &&& connect.phase is Connect && connect.generation != state.generation
            &&& state.generation < u64::MAX ==> connect.generation == state.generation + 1
            &&& notify.phase is AcquireNotifications && detect.phase is WriteDetect
            &&& state.strict ==> {
                let request = driver_step(asked, go).0;
                let observe = driver_step(request, done).0;
                let radio = driver_step(observe, done).0;
                let configure = driver_step(radio, go).0;
                let ready = driver_step(configure, done).0;
                &&& asked.phase is CapabilityGate && request.phase is RequestCapability
                &&& observe.phase is ObserveCapability && radio.phase is RadioGate
                &&& configure.phase is Configure && ready.phase is AwaitReady
                &&& driver_step(ready, done).0.phase is Active
            }
            &&& !state.strict ==> {
                let configure = driver_step(asked, done).0;
                let ready = driver_step(configure, done).0;
                &&& asked.phase is Handshake
                &&& configure.phase is Configure && ready.phase is AwaitReady
                &&& driver_step(ready, done).0.phase is Active
            }
        }),
{
}

/// A driver through a bridge brings a generation up in this order: connection, the capability
/// where the device has to be admitted by it or else the handshake, radio configuration,
/// readiness. It looks at the stop request before each step that touches the radio where it
/// is strict, and before every admission.
pub proof fn native_generation_comes_up_in_order(state: DriverState)
    requires
        state.transport is Native,
        state.phase is Begin,
    ensures
        ({
            let go = DriverEvent::Checked { running: true };
            let done = DriverEvent::Succeeded;
            let connect = driver_step(state, go).0;
            let asked = driver_step(connect, done).0;
            &&& connect.phase is Connect
            &&& state.strict ==> {
                let radio = driver_step(asked, done).0;
                let bridge = driver_step(radio, go).0;
                let configure = driver_step(bridge, go).0;
                let init = driver_step(configure, done).0;
                let ready = driver_step(init, go).0;
                let gate = driver_step(ready, done).0;
                &&& asked.phase is ObserveCapability && radio.phase is RadioGate
                &&& bridge.phase is BridgeGate && configure.phase is Configure
                &&& init.phase is InitGate && ready.phase is AwaitReady
                &&& gate.phase is ReadyGate && driver_step(gate, go).0.phase is Active
            }
            &&& !state.strict ==> {
                let configure = driver_step(asked, done).0;
                let ready = driver_step(configure, done).0;
                let gate = driver_step(ready, done).0;
                &&& asked.phase is Handshake && configure.phase is Configure
                &&& ready.phase is AwaitReady && gate.phase is ReadyGate
                &&& driver_step(gate, go).0.phase is Active
            }
        }),
{
}

/// The radio of a device that has to be admitted is configured only behind its admission, and
/// no generation is admitted before its device is ready.
pub proof fn admission_comes_before_the_radio(state: DriverState, event: DriverEvent)
    requires
        state.strict,
        !(state.phase is Handshake),
    ensures
        ({
            let after = driver_step(state, event).0;
            &&& !(after.phase is Handshake)
            &&& after.phase is Configure ==> state.phase is Configure || state.phase is RadioGate
                || state.phase is BridgeGate
            &&& after.phase is RadioGate ==> state.phase is RadioGate || state.phase
                is ObserveCapability
            &&& after.phase is Active ==> state.phase is Active || state.phase is AwaitReady
                || state.phase is ReadyGate
            &&& after.strict && after.transport == state.transport
        }),
{
}

/// A stage that fails is told, the link is dropped where the driver owns one, and the driver
/// waits for its backoff, whose next value is twice as long up to thirty seconds. However
/// many tries have failed, it does not give up.
pub proof fn failed_stage_is_tried_again(state: DriverState, pairing: bool)
    requires
        state.phase is AcquireNotifications || state.phase is WriteDetect || state.phase
            is RequestCapability || state.phase is ObserveCapability || state.phase is Handshake
            || state.phase is AwaitReady || (state.phase is Configure && !(state.transport
            is Native && state.strict)),
        state.backoff <= 30,
    ensures
        ({
            let (after, effects) = driver_step(
                state,
                DriverEvent::Failed { pairing, running: true },
            );
            &&& effects == (if state.transport is Desktop {
                seq![
                    DriverEffect::ConnectionAttemptFailed,
                    DriverEffect::Disconnect,
                    DriverEffect::Wait { seconds: state.backoff, jitter: false, adapter: true },
                ]
            } else {
                seq![
                    DriverEffect::ConnectionAttemptFailed,
                    DriverEffect::Wait { seconds: state.backoff, jitter: false, adapter: false },
                ]
            })
            &&& after.phase is Waiting
            &&& after.tries == state.tries && after.backoff == state.backoff
            &&& after.phase->next_backoff == (if state.backoff < 15 {
                2 * state.backoff
            } else {
                30
            })
        }),
{
    let effects = driver_step(state, DriverEvent::Failed { pairing, running: true }).1;
    assert(effects =~= (if state.transport is Desktop {
        seq![
            DriverEffect::ConnectionAttemptFailed,
            DriverEffect::Disconnect,
            DriverEffect::Wait { seconds: state.backoff, jitter: false, adapter: true },
        ]
    } else {
        seq![
            DriverEffect::ConnectionAttemptFailed,
            DriverEffect::Wait { seconds: state.backoff, jitter: false, adapter: false },
        ]
    }));
}

/// A connection that cannot be made is told and tried again after the backoff, or after one
/// second where a bond is being made on a platform that can tell; there is no link to drop.
pub proof fn failed_connection_is_tried_again(state: DriverState, pairing: bool, running: bool)
    requires
        state.phase is AcquireAdapter || state.phase is Connect,
        state.backoff <= 30,
    ensures
        ({
            let bonding = state.phase is Connect && state.transport is Desktop && pairing;
            let (after, effects) = driver_step(state, DriverEvent::Failed { pairing, running });
            &&& effects == seq![
                DriverEffect::ConnectionAttemptFailed,
                DriverEffect::Wait {
                    seconds: if bonding {
                        1
                    } else {
                        state.backoff
                    },
                    jitter: false,
                    adapter: state.phase is Connect && state.transport is Desktop,
                },
            ]
            &&& after.phase is Waiting
            &&& after.tries == state.tries && after.backoff == state.backoff
            &&& after.phase->next_backoff == (if bonding {
                1
            } else if state.backoff < 15 {
                2 * state.backoff
            } else {
                30
            })
        }),
{
    let bonding = state.phase is Connect && state.transport is Desktop && pairing;
    let effects = driver_step(state, DriverEvent::Failed { pairing, running }).1;
    assert(effects =~= seq![
        DriverEffect::ConnectionAttemptFailed,
        DriverEffect::Wait {
            seconds: if bonding {
                1
            } else {
                state.backoff
            },
            jitter: false,
            adapter: state.phase is Connect && state.transport is Desktop,
        },
    ]);
}

/// A configuration that a strict bridge may have passed on in part is undone: the radio is
/// switched off first, and then the failure is told and waited out as any other, or the
/// driver stops where it was told to.
pub proof fn failed_bridge_configuration_is_undone(state: DriverState, pairing: bool)
    requires
        state.phase is Configure,
        state.transport is Native,
        state.strict,
    ensures
        driver_step(state, DriverEvent::Failed { pairing, running: true }).1 == seq![
            DriverEffect::RadioOff,
            DriverEffect::ConnectionAttemptFailed,
            DriverEffect::Wait { seconds: state.backoff, jitter: false, adapter: false },
        ],
        driver_step(state, DriverEvent::Failed { pairing, running: true }).0.phase is Waiting,
        driver_step(state, DriverEvent::Failed { pairing, running: false }).1 == seq![
            DriverEffect::RadioOff,
            DriverEffect::ShuttingDown(RNodeRuntimeReason::StopRequested),
            DriverEffect::Stopped(RNodeRuntimeReason::StopRequested),
        ],
        driver_step(state, DriverEvent::Failed { pairing, running: false }).0.phase is Stopped,
{
    assert(driver_step(state, DriverEvent::Failed { pairing, running: true }).1 =~= seq![
        DriverEffect::RadioOff,
        DriverEffect::ConnectionAttemptFailed,
        DriverEffect::Wait { seconds: state.backoff, jitter: false, adapter: false },
    ]);
    assert(driver_step(state, DriverEvent::Failed { pairing, running: false }).1 =~= seq![
        DriverEffect::RadioOff,
        DriverEffect::ShuttingDown(RNodeRuntimeReason::StopRequested),
        DriverEffect::Stopped(RNodeRuntimeReason::StopRequested),
    ]);
}

/// A driver that has waited begins again with the backoff that was set for it, and says so;
/// one that is told to stop meanwhile stops. Only the very first try is no reconnect.
pub proof fn waited_driver_begins_again(state: DriverState, next_backoff: u64)
    requires
        state.phase == (DriverPhase::Waiting { next_backoff }),
        !state.initial_attempt,
    ensures
        ({
            let (after, nothing) = driver_step(state, DriverEvent::Waited { stopped: false });
            let (trying, told) = driver_step(after, DriverEvent::Checked { running: true });
            &&& after.phase is Begin && after.backoff == next_backoff && nothing.len() == 0
            &&& after.tries == state.tries
            &&& told == seq![DriverEffect::ReconnectStarted]
            &&& !trying.initial_attempt
        }),
        driver_step(state, DriverEvent::Waited { stopped: true }).0.phase is Stopped,
        driver_step(state, DriverEvent::Waited { stopped: true }).1 == seq![
            DriverEffect::ShuttingDown(RNodeRuntimeReason::StopRequested),
            DriverEffect::Stopped(RNodeRuntimeReason::StopRequested),
        ],
{
}

/// The first try of a driver is no reconnect, and every later one is.
pub proof fn first_try_is_no_reconnect(state: DriverState)
    requires
        state.phase is Begin,
    ensures
        ({
            let (after, effects) = driver_step(state, DriverEvent::Checked { running: true });
            &&& state.initial_attempt ==> effects.len() == 0
            &&& !after.initial_attempt
        }),
        driver_step(state, DriverEvent::Checked { running: false }).0.phase is Stopped,
        driver_step(state, DriverEvent::Checked { running: false }).1 == seq![
            DriverEffect::ShuttingDown(RNodeRuntimeReason::StopRequested),
            DriverEffect::Stopped(RNodeRuntimeReason::StopRequested),
        ],
{
}

/// An admitted generation is told once, by the capability where it was admitted by it and
/// otherwise together with its evidence; the waits start anew at one second and the failures
/// are forgotten.
pub proof fn admitted_generation_is_told(state: DriverState)
    requires
        (state.transport is Desktop && state.phase is AwaitReady) || (state.transport is Native
            && state.phase is ReadyGate),
    ensures
        ({
            let (after, effects) = if state.transport is Desktop {
                driver_step(state, DriverEvent::Succeeded)
            } else {
                driver_step(state, DriverEvent::Checked { running: true })
            };
            &&& after.phase is Active && after.backoff == 1 && after.tries == 0
            &&& after.generation == state.generation
            &&& effects == (match (state.transport, state.strict) {
                (BleTransport::Desktop, true) => seq![
                    DriverEffect::CapabilityConnectionEstablished,
                    DriverEffect::SetOnline(true),
                ],
                (BleTransport::Desktop, false) => seq![
                    DriverEffect::ConnectionEstablished,
                    DriverEffect::SyncProtocolState,
                    DriverEffect::SetOnline(true),
                ],
                (BleTransport::Native, true) => seq![
                    DriverEffect::SetOnline(true),
                    DriverEffect::CapabilityConnectionEstablished,
                ],
                (BleTransport::Native, false) => seq![
                    DriverEffect::SetOnline(true),
                    DriverEffect::ConnectionEstablished,
                    DriverEffect::SyncProtocolState,
                ],
            })
        }),
{
    let effects = if state.transport is Desktop {
        driver_step(state, DriverEvent::Succeeded).1
    } else {
        driver_step(state, DriverEvent::Checked { running: true }).1
    };
    assert(effects =~= (match (state.transport, state.strict) {
        (BleTransport::Desktop, true) => seq![
            DriverEffect::CapabilityConnectionEstablished,
            DriverEffect::SetOnline(true),
        ],
        (BleTransport::Desktop, false) => seq![
            DriverEffect::ConnectionEstablished,
            DriverEffect::SyncProtocolState,
            DriverEffect::SetOnline(true),
        ],
        (BleTransport::Native, true) => seq![
            DriverEffect::SetOnline(true),
            DriverEffect::CapabilityConnectionEstablished,
        ],
        (BleTransport::Native, false) => seq![
            DriverEffect::SetOnline(true),
            DriverEffect::ConnectionEstablished,
            DriverEffect::SyncProtocolState,
        ],
    }));
}

/// A link that is lost takes the interface offline and is tried again after the backoff,
/// spread so that drivers do not return together; the radio stays on.
pub proof fn lost_link_is_tried_again(state: DriverState, exit: ActiveExit)
    requires
        state.phase is Active,
        !(exit is StopRequested),
        !(exit is TransportConsumerClosed),
        !(exit is OutboundChannelClosed),
        state.backoff <= 30,
    ensures
        ({
            let (after, effects) = driver_step(state, DriverEvent::Ended { exit, running: true });
            &&& effects == (if state.transport is Desktop {
                seq![
                    DriverEffect::SetOnline(false),
                    DriverEffect::Disconnect,
                    DriverEffect::ConnectionLost,
                    DriverEffect::Wait { seconds: state.backoff, jitter: true, adapter: true },
                ]
            } else {
                seq![
                    DriverEffect::SetOnline(false),
                    DriverEffect::ConnectionLost,
                    DriverEffect::Wait { seconds: state.backoff, jitter: true, adapter: false },
                ]
            })
            &&& after.phase is Waiting
            &&& after.tries == state.tries && after.backoff == state.backoff
            &&& after.phase->next_backoff == (if state.backoff < 15 {
                2 * state.backoff
            } else {
                30
            })
        }),
{
    let effects = driver_step(state, DriverEvent::Ended { exit, running: true }).1;
    assert(effects =~= (if state.transport is Desktop {
        seq![
            DriverEffect::SetOnline(false),
            DriverEffect::Disconnect,
            DriverEffect::ConnectionLost,
            DriverEffect::Wait { seconds: state.backoff, jitter: true, adapter: true },
        ]
    } else {
        seq![
            DriverEffect::SetOnline(false),
            DriverEffect::ConnectionLost,
            DriverEffect::Wait { seconds: state.backoff, jitter: true, adapter: false },
        ]
    }));
}

/// A driver that is told to stop while its generation is active switches the radio off before
/// it goes offline and drops the link, and stops for that reason.
pub proof fn active_stop_switches_the_radio_off(state: DriverState)
    requires
        state.phase is Active,
    ensures
        ({
            let (after, effects) = driver_step(
                state,
                DriverEvent::Ended { exit: ActiveExit::StopRequested, running: false },
            );
            &&& after.phase is Stopped
            &&& effects == (if state.transport is Desktop {
                seq![
                    DriverEffect::ShuttingDown(RNodeRuntimeReason::StopRequested),
                    DriverEffect::RadioOff,
                    DriverEffect::SetOnline(false),
                    DriverEffect::Disconnect,
                    DriverEffect::Stopped(RNodeRuntimeReason::StopRequested),
                ]
            } else {
                seq![
                    DriverEffect::ShuttingDown(RNodeRuntimeReason::StopRequested),
                    DriverEffect::RadioOff,
                    DriverEffect::SetOnline(false),
                    DriverEffect::Stopped(RNodeRuntimeReason::StopRequested),
                ]
            })
        }),
{
    let effects = driver_step(
        state,
        DriverEvent::Ended { exit: ActiveExit::StopRequested, running: false },
    ).1;
    assert(effects =~= (if state.transport is Desktop {
        seq![
            DriverEffect::ShuttingDown(RNodeRuntimeReason::StopRequested),
            DriverEffect::RadioOff,
            DriverEffect::SetOnline(false),
            DriverEffect::Disconnect,
            DriverEffect::Stopped(RNodeRuntimeReason::StopRequested),
        ]
    } else {
        seq![
            DriverEffect::ShuttingDown(RNodeRuntimeReason::StopRequested),
            DriverEffect::RadioOff,
            DriverEffect::SetOnline(false),
            DriverEffect::Stopped(RNodeRuntimeReason::StopRequested),
        ]
    }));
}

/// A driver whose transport is gone stops for that reason, whether it was told to or not, and
/// does not try again.
pub proof fn closed_transport_stops_the_driver(state: DriverState, exit: ActiveExit, running: bool)
    requires
        state.phase is Active,
        exit is TransportConsumerClosed || exit is OutboundChannelClosed,
    ensures
        ({
            let (after, effects) = driver_step(state, DriverEvent::Ended { exit, running });
            &&& after.phase is Stopped
            &&& effects.last() == DriverEffect::Stopped(
                RNodeRuntimeReason::TransportConsumerClosed,
            )
            &&& effects[effects.len() - 2] == DriverEffect::ShuttingDown(
                RNodeRuntimeReason::TransportConsumerClosed,
            )
            &&& effects[0] == DriverEffect::SetOnline(false)
        }),
{
}

/// A device that was refused for good stops its driver, with its radio as it was found.
pub proof fn refused_device_stops_the_driver(state: DriverState)
    requires
        state.phase is ObserveCapability,
    ensures
        driver_step(state, DriverEvent::Rejected).0.phase is Stopped,
        driver_step(state, DriverEvent::Rejected).1 == (if state.transport is Desktop {
            seq![DriverEffect::Disconnect, DriverEffect::StoppedForAdmissionRejection]
        } else {
            seq![DriverEffect::StoppedForAdmissionRejection]
        }),
{
    assert(driver_step(state, DriverEvent::Rejected).1 =~= (if state.transport is Desktop {
        seq![DriverEffect::Disconnect, DriverEffect::StoppedForAdmissionRejection]
    } else {
        seq![DriverEffect::StoppedForAdmissionRejection]
    }));
}

/// A stop before the radio was configured drops the link and leaves the radio alone; one
/// behind it switches the radio off while the link is still there.
pub proof fn stop_undoes_what_was_done(state: DriverState)
    ensures
        state.phase is CapabilityGate || state.phase is RadioGate ==> driver_step(
            state,
            DriverEvent::Checked { running: false },
        ) == ((DriverState { phase: DriverPhase::Stopped, ..state }), (if state.transport
            is Desktop {
            seq![
                DriverEffect::Disconnect,
                DriverEffect::ShuttingDown(RNodeRuntimeReason::StopRequested),
                DriverEffect::Stopped(RNodeRuntimeReason::StopRequested),
            ]
        } else {
            seq![
                DriverEffect::ShuttingDown(RNodeRuntimeReason::StopRequested),
                DriverEffect::Stopped(RNodeRuntimeReason::StopRequested),
            ]
        })),
        state.phase is ObserveCapability || state.phase is Handshake ==> driver_step(
            state,
            DriverEvent::Stopped,
        ) == ((DriverState { phase: DriverPhase::Stopped, ..state }), (if state.transport
            is Desktop {
            seq![
                DriverEffect::Disconnect,
                DriverEffect::ShuttingDown(RNodeRuntimeReason::StopRequested),
                DriverEffect::Stopped(RNodeRuntimeReason::StopRequested),
            ]
        } else {
            seq![
                DriverEffect::ShuttingDown(RNodeRuntimeReason::StopRequested),
                DriverEffect::Stopped(RNodeRuntimeReason::StopRequested),
            ]
        })),
        state.phase is AwaitReady ==> driver_step(state, DriverEvent::Stopped) == (
            (DriverState { phase: DriverPhase::Stopped, ..state }),
            (if state.transport is Desktop {
                seq![
                    DriverEffect::ShuttingDown(RNodeRuntimeReason::StopRequested),
                    DriverEffect::RadioOff,
                    DriverEffect::Disconnect,
                    DriverEffect::Stopped(RNodeRuntimeReason::StopRequested),
                ]
            } else {
                seq![
                    DriverEffect::ShuttingDown(RNodeRuntimeReason::StopRequested),
                    DriverEffect::RadioOff,
                    DriverEffect::Stopped(RNodeRuntimeReason::StopRequested),
                ]
            }),
        ),
        state.transport is Native && (state.phase is InitGate || state.phase is ReadyGate)
            ==> driver_step(state, DriverEvent::Checked { running: false }) == (
            (DriverState { phase: DriverPhase::Stopped, ..state }),
            seq![
                DriverEffect::ShuttingDown(RNodeRuntimeReason::StopRequested),
                DriverEffect::RadioOff,
                DriverEffect::Stopped(RNodeRuntimeReason::StopRequested),
            ],
        ),
{
    let early = if state.transport is Desktop {
        seq![
            DriverEffect::Disconnect,
            DriverEffect::ShuttingDown(RNodeRuntimeReason::StopRequested),
            DriverEffect::Stopped(RNodeRuntimeReason::StopRequested),
        ]
    } else {
        seq![
            DriverEffect::ShuttingDown(RNodeRuntimeReason::StopRequested),
            DriverEffect::Stopped(RNodeRuntimeReason::StopRequested),
        ]
    };
    let late = if state.transport is Desktop {
        seq![
            DriverEffect::ShuttingDown(RNodeRuntimeReason::StopRequested),
            DriverEffect::RadioOff,
            DriverEffect::Disconnect,
            DriverEffect::Stopped(RNodeRuntimeReason::StopRequested),
        ]
    } else {
        seq![
            DriverEffect::ShuttingDown(RNodeRuntimeReason::StopRequested),
            DriverEffect::RadioOff,
            DriverEffect::Stopped(RNodeRuntimeReason::StopRequested),
        ]
    };
    assert(after_early_stop(state).1 =~= early);
    assert(after_late_stop(state).1 =~= late);
}

/// A detach through a bridge is given a tenth of a second to pass where the generation was
/// active, and no time otherwise.
pub proof fn detach_behind_packets_is_given_time(phase: DriverPhase)
    ensures
        phase is Active ==> settle_behind(phase) == Some(100_000_000u128),
        !(phase is Active) ==> settle_behind(phase) is None,
{
}

} // verus!
